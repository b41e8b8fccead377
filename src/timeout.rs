use vstd::prelude::*;
use vstd::string::StrSliceExecFns;

use crate::duration::{Duration, NANOS_PER_SEC};
use crate::mac_address::MacAddress;

verus! {

/// The auto-disconnect setting of one connected device.
///
/// `duration` is the time left before the device's pairing is removed;
/// `None` disables the countdown. `remove_on_close` asks for the pairing to
/// be removed when the application exits.
#[derive(Clone, Copy, Debug, PartialEq, Eq, Structural)]
pub struct Timeout {
    pub mac_address: MacAddress,
    pub duration: Option<Duration>,
    pub remove_on_close: bool,
}

/// The text that `humantime` gives for a span of whole seconds.
pub uninterp spec fn humantime_text(secs: u64) -> Seq<char>;

/// The span, in nanoseconds, that `humantime` reads from a text, or `None`
/// where it reads none.
pub uninterp spec fn humantime_parsed(text: Seq<char>) -> Option<nat>;

/// Relies on `humantime::format_duration` and its `Display`: the text depends
/// on the number of seconds alone, and `humantime::parse_duration` reads it
/// back as the same span (the documentation guarantees that the format keeps
/// its value when parsed).
#[verifier::external_body]
fn format_secs(secs: u64) -> (r: String)
    ensures
        r@ == humantime_text(secs),
        humantime_parsed(r@) == Some(secs as nat * NANOS_PER_SEC as nat),
{
    humantime::format_duration(std::time::Duration::from_secs(secs)).to_string()
}

/// The most decimal digits that a text read as a span may hold.
///
/// `humantime` panics only where the whole seconds come to `u64::MAX` with
/// exactly one second of nanoseconds to carry. Each part of a text starts
/// with a digit, and a part whose count has `k` digits, with or without a
/// fraction, adds less than `10^k` years of `31_557_600` seconds. So eleven
/// digits in all give less than `10^11` years' worth, far below `u64::MAX`
/// seconds.
pub const MAX_DURATION_DIGITS: usize = 11;

/// The number of ASCII digits in `text`.
pub open spec fn digit_count(text: Seq<char>) -> nat
    decreases text.len(),
{
    if text.len() == 0 {
        0
    } else {
        digit_count(text.drop_last()) + if '0' <= text.last() <= '9' {
            1nat
        } else {
            0nat
        }
    }
}

/// Counts the ASCII digits of `text`.
pub fn count_digits(text: &str) -> (r: usize)
    ensures
        r == digit_count(text@),
{
    let len = text.unicode_len();
    let mut count: usize = 0;
    let mut i: usize = 0;
    while i < len
        invariant
            0 <= count <= i <= len,
            len == text@.len(),
            count == digit_count(text@.take(i as int)),
        decreases len - i,
    {
        let c = text.get_char(i);
        if '0' <= c && c <= '9' {
            count += 1;
        }
        assert(text@.take(i + 1).drop_last() == text@.take(i as int));
        i += 1;
    }
    assert(text@.take(len as int) == text@);
    count
}

/// Relies on `humantime::parse_duration`: the outcome depends on the text
/// alone, and a span it returns is a `std::time::Duration`, whose whole
/// seconds fit a `u64` and whose fraction is under a second. Texts of at most
/// `MAX_DURATION_DIGITS` digits never reach its one panic.
#[verifier::external_body]
pub(crate) fn parse_text(text: &str) -> (r: Option<Duration>)
    requires
        digit_count(text@) <= MAX_DURATION_DIGITS,
    ensures
        r is Some <==> humantime_parsed(text@) is Some,
        r matches Some(d) ==> humantime_parsed(text@) == Some(d@) && d.wf(),
{
    humantime::parse_duration(text).ok().map(|d| Duration { nanos: d.as_nanos() })
}

/// The text shown for a countdown: whole seconds, as `humantime` writes them.
pub open spec fn duration_text(d: Duration) -> Seq<char> {
    humantime_text((d@ / NANOS_PER_SEC as nat) as u64)
}

/// The entry a newly connected device starts with.
pub open spec fn default_timeout(mac_address: MacAddress) -> Timeout {
    Timeout { mac_address, duration: None, remove_on_close: true }
}

/// Whether one pass that advances `t` by `elapsed` nanoseconds asks for its
/// device to be removed: the countdown is active and reaches zero.
pub open spec fn expires(t: Timeout, elapsed: nat) -> bool {
    t.duration matches Some(d) && d@ <= elapsed
}

/// `t` after `elapsed` nanoseconds: an active countdown goes down, and stops
/// at zero.
pub open spec fn advanced(t: Timeout, elapsed: nat) -> Timeout {
    match t.duration {
        None => t,
        Some(d) => Timeout {
            mac_address: t.mac_address,
            duration: Some(
                if d@ <= elapsed {
                    Duration { nanos: 0 }
                } else {
                    Duration { nanos: (d@ - elapsed) as u128 }
                },
            ),
            remove_on_close: t.remove_on_close,
        },
    }
}

impl Timeout {
    /// The countdown, if any, fits a `std::time::Duration`.
    pub open spec fn wf(self) -> bool {
        self.duration matches Some(d) ==> d.wf()
    }

    pub fn default_from(mac_address: MacAddress) -> (r: Timeout)
        ensures
            r == default_timeout(mac_address),
            r.wf(),
    {
        Timeout { mac_address, duration: None, remove_on_close: true }
    }

    /// The countdown as text, to the second; `None` where it is disabled.
    /// The text reads back as the countdown without its fraction of a second.
    pub fn duration_str(&self) -> (r: Option<String>)
        requires
            self.wf(),
        ensures
            r is Some <==> self.duration is Some,
            r matches Some(text) ==> text@ == duration_text(self.duration.unwrap())
                && humantime_parsed(text@) == Some(
                (self.duration.unwrap()@ / NANOS_PER_SEC as nat) * NANOS_PER_SEC as nat,
            ),
    {
        match self.duration {
            Some(d) => Some(format_secs(d.as_secs())),
            None => None,
        }
    }

    /// The countdown as text, or `None` where it is disabled.
    pub fn duration_str_or_none(&self) -> (r: String)
        requires
            self.wf(),
        ensures
            r@ == match self.duration {
                Some(d) => duration_text(d),
                None => seq!['N', 'o', 'n', 'e'],
            },
    {
        match self.duration_str() {
            Some(text) => text,
            None => {
                let none = String::from_str("None");
                proof {
                    reveal_strlit("None");
                }
                none
            },
        }
    }

    /// Replaces the countdown; `None` disables it.
    pub fn set_duration(&mut self, duration: Option<Duration>)
        ensures
            *final(self) == (Timeout { duration, ..*old(self) }),
    {
        self.duration = duration;
    }

    /// Advances the countdown by `elapsed` and tells whether it expired in
    /// this step, in which case it stays at zero.
    pub fn advance(&mut self, elapsed: &Duration) -> (expired: bool)
        ensures
            *final(self) == advanced(*old(self), elapsed@),
            expired == expires(*old(self), elapsed@),
            old(self).wf() ==> final(self).wf(),
    {
        match self.duration {
            None => false,
            Some(d) => match d.checked_sub(elapsed) {
                Some(left) if left.as_nanos() > 0 => {
                    self.duration = Some(left);
                    false
                },
                _ => {
                    self.duration = Some(Duration::zero());
                    true
                },
            },
        }
    }
}

} // verus!
