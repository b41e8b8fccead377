use vstd::prelude::*;

use crate::mac_address::MacAddress;

verus! {

/// A calendar date and time of day, as the OS reports them.
#[derive(Clone, Copy, Debug, PartialEq, Eq, Structural, Hash)]
pub struct DateTime {
    pub year: u16,
    pub month: u16,
    pub day: u16,
    pub hour: u16,
    pub minute: u16,
    pub second: u16,
    pub millisecond: u16,
}

/// A date and time as the OS records them for a device. One value, the
/// first day of 1601 at midnight, stands for "never".
#[derive(Clone, Copy, Debug, PartialEq, Eq, Structural, Hash)]
pub struct SystemTime {
    pub year: u16,
    pub month: u16,
    pub day_of_week: u16,
    pub day: u16,
    pub hour: u16,
    pub minute: u16,
    pub second: u16,
    pub milliseconds: u16,
}

/// The value that stands for "never".
pub open spec fn never() -> SystemTime {
    SystemTime {
        year: 1601,
        month: 1,
        day_of_week: 1,
        day: 1,
        hour: 0,
        minute: 0,
        second: 0,
        milliseconds: 0,
    }
}

pub open spec fn is_leap_year(year: int) -> bool {
    (year % 4 == 0 && year % 100 != 0) || year % 400 == 0
}

/// The number of days of `month` (1 to 12) in `year`.
pub open spec fn days_in_month(year: int, month: int) -> int {
    if month == 2 {
        if is_leap_year(year) {
            29
        } else {
            28
        }
    } else if month == 4 || month == 6 || month == 9 || month == 11 {
        30
    } else {
        31
    }
}

/// Whether `t` names a day of the calendar and a time of that day. A leap
/// second shows as milliseconds past 999 in the last second of a minute.
pub open spec fn is_valid_date_time(t: SystemTime) -> bool {
    &&& 1 <= t.month <= 12
    &&& 1 <= t.day <= days_in_month(t.year as int, t.month as int)
    &&& t.hour < 24
    &&& t.minute < 60
    &&& t.second < 60
    &&& (t.milliseconds < 1000 || (t.second == 59 && t.milliseconds < 2000))
}

fn is_never(t: SystemTime) -> (r: bool)
    ensures
        r == (t == never()),
{
    t.year == 1601 && t.month == 1 && t.day_of_week == 1 && t.day == 1 && t.hour == 0 && t.minute == 0
        && t.second == 0 && t.milliseconds == 0
}

/// The date and time of `t`, or `None` where it stands for "never".
pub open spec fn into_opt_date_time_spec(t: SystemTime) -> Option<DateTime> {
    if t == never() {
        None
    } else {
        Some(
            DateTime {
                year: t.year,
                month: t.month,
                day: t.day,
                hour: t.hour,
                minute: t.minute,
                second: t.second,
                millisecond: t.milliseconds,
            },
        )
    }
}

/// The date and time of `t`, or `None` where it stands for "never". The OS
/// records only valid dates; any other value is refused.
pub fn into_opt_date_time(t: SystemTime) -> (r: Option<DateTime>)
    requires
        t == never() || is_valid_date_time(t),
    ensures
        r == into_opt_date_time_spec(t),
{
    if is_never(t) {
        None
    } else {
        Some(
            DateTime {
                year: t.year,
                month: t.month,
                day: t.day,
                hour: t.hour,
                minute: t.minute,
                second: t.second,
                millisecond: t.milliseconds,
            },
        )
    }
}

/// The text that `String::from_utf16_lossy` makes of UTF-16 code units.
pub uninterp spec fn utf16_lossy_text(units: Seq<u16>) -> Seq<char>;

/// Relies on `String::from_utf16_lossy`: the text depends on the units alone,
/// and each unit, or pair of units, gives one character, so that only no
/// units give an empty text.
#[verifier::external_body]
fn utf16_lossy(units: &Vec<u16>) -> (r: String)
    ensures
        r@ == utf16_lossy_text(units@),
        r@.len() == 0 <==> units@.len() == 0,
{
    String::from_utf16_lossy(units.as_slice())
}

/// `units` without its trailing zero units.
pub open spec fn strip_nuls(units: Seq<u16>) -> Seq<u16>
    decreases units.len(),
{
    if units.len() > 0 && units.last() == 0 {
        strip_nuls(units.drop_last())
    } else {
        units
    }
}

/// The name held in a zero-padded UTF-16 buffer: `None` where it is empty.
pub open spec fn name_of(units: Seq<u16>) -> Option<Seq<char>> {
    if strip_nuls(units).len() == 0 {
        None
    } else {
        Some(utf16_lossy_text(strip_nuls(units)))
    }
}

proof fn lemma_strip_nuls(units: Seq<u16>, n: int)
    requires
        0 <= n <= units.len(),
        forall|k: int| n <= k < units.len() ==> units[k] == 0,
    ensures
        strip_nuls(units) == strip_nuls(units.take(n)),
    decreases units.len(),
{
    if n < units.len() {
        lemma_strip_nuls(units.drop_last(), n);
        assert(units.drop_last().take(n) == units.take(n));
    } else {
        assert(units.take(n) == units);
    }
}

/// Reads a device name from a zero-padded UTF-16 buffer; trailing zero units
/// are padding, and an empty name is no name.
pub fn device_name(units: &Vec<u16>) -> (r: Option<String>)
    ensures
        r is Some <==> name_of(units@) is Some,
        r matches Some(name) ==> Some(name@) == name_of(units@),
{
    let mut n: usize = units.len();
    while n > 0 && units[n - 1] == 0
        invariant
            0 <= n <= units.len(),
            forall|k: int| n <= k < units.len() ==> units@[k] == 0,
        decreases n,
    {
        n -= 1;
    }
    proof {
        lemma_strip_nuls(units@, n as int);
        assert(strip_nuls(units@.take(n as int)) == units@.take(n as int));
    }
    if n == 0 {
        return None;
    }
    let mut prefix: Vec<u16> = Vec::new();
    let mut i: usize = 0;
    while i < n
        invariant
            0 <= i <= n <= units.len(),
            prefix@ == units@.take(i as int),
        decreases n - i,
    {
        prefix.push(units[i]);
        assert(units@.take(i + 1) == units@.take(i as int).push(units@[i as int]));
        i += 1;
    }
    Some(utf16_lossy(&prefix))
}

/// One device's record as the OS hands it over: its name is a zero-padded
/// UTF-16 buffer.
#[derive(Clone, Debug)]
pub struct DeviceInfo {
    pub address: MacAddress,
    pub name: Vec<u16>,
    pub class: u32,
    pub connected: bool,
    pub remembered: bool,
    pub authenticated: bool,
    pub last_seen: SystemTime,
    pub last_used: SystemTime,
}

/// One device of a scan: a snapshot that the next scan replaces.
#[derive(Clone, Debug)]
pub struct BluetoothDevice {
    pub mac_address: MacAddress,
    pub name: Option<String>,
    pub class: u32,
    pub connected: bool,
    pub remembered: bool,
    pub authenticated: bool,
    pub last_seen: Option<DateTime>,
    pub last_used: Option<DateTime>,
}

impl BluetoothDevice {
    /// The device that an OS record describes. Its times are each either
    /// "never" or a valid date and time.
    pub fn from_device_info(info: &DeviceInfo) -> (r: BluetoothDevice)
        requires
            info.last_seen == never() || is_valid_date_time(info.last_seen),
            info.last_used == never() || is_valid_date_time(info.last_used),
        ensures
            r.mac_address == info.address,
            r.name is Some <==> name_of(info.name@) is Some,
            r.name matches Some(name) ==> Some(name@) == name_of(info.name@),
            r.class == info.class,
            r.connected == info.connected,
            r.remembered == info.remembered,
            r.authenticated == info.authenticated,
            r.last_seen == into_opt_date_time_spec(info.last_seen),
            r.last_used == into_opt_date_time_spec(info.last_used),
    {
        BluetoothDevice {
            mac_address: info.address,
            name: device_name(&info.name),
            class: info.class,
            connected: info.connected,
            remembered: info.remembered,
            authenticated: info.authenticated,
            last_seen: into_opt_date_time(info.last_seen),
            last_used: into_opt_date_time(info.last_used),
        }
    }
}

} // verus!
