use vstd::prelude::*;

use crate::duration::Duration;
use crate::mac_address::MacAddress;
use crate::timeout::{count_digits, digit_count, duration_text, humantime_parsed, parse_text, Timeout, MAX_DURATION_DIGITS};

verus! {

/// The state of the dialog that edits the timeout of one device.
#[derive(Clone, Debug)]
pub struct TimeoutEditing {
    pub mac_address: MacAddress,
    /// The text typed as the new timeout.
    pub text_edit_buffer: String,
    /// Whether the text field had the focus after the previous frame.
    pub buffer_prev_had_focus: bool,
}

/// The countdown that committing `text` over `current` leaves: the span read
/// from the text, or `current` where the text holds more than
/// `MAX_DURATION_DIGITS` digits or reads as none.
pub open spec fn committed(current: Option<Duration>, text: Seq<char>) -> Option<Duration> {
    if digit_count(text) > MAX_DURATION_DIGITS {
        current
    } else {
        match humantime_parsed(text) {
            Some(n) => Some(Duration { nanos: n as u128 }),
            None => current,
        }
    }
}

impl TimeoutEditing {
    pub fn new_of(mac_address: MacAddress) -> (r: TimeoutEditing)
        ensures
            r.mac_address == mac_address,
            r.text_edit_buffer@ == Seq::<char>::empty(),
            !r.buffer_prev_had_focus,
    {
        TimeoutEditing { mac_address, text_edit_buffer: String::new(), buffer_prev_had_focus: false }
    }

    /// Takes in one frame of the dialog. `edit_has_focus` tells whether the
    /// text field has the focus now, `clicked` whether it was clicked.
    ///
    /// When the field loses the focus, its text is read as a span and, where
    /// it reads as one, becomes the countdown of `timeout`; text that reads
    /// as none, or has too many digits to be a timeout, is dropped. While the field
    /// has no focus it shows the countdown, to the second.
    pub fn update_from_frame(&mut self, timeout: &mut Timeout, edit_has_focus: bool, clicked: bool)
        requires
            old(timeout).wf(),
        ensures
            final(self).mac_address == old(self).mac_address,
            final(timeout).mac_address == old(timeout).mac_address,
            final(timeout).remove_on_close == old(timeout).remove_on_close,
            final(timeout).duration == if old(self).buffer_prev_had_focus && !edit_has_focus {
                committed(old(timeout).duration, old(self).text_edit_buffer@)
            } else {
                old(timeout).duration
            },
            final(timeout).wf(),
            final(self).text_edit_buffer@ == if edit_has_focus {
                old(self).text_edit_buffer@
            } else {
                match final(timeout).duration {
                    Some(d) => duration_text(d),
                    None => Seq::<char>::empty(),
                }
            },
            final(self).buffer_prev_had_focus == (clicked || (edit_has_focus && old(self).buffer_prev_had_focus)),
    {
        if self.buffer_prev_had_focus && !edit_has_focus {
            let text = self.text_edit_buffer.as_str();
            if count_digits(text) <= MAX_DURATION_DIGITS {
                if let Some(duration) = parse_text(text) {
                    timeout.duration = Some(duration);
                }
            }
        }
        if !edit_has_focus {
            self.text_edit_buffer = match timeout.duration_str() {
                Some(text) => text,
                None => String::new(),
            };
            self.buffer_prev_had_focus = false;
        }
        if clicked {
            self.buffer_prev_had_focus = true;
        }
    }
}

} // verus!
