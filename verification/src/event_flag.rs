//! The event record model: an immutable observation of one flag's value at
//! one instant, together with its exact textual rendering.

use vstd::prelude::*;
use vstd::string::StringExecFns;
use crate::text::{
    append_aligned_decimal_u32, append_decimal_i32, spec_aligned_decimal, spec_signed_decimal,
};

verus! {

/// A wall-clock instant with local-time semantics, held as the plain calendar
/// and clock fields that the rendering reads, at millisecond resolution.
#[derive(Clone, Copy, Debug, PartialEq, Eq, Structural)]
pub struct Timestamp {
    pub year: u16,
    pub month: u8,
    pub day: u8,
    pub hour: u8,
    pub minute: u8,
    pub second: u8,
    pub millisecond: u16,
}

impl Timestamp {
    /// Builds a timestamp from its fields; no validation, construction never fails.
    pub fn new(year: u16, month: u8, day: u8, hour: u8, minute: u8, second: u8, millisecond: u16)
        -> (t: Timestamp)
        ensures
            t == (Timestamp { year, month, day, hour, minute, second, millisecond }),
    {
        Timestamp { year, month, day, hour, minute, second, millisecond }
    }
}

/// The observed value of one flag: either a binary state or a counter-like
/// quantity. Exactly these two cases; consumers may match exhaustively.
#[derive(Clone, Copy, Debug, PartialEq, Eq, Structural)]
pub enum EventFlagValue {
    State(bool),
    Quantity(i32),
}

/// An immutable record of one observed change: which flag, when, and the
/// value it was seen to carry.
#[derive(Clone, Copy, Debug, PartialEq, Eq, Structural)]
pub struct EventFlag {
    pub time: Timestamp,
    pub flag: u32,
    pub value: EventFlagValue,
}

/// How an `EventFlagValue` renders: the lowercase boolean literal for a
/// state, the plain decimal representation for a quantity.
pub open spec fn spec_value_display(value: EventFlagValue) -> Seq<char> {
    match value {
        EventFlagValue::State(state) => if state {
            "true"@
        } else {
            "false"@
        },
        EventFlagValue::Quantity(quantity) => spec_signed_decimal(quantity as int),
    }
}

/// How a `Timestamp` renders: `YYYY-MM-DD HH:MM:SS.mmm`, every field
/// zero-padded to its width.
pub open spec fn spec_timestamp_display(t: Timestamp) -> Seq<char> {
    spec_aligned_decimal(t.year as nat, 4, '0') + "-"@ + spec_aligned_decimal(t.month as nat, 2, '0')
        + "-"@ + spec_aligned_decimal(t.day as nat, 2, '0') + " "@ + spec_aligned_decimal(
        t.hour as nat,
        2,
        '0',
    ) + ":"@ + spec_aligned_decimal(t.minute as nat, 2, '0') + ":"@ + spec_aligned_decimal(
        t.second as nat,
        2,
        '0',
    ) + "."@ + spec_aligned_decimal(t.millisecond as nat, 3, '0')
}

/// How an `EventFlag` renders: `<time> - <flag> - <value>`, with the flag
/// right-aligned to at least ten characters by spaces.
pub open spec fn spec_record_display(record: EventFlag) -> Seq<char> {
    spec_timestamp_display(record.time) + " - "@ + spec_aligned_decimal(record.flag as nat, 10, ' ')
        + " - "@ + spec_value_display(record.value)
}

impl EventFlagValue {
    /// Renders this value exactly as the display contract states.
    pub fn to_display_string(&self) -> (out: String)
        ensures
            out@ == spec_value_display(*self),
    {
        match self {
            EventFlagValue::State(state) => if *state {
                "true".to_owned()
            } else {
                "false".to_owned()
            },
            EventFlagValue::Quantity(quantity) => {
                let mut out = String::new();
                append_decimal_i32(&mut out, *quantity);
                proof {
                    assert(out@ =~= spec_value_display(*self));
                }
                out
            },
        }
    }
}

/// Appends the rendering of `t` to `out`.
fn append_timestamp(out: &mut String, t: Timestamp)
    ensures
        final(out)@ == old(out)@ + spec_timestamp_display(t),
{
    append_aligned_decimal_u32(out, t.year as u32, 4, '0');
    out.append("-");
    append_aligned_decimal_u32(out, t.month as u32, 2, '0');
    out.append("-");
    append_aligned_decimal_u32(out, t.day as u32, 2, '0');
    out.append(" ");
    append_aligned_decimal_u32(out, t.hour as u32, 2, '0');
    out.append(":");
    append_aligned_decimal_u32(out, t.minute as u32, 2, '0');
    out.append(":");
    append_aligned_decimal_u32(out, t.second as u32, 2, '0');
    out.append(".");
    append_aligned_decimal_u32(out, t.millisecond as u32, 3, '0');
    proof {
        assert(out@ =~= old(out)@ + spec_timestamp_display(t));
    }
}

impl EventFlag {
    /// A record that observed the flag holding a binary state.
    pub fn from_state(time: Timestamp, flag: u32, state: bool) -> (record: EventFlag)
        ensures
            record == (EventFlag { time, flag, value: EventFlagValue::State(state) }),
    {
        EventFlag { time, flag, value: EventFlagValue::State(state) }
    }

    /// A record that observed the flag holding a numeric quantity.
    pub fn from_quantity(time: Timestamp, flag: u32, quantity: i32) -> (record: EventFlag)
        ensures
            record == (EventFlag { time, flag, value: EventFlagValue::Quantity(quantity) }),
    {
        EventFlag { time, flag, value: EventFlagValue::Quantity(quantity) }
    }

    /// Renders this record exactly as the display contract states.
    pub fn to_display_string(&self) -> (out: String)
        ensures
            out@ == spec_record_display(*self),
    {
        let mut out = String::new();
        append_timestamp(&mut out, self.time);
        out.append(" - ");
        append_aligned_decimal_u32(&mut out, self.flag, 10, ' ');
        out.append(" - ");
        let value_text = self.value.to_display_string();
        out.append(value_text.as_str());
        proof {
            assert(out@ =~= spec_record_display(*self));
        }
        out
    }
}

} // verus!
