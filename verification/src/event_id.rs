//! Event identifiers: 128-bit values with the usual hyphenated hex text.
//!
//! An identifier is modelled as the big-endian value of its 16 bytes; its
//! wire text is 32 lowercase hex digits in groups of 8-4-4-4-12.

use vstd::prelude::*;
use vstd::string::*;
use crate::json_text::hex_digit_char;
use crate::strutil::push_char;

verus! {

/// A 128-bit event identifier. A fresh one is drawn at random at track time
/// and never regenerated; globally unique with overwhelming probability.
#[derive(Clone, Copy, PartialEq, Eq, Structural, Debug)]
pub struct EventId {
    pub value: u128,
}

/// Fixed-width lowercase hex text, most significant digit first.
pub open spec fn spec_hex_fixed(n: nat, width: nat) -> Seq<char>
    decreases width,
{
    if width == 0 {
        Seq::<char>::empty()
    } else {
        spec_hex_fixed(n / 16, (width - 1) as nat).push(hex_digit_char((n % 16) as int))
    }
}

/// The hyphenated text of an identifier: the 32 hex digits of its value in
/// groups of 8, 4, 4, 4 and 12, most significant first.
pub open spec fn spec_event_id_text(n: u128) -> Seq<char> {
    spec_hex_fixed(n as nat / 0x1000000000000000000000000, 8) + seq!['-'] + spec_hex_fixed(
        (n as nat / 0x100000000000000000000) % 0x10000,
        4,
    ) + seq!['-'] + spec_hex_fixed((n as nat / 0x10000000000000000) % 0x10000, 4) + seq!['-']
        + spec_hex_fixed((n as nat / 0x1000000000000) % 0x10000, 4) + seq!['-'] + spec_hex_fixed(
        n as nat % 0x1000000000000,
        12,
    )
}

fn hex_fixed(n: u128, width: usize) -> (s: String)
    ensures
        s@ == spec_hex_fixed(n as nat, width as nat),
    decreases width,
{
    if width == 0 {
        String::new()
    } else {
        let mut s = hex_fixed(n / 16, width - 1);
        push_char(&mut s, crate::json_text::hex_digit((n % 16) as u32));
        s
    }
}

/// Relies on `uuid::Uuid::new_v4` (a fresh random version-4 identifier) and
/// `uuid::Uuid::as_u128` (its 16 bytes as one big-endian 128-bit value).
/// The result is random: nothing is promised of it.
#[verifier::external_body]
fn random_u128() -> u128 {
    uuid::Uuid::new_v4().as_u128()
}

impl EventId {
    /// Draws a fresh random identifier.
    pub fn new_random() -> EventId {
        EventId { value: random_u128() }
    }

    pub fn from_value(value: u128) -> (r: EventId)
        ensures
            r.value == value,
    {
        EventId { value }
    }

    /// The hyphenated wire text of this identifier.
    pub fn hyphenated(&self) -> (r: String)
        ensures
            r@ == spec_event_id_text(self.value),
    {
        let g1 = self.value / 0x1000000000000000000000000u128;
        let g2 = (self.value / 0x100000000000000000000u128) % 0x10000;
        let g3 = (self.value / 0x10000000000000000u128) % 0x10000;
        let g4 = (self.value / 0x1000000000000u128) % 0x10000;
        let g5 = self.value % 0x1000000000000u128;
        let mut s = hex_fixed(g1, 8);
        push_char(&mut s, '-');
        let p2 = hex_fixed(g2, 4);
        s.append(p2.as_str());
        push_char(&mut s, '-');
        let p3 = hex_fixed(g3, 4);
        s.append(p3.as_str());
        push_char(&mut s, '-');
        let p4 = hex_fixed(g4, 4);
        s.append(p4.as_str());
        push_char(&mut s, '-');
        let p5 = hex_fixed(g5, 12);
        s.append(p5.as_str());
        proof {
            assert(s@ =~= spec_event_id_text(self.value));
        }
        s
    }
}

} // verus!
