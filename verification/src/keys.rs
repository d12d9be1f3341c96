//! Key presses as the wizard reads them.

use vstd::prelude::*;

verus! {

/// The keys the wizard tells apart; every other key is `Other`.
#[derive(Clone, Copy, Debug, PartialEq, Eq, Structural)]
pub enum Key {
    Enter,
    Tab,
    Esc,
    Backspace,
    Char(char),
    Other,
}

/// The modifier flags of a key press, as the terminal reports them.
#[derive(Clone, Copy, Debug, PartialEq, Eq, Structural)]
pub struct Modifiers {
    pub bits: u8,
}

/// The bit that crossterm's `KeyModifiers::CONTROL` stands for.
pub open spec fn control_bit_set(bits: u8) -> bool {
    bits & 2u8 == 2u8
}

/// `crossterm::event::KeyModifiers::contains` with `KeyModifiers::CONTROL`, on
/// flags built by `KeyModifiers::from_bits_retain`. The crate's source defines
/// `CONTROL` as `0b0000_0010` and `contains` as `self & other == other`; this
/// contract states that.
#[verifier::external_body]
fn modifiers_contain_control(bits: u8) -> (res: bool)
    ensures
        res == control_bit_set(bits),
{
    crossterm::event::KeyModifiers::from_bits_retain(bits).contains(
        crossterm::event::KeyModifiers::CONTROL,
    )
}

impl Modifiers {
    /// Control is held.
    pub open spec fn control(self) -> bool {
        control_bit_set(self.bits)
    }

    /// Whether Control is held during the key press.
    pub fn has_control(&self) -> (res: bool)
        ensures
            res == self.control(),
    {
        modifiers_contain_control(self.bits)
    }
}

/// Control is read from its own bit alone: the other modifiers (Shift, Alt,
/// and so on) neither set it nor hide it.
pub proof fn lemma_control_bit(bits: u8)
    ensures
        control_bit_set(bits) <==> (bits / 2) % 2 == 1,
        control_bit_set(bits) <==> control_bit_set(bits | 2u8) && (bits & 2u8) != 0u8,
        !control_bit_set(bits & 0xfdu8),
        control_bit_set(bits | 2u8),
{
    assert((bits & 2u8 == 2u8) <==> (bits / 2) % 2 == 1) by (bit_vector);
    assert((bits & 2u8 == 2u8) <==> ((bits | 2u8) & 2u8 == 2u8 && (bits & 2u8) != 0u8)) by (bit_vector);
    assert((bits & 0xfdu8) & 2u8 != 2u8) by (bit_vector);
    assert((bits | 2u8) & 2u8 == 2u8) by (bit_vector);
}

} // verus!
