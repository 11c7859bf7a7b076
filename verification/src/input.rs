//! What the scheduler reads of a terminal event.

use vstd::prelude::*;

verus! {

/// The modifier keys held while a key was struck, one bit each.
#[derive(Clone, Copy, Debug, PartialEq, Eq, Structural)]
pub struct KeyModifiers {
    pub bits: u8,
}

/// Bit of the shift key.
pub const SHIFT: u8 = 0x01;

/// Bit of the control key.
pub const CONTROL: u8 = 0x02;

/// Bit of the alt key.
pub const ALT: u8 = 0x04;

/// Bit of the super key.
pub const SUPER: u8 = 0x08;

/// Bit of the hyper key.
pub const HYPER: u8 = 0x10;

/// Bit of the meta key.
pub const META: u8 = 0x20;

impl KeyModifiers {
    /// Whether every modifier of `other` is among those of `self`.
    pub open spec fn has_all(self, other: KeyModifiers) -> bool {
        self.bits & other.bits == other.bits
    }

    /// No modifier.
    pub fn none() -> (m: Self)
        ensures
            m.bits == 0,
    {
        KeyModifiers { bits: 0 }
    }

    /// The control key alone.
    pub fn control() -> (m: Self)
        ensures
            m.bits == CONTROL,
    {
        KeyModifiers { bits: CONTROL }
    }

    /// The modifiers whose bits are set in `bits`.
    pub fn from_bits(bits: u8) -> (m: Self)
        ensures
            m.bits == bits,
    {
        KeyModifiers { bits }
    }

    /// Whether every modifier of `other` is among those of `self`.
    pub fn contains(&self, other: KeyModifiers) -> (held: bool)
        ensures
            held == self.has_all(other),
    {
        self.bits & other.bits == other.bits
    }

    /// The modifiers of `self` together with those of `other`.
    pub fn union(&self, other: KeyModifiers) -> (m: Self)
        ensures
            m.bits == self.bits | other.bits,
            m.has_all(*self),
            m.has_all(other),
    {
        let a: u8 = self.bits;
        let b: u8 = other.bits;
        assert((a | b) & a == a) by (bit_vector);
        assert((a | b) & b == b) by (bit_vector);
        KeyModifiers { bits: a | b }
    }
}

/// The transition that a key event reports.
#[derive(Clone, Copy, Debug, PartialEq, Eq, Structural)]
pub enum KeyKind {
    Press,
    Repeat,
    Release,
}

/// The key itself, as far as the scheduler tells keys apart.
#[derive(Clone, Copy, Debug, PartialEq, Eq, Structural)]
pub enum KeyCode {
    /// A key that produces a character.
    Char(char),
    /// Any other key.
    Other,
}

/// A key event.
#[derive(Clone, Copy, Debug, PartialEq, Eq, Structural)]
pub struct KeyEvent {
    pub code: KeyCode,
    pub modifiers: KeyModifiers,
    pub kind: KeyKind,
}

impl KeyEvent {
    /// The interrupt chord: the press of `c` while control is held, whatever
    /// else is held with it. A repeat or a release of that key is not one.
    pub open spec fn is_interrupt(self) -> bool {
        &&& self.kind == KeyKind::Press
        &&& self.code == KeyCode::Char('c')
        &&& self.modifiers.has_all(KeyModifiers { bits: CONTROL })
    }

    /// The press of `code` with the modifiers `modifiers`.
    pub fn press(code: KeyCode, modifiers: KeyModifiers) -> (key: Self)
        ensures
            key == (KeyEvent { code, modifiers, kind: KeyKind::Press }),
    {
        KeyEvent { code, modifiers, kind: KeyKind::Press }
    }

    /// Whether this event is the interrupt chord.
    pub fn interrupts(&self) -> (quit: bool)
        ensures
            quit == self.is_interrupt(),
    {
        match self.kind {
            KeyKind::Press => match self.code {
                KeyCode::Char(c) => c == 'c' && self.modifiers.contains(KeyModifiers::control()),
                KeyCode::Other => false,
            },
            _ => false,
        }
    }
}

/// The chord does not care what else is held: an interrupt stays one when
/// more modifiers are added, and no key is one without the control bit.
pub proof fn interrupt_ignores_other_modifiers(key: KeyEvent, extra: u8)
    ensures
        key.is_interrupt() ==> (KeyEvent {
            modifiers: KeyModifiers { bits: key.modifiers.bits | extra },
            ..key
        }).is_interrupt(),
        key.modifiers.bits & CONTROL == 0 ==> !key.is_interrupt(),
{
    let held: u8 = key.modifiers.bits;
    assert(held & 2 == 2 ==> (held | extra) & 2 == 2) by (bit_vector);
}

} // verus!
