//! Bit-packed sets of named flags.

use vstd::prelude::*;

verus! {

/// A flag that occupies one bit of a 32-bit mask.
pub trait Flag: Copy {
    /// The bit this flag occupies, counted from the least significant one.
    spec fn position(self) -> nat;

    /// The bit position as a machine integer.
    fn index(self) -> (i: u32)
        ensures
            i as nat == self.position(),
            i < 32,
    ;

    /// Two flags that share a bit are the same flag.
    proof fn lemma_position_identifies(a: Self, b: Self)
        ensures
            a.position() == b.position() ==> a == b,
            a.position() < 32,
    ;
}

/// Whether bit `pos` of `bits` is set.
pub open spec fn bit_set(bits: u32, pos: nat) -> bool {
    pos < 32 && bits & (1u32 << (pos as u32)) != 0
}

/// A set of flags of one kind, held as a bitmask.
#[derive(Debug, PartialEq, Eq)]
pub struct FlagSet<F> {
    bits: u32,
    marker: core::marker::PhantomData<F>,
}

impl<F: Flag> Clone for FlagSet<F> {
    fn clone(&self) -> (s: Self)
        ensures
            s == *self,
    {
        FlagSet { bits: self.bits, marker: core::marker::PhantomData }
    }
}

impl<F: Flag> Copy for FlagSet<F> {

}

impl<F: Flag> View for FlagSet<F> {
    type V = Set<F>;

    open spec fn view(&self) -> Set<F> {
        Set::new(|f: F| bit_set(self.spec_bits(), f.position()))
    }
}

impl<F: Flag> FlagSet<F> {
    /// The underlying mask.
    pub closed spec fn spec_bits(self) -> u32 {
        self.bits
    }

    /// The set with no flag in it.
    pub fn new() -> (s: Self)
        ensures
            s@ == Set::<F>::empty(),
            s.spec_bits() == 0,
    {
        let s = FlagSet { bits: 0, marker: core::marker::PhantomData };
        proof {
            assert forall|f: F| !bit_set(0u32, f.position()) by {
                let p = f.position() as u32;
                assert(0u32 & (1u32 << p) == 0) by (bit_vector);
            }
            assert(s@ =~= Set::<F>::empty());
        }
        s
    }

    /// The set whose members are the flags whose bits are set in `bits`.
    pub fn from_bits(bits: u32) -> (s: Self)
        ensures
            s.spec_bits() == bits,
    {
        FlagSet { bits, marker: core::marker::PhantomData }
    }

    /// The mask, one bit per member.
    pub fn bits(&self) -> (b: u32)
        ensures
            b == self.spec_bits(),
    {
        self.bits
    }

    /// Membership test.
    pub fn contains(&self, flag: F) -> (r: bool)
        ensures
            r == self@.contains(flag),
    {
        let i: u32 = flag.index();
        self.bits & (1u32 << i) != 0
    }

    /// Adds `flag`; every other flag keeps its membership.
    pub fn insert(&mut self, flag: F)
        ensures
            final(self)@ == old(self)@.insert(flag),
    {
        let i: u32 = flag.index();
        let ghost before = self.bits;
        self.bits = self.bits | (1u32 << i);
        proof {
            let after = self.bits;
            assert forall|g: F|
                bit_set(after, g.position()) == (g == flag || bit_set(before, g.position())) by {
                F::lemma_position_identifies(g, flag);
                let j = g.position() as u32;
                assert(j < 32 && i < 32 ==> (((before | (1u32 << i)) & (1u32 << j) != 0) == (j == i
                    || before & (1u32 << j) != 0))) by (bit_vector);
            }
            assert(self@ =~= old(self)@.insert(flag));
        }
    }

    /// Takes `flag` out; every other flag keeps its membership.
    pub fn remove(&mut self, flag: F)
        ensures
            final(self)@ == old(self)@.remove(flag),
    {
        let i: u32 = flag.index();
        let ghost before = self.bits;
        self.bits = self.bits & !(1u32 << i);
        proof {
            let after = self.bits;
            assert forall|g: F|
                bit_set(after, g.position()) == (g != flag && bit_set(before, g.position())) by {
                F::lemma_position_identifies(g, flag);
                let j = g.position() as u32;
                assert(j < 32 && i < 32 ==> (((before & !(1u32 << i)) & (1u32 << j) != 0) == (j != i
                    && before & (1u32 << j) != 0))) by (bit_vector);
            }
            assert(self@ =~= old(self)@.remove(flag));
        }
    }
}

/// Appearance and behaviour options of a button style.
#[derive(Clone, Copy, Debug, PartialEq, Eq, Structural)]
pub enum ButtonStyleFlags {
    Clipboard,
    Invertable,
    Reset,
    Chisel,
    Recessed,
    Dropshadow,
    AutoStamp,
    Icon,
    Plain,
    Bevel,
    Mouse,
    UnderlineHotkey,
    HotIcons,
    VerticalCenter,
    RadioGroup,
    Sunken,
}

impl Flag for ButtonStyleFlags {
    open spec fn position(self) -> nat {
        match self {
            ButtonStyleFlags::Clipboard => 0,
            ButtonStyleFlags::Invertable => 1,
            ButtonStyleFlags::Reset => 2,
            ButtonStyleFlags::Chisel => 3,
            ButtonStyleFlags::Recessed => 4,
            ButtonStyleFlags::Dropshadow => 5,
            ButtonStyleFlags::AutoStamp => 6,
            ButtonStyleFlags::Icon => 7,
            ButtonStyleFlags::Plain => 8,
            ButtonStyleFlags::Bevel => 9,
            ButtonStyleFlags::Mouse => 10,
            ButtonStyleFlags::UnderlineHotkey => 11,
            ButtonStyleFlags::HotIcons => 12,
            ButtonStyleFlags::VerticalCenter => 13,
            ButtonStyleFlags::RadioGroup => 14,
            ButtonStyleFlags::Sunken => 15,
        }
    }

    fn index(self) -> (i: u32) {
        match self {
            ButtonStyleFlags::Clipboard => 0,
            ButtonStyleFlags::Invertable => 1,
            ButtonStyleFlags::Reset => 2,
            ButtonStyleFlags::Chisel => 3,
            ButtonStyleFlags::Recessed => 4,
            ButtonStyleFlags::Dropshadow => 5,
            ButtonStyleFlags::AutoStamp => 6,
            ButtonStyleFlags::Icon => 7,
            ButtonStyleFlags::Plain => 8,
            ButtonStyleFlags::Bevel => 9,
            ButtonStyleFlags::Mouse => 10,
            ButtonStyleFlags::UnderlineHotkey => 11,
            ButtonStyleFlags::HotIcons => 12,
            ButtonStyleFlags::VerticalCenter => 13,
            ButtonStyleFlags::RadioGroup => 14,
            ButtonStyleFlags::Sunken => 15,
        }
    }

    proof fn lemma_position_identifies(a: Self, b: Self) {
    }
}

/// Further options of a button style.
#[derive(Clone, Copy, Debug, PartialEq, Eq, Structural)]
pub enum ButtonStyleFlags2 {
    CheckboxGroup,
    HighlightHotkey,
    Explode,
    LeftJustify,
    RightJustify,
}

impl Flag for ButtonStyleFlags2 {
    open spec fn position(self) -> nat {
        match self {
            ButtonStyleFlags2::CheckboxGroup => 0,
            ButtonStyleFlags2::HighlightHotkey => 1,
            ButtonStyleFlags2::Explode => 2,
            ButtonStyleFlags2::LeftJustify => 3,
            ButtonStyleFlags2::RightJustify => 4,
        }
    }

    fn index(self) -> (i: u32) {
        match self {
            ButtonStyleFlags2::CheckboxGroup => 0,
            ButtonStyleFlags2::HighlightHotkey => 1,
            ButtonStyleFlags2::Explode => 2,
            ButtonStyleFlags2::LeftJustify => 3,
            ButtonStyleFlags2::RightJustify => 4,
        }
    }

    proof fn lemma_position_identifies(a: Self, b: Self) {
    }
}

/// Options of a single button.
#[derive(Clone, Copy, Debug, PartialEq, Eq, Structural)]
pub enum ButtonFlags {
    AlreadySelected,
    DefaultEnter,
}

impl Flag for ButtonFlags {
    open spec fn position(self) -> nat {
        match self {
            ButtonFlags::AlreadySelected => 0,
            ButtonFlags::DefaultEnter => 1,
        }
    }

    fn index(self) -> (i: u32) {
        match self {
            ButtonFlags::AlreadySelected => 0,
            ButtonFlags::DefaultEnter => 1,
        }
    }

    proof fn lemma_position_identifies(a: Self, b: Self) {
    }
}

/// Options of a variable definition.
#[derive(Clone, Copy, Debug, PartialEq, Eq, Structural)]
pub enum DefineFlags {
    Database,
    NonBlank,
    NonInteractive,
}

impl Flag for DefineFlags {
    open spec fn position(self) -> nat {
        match self {
            DefineFlags::Database => 0,
            DefineFlags::NonBlank => 1,
            DefineFlags::NonInteractive => 2,
        }
    }

    fn index(self) -> (i: u32) {
        match self {
            DefineFlags::Database => 0,
            DefineFlags::NonBlank => 1,
            DefineFlags::NonInteractive => 2,
        }
    }

    proof fn lemma_position_identifies(a: Self, b: Self) {
    }
}

} // verus!
