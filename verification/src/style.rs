//! Colors, text modifiers, alignment and border descriptions.

use vstd::prelude::*;

verus! {

/// A terminal color.
#[derive(Clone, Copy, Debug, PartialEq, Eq, Structural)]
pub enum Color {
    Reset,
    Black,
    Red,
    Green,
    Yellow,
    Blue,
    Magenta,
    Cyan,
    Gray,
    DarkGray,
    LightRed,
    LightGreen,
    LightYellow,
    LightBlue,
    LightMagenta,
    LightCyan,
    White,
    Rgb(u8, u8, u8),
    Indexed(u8),
}

impl View for Color {
    type V = Color;

    open spec fn view(&self) -> Color {
        *self
    }
}

/// Horizontal alignment of a text.
#[derive(Clone, Copy, Debug, PartialEq, Eq, Structural)]
pub enum Alignment {
    Left,
    Center,
    Right,
}

/// Which edges of a widget carry a border.
#[derive(Clone, Copy, Debug, PartialEq, Eq, Structural)]
pub enum Borders {
    NoEdge,
    Top,
    Right,
    Bottom,
    Left,
    All,
}

/// The line variant a border is drawn with.
#[derive(Clone, Copy, Debug, PartialEq, Eq, Structural)]
pub enum BorderType {
    Plain,
    Rounded,
    Double,
    Thick,
}

/// The border of a widget: edges, line variant and color.
#[derive(Clone, Copy, Debug, PartialEq, Eq, Structural)]
pub struct BordersProps {
    pub borders: Borders,
    pub variant: BorderType,
    pub color: Color,
}

impl Default for BordersProps {
    fn default() -> (r: Self)
        ensures
            r == (BordersProps { borders: Borders::All, variant: BorderType::Plain, color: Color::Reset }),
    {
        BordersProps { borders: Borders::All, variant: BorderType::Plain, color: Color::Reset }
    }
}

/// One text-style attribute.
#[derive(Clone, Copy, Debug, PartialEq, Eq, Structural)]
pub enum Modifier {
    Bold,
    Italic,
    Underlined,
    SlowBlink,
    RapidBlink,
    Reversed,
    CrossedOut,
}

/// The position of the bit that stands for a modifier.
pub open spec fn modifier_bit(m: Modifier) -> u16 {
    match m {
        Modifier::Bold => 0,
        Modifier::Italic => 2,
        Modifier::Underlined => 3,
        Modifier::SlowBlink => 4,
        Modifier::RapidBlink => 5,
        Modifier::Reversed => 6,
        Modifier::CrossedOut => 8,
    }
}

/// The bits that stand for a modifier.
pub const ALL_MODIFIER_BITS: u16 = 0x17d;

/// The mask with exactly the bit of `m` set.
pub open spec fn modifier_mask(m: Modifier) -> u16 {
    1u16 << modifier_bit(m)
}

/// A set of text-style attributes, kept as a bit-set.
///
/// The model of a value is the mathematical set of the modifiers it holds;
/// nothing depends on the order in which they were added.
#[derive(Clone, Copy, Debug, PartialEq, Eq, Structural)]
pub struct Modifiers {
    bits: u16,
}

/// The mask of each modifier, as a number.
proof fn lemma_mask_values()
    ensures
        modifier_mask(Modifier::Bold) == 0x001,
        modifier_mask(Modifier::Italic) == 0x004,
        modifier_mask(Modifier::Underlined) == 0x008,
        modifier_mask(Modifier::SlowBlink) == 0x010,
        modifier_mask(Modifier::RapidBlink) == 0x020,
        modifier_mask(Modifier::Reversed) == 0x040,
        modifier_mask(Modifier::CrossedOut) == 0x100,
{
    assert(1u16 << 0u16 == 0x001 && 1u16 << 2u16 == 0x004 && 1u16 << 3u16 == 0x008 && 1u16 << 4u16
        == 0x010 && 1u16 << 5u16 == 0x020 && 1u16 << 6u16 == 0x040 && 1u16 << 8u16 == 0x100)
        by (bit_vector);
}

/// The masks of two modifiers share a bit exactly if the modifiers are the same.
proof fn lemma_masks_meet(m: Modifier, n: Modifier)
    ensures
        (modifier_mask(m) & modifier_mask(n) != 0) <==> m == n,
{
    let i = modifier_bit(m);
    let j = modifier_bit(n);
    assert(i < 16 && j < 16 ==> (((1u16 << i) & (1u16 << j) != 0) <==> i == j)) by (bit_vector);
}

impl View for Modifiers {
    type V = Set<Modifier>;

    closed spec fn view(&self) -> Set<Modifier> {
        Set::new(|m: Modifier| self.bits & modifier_mask(m) != 0)
    }
}

impl Modifiers {
    /// A modifier is in the set exactly if its bit is set.
    proof fn lemma_member(self, m: Modifier, k: u16)
        requires
            modifier_mask(m) == k,
        ensures
            self@.contains(m) == (self.bits & k != 0),
    {
    }

    /// A set is empty exactly if none of the seven bits is set.
    proof fn lemma_empty_bits(self)
        ensures
            (self@ == Set::<Modifier>::empty()) <==> self.bits & ALL_MODIFIER_BITS == 0,
    {
        let x = self.bits;
        lemma_mask_values();
        self.lemma_member(Modifier::Bold, 0x001);
        self.lemma_member(Modifier::Italic, 0x004);
        self.lemma_member(Modifier::Underlined, 0x008);
        self.lemma_member(Modifier::SlowBlink, 0x010);
        self.lemma_member(Modifier::RapidBlink, 0x020);
        self.lemma_member(Modifier::Reversed, 0x040);
        self.lemma_member(Modifier::CrossedOut, 0x100);
        assert((x & 0x17d == 0) <==> (x & 0x001 == 0 && x & 0x004 == 0 && x & 0x008 == 0 && x
            & 0x010 == 0 && x & 0x020 == 0 && x & 0x040 == 0 && x & 0x100 == 0)) by (bit_vector);
        if x & 0x17d == 0 {
            assert forall|m: Modifier| !self@.contains(m) by {
                match m {
                    Modifier::Bold => {},
                    Modifier::Italic => {},
                    Modifier::Underlined => {},
                    Modifier::SlowBlink => {},
                    Modifier::RapidBlink => {},
                    Modifier::Reversed => {},
                    Modifier::CrossedOut => {},
                }
            }
            assert(self@ =~= Set::<Modifier>::empty());
        }
    }

    /// The empty set.
    pub fn empty() -> (r: Modifiers)
        ensures
            r@ == Set::<Modifier>::empty(),
    {
        let r = Modifiers { bits: 0 };
        proof {
            r.lemma_empty_bits();
            assert(0u16 & 0x17d == 0u16) by (bit_vector);
        }
        r
    }

    /// The set that holds `m` alone.
    pub fn only(m: Modifier) -> (r: Modifiers)
        ensures
            r@ == Set::<Modifier>::empty().insert(m),
    {
        let mut r = Modifiers::empty();
        r.insert(m);
        r
    }

    /// The mask with exactly the bit of `m` set.
    fn mask_of(m: Modifier) -> (k: u16)
        ensures
            k == modifier_mask(m),
    {
        proof {
            lemma_mask_values();
        }
        match m {
            Modifier::Bold => 0x001,
            Modifier::Italic => 0x004,
            Modifier::Underlined => 0x008,
            Modifier::SlowBlink => 0x010,
            Modifier::RapidBlink => 0x020,
            Modifier::Reversed => 0x040,
            Modifier::CrossedOut => 0x100,
        }
    }

    /// Whether the set is empty.
    pub fn is_empty(&self) -> (r: bool)
        ensures
            r == (self@ == Set::<Modifier>::empty()),
    {
        proof {
            self.lemma_empty_bits();
        }
        self.bits & ALL_MODIFIER_BITS == 0
    }

    /// Whether `m` is in the set.
    pub fn contains(&self, m: Modifier) -> (r: bool)
        ensures
            r == self@.contains(m),
    {
        self.bits & Self::mask_of(m) != 0
    }

    /// Adds `m` to the set.
    pub fn insert(&mut self, m: Modifier)
        ensures
            final(self)@ == old(self)@.insert(m),
    {
        let k = Self::mask_of(m);
        let ghost before = self.bits;
        self.bits = self.bits | k;
        proof {
            assert forall|n: Modifier| self@.contains(n) == old(self)@.insert(m).contains(n) by {
                let j = modifier_mask(n);
                lemma_masks_meet(m, n);
                assert(((before | k) & j != 0) <==> ((before & j != 0) || (k & j != 0)))
                    by (bit_vector);
            }
            assert(self@ =~= old(self)@.insert(m));
        }
    }

    /// Takes `m` out of the set.
    pub fn remove(&mut self, m: Modifier)
        ensures
            final(self)@ == old(self)@.remove(m),
    {
        let k = Self::mask_of(m);
        let ghost before = self.bits;
        self.bits = self.bits & !k;
        proof {
            assert forall|n: Modifier| self@.contains(n) == old(self)@.remove(m).contains(n) by {
                let j = modifier_mask(n);
                lemma_masks_meet(m, n);
                lemma_masks_meet(n, n);
                let i = modifier_bit(n);
                assert(j == 1u16 << i);
                assert(i < 16 && j == 1u16 << i ==> (((before & !k) & j != 0) <==> ((before & j != 0)
                    && (k & j == 0)))) by (bit_vector);
            }
            assert(self@ =~= old(self)@.remove(m));
        }
    }

    /// The modifiers that are in either set.
    pub fn union(self, other: Modifiers) -> (r: Modifiers)
        ensures
            r@ == self@.union(other@),
    {
        let r = Modifiers { bits: self.bits | other.bits };
        proof {
            let a = self.bits;
            let b = other.bits;
            assert forall|n: Modifier| r@.contains(n) == self@.union(other@).contains(n) by {
                let j = modifier_mask(n);
                assert(((a | b) & j != 0) <==> ((a & j != 0) || (b & j != 0))) by (bit_vector);
            }
            assert(r@ =~= self@.union(other@));
        }
        r
    }

    /// The modifiers that are in both sets.
    pub fn intersection(self, other: Modifiers) -> (r: Modifiers)
        ensures
            r@ == self@.intersect(other@),
    {
        let r = Modifiers { bits: self.bits & other.bits };
        proof {
            let a = self.bits;
            let b = other.bits;
            assert forall|n: Modifier| r@.contains(n) == self@.intersect(other@).contains(n) by {
                let j = modifier_mask(n);
                let i = modifier_bit(n);
                assert(i < 16 && j == 1u16 << i ==> (((a & b) & j != 0) <==> ((a & j != 0) && (b & j
                    != 0)))) by (bit_vector);
            }
            assert(r@ =~= self@.intersect(other@));
        }
        r
    }

    /// Whether the two sets have a modifier in common.
    pub fn intersects(&self, other: Modifiers) -> (r: bool)
        ensures
            r == exists|m: Modifier| self@.contains(m) && other@.contains(m),
    {
        let both = self.intersection(other);
        let r = !both.is_empty();
        proof {
            if r {
                assert(both@ !~= Set::<Modifier>::empty());
                let m = choose|m: Modifier| both@.contains(m);
                assert(self@.contains(m) && other@.contains(m));
            } else {
                assert forall|m: Modifier| !(self@.contains(m) && other@.contains(m)) by {
                    assert(!both@.contains(m));
                }
            }
        }
        r
    }
}

} // verus!
