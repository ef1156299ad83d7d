//! Colors and text attributes of a terminal cell.
//!
//! A cell attribute is a 16-bit word. Its low four bits select a color, the
//! bits `0x0100`, `0x0200` and `0x0400` switch on bold, underline and reverse.
//! The two ranges are disjoint, so a color and a set of attributes can share
//! one word without disturbing each other.

use vstd::prelude::*;

verus! {

/// The colors that a terminal cell can take.
#[derive(Clone, Copy, PartialEq, Eq, Structural, Debug)]
pub enum Color {
    Default,
    Black,
    Red,
    Green,
    Yellow,
    Blue,
    Magenta,
    Cyan,
    White,
}

impl Color {
    /// The number by which the terminal surface knows this color.
    pub open spec fn spec_code(self) -> u16 {
        match self {
            Color::Default => 0x00,
            Color::Black => 0x01,
            Color::Red => 0x02,
            Color::Green => 0x03,
            Color::Yellow => 0x04,
            Color::Blue => 0x05,
            Color::Magenta => 0x06,
            Color::Cyan => 0x07,
            Color::White => 0x08,
        }
    }

    /// The number by which the terminal surface knows this color.
    #[verifier::when_used_as_spec(spec_code)]
    pub fn code(self) -> (code: u16)
        ensures
            code == self.spec_code(),
    {
        match self {
            Color::Default => 0x00,
            Color::Black => 0x01,
            Color::Red => 0x02,
            Color::Green => 0x03,
            Color::Yellow => 0x04,
            Color::Blue => 0x05,
            Color::Magenta => 0x06,
            Color::Cyan => 0x07,
            Color::White => 0x08,
        }
    }
}

/// The bits of an attribute word that select the color.
pub const TB_NORMAL_COLOR: u16 = 0x000F;

/// The bit for bold text.
pub const RB_BOLD: u16 = 0x0100;

/// The bit for underlined text.
pub const RB_UNDERLINE: u16 = 0x0200;

/// The bit for text with foreground and background exchanged.
pub const RB_REVERSE: u16 = 0x0400;

/// No attribute at all.
pub const RB_NORMAL: u16 = 0x0000;

/// The bits of an attribute word that hold bold, underline and reverse.
pub const TB_ATTRIB: u16 = 0x0700;

/// Every bit that has a meaning in an attribute word.
pub const TB_ALL: u16 = 0x070F;

/// The attribute word of a cell's foreground: the code of the color, and of
/// the style the bits that are attributes.
pub open spec fn foreground_word(style: Style, color: Color) -> u16 {
    color.code() | (style.bits() & TB_ATTRIB)
}

/// The attribute word of a cell's background: the code of the color.
pub open spec fn background_word(color: Color) -> u16 {
    color.code()
}

/// A cell attribute word: a set of the attributes bold, underline and
/// reverse, together with the bits of a color.
#[derive(Clone, Copy, PartialEq, Eq, Structural, PartialOrd, Ord, Hash, Debug)]
pub struct Style {
    bits: u16,
}

impl Style {
    /// The attribute word that this style stands for.
    pub closed spec fn spec_bits(&self) -> u16 {
        self.bits
    }

    /// The style that stands for an attribute word.
    pub closed spec fn of_bits(bits: u16) -> Style {
        Style { bits }
    }

    /// A style and its attribute word determine each other.
    pub proof fn lemma_bits_of_bits(bits: u16, style: Style)
        ensures
            Style::of_bits(bits).bits() == bits,
            Style::of_bits(style.bits()) == style,
    {
    }

    /// The attribute word that this style stands for.
    #[verifier::when_used_as_spec(spec_bits)]
    pub fn bits(&self) -> (bits: u16)
        ensures
            bits == self.spec_bits(),
    {
        self.bits
    }

    /// The style with no bit set.
    pub fn empty() -> (style: Style)
        ensures
            style == Style::of_bits(0),
            style.bits() == 0,
    {
        Style { bits: 0 }
    }

    /// The style with every meaningful bit set.
    pub fn all() -> (style: Style)
        ensures
            style == Style::of_bits(TB_ALL),
            style.bits() == TB_ALL,
    {
        Style { bits: TB_ALL }
    }

    /// The style of an attribute word, unless the word holds a bit without
    /// a meaning.
    pub fn from_bits(bits: u16) -> (style: Option<Style>)
        ensures
            style == (if bits & !TB_ALL == 0 {
                Some(Style::of_bits(bits))
            } else {
                None
            }),
            style matches Some(known) ==> known.bits() == bits,
    {
        if bits & !TB_ALL == 0 {
            Some(Style { bits })
        } else {
            None
        }
    }

    /// The style of an attribute word, with the bits that have no meaning
    /// dropped.
    pub fn from_bits_truncate(bits: u16) -> (style: Style)
        ensures
            style == Style::of_bits(bits & TB_ALL),
            style.bits() == bits & TB_ALL,
    {
        Style { bits: bits & TB_ALL }
    }

    /// The style that holds the bits of a color and nothing else.
    pub open spec fn spec_from_color(color: Color) -> Style {
        Style::of_bits(color.code() & TB_NORMAL_COLOR)
    }

    /// The style that holds the bits of a color and nothing else.
    #[verifier::when_used_as_spec(spec_from_color)]
    pub fn from_color(color: Color) -> (style: Style)
        ensures
            style == Style::spec_from_color(color),
            style.bits() == color.code(),
    {
        proof {
            lemma_color_fits_mask(color);
        }
        Style { bits: color.code() & TB_NORMAL_COLOR }
    }
}

impl Style {
    /// The style that holds the bits of either operand.
    pub open spec fn union(self, other: Style) -> Style {
        Style::of_bits(self.bits() | other.bits())
    }

    /// The style that holds the bits common to both operands.
    pub open spec fn intersection(self, other: Style) -> Style {
        Style::of_bits(self.bits() & other.bits())
    }

    /// The style that holds the bits of `self` that `other` lacks.
    pub open spec fn difference(self, other: Style) -> Style {
        Style::of_bits(self.bits() & !other.bits())
    }

    /// The style that holds the bits of exactly one operand.
    pub open spec fn symmetric_difference(self, other: Style) -> Style {
        Style::of_bits(self.bits() ^ other.bits())
    }

    /// The style that holds the meaningful bits that `self` lacks.
    pub open spec fn complement(self) -> Style {
        Style::of_bits(!self.bits() & TB_ALL)
    }

    /// Whether no bit is set.
    pub fn is_empty(&self) -> (empty: bool)
        ensures
            empty == (self.bits() == 0),
    {
        self.bits == 0
    }

    /// Whether every meaningful bit is set, and no other.
    pub fn is_all(&self) -> (all: bool)
        ensures
            all == (self.bits() == TB_ALL),
    {
        self.bits == TB_ALL
    }

    /// Whether the two styles share a bit.
    pub fn intersects(&self, other: Style) -> (shared: bool)
        ensures
            shared == (self.bits() & other.bits() != 0),
    {
        self.bits & other.bits != 0
    }

    /// Whether every bit of `other` is set in `self`.
    pub fn contains(&self, other: Style) -> (held: bool)
        ensures
            held == (self.bits() & other.bits() == other.bits()),
    {
        self.bits & other.bits == other.bits
    }

    /// Sets the bits of `other`.
    pub fn insert(&mut self, other: Style)
        ensures
            *final(self) == old(self).union(other),
            final(self).bits() == old(self).bits() | other.bits(),
    {
        self.bits = self.bits | other.bits;
    }

    /// Clears the bits of `other`.
    pub fn remove(&mut self, other: Style)
        ensures
            *final(self) == old(self).difference(other),
            final(self).bits() == old(self).bits() & !other.bits(),
    {
        self.bits = self.bits & !other.bits;
    }

    /// Flips the bits of `other`.
    pub fn toggle(&mut self, other: Style)
        ensures
            *final(self) == old(self).symmetric_difference(other),
            final(self).bits() == old(self).bits() ^ other.bits(),
    {
        self.bits = self.bits ^ other.bits;
    }

    /// The attribute word of a cell's foreground: the bits of the color,
    /// and of the style those that are attributes.
    pub open spec fn spec_foreground(self, color: Color) -> Style {
        Style::from_color(color).union(self.intersection(Style::of_bits(TB_ATTRIB)))
    }

    /// The attribute word of a cell's foreground: the bits of the color,
    /// and of the style those that are attributes.
    #[verifier::when_used_as_spec(spec_foreground)]
    pub fn foreground(self, color: Color) -> (style: Style)
        ensures
            style == self.spec_foreground(color),
            style.bits() == foreground_word(self, color),
    {
        proof {
            lemma_foreground_ranges_disjoint(self, color);
        }
        Style::from_color(color) | (self & Style { bits: TB_ATTRIB })
    }
}

impl core::ops::BitOr for Style {
    type Output = Style;

    /// The union of two styles.
    fn bitor(self, other: Style) -> (style: Style)
        ensures
            style == self.union(other),
            style.bits() == self.bits() | other.bits(),
    {
        Style { bits: self.bits | other.bits }
    }
}

impl vstd::std_specs::ops::BitOrSpecImpl for Style {
    open spec fn obeys_bitor_spec() -> bool {
        true
    }

    open spec fn bitor_req(self, other: Style) -> bool {
        true
    }

    open spec fn bitor_spec(self, other: Style) -> Style {
        self.union(other)
    }
}

impl core::ops::BitAnd for Style {
    type Output = Style;

    /// The intersection of two styles.
    fn bitand(self, other: Style) -> (style: Style)
        ensures
            style == self.intersection(other),
            style.bits() == self.bits() & other.bits(),
    {
        Style { bits: self.bits & other.bits }
    }
}

impl vstd::std_specs::ops::BitAndSpecImpl for Style {
    open spec fn obeys_bitand_spec() -> bool {
        true
    }

    open spec fn bitand_req(self, other: Style) -> bool {
        true
    }

    open spec fn bitand_spec(self, other: Style) -> Style {
        self.intersection(other)
    }
}

impl core::ops::BitXor for Style {
    type Output = Style;

    /// The bits that exactly one of two styles holds.
    fn bitxor(self, other: Style) -> (style: Style)
        ensures
            style == self.symmetric_difference(other),
            style.bits() == self.bits() ^ other.bits(),
    {
        Style { bits: self.bits ^ other.bits }
    }
}

impl vstd::std_specs::ops::BitXorSpecImpl for Style {
    open spec fn obeys_bitxor_spec() -> bool {
        true
    }

    open spec fn bitxor_req(self, other: Style) -> bool {
        true
    }

    open spec fn bitxor_spec(self, other: Style) -> Style {
        self.symmetric_difference(other)
    }
}

impl core::ops::Sub for Style {
    type Output = Style;

    /// The bits of the first style that the second lacks.
    fn sub(self, other: Style) -> (style: Style)
        ensures
            style == self.difference(other),
            style.bits() == self.bits() & !other.bits(),
    {
        Style { bits: self.bits & !other.bits }
    }
}

impl vstd::std_specs::ops::SubSpecImpl for Style {
    open spec fn obeys_sub_spec() -> bool {
        true
    }

    open spec fn sub_req(self, other: Style) -> bool {
        true
    }

    open spec fn sub_spec(self, other: Style) -> Style {
        self.difference(other)
    }
}

impl core::ops::Not for Style {
    type Output = Style;

    /// The meaningful bits that the style lacks.
    fn not(self) -> (style: Style)
        ensures
            style == self.complement(),
            style.bits() == !self.bits() & TB_ALL,
    {
        Style { bits: !self.bits & TB_ALL }
    }
}

impl vstd::std_specs::ops::NotSpecImpl for Style {
    open spec fn obeys_not_spec() -> bool {
        true
    }

    open spec fn not_req(self) -> bool {
        true
    }

    open spec fn not_spec(self) -> Style {
        self.complement()
    }
}

/// The code of every color lies within the color bits of an attribute word.
pub proof fn lemma_color_fits_mask(color: Color)
    ensures
        color.code() & TB_NORMAL_COLOR == color.code(),
        color.code() & TB_ATTRIB == 0,
{
    let c: u16 = color.code();
    assert(c <= 8);
    assert(c & 0x000F == c && c & 0x0700 == 0) by (bit_vector)
        requires
            c <= 8,
    ;
}

/// In a foreground word the color and the attributes do not disturb each
/// other: the color bits are those of the color, whatever attributes the
/// style holds, the attribute bits are those of the style, whatever the
/// color, and no other bit is set.
pub proof fn lemma_foreground_ranges_disjoint(style: Style, color: Color)
    ensures
        style.foreground(color).bits() == foreground_word(style, color),
        Style::from_color(color).bits() == background_word(color),
        style.foreground(color).bits() & TB_NORMAL_COLOR == color.code(),
        style.foreground(color).bits() & TB_ATTRIB == style.bits() & TB_ATTRIB,
        style.foreground(color).bits() & !TB_ALL == 0,
{
    let c: u16 = color.code();
    let s: u16 = style.bits();
    lemma_color_fits_mask(color);
    let word: u16 = (c & 0x000F) | (s & 0x0700);
    assert(style.foreground(color).bits() == word);
    assert(word == c | (s & 0x0700) && word & 0x000F == c && word & 0x0700 == s & 0x0700 && word
        & !0x070Fu16 == 0) by (bit_vector)
        requires
            c <= 8,
            word == (c & 0x000F) | (s & 0x0700),
    ;
}

} // verus!
