use vstd::prelude::*;

verus! {

/// Page flag: some line pointers are unused.
pub const PD_HAS_FREE_LINES: u16 = 0x0001;

/// Page flag: there is no room for a new row.
pub const PD_PAGE_FULL: u16 = 0x0002;

/// Page flag: every row on the page is visible to everyone.
pub const PD_ALL_VISIBLE: u16 = 0x0004;

/// All page flag bits that have a meaning.
pub const PD_VALID_FLAG_BITS: u16 = 0x0007;

/// Line pointer status: the slot is free.
pub const LP_UNUSED: u8 = 0x00;

/// Line pointer status: the slot holds a row.
pub const LP_NORMAL: u8 = 0x01;

/// Line pointer status: the slot forwards to another slot.
pub const LP_REDIRECT: u8 = 0x02;

/// Line pointer status: the row is dead and its storage may be gone.
pub const LP_DEAD: u8 = 0x03;

/// The two bits of a line pointer status.
pub const LP_STATUS_BITS: u8 = 0x03;

/// Low eleven bits of the first row flag word: the attribute count.
pub const HEAP_NATTS_MASK: u16 = 0x07FF;

pub const HEAP_KEYS_UPDATED: u16 = 0x2000;

pub const HEAP_HOT_UPDATED: u16 = 0x4000;

pub const HEAP_ONLY_TUPLE: u16 = 0x8000;

/// The three tuple-state bits of the first row flag word.
pub const HEAP2_XACT_MASK: u16 = 0xE000;

/// All bits of the first row flag word that have a meaning.
pub const HEAP2_VALID_BITS: u16 = 0xE7FF;

pub const HEAP_HASNULL: u16 = 0x0001;

pub const HEAP_HASVARWIDTH: u16 = 0x0002;

pub const HEAP_HASEXTERNAL: u16 = 0x0004;

pub const HEAP_HASOID_OLD: u16 = 0x0008;

pub const HEAP_XMAX_KEYSHR_LOCK: u16 = 0x0010;

pub const HEAP_COMBOCID: u16 = 0x0020;

pub const HEAP_XMAX_EXCL_LOCK: u16 = 0x0040;

pub const HEAP_XMAX_LOCK_ONLY: u16 = 0x0080;

/// Exclusive lock and key-share lock together.
pub const HEAP_XMAX_SHR_LOCK: u16 = 0x0050;

pub const HEAP_LOCK_MASK: u16 = 0x0050;

pub const HEAP_XMIN_COMMITTED: u16 = 0x0100;

pub const HEAP_XMIN_INVALID: u16 = 0x0200;

/// Committed and invalid together mean frozen.
pub const HEAP_XMIN_FROZEN: u16 = 0x0300;

pub const HEAP_XMAX_COMMITTED: u16 = 0x0400;

pub const HEAP_XMAX_INVALID: u16 = 0x0800;

pub const HEAP_XMAX_IS_MULTI: u16 = 0x1000;

pub const HEAP_UPDATED: u16 = 0x2000;

pub const HEAP_MOVED_OFF: u16 = 0x4000;

pub const HEAP_MOVED_IN: u16 = 0x8000;

pub const HEAP_MOVED: u16 = 0xC000;

/// The visibility bits of the second row flag word.
pub const HEAP_XACT_MASK: u16 = 0xFFF0;

/// Flags of a page: a 16-bit word of which three bits have a meaning.
#[derive(Clone, Copy, Debug, PartialEq, Eq, Structural)]
pub struct PageFlags {
    pub bits: u16,
}

impl PageFlags {
    /// The flag set that keeps the meaningful bits of `bits` and drops the
    /// rest.
    pub open spec fn spec_from_bits_truncate(bits: u16) -> PageFlags {
        PageFlags { bits: bits & PD_VALID_FLAG_BITS }
    }

    /// No bit without a meaning is set.
    pub open spec fn known_bits_only(self) -> bool {
        self.bits & PD_VALID_FLAG_BITS == self.bits
    }

    /// Keeps the meaningful bits of `bits`; unknown bits are dropped, never
    /// rejected.
    #[verifier::when_used_as_spec(spec_from_bits_truncate)]
    pub fn from_bits_truncate(bits: u16) -> (flags: PageFlags)
        ensures
            flags == Self::spec_from_bits_truncate(bits),
            flags.known_bits_only(),
    {
        assert((bits & 0x0007u16) & 0x0007u16 == bits & 0x0007u16) by (bit_vector);
        PageFlags { bits: bits & PD_VALID_FLAG_BITS }
    }

    /// Whether every bit of `mask` is set.
    pub fn contains(&self, mask: u16) -> (yes: bool)
        ensures
            yes == (self.bits & mask == mask),
    {
        self.bits & mask == mask
    }

    pub fn has_free_lines(&self) -> (yes: bool)
        ensures
            yes == (self.bits & PD_HAS_FREE_LINES == PD_HAS_FREE_LINES),
    {
        self.contains(PD_HAS_FREE_LINES)
    }

    pub fn is_page_full(&self) -> (yes: bool)
        ensures
            yes == (self.bits & PD_PAGE_FULL == PD_PAGE_FULL),
    {
        self.contains(PD_PAGE_FULL)
    }

    pub fn is_all_visible(&self) -> (yes: bool)
        ensures
            yes == (self.bits & PD_ALL_VISIBLE == PD_ALL_VISIBLE),
    {
        self.contains(PD_ALL_VISIBLE)
    }
}

/// Status of a line pointer: a two-bit code.
#[derive(Clone, Copy, Debug, PartialEq, Eq, Structural)]
pub struct LPFlags {
    pub bits: u8,
}

impl LPFlags {
    /// The status that keeps the low two bits of `bits`.
    pub open spec fn spec_from_bits_truncate(bits: u8) -> LPFlags {
        LPFlags { bits: bits & LP_STATUS_BITS }
    }

    /// The code is one of the four statuses.
    pub open spec fn known_bits_only(self) -> bool {
        self.bits <= LP_DEAD
    }

    pub open spec fn spec_is_normal(&self) -> bool {
        self.bits == LP_NORMAL
    }

    /// Keeps the low two bits of `bits`; higher bits are dropped, never
    /// rejected.
    #[verifier::when_used_as_spec(spec_from_bits_truncate)]
    pub fn from_bits_truncate(bits: u8) -> (flags: LPFlags)
        ensures
            flags == Self::spec_from_bits_truncate(bits),
            flags.known_bits_only(),
    {
        assert(bits & 0x03u8 <= 0x03u8) by (bit_vector);
        LPFlags { bits: bits & LP_STATUS_BITS }
    }

    pub fn is_unused(&self) -> (yes: bool)
        ensures
            yes == (self.bits == LP_UNUSED),
    {
        self.bits == LP_UNUSED
    }

    #[verifier::when_used_as_spec(spec_is_normal)]
    pub fn is_normal(&self) -> (yes: bool)
        ensures
            yes == self.spec_is_normal(),
    {
        self.bits == LP_NORMAL
    }

    pub fn is_redirect(&self) -> (yes: bool)
        ensures
            yes == (self.bits == LP_REDIRECT),
    {
        self.bits == LP_REDIRECT
    }

    pub fn is_dead(&self) -> (yes: bool)
        ensures
            yes == (self.bits == LP_DEAD),
    {
        self.bits == LP_DEAD
    }
}

/// First flag word of a row: the attribute count in the low eleven bits and
/// three tuple-state bits at the top.
#[derive(Clone, Copy, Debug, PartialEq, Eq, Structural)]
pub struct Infomask2 {
    pub bits: u16,
}

impl Infomask2 {
    /// The flag word that keeps the meaningful bits of `bits`.
    pub open spec fn spec_from_bits_truncate(bits: u16) -> Infomask2 {
        Infomask2 { bits: bits & HEAP2_VALID_BITS }
    }

    /// No bit without a meaning is set.
    pub open spec fn known_bits_only(self) -> bool {
        self.bits & HEAP2_VALID_BITS == self.bits
    }

    /// Number of attributes the row declares.
    pub open spec fn spec_attribute_count(&self) -> u16 {
        self.bits & HEAP_NATTS_MASK
    }

    /// Keeps the meaningful bits of `bits`; unknown bits are dropped, never
    /// rejected.
    #[verifier::when_used_as_spec(spec_from_bits_truncate)]
    pub fn from_bits_truncate(bits: u16) -> (flags: Infomask2)
        ensures
            flags == Self::spec_from_bits_truncate(bits),
            flags.known_bits_only(),
    {
        assert((bits & 0xE7FFu16) & 0xE7FFu16 == bits & 0xE7FFu16) by (bit_vector);
        Infomask2 { bits: bits & HEAP2_VALID_BITS }
    }

    /// Number of attributes the row declares: at most 2047.
    #[verifier::when_used_as_spec(spec_attribute_count)]
    pub fn attribute_count(&self) -> (count: u16)
        ensures
            count == self.spec_attribute_count(),
            count <= HEAP_NATTS_MASK,
    {
        let bits = self.bits;
        assert(bits & 0x07FFu16 <= 0x07FFu16) by (bit_vector);
        self.bits & HEAP_NATTS_MASK
    }

    /// Whether every bit of `mask` is set.
    pub fn contains(&self, mask: u16) -> (yes: bool)
        ensures
            yes == (self.bits & mask == mask),
    {
        self.bits & mask == mask
    }

    pub fn keys_updated(&self) -> (yes: bool)
        ensures
            yes == (self.bits & HEAP_KEYS_UPDATED == HEAP_KEYS_UPDATED),
    {
        self.contains(HEAP_KEYS_UPDATED)
    }

    pub fn hot_updated(&self) -> (yes: bool)
        ensures
            yes == (self.bits & HEAP_HOT_UPDATED == HEAP_HOT_UPDATED),
    {
        self.contains(HEAP_HOT_UPDATED)
    }

    pub fn only_tuple(&self) -> (yes: bool)
        ensures
            yes == (self.bits & HEAP_ONLY_TUPLE == HEAP_ONLY_TUPLE),
    {
        self.contains(HEAP_ONLY_TUPLE)
    }
}

/// Second flag word of a row: storage, lock and visibility bits. All sixteen
/// bits have a meaning.
#[derive(Clone, Copy, Debug, PartialEq, Eq, Structural)]
pub struct Infomask {
    pub bits: u16,
}

impl Infomask {
    /// The flag word with the bits of `bits`, all of which have a meaning.
    pub open spec fn spec_from_bits_truncate(bits: u16) -> Infomask {
        Infomask { bits }
    }

    /// Whether the row carries a null bitmap.
    pub open spec fn spec_has_null(&self) -> bool {
        self.bits & HEAP_HASNULL == HEAP_HASNULL
    }

    /// Every bit of this word has a meaning, so none is dropped.
    #[verifier::when_used_as_spec(spec_from_bits_truncate)]
    pub fn from_bits_truncate(bits: u16) -> (flags: Infomask)
        ensures
            flags == Self::spec_from_bits_truncate(bits),
    {
        Infomask { bits }
    }

    /// Whether every bit of `mask` is set.
    pub fn contains(&self, mask: u16) -> (yes: bool)
        ensures
            yes == (self.bits & mask == mask),
    {
        self.bits & mask == mask
    }

    /// Whether the row carries a null bitmap.
    #[verifier::when_used_as_spec(spec_has_null)]
    pub fn has_null(&self) -> (yes: bool)
        ensures
            yes == self.spec_has_null(),
    {
        self.contains(HEAP_HASNULL)
    }
}

} // verus!
