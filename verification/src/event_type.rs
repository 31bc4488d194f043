//! The event type registry: a closed set of symbolic event kinds, each mapped
//! to a stable bit in a machine word, and a bit-set type over those kinds used
//! as a registration filter. Combining filters is bitwise or, which is proved
//! associative, commutative and idempotent.

use vstd::prelude::*;

verus! {

/// The closed set of event kinds the library knows: the families this layer
/// binds, mirrored from the native enumeration, which is wider. The set is
/// versioned with the library: new kinds may be appended, none may be
/// invented at runtime, and a raw native value outside the set is refused by
/// `EventType::from_bits`.
#[derive(Clone, Copy, Debug, PartialEq, Eq, Structural)]
pub enum EventKind {
    ButtonClicked,
    CheckboxToggled,
    TextChanged,
    TextEnter,
    MenuSelected,
    MenuOpened,
    MenuClosed,
    MenuHighlighted,
    ContextMenu,
    LeftDown,
    LeftUp,
    Motion,
    MouseWheel,
    KeyDown,
    KeyUp,
    CharTyped,
    CloseWindow,
    SizeChanged,
    Idle,
    TreeListSelectionChanged,
    TreeListItemChecked,
    TreeListItemActivated,
    TreeListColumnSorted,
    TreeListItemExpanding,
    TreeListItemExpanded,
}

/// The bit position that stands for a kind. Distinct kinds get distinct
/// positions, all below 64.
pub open spec fn kind_pos(k: EventKind) -> u64 {
    match k {
        EventKind::ButtonClicked => 0,
        EventKind::CheckboxToggled => 1,
        EventKind::TextChanged => 2,
        EventKind::TextEnter => 3,
        EventKind::MenuSelected => 4,
        EventKind::MenuOpened => 5,
        EventKind::MenuClosed => 6,
        EventKind::MenuHighlighted => 7,
        EventKind::ContextMenu => 8,
        EventKind::LeftDown => 9,
        EventKind::LeftUp => 10,
        EventKind::Motion => 11,
        EventKind::MouseWheel => 12,
        EventKind::KeyDown => 13,
        EventKind::KeyUp => 14,
        EventKind::CharTyped => 15,
        EventKind::CloseWindow => 16,
        EventKind::SizeChanged => 17,
        EventKind::Idle => 18,
        EventKind::TreeListSelectionChanged => 19,
        EventKind::TreeListItemChecked => 20,
        EventKind::TreeListItemActivated => 21,
        EventKind::TreeListColumnSorted => 22,
        EventKind::TreeListItemExpanding => 23,
        EventKind::TreeListItemExpanded => 24,
    }
}

/// The single-bit mask that stands for a kind.
pub open spec fn kind_bit(k: EventKind) -> u64 {
    1u64 << kind_pos(k)
}

/// Distinct kinds occupy distinct bits: their masks do not overlap.
pub proof fn lemma_kind_bits_disjoint(k1: EventKind, k2: EventKind)
    requires
        k1 != k2,
    ensures
        kind_bit(k1) & kind_bit(k2) == 0,
{
    let i = kind_pos(k1);
    let j = kind_pos(k2);
    assert(i != j);
    assert(i < 64 && j < 64);
    assert(i != j && i < 64 && j < 64 ==> (1u64 << i) & (1u64 << j) == 0) by (bit_vector);
}

/// A kind's mask is never zero.
pub proof fn lemma_kind_bit_nonzero(k: EventKind)
    ensures
        kind_bit(k) != 0,
{
    let i = kind_pos(k);
    assert(i < 64 ==> (1u64 << i) != 0) by (bit_vector);
}

/// Every kind's bit lies within the closed kind set.
pub proof fn lemma_kind_bit_known(k: EventKind)
    ensures
        kind_bit(k) & KNOWN_KIND_BITS == kind_bit(k),
{
    let i = kind_pos(k);
    assert(i < 25);
    assert(i < 25 ==> (1u64 << i) & 0x1FFFFFFu64 == (1u64 << i)) by (bit_vector);
}

/// The closed set's mask is exactly the union of the kind bits: nothing
/// beyond the enumeration is ever counted known.
pub proof fn lemma_known_kind_bits_exact()
    ensures
        KNOWN_KIND_BITS == kind_bit(EventKind::ButtonClicked) | kind_bit(EventKind::CheckboxToggled)
            | kind_bit(EventKind::TextChanged) | kind_bit(EventKind::TextEnter) | kind_bit(
            EventKind::MenuSelected,
        ) | kind_bit(EventKind::MenuOpened) | kind_bit(EventKind::MenuClosed) | kind_bit(
            EventKind::MenuHighlighted,
        ) | kind_bit(EventKind::ContextMenu) | kind_bit(EventKind::LeftDown) | kind_bit(
            EventKind::LeftUp,
        ) | kind_bit(EventKind::Motion) | kind_bit(EventKind::MouseWheel) | kind_bit(
            EventKind::KeyDown,
        ) | kind_bit(EventKind::KeyUp) | kind_bit(EventKind::CharTyped) | kind_bit(
            EventKind::CloseWindow,
        ) | kind_bit(EventKind::SizeChanged) | kind_bit(EventKind::Idle) | kind_bit(
            EventKind::TreeListSelectionChanged,
        ) | kind_bit(EventKind::TreeListItemChecked) | kind_bit(
            EventKind::TreeListItemActivated,
        ) | kind_bit(EventKind::TreeListColumnSorted) | kind_bit(
            EventKind::TreeListItemExpanding,
        ) | kind_bit(EventKind::TreeListItemExpanded),
{
    assert((1u64 << 0) | (1u64 << 1) | (1u64 << 2) | (1u64 << 3) | (1u64 << 4) | (1u64 << 5) | (
    1u64 << 6) | (1u64 << 7) | (1u64 << 8) | (1u64 << 9) | (1u64 << 10) | (1u64 << 11) | (1u64
        << 12) | (1u64 << 13) | (1u64 << 14) | (1u64 << 15) | (1u64 << 16) | (1u64 << 17) | (1u64
        << 18) | (1u64 << 19) | (1u64 << 20) | (1u64 << 21) | (1u64 << 22) | (1u64 << 23) | (1u64
        << 24) == 0x1FFFFFFu64) by (bit_vector);
}

/// Combining two sets within the closed kind set stays within it.
pub proof fn lemma_combine_known(a: EventType, b: EventType)
    requires
        a.spec_known(),
        b.spec_known(),
    ensures
        (EventType { bits: a.bits | b.bits }).spec_known(),
{
    let (x, y) = (a.bits, b.bits);
    let m = KNOWN_KIND_BITS;
    assert(x & m == x && y & m == y ==> (x | y) & m == (x | y)) by (bit_vector);
}

/// The union of every kind's bit: bit positions 0 through 24. Kept in step
/// with the enumeration; `lemma_known_kind_bits_exact` holds it to that.
pub const KNOWN_KIND_BITS: u64 = 0x1FFFFFF;

/// A set of event kinds: one bit per kind. Used both as the tag of a single
/// native event (exactly one bit, or none for the null type) and as a
/// registration filter (any union of kinds).
#[derive(Clone, Copy, Debug, PartialEq, Eq, Structural)]
pub struct EventType {
    pub bits: u64,
}

impl EventType {
    /// Whether the set holds the given kind.
    pub open spec fn spec_contains(self, k: EventKind) -> bool {
        self.bits & kind_bit(k) != 0
    }

    /// Whether the set lies within the closed kind set: every bit it holds
    /// is a known kind's bit.
    pub open spec fn spec_known(self) -> bool {
        self.bits & KNOWN_KIND_BITS == self.bits
    }

    /// The empty set: no kind at all. Stands for the null event type.
    pub fn empty() -> (r: EventType)
        ensures
            r.bits == 0,
    {
        EventType { bits: 0 }
    }

    /// The set that holds exactly the given kind.
    pub fn from_kind(k: EventKind) -> (r: EventType)
        ensures
            r.bits == kind_bit(k),
            r.spec_contains(k),
            r.spec_known(),
            forall|k2: EventKind| k2 != k ==> !r.spec_contains(k2),
    {
        let pos = kind_position(k);
        proof {
            lemma_kind_bit_nonzero(k);
            lemma_kind_bit_known(k);
            assert(kind_bit(k) & kind_bit(k) == kind_bit(k)) by (bit_vector);
            assert forall|k2: EventKind| k2 != k implies (kind_bit(k) & kind_bit(k2) == 0) by {
                lemma_kind_bits_disjoint(k, k2);
            }
        }
        EventType { bits: 1u64 << pos }
    }

    /// Reads a raw native tag value, refusing one outside the closed kind
    /// set: the safe layer only mirrors the native enumeration, it never
    /// hands out a tag it does not know.
    pub fn from_bits(bits: u64) -> (r: Option<EventType>)
        ensures
            bits & KNOWN_KIND_BITS == bits ==> r == Some(EventType { bits: bits }),
            bits & KNOWN_KIND_BITS != bits ==> r is None,
    {
        if bits & KNOWN_KIND_BITS == bits {
            Some(EventType { bits })
        } else {
            None
        }
    }

    /// Whether the set lies within the closed kind set.
    pub fn is_known(&self) -> (r: bool)
        ensures
            r == self.spec_known(),
    {
        self.bits & KNOWN_KIND_BITS == self.bits
    }

    /// The union of two sets: bitwise or.
    pub fn combine(self, other: EventType) -> (r: EventType)
        ensures
            r.bits == self.bits | other.bits,
    {
        EventType { bits: self.bits | other.bits }
    }

    /// Whether no kind is in the set.
    pub fn is_empty(&self) -> (r: bool)
        ensures
            r == (self.bits == 0),
    {
        self.bits == 0
    }

    /// Whether the set holds the given kind.
    pub fn contains(&self, k: EventKind) -> (r: bool)
        ensures
            r == self.spec_contains(k),
    {
        let pos = kind_position(k);
        self.bits & (1u64 << pos) != 0
    }

    /// Whether the two sets share a kind's bit.
    pub fn overlaps(&self, other: &EventType) -> (r: bool)
        ensures
            r == (self.bits & other.bits != 0),
    {
        self.bits & other.bits != 0
    }
}

/// The bit position of a kind, as a runtime value.
pub fn kind_position(k: EventKind) -> (r: u64)
    ensures
        r == kind_pos(k),
        r < 64,
{
    match k {
        EventKind::ButtonClicked => 0,
        EventKind::CheckboxToggled => 1,
        EventKind::TextChanged => 2,
        EventKind::TextEnter => 3,
        EventKind::MenuSelected => 4,
        EventKind::MenuOpened => 5,
        EventKind::MenuClosed => 6,
        EventKind::MenuHighlighted => 7,
        EventKind::ContextMenu => 8,
        EventKind::LeftDown => 9,
        EventKind::LeftUp => 10,
        EventKind::Motion => 11,
        EventKind::MouseWheel => 12,
        EventKind::KeyDown => 13,
        EventKind::KeyUp => 14,
        EventKind::CharTyped => 15,
        EventKind::CloseWindow => 16,
        EventKind::SizeChanged => 17,
        EventKind::Idle => 18,
        EventKind::TreeListSelectionChanged => 19,
        EventKind::TreeListItemChecked => 20,
        EventKind::TreeListItemActivated => 21,
        EventKind::TreeListColumnSorted => 22,
        EventKind::TreeListItemExpanding => 23,
        EventKind::TreeListItemExpanded => 24,
    }
}

/// Combining filters is commutative.
pub proof fn lemma_combine_commutes(a: EventType, b: EventType)
    ensures
        a.bits | b.bits == b.bits | a.bits,
{
    let (x, y) = (a.bits, b.bits);
    assert(x | y == y | x) by (bit_vector);
}

/// Combining filters is associative.
pub proof fn lemma_combine_associates(a: EventType, b: EventType, c: EventType)
    ensures
        (a.bits | b.bits) | c.bits == a.bits | (b.bits | c.bits),
{
    let (x, y, z) = (a.bits, b.bits, c.bits);
    assert((x | y) | z == x | (y | z)) by (bit_vector);
}

/// Combining a filter with itself changes nothing.
pub proof fn lemma_combine_idempotent(a: EventType)
    ensures
        a.bits | a.bits == a.bits,
{
    let x = a.bits;
    assert(x | x == x) by (bit_vector);
}

/// A combined filter holds a kind exactly when one of its parts does.
pub proof fn lemma_combine_contains(a: EventType, b: EventType, k: EventKind)
    ensures
        (EventType { bits: a.bits | b.bits }).spec_contains(k) <==> a.spec_contains(k)
            || b.spec_contains(k),
{
    let (x, y) = (a.bits, b.bits);
    let m = kind_bit(k);
    assert(((x | y) & m != 0) <==> (x & m != 0) || (y & m != 0)) by (bit_vector);
}

} // verus!
