//! The modifiers of a hotkey, as a set packed into the bits that the operating
//! system takes.

use vstd::prelude::*;
use vstd::std_specs::ops::BitAndSpec;
use vstd::std_specs::ops::BitOrSpec;

verus! {

/// One modifier of a hotkey.
#[derive(Clone, Copy, Debug, PartialEq, Eq, Hash, Structural)]
pub enum KeyModifier {
    /// Either Alt key.
    Alt,
    /// Either Control key.
    Control,
    /// Either Shift key.
    Shift,
    /// Either Windows key.
    Win,
    /// Holding the keys down does not fire the hotkey again.
    NoRepeat,
}

impl KeyModifier {
    /// The bit that stands for this modifier.
    pub open spec fn mask(self) -> u32 {
        match self {
            KeyModifier::Alt => 0x0001,
            KeyModifier::Control => 0x0002,
            KeyModifier::Shift => 0x0004,
            KeyModifier::Win => 0x0008,
            KeyModifier::NoRepeat => 0x4000,
        }
    }
}

/// A set of modifiers, passed by value.
///
/// Its view is the set of the modifiers it holds. Sets are composed with `|`.
#[derive(Clone, Copy, Debug, PartialEq, Eq, Hash, Structural)]
pub struct KeyModifiers {
    bits: u32,
}

/// Every bit that stands for a modifier.
const ALL_BITS: u32 = 0x400F;

/// Whether `mask` is the bit of a modifier.
spec fn is_mask(mask: u32) -> bool {
    mask == 0x0001 || mask == 0x0002 || mask == 0x0004 || mask == 0x0008 || mask == 0x4000
}

/// Whether the bit `mask` is set in `bits`.
spec fn is_set(bits: u32, mask: u32) -> bool {
    bits & mask == mask
}

/// The bit `mask` where it is set in `bits`, else zero.
spec fn part(bits: u32, mask: u32) -> u32 {
    if bits & mask == mask {
        mask
    } else {
        0
    }
}

impl View for KeyModifiers {
    type V = Set<KeyModifier>;

    closed spec fn view(&self) -> Set<KeyModifier> {
        Set::new(|modifier: KeyModifier| is_set(self.bits, modifier.mask()))
    }
}

/// A single bit, or none, holds that bit and no other, and stands for modifiers
/// only.
proof fn lemma_single_bit(bits: u32, mask: u32)
    by (bit_vector)
    requires
        bits == 0 || is_mask(bits),
        is_mask(mask),
    ensures
        is_set(bits, mask) == (bits == mask),
        bits & !ALL_BITS == 0,
{
}

/// A bit is set in `a | b` where it is set in `a` or in `b`, and in `a & b` where
/// it is set in both.
proof fn lemma_combined_bit(a: u32, b: u32, mask: u32)
    by (bit_vector)
    requires
        is_mask(mask),
    ensures
        is_set(a | b, mask) == (is_set(a, mask) || is_set(b, mask)),
        is_set(a & b, mask) == (is_set(a, mask) && is_set(b, mask)),
{
}

/// Bits that stand for modifiers only still do so when they are combined.
proof fn lemma_combined_known(a: u32, b: u32)
    by (bit_vector)
    requires
        a & !ALL_BITS == 0,
    ensures
        b & !ALL_BITS == 0 ==> (a | b) & !ALL_BITS == 0,
        (a & b) & !ALL_BITS == 0,
{
}

/// Bits that stand for modifiers only are the sum of those that are set.
proof fn lemma_known_bits_sum(bits: u32)
    by (bit_vector)
    requires
        bits & !ALL_BITS == 0,
    ensures
        bits == part(bits, 0x0001) + part(bits, 0x0002) + part(bits, 0x0004) + part(bits, 0x0008)
            + part(bits, 0x4000),
{
}

/// Whether the bit `mask` is set in `a` if it is set in `b`.
spec fn within(a: u32, b: u32, mask: u32) -> bool {
    is_set(b, mask) ==> is_set(a, mask)
}

/// Bits that stand for modifiers only lie within other bits where each of them
/// does.
proof fn lemma_known_bits_within(a: u32, b: u32)
    by (bit_vector)
    requires
        b & !ALL_BITS == 0,
    ensures
        (a & b == b) == (within(a, b, 0x0001) && within(a, b, 0x0002) && within(a, b, 0x0004)
            && within(a, b, 0x0008) && within(a, b, 0x4000)),
{
}

/// A sum of distinct modifier bits sets no other bit.
proof fn lemma_sum_is_known(alt: u32, control: u32, shift: u32, win: u32, no_repeat: u32)
    by (bit_vector)
    requires
        alt == 0 || alt == 0x0001,
        control == 0 || control == 0x0002,
        shift == 0 || shift == 0x0004,
        win == 0 || win == 0x0008,
        no_repeat == 0 || no_repeat == 0x4000,
    ensures
        alt + control + shift + win + no_repeat <= 0x400F,
        ((alt + control + shift + win + no_repeat) as u32) & !ALL_BITS == 0,
{
}

impl KeyModifiers {
    #[verifier::type_invariant]
    spec fn only_known_bits(self) -> bool {
        self.bits & !ALL_BITS == 0
    }

    /// What `modifier` adds to the number that stands for `set`: its bit where
    /// the set holds it, else nothing.
    pub open spec fn weight(set: Set<KeyModifier>, modifier: KeyModifier) -> int {
        if set.contains(modifier) {
            modifier.mask() as int
        } else {
            0
        }
    }

    /// The number that stands for a set of modifiers: the sum of their bits.
    pub open spec fn encode(set: Set<KeyModifier>) -> int {
        Self::weight(set, KeyModifier::Alt) + Self::weight(set, KeyModifier::Control)
            + Self::weight(set, KeyModifier::Shift) + Self::weight(set, KeyModifier::Win)
            + Self::weight(set, KeyModifier::NoRepeat)
    }

    /// The set that holds `modifier` and nothing else.
    fn only(modifier: KeyModifier) -> (modifiers: KeyModifiers)
        ensures
            modifiers@ == set![modifier],
    {
        let bits: u32 = match modifier {
            KeyModifier::Alt => 0x0001,
            KeyModifier::Control => 0x0002,
            KeyModifier::Shift => 0x0004,
            KeyModifier::Win => 0x0008,
            KeyModifier::NoRepeat => 0x4000,
        };
        proof {
            lemma_single_bit(bits, modifier.mask());
            assert forall|other: KeyModifier| is_set(bits, other.mask()) == (other == modifier) by {
                lemma_single_bit(bits, other.mask());
            }
        }
        let modifiers = KeyModifiers { bits };
        assert(modifiers@ =~= set![modifier]);
        modifiers
    }

    /// No modifier.
    #[allow(non_snake_case)]
    pub fn NONE_MODIFIES() -> (modifiers: KeyModifiers)
        ensures
            modifiers@ == Set::<KeyModifier>::empty(),
    {
        proof {
            lemma_single_bit(0, KeyModifier::Alt.mask());
            assert forall|modifier: KeyModifier| !is_set(0, modifier.mask()) by {
                lemma_single_bit(0, modifier.mask());
            }
        }
        let modifiers = KeyModifiers { bits: 0x0000 };
        assert(modifiers@ =~= Set::<KeyModifier>::empty());
        modifiers
    }

    /// The Alt key.
    #[allow(non_snake_case)]
    pub fn MOD_ALT() -> (modifiers: KeyModifiers)
        ensures
            modifiers@ == set![KeyModifier::Alt],
    {
        Self::only(KeyModifier::Alt)
    }

    /// The Control key.
    #[allow(non_snake_case)]
    pub fn MOD_CONTROL() -> (modifiers: KeyModifiers)
        ensures
            modifiers@ == set![KeyModifier::Control],
    {
        Self::only(KeyModifier::Control)
    }

    /// No repeated firing while the keys are held down.
    #[allow(non_snake_case)]
    pub fn MOD_NO_REPEAT() -> (modifiers: KeyModifiers)
        ensures
            modifiers@ == set![KeyModifier::NoRepeat],
    {
        Self::only(KeyModifier::NoRepeat)
    }

    /// The Shift key.
    #[allow(non_snake_case)]
    pub fn MOD_SHIFT() -> (modifiers: KeyModifiers)
        ensures
            modifiers@ == set![KeyModifier::Shift],
    {
        Self::only(KeyModifier::Shift)
    }

    /// The Windows key.
    #[allow(non_snake_case)]
    pub fn MOD_WIN() -> (modifiers: KeyModifiers)
        ensures
            modifiers@ == set![KeyModifier::Win],
    {
        Self::only(KeyModifier::Win)
    }

    /// The set as the number that the operating system takes.
    pub fn bits(&self) -> (bits: u32)
        ensures
            bits == KeyModifiers::encode(self@),
    {
        proof {
            use_type_invariant(self);
            lemma_known_bits_sum(self.bits);
        }
        self.bits
    }

    /// The set that `bits` stands for.
    ///
    /// Returns `None` exactly where `bits` stands for no set of modifiers.
    pub fn from_bits(bits: u32) -> (modifiers: Option<KeyModifiers>)
        ensures
            modifiers matches Some(found) ==> KeyModifiers::encode(found@) == bits,
            modifiers is None ==> forall|set: Set<KeyModifier>| KeyModifiers::encode(set) != bits,
    {
        if bits & !ALL_BITS == 0 {
            proof {
                lemma_known_bits_sum(bits);
            }
            Some(KeyModifiers { bits })
        } else {
            assert forall|set: Set<KeyModifier>| KeyModifiers::encode(set) != bits by {
                lemma_sum_is_known(
                    Self::weight(set, KeyModifier::Alt) as u32,
                    Self::weight(set, KeyModifier::Control) as u32,
                    Self::weight(set, KeyModifier::Shift) as u32,
                    Self::weight(set, KeyModifier::Win) as u32,
                    Self::weight(set, KeyModifier::NoRepeat) as u32,
                );
            }
            None
        }
    }

    /// Whether the set holds no modifier.
    pub fn is_empty(&self) -> (empty: bool)
        ensures
            empty == (self@ == Set::<KeyModifier>::empty()),
    {
        proof {
            use_type_invariant(self);
            lemma_known_bits_sum(self.bits);
            if self.bits == 0 {
                assert(self@ =~= Set::<KeyModifier>::empty());
            } else {
                assert(self@.contains(KeyModifier::Alt) || self@.contains(KeyModifier::Control)
                    || self@.contains(KeyModifier::Shift) || self@.contains(KeyModifier::Win)
                    || self@.contains(KeyModifier::NoRepeat));
            }
        }
        self.bits == 0
    }

    /// Whether the set holds every modifier of `other`.
    pub fn contains(&self, other: KeyModifiers) -> (contained: bool)
        ensures
            contained == other@.subset_of(self@),
    {
        proof {
            use_type_invariant(other);
            lemma_known_bits_within(self.bits, other.bits);
            if other@.subset_of(self@) {
                assert(other@.contains(KeyModifier::Alt) ==> self@.contains(KeyModifier::Alt));
                assert(other@.contains(KeyModifier::Control) ==> self@.contains(
                    KeyModifier::Control,
                ));
                assert(other@.contains(KeyModifier::Shift) ==> self@.contains(KeyModifier::Shift));
                assert(other@.contains(KeyModifier::Win) ==> self@.contains(KeyModifier::Win));
                assert(other@.contains(KeyModifier::NoRepeat) ==> self@.contains(
                    KeyModifier::NoRepeat,
                ));
            }
        }
        self.bits & other.bits == other.bits
    }
}

impl core::ops::BitOr for KeyModifiers {
    type Output = KeyModifiers;

    /// The modifiers of either set.
    fn bitor(self, other: KeyModifiers) -> (modifiers: KeyModifiers)
        ensures
            modifiers@ == self@.union(other@),
    {
        proof {
            use_type_invariant(self);
            use_type_invariant(other);
            lemma_combined_known(self.bits, other.bits);
            assert forall|modifier: KeyModifier|
                is_set(self.bits | other.bits, modifier.mask()) == (is_set(self.bits, modifier.mask())
                    || is_set(other.bits, modifier.mask())) by {
                lemma_combined_bit(self.bits, other.bits, modifier.mask());
            }
        }
        let modifiers = KeyModifiers { bits: self.bits | other.bits };
        assert(modifiers@ =~= self@.union(other@));
        modifiers
    }
}

impl vstd::std_specs::ops::BitOrSpecImpl for KeyModifiers {
    open spec fn obeys_bitor_spec() -> bool {
        true
    }

    open spec fn bitor_req(self, other: KeyModifiers) -> bool {
        true
    }

    closed spec fn bitor_spec(self, other: KeyModifiers) -> KeyModifiers {
        KeyModifiers { bits: self.bits | other.bits }
    }
}

impl core::ops::BitAnd for KeyModifiers {
    type Output = KeyModifiers;

    /// The modifiers of both sets.
    fn bitand(self, other: KeyModifiers) -> (modifiers: KeyModifiers)
        ensures
            modifiers@ == self@.intersect(other@),
    {
        proof {
            use_type_invariant(self);
            lemma_combined_known(self.bits, other.bits);
            assert forall|modifier: KeyModifier|
                is_set(self.bits & other.bits, modifier.mask()) == (is_set(self.bits, modifier.mask())
                    && is_set(other.bits, modifier.mask())) by {
                lemma_combined_bit(self.bits, other.bits, modifier.mask());
            }
        }
        let modifiers = KeyModifiers { bits: self.bits & other.bits };
        assert(modifiers@ =~= self@.intersect(other@));
        modifiers
    }
}

impl vstd::std_specs::ops::BitAndSpecImpl for KeyModifiers {
    open spec fn obeys_bitand_spec() -> bool {
        true
    }

    open spec fn bitand_req(self, other: KeyModifiers) -> bool {
        true
    }

    closed spec fn bitand_spec(self, other: KeyModifiers) -> KeyModifiers {
        KeyModifiers { bits: self.bits & other.bits }
    }
}

} // verus!
