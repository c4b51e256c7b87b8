//! Which events of the audio server a client has subscribed to.

use crate::pulse::types::pa_subscription_mask;
use vstd::prelude::*;

verus! {

/// Whether a mask holds the bit of a facility. The facility `NULL` has no
/// bit, and every mask holds it.
pub open spec fn mask_holds(mask: i32, sub: pa_subscription_mask) -> bool {
    mask & sub.spec_bits() == sub.spec_bits()
}

/// A mask with the bit of a facility set.
pub open spec fn mask_with(mask: i32, sub: pa_subscription_mask) -> i32 {
    mask | sub.spec_bits()
}

/// A mask with the bit of a facility cleared.
pub open spec fn mask_without(mask: i32, sub: pa_subscription_mask) -> i32 {
    mask & !sub.spec_bits()
}

/// The bits of two facilities are equal only where the facilities are.
pub proof fn lemma_bits_distinct(a: pa_subscription_mask, b: pa_subscription_mask)
    ensures
        a.spec_bits() == b.spec_bits() <==> a == b,
{
}

/// The values that are the bit of a facility: zero, for `NULL`, and the ten
/// lowest single bits.
pub open spec fn is_facility_bit(b: i32) -> bool {
    b == 0 || b == 1 || b == 2 || b == 4 || b == 8 || b == 0x10 || b == 0x20 || b == 0x40 || b
        == 0x80 || b == 0x100 || b == 0x200
}

/// The bit of a facility is zero for `NULL`, and else a single bit.
pub proof fn lemma_single_bit(facility: pa_subscription_mask)
    ensures
        facility == pa_subscription_mask::NULL <==> facility.spec_bits() == 0,
        is_facility_bit(facility.spec_bits()),
{
}

/// Adding a facility to a mask enables that facility and changes no other.
pub proof fn lemma_add_enables(
    mask: i32,
    facility: pa_subscription_mask,
    other: pa_subscription_mask,
)
    ensures
        mask_holds(mask_with(mask, facility), facility),
        other != facility ==> mask_holds(mask_with(mask, facility), other) == mask_holds(
            mask,
            other,
        ),
{
    let s = facility.spec_bits();
    let o = other.spec_bits();
    lemma_single_bit(facility);
    lemma_single_bit(other);
    lemma_bits_distinct(facility, other);
    assert((mask | s) & s == s) by (bit_vector);
    assert(s != o && is_facility_bit(s) && is_facility_bit(o) ==> (((mask | s) & o == o) <==> (mask
        & o == o))) by (bit_vector);
}

/// Removing a facility from a mask disables that facility, unless it is
/// `NULL`, and changes no other.
pub proof fn lemma_remove_disables(
    mask: i32,
    facility: pa_subscription_mask,
    other: pa_subscription_mask,
)
    ensures
        facility != pa_subscription_mask::NULL ==> !mask_holds(
            mask_without(mask, facility),
            facility,
        ),
        other != facility ==> mask_holds(mask_without(mask, facility), other) == mask_holds(
            mask,
            other,
        ),
{
    let s = facility.spec_bits();
    let o = other.spec_bits();
    lemma_single_bit(facility);
    lemma_single_bit(other);
    lemma_bits_distinct(facility, other);
    assert(s != 0 ==> (mask & !s) & s != s) by (bit_vector);
    assert(s != o && is_facility_bit(s) && is_facility_bit(o) ==> (((mask & !s) & o == o) <==> (
    mask & o == o))) by (bit_vector);
}

/// A new manager has no facility enabled but `NULL`, which needs no bit.
pub proof fn lemma_new_enables_nothing(sub: pa_subscription_mask)
    ensures
        mask_holds(0, sub) <==> sub == pa_subscription_mask::NULL,
{
    let s = sub.spec_bits();
    assert((0i32 & s == s) <==> s == 0) by (bit_vector);
}

/// Represents subscribed events on a context. An event of a facility is
/// only delivered once the facility was subscribed to.
#[derive(Clone, Copy, Debug, PartialEq, Eq, Structural)]
pub struct SubscriptionManager {
    mask: i32,
}

impl SubscriptionManager {
    /// The mask of the subscribed facilities, one bit each.
    pub closed spec fn spec_mask(&self) -> i32 {
        self.mask
    }

    /// Whether a facility is subscribed to.
    pub open spec fn enabled(&self, sub: pa_subscription_mask) -> bool {
        mask_holds(self.spec_mask(), sub)
    }

    /// Create a new manager, with nothing subscribed to.
    pub fn new() -> (m: SubscriptionManager)
        ensures
            m.spec_mask() == 0,
            forall|sub: pa_subscription_mask|
                #[trigger] m.enabled(sub) <==> sub == pa_subscription_mask::NULL,
    {
        proof {
            assert forall|sub: pa_subscription_mask| #[trigger]
                mask_holds(0, sub) <==> sub == pa_subscription_mask::NULL by {
                lemma_new_enables_nothing(sub);
            }
        }
        SubscriptionManager { mask: 0 }
    }

    /// Get the current subscription mask.
    pub fn get_mask(&self) -> (mask: i32)
        ensures
            mask == self.spec_mask(),
    {
        self.mask
    }

    /// Add a subscription.
    pub fn add(&mut self, sub: pa_subscription_mask)
        ensures
            final(self).spec_mask() == mask_with(old(self).spec_mask(), sub),
            final(self).enabled(sub),
            forall|other: pa_subscription_mask|
                other != sub ==> final(self).enabled(other) == old(self).enabled(other),
    {
        proof {
            lemma_add_enables(self.mask, sub, sub);
            assert forall|other: pa_subscription_mask| other != sub implies #[trigger] mask_holds(
                mask_with(self.mask, sub),
                other,
            ) == mask_holds(self.mask, other) by {
                lemma_add_enables(self.mask, sub, other);
            }
        }
        self.mask = self.mask | sub.bits();
        assert(self.mask == mask_with(old(self).mask, sub));
    }

    /// Remove a subscription.
    pub fn remove(&mut self, sub: pa_subscription_mask)
        ensures
            final(self).spec_mask() == mask_without(old(self).spec_mask(), sub),
            sub != pa_subscription_mask::NULL ==> !final(self).enabled(sub),
            forall|other: pa_subscription_mask|
                other != sub ==> final(self).enabled(other) == old(self).enabled(other),
    {
        proof {
            lemma_remove_disables(self.mask, sub, sub);
            assert forall|other: pa_subscription_mask| other != sub implies #[trigger] mask_holds(
                mask_without(self.mask, sub),
                other,
            ) == mask_holds(self.mask, other) by {
                lemma_remove_disables(self.mask, sub, other);
            }
        }
        self.mask = self.mask & !sub.bits();
        assert(self.mask == mask_without(old(self).mask, sub));
    }

    /// Check if a subscription is enabled.
    pub fn is_enabled(&self, sub: pa_subscription_mask) -> (enabled: bool)
        ensures
            enabled == self.enabled(sub),
    {
        let sub_int: i32 = sub.bits();
        (self.mask & sub_int) == sub_int
    }
}

} // verus!
