//! The order of spans: by magnitude.

use crate::duration::CustomDuration;
use core::cmp::Ordering;
use vstd::prelude::*;
use vstd::std_specs::cmp::PartialOrdSpec;

verus! {

impl PartialOrd for CustomDuration {
    /// Compares two spans by their nanoseconds.
    fn partial_cmp(&self, other: &CustomDuration) -> (r: Option<Ordering>) {
        let a: u128 = self.as_nanos();
        let b: u128 = other.as_nanos();
        if a < b {
            Some(Ordering::Less)
        } else if a == b {
            Some(Ordering::Equal)
        } else {
            Some(Ordering::Greater)
        }
    }
}

impl vstd::std_specs::cmp::PartialOrdSpecImpl for CustomDuration {
    open spec fn obeys_partial_cmp_spec() -> bool {
        true
    }

    open spec fn partial_cmp_spec(&self, other: &CustomDuration) -> Option<Ordering> {
        if self@ < other@ {
            Some(Ordering::Less)
        } else if self@ == other@ {
            Some(Ordering::Equal)
        } else {
            Some(Ordering::Greater)
        }
    }
}

/// The order of spans is total and agrees with equality: any two valid spans
/// compare, they compare as equal exactly where they are equal, and the
/// shorter one is the lesser.
pub proof fn law_order_by_magnitude(a: CustomDuration, b: CustomDuration)
    requires
        a.wf(),
        b.wf(),
    ensures
        a.partial_cmp_spec(&b) is Some,
        a.partial_cmp_spec(&b) == Some(Ordering::Equal) <==> a == b,
        a.partial_cmp_spec(&b) == Some(Ordering::Less) <==> a@ < b@,
        a.partial_cmp_spec(&b) == Some(Ordering::Less) <==> b.partial_cmp_spec(&a) == Some(
            Ordering::Greater,
        ),
{
    a.law_equal_by_magnitude(b);
}

} // verus!
