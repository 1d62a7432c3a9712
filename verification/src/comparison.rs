//! The order of fixed-point numbers.

use crate::fixed::Fix;
use core::cmp::Ordering;
use vstd::std_specs::cmp::PartialOrdSpec;
use vstd::prelude::*;

verus! {

/// Values order by their raw mantissas, and only within one scale: two values
/// of different scales are not comparable, one has to be converted first.
impl PartialOrd for Fix {
    fn partial_cmp(&self, other: &Fix) -> (r: Option<Ordering>) {
        if self.scale != other.scale {
            None
        } else if self.bits < other.bits {
            Some(Ordering::Less)
        } else if self.bits > other.bits {
            Some(Ordering::Greater)
        } else {
            Some(Ordering::Equal)
        }
    }
}

impl vstd::std_specs::cmp::PartialOrdSpecImpl for Fix {
    open spec fn obeys_partial_cmp_spec() -> bool {
        true
    }

    open spec fn partial_cmp_spec(&self, other: &Fix) -> Option<Ordering> {
        if self.scale != other.scale {
            None
        } else if self.bits < other.bits {
            Some(Ordering::Less)
        } else if self.bits > other.bits {
            Some(Ordering::Greater)
        } else {
            Some(Ordering::Equal)
        }
    }
}

/// Within one scale the order is total and agrees with equality of values.
pub proof fn lemma_order_within_scale(a: Fix, b: Fix)
    requires
        a.scale == b.scale,
    ensures
        a.partial_cmp_spec(&b) is Some,
        a.partial_cmp_spec(&b) == Some(Ordering::Equal) <==> a == b,
        a.partial_cmp_spec(&b) == Some(Ordering::Less) <==> a.bits < b.bits,
        a.partial_cmp_spec(&b) == Some(Ordering::Less) <==> b.partial_cmp_spec(&a) == Some(
            Ordering::Greater,
        ),
{
}

} // verus!
