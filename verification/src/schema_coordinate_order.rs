//! The order of schema coordinates as the comparison operators see it.

use vstd::prelude::*;
use core::cmp::Ordering;
use crate::schema_coordinates::{coordinate_order, SchemaCoordinate};
use crate::source::Order;

verus! {

impl PartialOrd for SchemaCoordinate {
    fn partial_cmp(&self, other: &SchemaCoordinate) -> (result: Option<Ordering>) {
        match self.compare(other) {
            Order::Before => Some(Ordering::Less),
            Order::Same => Some(Ordering::Equal),
            Order::After => Some(Ordering::Greater),
        }
    }
}

impl vstd::std_specs::cmp::PartialOrdSpecImpl for SchemaCoordinate {
    open spec fn obeys_partial_cmp_spec() -> bool {
        true
    }

    open spec fn partial_cmp_spec(&self, other: &SchemaCoordinate) -> Option<Ordering> {
        match coordinate_order(self.deep_view(), other.deep_view()) {
            Order::Before => Some(Ordering::Less),
            Order::Same => Some(Ordering::Equal),
            Order::After => Some(Ordering::Greater),
        }
    }
}

} // verus!
