//! The switches that decide which forms of docblock are accepted. A
//! switch is asked about a name: it may be on for some names only.

use vstd::prelude::*;
use crate::source::texts_equal;

verus! {

/// A switch that is off, on, or on for the names of a list.
#[derive(Clone, Debug, PartialEq, Eq)]
pub enum FeatureFlag {
    Disabled,
    Enabled,
    Limited { allowlist: Vec<String> },
}

impl FeatureFlag {
    /// Whether the switch is on for `name`.
    pub open spec fn spec_is_enabled_for(&self, name: Seq<char>) -> bool {
        match self {
            FeatureFlag::Disabled => false,
            FeatureFlag::Enabled => true,
            FeatureFlag::Limited { allowlist } => allowlist.deep_view().contains(name),
        }
    }

    /// Whether the switch is on for every name.
    pub open spec fn spec_is_fully_enabled(&self) -> bool {
        self is Enabled
    }

    /// Whether the switch is on for `name`.
    #[verifier::loop_isolation(false)]
    pub fn is_enabled_for(&self, name: &str) -> (enabled: bool)
        ensures
            enabled == self.spec_is_enabled_for(name@),
    {
        match self {
            FeatureFlag::Disabled => false,
            FeatureFlag::Enabled => true,
            FeatureFlag::Limited { allowlist } => {
                let mut i: usize = 0;
                while i < allowlist.len()
                    invariant
                        i <= allowlist.len(),
                        forall|j: int| 0 <= j < i ==> allowlist.deep_view()[j] != name@,
                    decreases allowlist.len() - i,
                {
                    if texts_equal(allowlist[i].as_str(), name) {
                        proof {
                            let names = allowlist.deep_view();
                            assert(names.len() == allowlist.len());
                            assert(names[i as int] == name@);
                            assert(names.contains(name@));
                        }
                        return true;
                    }
                    i += 1;
                }
                false
            },
        }
    }

    /// Whether the switch is on for every name.
    pub fn is_fully_enabled(&self) -> (enabled: bool)
        ensures
            enabled == self.spec_is_fully_enabled(),
    {
        match self {
            FeatureFlag::Enabled => true,
            _ => false,
        }
    }
}

/// The switches that the resolution of a docblock reads.
#[derive(Clone, Debug, PartialEq, Eq)]
pub struct ParseOptions<'a> {
    /// Types may name the interfaces they implement, weak types too.
    pub enable_interface_output_type: &'a FeatureFlag,
    /// A field of this name may have a type that excludes null.
    pub allow_resolver_non_nullable_return_type: &'a FeatureFlag,
    /// A resolver of this name may still be declared with the tag
    /// `@RelayResolver`.
    pub allow_legacy_relay_resolver_tag: &'a FeatureFlag,
}

} // verus!
