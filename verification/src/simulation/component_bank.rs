//! A fixed-size bank of identical components, addressed by index.

use vstd::prelude::*;

verus! {

/// A bank of `COMPONENT_COUNT` components.  The vector always holds
/// exactly that many entries; see each bank's own well-formedness
/// predicate.
pub struct ComponentBank<InnerComp, const COMPONENT_COUNT: usize> {
    pub components: Vec<InnerComp>,
}

impl<InnerComp, const COMPONENT_COUNT: usize> ComponentBank<InnerComp, COMPONENT_COUNT> {
    /// The bank holds one component per address.
    pub open spec fn len_wf(self) -> bool {
        self.components@.len() == COMPONENT_COUNT
    }
}

} // verus!
