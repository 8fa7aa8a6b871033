use vstd::prelude::*;

use super::parameter::ParameterSlot;
use super::PARAMS_PER_PAGE;

verus! {

/// A page of parameter slots, one per physical encoder.
#[derive(Debug, Clone, Copy)]
pub struct Page {
    /// Parameter slots by encoder position.
    pub params: [ParameterSlot; PARAMS_PER_PAGE],
}

impl View for Page {
    type V = Seq<ParameterSlot>;

    open spec fn view(&self) -> Seq<ParameterSlot> {
        self.params@
    }
}

impl Page {
    /// A page on which every slot is `Null`.
    pub fn blank() -> (page: Self)
        ensures
            forall|s: int| 0 <= s < PARAMS_PER_PAGE ==> page@[s] == ParameterSlot::Null,
    {
        Self {
            params: [
                ParameterSlot::Null,
                ParameterSlot::Null,
                ParameterSlot::Null,
                ParameterSlot::Null,
            ],
        }
    }
}

impl Default for Page {
    fn default() -> (page: Self)
        ensures
            forall|s: int| 0 <= s < PARAMS_PER_PAGE ==> page@[s] == ParameterSlot::Null,
    {
        Page::blank()
    }
}

} // verus!
