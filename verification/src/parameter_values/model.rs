//! The store as a mathematical value, and what each operation makes of it.
//!
//! [`ParameterValues`](super::ParameterValues) views as a [`StoreModel`]; the
//! contracts of its methods are equations over the functions defined here.

use vstd::prelude::*;

use super::error::ParameterError;
use super::parameter::{ChangeFlag, Parameter, ParameterSlot};
use super::values::ParameterChange;
use super::{spec_page_of, spec_param_name, spec_slot_of, N_PAGES, PARAMS_PER_PAGE, TOTAL_SLOTS};

verus! {

/// Pages of slots and the page cursor.
pub struct StoreModel {
    /// The slots, by page and then by position on the page.
    pub pages: Seq<Seq<ParameterSlot>>,
    /// The active page.
    pub current_page: int,
}

/// The flat addresses `0, 1, .., TOTAL_SLOTS - 1`.
pub open spec fn flat_addresses() -> Seq<int> {
    Seq::new(TOTAL_SLOTS as nat, |g: int| g)
}

impl StoreModel {
    /// There are `N_PAGES` pages of `PARAMS_PER_PAGE` slots each.
    pub open spec fn shaped(self) -> bool {
        &&& self.pages.len() == N_PAGES
        &&& forall|p: int| 0 <= p < N_PAGES ==> (#[trigger] self.pages[p]).len() == PARAMS_PER_PAGE
    }

    /// The slot at a position.
    #[verifier::inline]
    pub open spec fn slot(self, page: int, slot: int) -> ParameterSlot {
        self.pages[page][slot]
    }

    /// The store's invariant: the cursor names a page, a slot holds a
    /// parameter exactly where the name table has a name, and every value
    /// lies within its range.
    pub open spec fn wf(self) -> bool {
        &&& self.shaped()
        &&& 0 <= self.current_page < N_PAGES
        &&& forall|p: int, s: int|
            0 <= p < N_PAGES && 0 <= s < PARAMS_PER_PAGE ==> {
                &&& (#[trigger] self.pages[p][s]).wf()
                &&& self.pages[p][s] is Active <==> spec_param_name(p, s) is Some
            }
    }

    /// The store with one slot replaced.
    pub open spec fn with_slot(self, page: int, slot: int, value: ParameterSlot) -> StoreModel {
        StoreModel {
            pages: self.pages.update(page, self.pages[page].update(slot, value)),
            current_page: self.current_page,
        }
    }

    /// The store as it is made: slots as the name table says, each parameter
    /// at its default, page 0 active.
    pub open spec fn initial() -> StoreModel {
        StoreModel {
            pages: Seq::new(
                N_PAGES as nat,
                |p: int|
                    Seq::new(
                        PARAMS_PER_PAGE as nat,
                        |s: int|
                            if spec_param_name(p, s) is Some {
                                ParameterSlot::Active(Parameter::initial())
                            } else {
                                ParameterSlot::Null
                            },
                    ),
            ),
            current_page: 0,
        }
    }

    /// The store after `set_page(page)`: the cursor moves if `page` exists.
    pub open spec fn after_set_page(self, page: int) -> StoreModel {
        if 0 <= page < N_PAGES {
            StoreModel { pages: self.pages, current_page: page }
        } else {
            self
        }
    }

    /// The store after `set_active_page(page)`: the cursor moves and every
    /// parameter on the new page is flagged for the display, if `page` exists.
    pub open spec fn after_set_active_page(self, page: int) -> StoreModel {
        if 0 <= page < N_PAGES {
            StoreModel {
                pages: self.pages.update(
                    page,
                    self.pages[page].map_values(|slot: ParameterSlot| slot.marked_for_oled()),
                ),
                current_page: page,
            }
        } else {
            self
        }
    }

    /// The store after an encoder moved `slot` of the active page by `delta`.
    /// A position off the page changes nothing, nor does a `Null` slot.
    pub open spec fn after_encoder(self, slot: int, delta: int) -> StoreModel {
        if 0 <= slot < PARAMS_PER_PAGE {
            self.with_slot(
                self.current_page,
                slot,
                self.slot(self.current_page, slot).nudged(delta),
            )
        } else {
            self
        }
    }

    /// What a bus write to the flat address `global_idx` returns.
    pub open spec fn i2c_outcome(self, global_idx: int) -> Result<(), ParameterError> {
        if !(0 <= global_idx < TOTAL_SLOTS) {
            Err(ParameterError::InvalidGlobalIndex)
        } else if self.slot(spec_page_of(global_idx), spec_slot_of(global_idx)) is Null {
            Err(ParameterError::NullSlot)
        } else {
            Ok(())
        }
    }

    /// The store after a bus write of `value` to the flat address
    /// `global_idx`. A write that fails changes nothing.
    pub open spec fn after_i2c(self, global_idx: int, value: int) -> StoreModel {
        if self.i2c_outcome(global_idx) is Ok {
            self.with_slot(
                spec_page_of(global_idx),
                spec_slot_of(global_idx),
                self.slot(spec_page_of(global_idx), spec_slot_of(global_idx)).written_from_i2c(
                    value,
                ),
            )
        } else {
            self
        }
    }

    /// The parameter at a flat address, if the address exists and its slot
    /// holds one.
    pub open spec fn param_at(self, global_idx: int) -> Option<Parameter> {
        if 0 <= global_idx < TOTAL_SLOTS {
            match self.slot(spec_page_of(global_idx), spec_slot_of(global_idx)) {
                ParameterSlot::Active(p) => Some(p),
                ParameterSlot::Null => None,
            }
        } else {
            None
        }
    }

    /// How many slots of `page` hold a parameter; 0 for a page that does not
    /// exist.
    pub open spec fn count_active(self, page: int) -> nat {
        if 0 <= page < N_PAGES {
            self.pages[page].filter(|slot: ParameterSlot| slot is Active).len()
        } else {
            0
        }
    }

    /// What a consumer is told of the slot at a flat address: name, value and
    /// position, if the slot holds a parameter on which `flag` is set.
    pub open spec fn pending_at(self, flag: ChangeFlag, global_idx: int) -> Option<
        ParameterChange,
    > {
        let page = spec_page_of(global_idx);
        let slot = spec_slot_of(global_idx);
        match (self.slot(page, slot), spec_param_name(page, slot)) {
            (ParameterSlot::Active(p), Some(name)) if self.slot(page, slot).is_flagged(flag) => Some(
                ParameterChange { name, value: p.value, page: page as usize, encoder: slot as usize },
            ),
            _ => None,
        }
    }

    /// [`pending_at`](Self::pending_at) as a function of the flat address.
    pub open spec fn pending_by_address(self, flag: ChangeFlag) -> spec_fn(int) -> Option<
        ParameterChange,
    > {
        |g: int| self.pending_at(flag, g)
    }

    /// Everything pending for a consumer, in ascending order of flat address.
    pub open spec fn pending(self, flag: ChangeFlag) -> Seq<ParameterChange> {
        flat_addresses().filter_map(self.pending_by_address(flag))
    }

    /// The store with `flag` cleared on every parameter.
    pub open spec fn drained(self, flag: ChangeFlag) -> StoreModel {
        StoreModel {
            pages: self.pages.map_values(
                |page: Seq<ParameterSlot>| page.map_values(|slot: ParameterSlot| slot.cleared(flag)),
            ),
            current_page: self.current_page,
        }
    }
}

} // verus!
