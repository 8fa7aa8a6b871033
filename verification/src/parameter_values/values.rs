use vstd::prelude::*;

use super::error::ParameterError;
use super::model::{flat_addresses, StoreModel};
use super::page::Page;
use super::parameter::{ChangeFlag, Parameter, ParameterSlot};
use super::{
    param_name, spec_global_index, spec_page_of, spec_param_name, spec_slot_of, N_PAGES,
    PARAMS_PER_PAGE, TOTAL_SLOTS,
};

verus! {

/// One pending change, as the draining methods report it.
#[derive(Debug, Clone, Copy)]
pub struct ParameterChange {
    /// Display name of the parameter, from the name table.
    pub name: &'static str,
    /// Value at the time of draining.
    pub value: i32,
    /// Page index (0-based).
    pub page: usize,
    /// Slot index within the page (0-based).
    pub encoder: usize,
}

/// The first `count` entries of `changes` are the elements of `pending`, in
/// order, and the entries after them are `None`.
pub open spec fn holds_feed(
    changes: [Option<ParameterChange>; TOTAL_SLOTS],
    count: usize,
    pending: Seq<ParameterChange>,
) -> bool {
    &&& count == pending.len()
    &&& count <= TOTAL_SLOTS
    &&& forall|i: int| 0 <= i < count ==> changes[i] == Some(#[trigger] pending[i])
    &&& forall|i: int| count <= i < TOTAL_SLOTS ==> (#[trigger] changes[i]) is None
}

/// The parameter store: pages of slots and the cursor that says which page
/// the encoders act on.
pub struct ParameterValues {
    /// All pages, indexed 0 to `N_PAGES - 1`.
    pub pages: [Page; N_PAGES],
    /// Index of the active page.
    pub current_page: usize,
}

impl View for ParameterValues {
    type V = StoreModel;

    open spec fn view(&self) -> StoreModel {
        StoreModel {
            pages: Seq::new(N_PAGES as nat, |p: int| self.pages[p]@),
            current_page: self.current_page as int,
        }
    }
}

impl ParameterValues {
    /// The store's invariant, see [`StoreModel::wf`].
    pub open spec fn wf(&self) -> bool {
        self@.wf()
    }

    /// Reads one slot.
    fn slot_at(&self, page: usize, slot: usize) -> (value: ParameterSlot)
        requires
            page < N_PAGES,
            slot < PARAMS_PER_PAGE,
        ensures
            value == self@.pages[page as int][slot as int],
    {
        self.pages[page].params[slot]
    }

    /// Replaces one slot and leaves everything else as it is.
    fn put_slot(&mut self, page: usize, slot: usize, value: ParameterSlot)
        requires
            page < N_PAGES,
            slot < PARAMS_PER_PAGE,
        ensures
            final(self)@ == old(self)@.with_slot(page as int, slot as int, value),
    {
        let ghost before = self.pages;
        self.pages[page].params[slot] = value;
        assert(self.pages[page as int]@ == before[page as int]@.update(slot as int, value));
        assert(self@.pages =~~= old(self)@.with_slot(page as int, slot as int, value).pages);
    }

    /// Clears one change flag on one slot, if the slot holds a parameter.
    /// Nothing else changes.
    pub(crate) fn clear_flag(&mut self, page: usize, slot: usize, flag: ChangeFlag)
        requires
            page < N_PAGES,
            slot < PARAMS_PER_PAGE,
        ensures
            final(self)@ == old(self)@.with_slot(
                page as int,
                slot as int,
                old(self)@.pages[page as int][slot as int].cleared(flag),
            ),
    {
        if let ParameterSlot::Active(param) = self.slot_at(page, slot) {
            let mut seen = param;
            match flag {
                ChangeFlag::Oled => {
                    seen.changed_oled = false;
                },
                ChangeFlag::I2c => {
                    seen.changed_i2c = false;
                },
            }
            self.put_slot(page, slot, ParameterSlot::Active(seen));
        } else {
            assert(self@.pages =~~= old(self)@.with_slot(
                page as int,
                slot as int,
                old(self)@.pages[page as int][slot as int].cleared(flag),
            ).pages);
        }
    }

    /// Create a store whose slots are `Active` or `Null` as the name table
    /// says, every parameter at its default, page 0 active.
    pub fn new() -> (store: Self)
        ensures
            store@ == StoreModel::initial(),
            store.wf(),
    {
        let mut store = Self {
            pages: [Page::blank(), Page::blank(), Page::blank(), Page::blank()],
            current_page: 0,
        };
        let mut global_idx: usize = 0;
        while global_idx < TOTAL_SLOTS
            invariant
                global_idx <= TOTAL_SLOTS,
                store.current_page == 0,
                forall|p: int, s: int|
                    0 <= p < N_PAGES && 0 <= s < PARAMS_PER_PAGE && spec_global_index(p, s)
                        < global_idx ==> #[trigger] store@.pages[p][s] == StoreModel::initial().slot(
                        p,
                        s,
                    ),
            decreases TOTAL_SLOTS - global_idx,
        {
            let page = global_idx / PARAMS_PER_PAGE;
            let slot = global_idx % PARAMS_PER_PAGE;
            let fresh = match param_name(page, slot) {
                Some(_) => ParameterSlot::Active(Parameter::default()),
                None => ParameterSlot::Null,
            };
            store.put_slot(page, slot, fresh);
            global_idx += 1;
        }
        assert(store@.pages =~~= StoreModel::initial().pages);
        store
    }

    /// Tells whether the store's invariant holds, see [`wf`](Self::wf). It
    /// holds of a new store and every method keeps it; it can only be lost
    /// by writing to the public fields.
    pub fn is_consistent(&self) -> (ok: bool)
        ensures
            ok == self.wf(),
    {
        if self.current_page >= N_PAGES {
            return false;
        }
        let mut global_idx: usize = 0;
        while global_idx < TOTAL_SLOTS
            invariant
                global_idx <= TOTAL_SLOTS,
                self.current_page < N_PAGES,
                forall|p: int, s: int|
                    0 <= p < N_PAGES && 0 <= s < PARAMS_PER_PAGE && spec_global_index(p, s) < global_idx
                        ==> {
                        &&& (#[trigger] self@.pages[p][s]).wf()
                        &&& self@.pages[p][s] is Active <==> spec_param_name(p, s) is Some
                    },
            decreases TOTAL_SLOTS - global_idx,
        {
            let page = global_idx / PARAMS_PER_PAGE;
            let encoder = global_idx % PARAMS_PER_PAGE;
            let named = param_name(page, encoder).is_some();
            let ok = match self.slot_at(page, encoder) {
                ParameterSlot::Active(param) => named && param.min_value <= param.value
                    && param.value <= param.max_value,
                ParameterSlot::Null => !named,
            };
            if !ok {
                assert(!(self@.pages[page as int][encoder as int].wf()
                    && (self@.pages[page as int][encoder as int] is Active <==> spec_param_name(
                    page as int,
                    encoder as int,
                ) is Some)));
                return false;
            }
            global_idx += 1;
        }
        true
    }

    /// Returns the index of the active page.
    pub fn current_page(&self) -> (page: usize)
        ensures
            page == self@.current_page,
    {
        self.current_page
    }

    /// Set the active page without touching any change flag.
    ///
    /// Returns [`ParameterError::InvalidPageIndex`] if `page >= N_PAGES`; the
    /// store is then unchanged.
    pub fn set_page(&mut self, page: usize) -> (res: Result<(), ParameterError>)
        ensures
            res == if page < N_PAGES {
                Ok::<(), ParameterError>(())
            } else {
                Err(ParameterError::InvalidPageIndex)
            },
            final(self)@ == old(self)@.after_set_page(page as int),
            old(self).wf() ==> final(self).wf(),
    {
        if page >= N_PAGES {
            return Err(ParameterError::InvalidPageIndex);
        }
        self.current_page = page;
        assert(self@.pages =~= old(self)@.pages);
        Ok(())
    }

    /// Set the active page and flag every parameter on it for the display,
    /// which has to draw the whole page anew. `changed_i2c` is not touched.
    ///
    /// Returns [`ParameterError::InvalidPageIndex`] if `page >= N_PAGES`; the
    /// store is then unchanged.
    pub fn set_active_page(&mut self, page: usize) -> (res: Result<(), ParameterError>)
        ensures
            res == if page < N_PAGES {
                Ok::<(), ParameterError>(())
            } else {
                Err(ParameterError::InvalidPageIndex)
            },
            final(self)@ == old(self)@.after_set_active_page(page as int),
            old(self).wf() ==> final(self).wf(),
    {
        if page >= N_PAGES {
            return Err(ParameterError::InvalidPageIndex);
        }
        self.current_page = page;
        let mut slot_idx: usize = 0;
        while slot_idx < PARAMS_PER_PAGE
            invariant
                page < N_PAGES,
                slot_idx <= PARAMS_PER_PAGE,
                self.current_page == page,
                forall|p: int, s: int|
                    0 <= p < N_PAGES && 0 <= s < PARAMS_PER_PAGE ==> #[trigger] self@.pages[p][s]
                        == if p == page && s < slot_idx {
                        old(self)@.pages[p][s].marked_for_oled()
                    } else {
                        old(self)@.pages[p][s]
                    },
            decreases PARAMS_PER_PAGE - slot_idx,
        {
            if let ParameterSlot::Active(param) = self.slot_at(page, slot_idx) {
                let mut marked = param;
                marked.changed_oled = true;
                self.put_slot(page, slot_idx, ParameterSlot::Active(marked));
            }
            slot_idx += 1;
        }
        assert(self@.pages =~~= old(self)@.after_set_active_page(page as int).pages);
        Ok(())
    }

    /// Apply an encoder delta to a slot of the active page.
    ///
    /// The new value is the old one plus `delta`, clamped to the parameter's
    /// range, and both change flags are set. If `encoder_idx` is off the page
    /// or the slot is `Null`, nothing happens: a turned encoder that has no
    /// parameter on this page is no error.
    pub fn update_from_encoder(&mut self, encoder_idx: usize, delta: i32)
        requires
            old(self).wf(),
        ensures
            final(self)@ == old(self)@.after_encoder(encoder_idx as int, delta as int),
            final(self).wf(),
    {
        self.nudge_slot(encoder_idx, delta as i64)
    }

    /// As [`update_from_encoder`](Self::update_from_encoder), for a delta
    /// that is the exact difference of two encoder positions.
    pub fn nudge_slot(&mut self, encoder_idx: usize, delta: i64)
        requires
            old(self).wf(),
        ensures
            final(self)@ == old(self)@.after_encoder(encoder_idx as int, delta as int),
            final(self).wf(),
    {
        if encoder_idx >= PARAMS_PER_PAGE {
            return ;
        }
        let page = self.current_page;
        if let ParameterSlot::Active(param) = self.slot_at(page, encoder_idx) {
            let mut moved = param;
            moved.nudge(delta);
            self.put_slot(page, encoder_idx, ParameterSlot::Active(moved));
        }
        assert(self@.pages =~~= old(self)@.after_encoder(encoder_idx as int, delta as int).pages);
    }

    /// Update a parameter by flat address from a bus write.
    ///
    /// The value is clamped to the parameter's range and only `changed_oled`
    /// is set: what came in over the bus must reach the display and must not
    /// be sent back out.
    ///
    /// Flat addresses count slots page by page: 0 to 3 are page 0, 4 to 7
    /// page 1, and so on.
    ///
    /// Returns [`ParameterError::InvalidGlobalIndex`] if `global_idx` is out
    /// of range and [`ParameterError::NullSlot`] if the slot holds no
    /// parameter; the store is then unchanged.
    pub fn update_from_i2c(&mut self, global_idx: usize, value: i32) -> (res: Result<
        (),
        ParameterError,
    >)
        requires
            old(self).wf(),
        ensures
            res == old(self)@.i2c_outcome(global_idx as int),
            final(self)@ == old(self)@.after_i2c(global_idx as int, value as int),
            final(self).wf(),
    {
        let (page, encoder) = match self.global_to_page_encoder(global_idx) {
            Ok(position) => position,
            Err(e) => {
                return Err(e);
            },
        };
        match self.slot_at(page, encoder) {
            ParameterSlot::Active(param) => {
                let mut written = param;
                written.set_value_from_i2c(value);
                self.put_slot(page, encoder, ParameterSlot::Active(written));
                Ok(())
            },
            ParameterSlot::Null => Err(ParameterError::NullSlot),
        }
    }

    /// The parameter at a flat address, or `None` if the address is out of
    /// range or its slot is `Null`.
    pub fn get_param_by_global_idx(&self, idx: usize) -> (param: Option<&Parameter>)
        ensures
            match self@.param_at(idx as int) {
                Some(p) => param == Some(&p),
                None => param is None,
            },
    {
        match self.global_to_page_encoder(idx) {
            Ok((page, encoder)) => self.pages[page].params[encoder].as_ref(),
            Err(_) => None,
        }
    }

    /// Set a parameter by flat address as a bus write does, see
    /// [`update_from_i2c`](Self::update_from_i2c).
    pub fn set_param_by_global_idx(&mut self, idx: usize, value: i32) -> (res: Result<
        (),
        ParameterError,
    >)
        requires
            old(self).wf(),
        ensures
            res == old(self)@.i2c_outcome(idx as int),
            final(self)@ == old(self)@.after_i2c(idx as int, value as int),
            final(self).wf(),
    {
        self.update_from_i2c(idx, value)
    }

    /// Count the slots of a page that hold a parameter. Returns 0 if
    /// `page_idx` is out of range.
    pub fn count_active_params(&self, page_idx: usize) -> (count: usize)
        ensures
            count == self@.count_active(page_idx as int),
    {
        if page_idx >= N_PAGES {
            return 0;
        }
        let mut count: usize = 0;
        let mut slot_idx: usize = 0;
        while slot_idx < PARAMS_PER_PAGE
            invariant
                page_idx < N_PAGES,
                slot_idx <= PARAMS_PER_PAGE,
                count <= slot_idx,
                count == self.pages[page_idx as int]@.take(slot_idx as int).filter(
                    |slot: ParameterSlot| slot is Active,
                ).len(),
            decreases PARAMS_PER_PAGE - slot_idx,
        {
            proof {
                let slots = self.pages[page_idx as int]@;
                assert(slots.take(slot_idx + 1).drop_last() == slots.take(slot_idx as int));
                reveal(Seq::filter);
            }
            if self.pages[page_idx].params[slot_idx].is_active() {
                count += 1;
            }
            slot_idx += 1;
        }
        assert(self.pages[page_idx as int]@.take(PARAMS_PER_PAGE as int)
            == self.pages[page_idx as int]@);
        count
    }

    /// Collect every parameter whose `changed_oled` flag is set, then clear
    /// those flags. `changed_i2c` is left as it is.
    ///
    /// Returns a fixed-size array and the number of entries in use; the
    /// entries are `result.0[..result.1]`, in ascending order of flat
    /// address.
    pub fn take_oled_changes(&mut self) -> (res: ([Option<ParameterChange>; TOTAL_SLOTS], usize))
        requires
            old(self).wf(),
        ensures
            holds_feed(res.0, res.1, old(self)@.pending(ChangeFlag::Oled)),
            final(self)@ == old(self)@.drained(ChangeFlag::Oled),
            final(self).wf(),
    {
        self.take_changes(ChangeFlag::Oled)
    }

    /// Collect every parameter whose `changed_i2c` flag is set, then clear
    /// those flags. `changed_oled` is left as it is.
    ///
    /// Returns a fixed-size array and the number of entries in use; the
    /// entries are `result.0[..result.1]`, in ascending order of flat
    /// address.
    pub fn take_i2c_changes(&mut self) -> (res: ([Option<ParameterChange>; TOTAL_SLOTS], usize))
        requires
            old(self).wf(),
        ensures
            holds_feed(res.0, res.1, old(self)@.pending(ChangeFlag::I2c)),
            final(self)@ == old(self)@.drained(ChangeFlag::I2c),
            final(self).wf(),
    {
        self.take_changes(ChangeFlag::I2c)
    }

    /// Drains one of the two flags over the whole store.
    fn take_changes(&mut self, flag: ChangeFlag) -> (res: (
        [Option<ParameterChange>; TOTAL_SLOTS],
        usize,
    ))
        requires
            old(self).wf(),
        ensures
            holds_feed(res.0, res.1, old(self)@.pending(flag)),
            final(self)@ == old(self)@.drained(flag),
            final(self).wf(),
    {
        let mut result: [Option<ParameterChange>; TOTAL_SLOTS] = [
            None, None, None, None,
            None, None, None, None,
            None, None, None, None,
            None, None, None, None,
        ];
        let mut count: usize = 0;
        let mut global_idx: usize = 0;
        let ghost by_address = old(self)@.pending_by_address(flag);
        while global_idx < TOTAL_SLOTS
            invariant
                global_idx <= TOTAL_SLOTS,
                by_address == old(self)@.pending_by_address(flag),
                old(self).wf(),
                self.current_page == old(self).current_page,
                holds_feed(result, count, flat_addresses().take(global_idx as int).filter_map(by_address)),
                count <= global_idx,
                forall|p: int, s: int|
                    0 <= p < N_PAGES && 0 <= s < PARAMS_PER_PAGE ==> #[trigger] self@.pages[p][s]
                        == if spec_global_index(p, s) < global_idx {
                        old(self)@.pages[p][s].cleared(flag)
                    } else {
                        old(self)@.pages[p][s]
                    },
            decreases TOTAL_SLOTS - global_idx,
        {
            let page = global_idx / PARAMS_PER_PAGE;
            let encoder = global_idx % PARAMS_PER_PAGE;
            proof {
                flat_addresses().lemma_filter_map_take_succ(by_address, global_idx as int);
            }
            if let ParameterSlot::Active(param) = self.slot_at(page, encoder) {
                let flagged = match flag {
                    ChangeFlag::Oled => param.changed_oled,
                    ChangeFlag::I2c => param.changed_i2c,
                };
                if flagged {
                    if let Some(name) = param_name(page, encoder) {
                        result[count] = Some(
                            ParameterChange { name, value: param.value, page, encoder },
                        );
                        count += 1;
                    }
                    self.clear_flag(page, encoder, flag);
                }
            }
            global_idx += 1;
        }
        assert(flat_addresses().take(TOTAL_SLOTS as int) == flat_addresses());
        assert(self@.pages =~~= old(self)@.drained(flag).pages);
        (result, count)
    }

    /// Split a flat address into page and slot.
    ///
    /// Returns [`ParameterError::InvalidGlobalIndex`] if `global_idx` is not
    /// below `TOTAL_SLOTS`.
    pub fn global_to_page_encoder(&self, global_idx: usize) -> (res: Result<
        (usize, usize),
        ParameterError,
    >)
        ensures
            res == if global_idx < TOTAL_SLOTS {
                Ok::<(usize, usize), ParameterError>(
                    (
                        spec_page_of(global_idx as int) as usize,
                        spec_slot_of(global_idx as int) as usize,
                    ),
                )
            } else {
                Err(ParameterError::InvalidGlobalIndex)
            },
            res matches Ok((page, encoder)) ==> page < N_PAGES && encoder < PARAMS_PER_PAGE,
    {
        if global_idx >= TOTAL_SLOTS {
            return Err(ParameterError::InvalidGlobalIndex);
        }
        let page = global_idx / PARAMS_PER_PAGE;
        let encoder = global_idx % PARAMS_PER_PAGE;
        Ok((page, encoder))
    }

    /// Put a page and a slot together into a flat address, the inverse of
    /// [`global_to_page_encoder`](Self::global_to_page_encoder).
    ///
    /// Returns [`ParameterError::InvalidPageIndex`] if `page >= N_PAGES`, and
    /// otherwise [`ParameterError::InvalidEncoderIndex`] if
    /// `encoder >= PARAMS_PER_PAGE`.
    pub fn page_encoder_to_global(&self, page: usize, encoder: usize) -> (res: Result<
        usize,
        ParameterError,
    >)
        ensures
            res == if page >= N_PAGES {
                Err::<usize, ParameterError>(ParameterError::InvalidPageIndex)
            } else if encoder >= PARAMS_PER_PAGE {
                Err(ParameterError::InvalidEncoderIndex)
            } else {
                Ok(spec_global_index(page as int, encoder as int) as usize)
            },
            res matches Ok(global_idx) ==> global_idx < TOTAL_SLOTS,
    {
        if page >= N_PAGES {
            return Err(ParameterError::InvalidPageIndex);
        }
        if encoder >= PARAMS_PER_PAGE {
            return Err(ParameterError::InvalidEncoderIndex);
        }
        Ok(page * PARAMS_PER_PAGE + encoder)
    }

    /// Returns the active page.
    pub fn get_active_page(&self) -> (page: &Page)
        requires
            self.current_page < N_PAGES,
        ensures
            *page == self.pages[self.current_page as int],
    {
        &self.pages[self.current_page]
    }

    /// Returns the active page for writing. What the caller writes through
    /// the reference is what the store holds on that page afterwards.
    pub fn get_active_page_mut(&mut self) -> (page: &mut Page)
        requires
            old(self).current_page < N_PAGES,
        ensures
            *page == old(self).pages[old(self).current_page as int],
            final(self).current_page == old(self).current_page,
            final(self).pages@ == old(self).pages@.update(
                old(self).current_page as int,
                *final(page),
            ),
    {
        &mut self.pages[self.current_page]
    }
}

impl Default for ParameterValues {
    fn default() -> (store: Self)
        ensures
            store@ == StoreModel::initial(),
            store.wf(),
    {
        Self::new()
    }
}

} // verus!

