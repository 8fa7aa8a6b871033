//! What holds of the store whatever is done to it, stated over
//! [`StoreModel`] and proved once.

use vstd::prelude::*;

use super::model::{flat_addresses, StoreModel};
use super::parameter::{ChangeFlag, ParameterSlot};
use super::values::ParameterChange;
use super::{spec_global_index, spec_page_of, spec_slot_of, N_PAGES, PARAMS_PER_PAGE, TOTAL_SLOTS};

verus! {

/// One step that a producer, the page switch or a consumer can take.
pub enum StoreOp {
    /// An encoder moved `slot` of the active page by `delta`.
    Encoder { slot: int, delta: int },
    /// The bus wrote `value` to the flat address `global_idx`.
    I2c { global_idx: int, value: int },
    /// The cursor was moved without a redraw.
    SetPage { page: int },
    /// The cursor was moved and the new page flagged for the display.
    SetActivePage { page: int },
    /// A consumer drained its flag.
    Drain { flag: ChangeFlag },
}

impl StoreModel {
    /// The store after one step.
    pub open spec fn after(self, op: StoreOp) -> StoreModel {
        match op {
            StoreOp::Encoder { slot, delta } => self.after_encoder(slot, delta),
            StoreOp::I2c { global_idx, value } => self.after_i2c(global_idx, value),
            StoreOp::SetPage { page } => self.after_set_page(page),
            StoreOp::SetActivePage { page } => self.after_set_active_page(page),
            StoreOp::Drain { flag } => self.drained(flag),
        }
    }

    /// The store after a sequence of steps, first to last.
    pub open spec fn after_all(self, ops: Seq<StoreOp>) -> StoreModel
        decreases ops.len(),
    {
        if ops.len() == 0 {
            self
        } else {
            self.after_all(ops.drop_last()).after(ops.last())
        }
    }
}

/// A single step keeps the store's invariant. In particular every value stays
/// within its range, whatever delta or value was written.
pub proof fn lemma_step_keeps_invariant(m: StoreModel, op: StoreOp)
    requires
        m.wf(),
    ensures
        m.after(op).wf(),
{
}

/// Clamp invariant: after any sequence of encoder writes, bus writes, page
/// switches and drains, every parameter's value lies within its range (and
/// the rest of the store's invariant holds too).
pub proof fn lemma_values_stay_in_range(m: StoreModel, ops: Seq<StoreOp>)
    requires
        m.wf(),
    ensures
        m.after_all(ops).wf(),
        forall|p: int, s: int|
            0 <= p < N_PAGES && 0 <= s < PARAMS_PER_PAGE ==> (
            #[trigger] m.after_all(ops).pages[p][s] matches ParameterSlot::Active(param)
                ==> param.min_value <= param.value <= param.max_value),
    decreases ops.len(),
{
    if ops.len() > 0 {
        lemma_values_stay_in_range(m, ops.drop_last());
        lemma_step_keeps_invariant(m.after_all(ops.drop_last()), ops.last());
    }
}

/// Flag independence, bus side: a bus write that succeeds sets
/// `changed_oled` on its parameter and leaves `changed_i2c` as it was, set or
/// clear.
pub proof fn lemma_i2c_write_flags(m: StoreModel, global_idx: int, value: int)
    requires
        m.shaped(),
        m.i2c_outcome(global_idx) is Ok,
    ensures
        m.after_i2c(global_idx, value).param_at(global_idx) is Some,
        m.after_i2c(global_idx, value).param_at(global_idx)->Some_0.changed_oled,
        m.after_i2c(global_idx, value).param_at(global_idx)->Some_0.changed_i2c == m.param_at(
            global_idx,
        )->Some_0.changed_i2c,
{
}

/// Flag independence, encoder side: an encoder write to a slot that holds a
/// parameter sets both flags.
pub proof fn lemma_encoder_write_flags(m: StoreModel, slot: int, delta: int)
    requires
        m.shaped(),
        0 <= m.current_page < N_PAGES,
        0 <= slot < PARAMS_PER_PAGE,
        m.slot(m.current_page, slot) is Active,
    ensures
        m.after_encoder(slot, delta).slot(m.current_page, slot) is Active,
        m.after_encoder(slot, delta).slot(m.current_page, slot).is_flagged(ChangeFlag::Oled),
        m.after_encoder(slot, delta).slot(m.current_page, slot).is_flagged(ChangeFlag::I2c),
{
}

/// Writes are local: an encoder write changes at most its slot of the active
/// page, a bus write at most the slot at its address, and neither moves the
/// cursor.
pub proof fn lemma_write_is_local(
    m: StoreModel,
    slot: int,
    delta: int,
    global_idx: int,
    value: int,
    p: int,
    s: int,
)
    requires
        m.shaped(),
        0 <= m.current_page < N_PAGES,
        0 <= p < N_PAGES,
        0 <= s < PARAMS_PER_PAGE,
    ensures
        m.after_encoder(slot, delta).current_page == m.current_page,
        !(p == m.current_page && s == slot) ==> m.after_encoder(slot, delta).slot(p, s) == m.slot(
            p,
            s,
        ),
        m.after_i2c(global_idx, value).current_page == m.current_page,
        spec_global_index(p, s) != global_idx ==> m.after_i2c(global_idx, value).slot(p, s)
            == m.slot(p, s),
{
}

/// Where nothing is pending at any address, the feed is empty.
pub proof fn lemma_nothing_pending(m: StoreModel, flag: ChangeFlag)
    requires
        forall|g: int| 0 <= g < TOTAL_SLOTS ==> (#[trigger] m.pending_at(flag, g)) is None,
    ensures
        m.pending(flag) == Seq::<ParameterChange>::empty(),
{
    let feed = m.pending(flag);
    if feed.len() > 0 {
        flat_addresses().lemma_filter_map_contains(m.pending_by_address(flag), feed[0]);
    }
}

/// Drain idempotence: once a flag is drained nothing is pending for it, so a
/// second drain with no write in between reports nothing and changes
/// nothing.
pub proof fn lemma_drain_idempotent(m: StoreModel, flag: ChangeFlag)
    requires
        m.shaped(),
    ensures
        m.drained(flag).pending(flag) == Seq::<ParameterChange>::empty(),
        m.drained(flag).drained(flag) == m.drained(flag),
{
    let d = m.drained(flag);
    lemma_nothing_pending(d, flag);
    assert(d.drained(flag).pages =~~= d.pages);
}

/// The first drain reports something exactly if some parameter has the flag
/// set.
pub proof fn lemma_drain_reports_flagged(m: StoreModel, flag: ChangeFlag)
    requires
        m.wf(),
    ensures
        m.pending(flag).len() > 0 <==> exists|p: int, s: int|
            0 <= p < N_PAGES && 0 <= s < PARAMS_PER_PAGE && (#[trigger] m.pages[p][s]).is_flagged(
                flag,
            ),
{
    let feed = m.pending(flag);
    if feed.len() > 0 {
        flat_addresses().lemma_filter_map_contains(m.pending_by_address(flag), feed[0]);
    }
    if exists|p: int, s: int|
        0 <= p < N_PAGES && 0 <= s < PARAMS_PER_PAGE && (#[trigger] m.pages[p][s]).is_flagged(
            flag,
        ) {
        let (p, s) = choose|p: int, s: int|
            0 <= p < N_PAGES && 0 <= s < PARAMS_PER_PAGE && (#[trigger] m.pages[p][s]).is_flagged(
                flag,
            );
        lemma_pending_is_reported(m, flag, spec_global_index(p, s));
    }
}

/// The flat address that a reported change speaks of.
pub open spec fn address_of(change: ParameterChange) -> int {
    spec_global_index(change.page as int, change.encoder as int)
}

/// The changes pending below the flat address `limit`, in ascending order of
/// address. With `limit == TOTAL_SLOTS` this is the whole feed.
pub open spec fn pending_below(m: StoreModel, flag: ChangeFlag, limit: int) -> Seq<
    ParameterChange,
> {
    flat_addresses().take(limit).filter_map(m.pending_by_address(flag))
}

/// Every change pending below `limit` speaks of an address below `limit`,
/// is what is pending at that address, and comes after the changes at lower
/// addresses.
pub proof fn lemma_pending_below_ascends(m: StoreModel, flag: ChangeFlag, limit: int)
    requires
        0 <= limit <= TOTAL_SLOTS,
    ensures
        forall|i: int|
            0 <= i < pending_below(m, flag, limit).len() ==> {
                let change = #[trigger] pending_below(m, flag, limit)[i];
                &&& 0 <= address_of(change) < limit
                &&& m.pending_at(flag, address_of(change)) == Some(change)
            },
        forall|i: int, j: int|
            0 <= i < j < pending_below(m, flag, limit).len() ==> address_of(
                #[trigger] pending_below(m, flag, limit)[i],
            ) < address_of(#[trigger] pending_below(m, flag, limit)[j]),
    decreases limit,
{
    let f = m.pending_by_address(flag);
    let feed = pending_below(m, flag, limit);
    if limit == 0 {
        assert(flat_addresses().take(0) =~= Seq::<int>::empty());
    } else {
        let before = pending_below(m, flag, limit - 1);
        lemma_pending_below_ascends(m, flag, limit - 1);
        flat_addresses().lemma_filter_map_take_succ(f, limit - 1);
        assert forall|i: int| 0 <= i < feed.len() implies {
            let change = #[trigger] feed[i];
            &&& 0 <= address_of(change) < limit
            &&& m.pending_at(flag, address_of(change)) == Some(change)
        } by {
            if i < before.len() {
                assert(feed[i] == before[i]);
            }
        }
        assert forall|i: int, j: int| 0 <= i < j < feed.len() implies address_of(#[trigger] feed[i])
            < address_of(#[trigger] feed[j]) by {
            assert(feed[i] == before[i]);
            if j < before.len() {
                assert(feed[j] == before[j]);
            }
        }
    }
}

/// The feed is in ascending order of flat address, and each of its entries
/// is what is pending at the address it speaks of.
pub proof fn lemma_feed_ascends(m: StoreModel, flag: ChangeFlag)
    ensures
        forall|i: int|
            0 <= i < m.pending(flag).len() ==> {
                let change = #[trigger] m.pending(flag)[i];
                &&& 0 <= address_of(change) < TOTAL_SLOTS
                &&& m.pending_at(flag, address_of(change)) == Some(change)
            },
        forall|i: int, j: int|
            0 <= i < j < m.pending(flag).len() ==> address_of(#[trigger] m.pending(flag)[i])
                < address_of(#[trigger] m.pending(flag)[j]),
{
    lemma_pending_below_ascends(m, flag, TOTAL_SLOTS as int);
    assert(flat_addresses().take(TOTAL_SLOTS as int) =~= flat_addresses());
}

/// What is pending at an address is part of the feed.
pub proof fn lemma_pending_is_reported(m: StoreModel, flag: ChangeFlag, global_idx: int)
    requires
        0 <= global_idx < TOTAL_SLOTS,
        m.pending_at(flag, global_idx) is Some,
    ensures
        m.pending(flag).contains(m.pending_at(flag, global_idx)->Some_0),
{
    lemma_filter_map_keeps(flat_addresses(), m.pending_by_address(flag), global_idx);
}

/// `filter_map` keeps the image of every element that is mapped to `Some`.
proof fn lemma_filter_map_keeps(
    xs: Seq<int>,
    f: spec_fn(int) -> Option<ParameterChange>,
    i: int,
)
    requires
        0 <= i < xs.len(),
        f(xs[i]) is Some,
    ensures
        xs.filter_map(f).contains(f(xs[i])->Some_0),
    decreases xs.len(),
{
    let out = xs.filter_map(f);
    let rest = xs.drop_last().filter_map(f);
    if i == xs.len() - 1 {
        assert(out[out.len() - 1] == f(xs[i])->Some_0);
    } else {
        lemma_filter_map_keeps(xs.drop_last(), f, i);
        let j = choose|j: int| 0 <= j < rest.len() && rest[j] == f(xs[i])->Some_0;
        assert(out[j] == f(xs[i])->Some_0);
    }
}

/// Cross-flag isolation: draining one flag leaves the other flag, and the
/// value and range, of every parameter as they were.
pub proof fn lemma_drain_leaves_other_flag(m: StoreModel, flag: ChangeFlag, p: int, s: int)
    requires
        m.shaped(),
        0 <= p < N_PAGES,
        0 <= s < PARAMS_PER_PAGE,
    ensures
        flag == ChangeFlag::Oled ==> m.drained(flag).slot(p, s).is_flagged(ChangeFlag::I2c)
            == m.slot(p, s).is_flagged(ChangeFlag::I2c),
        flag == ChangeFlag::I2c ==> m.drained(flag).slot(p, s).is_flagged(ChangeFlag::Oled)
            == m.slot(p, s).is_flagged(ChangeFlag::Oled),
        !m.drained(flag).slot(p, s).is_flagged(flag),
        m.drained(flag).slot(p, s) == m.slot(p, s).cleared(flag),
{
}

/// Global-index bijection: splitting a flat address into page and slot and
/// putting the two together again gives the address back, and the other way
/// round; the parts of a valid address are a valid page and a valid slot.
pub proof fn lemma_global_index_bijection()
    ensures
        forall|g: int|
            0 <= g < TOTAL_SLOTS ==> {
                &&& 0 <= spec_page_of(g) < N_PAGES
                &&& 0 <= spec_slot_of(g) < PARAMS_PER_PAGE
                &&& #[trigger] spec_global_index(spec_page_of(g), spec_slot_of(g)) == g
            },
        forall|p: int, s: int|
            0 <= p < N_PAGES && 0 <= s < PARAMS_PER_PAGE ==> {
                &&& 0 <= #[trigger] spec_global_index(p, s) < TOTAL_SLOTS
                &&& spec_page_of(spec_global_index(p, s)) == p
                &&& spec_slot_of(spec_global_index(p, s)) == s
            },
{
}

/// Null-slot no-op: an encoder delta aimed at a `Null` slot, or at a position
/// off the page, leaves the whole store as it was, whatever the delta and
/// whichever page is active.
pub proof fn lemma_null_slot_no_op(m: StoreModel, slot: int, delta: int)
    requires
        m.shaped(),
        0 <= m.current_page < N_PAGES,
        !(0 <= slot < PARAMS_PER_PAGE) || m.slot(m.current_page, slot) is Null,
    ensures
        m.after_encoder(slot, delta) == m,
{
    assert(m.after_encoder(slot, delta).pages =~~= m.pages);
}

/// Page-switch redraw: after `set_active_page(page)` every parameter on
/// `page` is flagged for the display, whatever its flag was before, and no
/// `changed_i2c` flag has changed; `set_page(page)` changes no flag at all.
pub proof fn lemma_page_switch_redraw(m: StoreModel, page: int)
    requires
        m.shaped(),
        0 <= page < N_PAGES,
    ensures
        m.after_set_active_page(page).current_page == page,
        forall|s: int|
            0 <= s < PARAMS_PER_PAGE ==> {
                let before = m.slot(page, s);
                let after = #[trigger] m.after_set_active_page(page).slot(page, s);
                &&& after is Active <==> before is Active
                &&& after is Active ==> after.is_flagged(ChangeFlag::Oled)
                &&& after.is_flagged(ChangeFlag::I2c) == before.is_flagged(ChangeFlag::I2c)
            },
        forall|p: int|
            0 <= p < N_PAGES && p != page ==> #[trigger] m.after_set_active_page(page).pages[p]
                == m.pages[p],
        m.after_set_page(page).current_page == page,
        m.after_set_page(page).pages == m.pages,
{
}

} // verus!
