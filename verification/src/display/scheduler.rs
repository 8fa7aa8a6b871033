//! The periodic display cycle: snapshot, build, compare, draw, reconcile.
//!
//! The store is only touched in [`take_snapshot`] and [`reconcile`], which
//! are the two moments at which the caller holds the store's lock. Drawing
//! and the transfer to the display happen between them, without the lock, so
//! a producer may write in the meantime. Reconciling clears `changed_oled`
//! only where the snapshot saw it set.

use vstd::prelude::*;
use vstd::string::StringSliceAdditionalSpecFns;

use super::layout::{DisplayState, COLUMNS};
use crate::parameter_values::{
    param_name, spec_param_name, ChangeFlag, ParameterSlot, ParameterValues, StoreModel, N_PAGES,
    PAGE_NAMES, PARAMS_PER_PAGE,
};

verus! {

/// What one cycle reads of the active page while it holds the lock.
#[derive(Clone, Copy)]
pub struct PageSnapshot {
    /// The page that was active.
    pub page: usize,
    /// The page's name.
    pub page_name: &'static str,
    /// The name of each slot's parameter; `None` for a `Null` slot.
    pub param_names: [Option<&'static str>; COLUMNS],
    /// The value of each slot's parameter; `None` for a `Null` slot.
    pub param_values: [Option<i32>; COLUMNS],
    /// Each slot's `changed_oled` flag; `false` for a `Null` slot.
    pub changed: [bool; COLUMNS],
}

impl StoreModel {
    /// The names that the active page shows, slot by slot.
    pub open spec fn shown_names(self) -> Seq<Option<&'static str>> {
        Seq::new(
            PARAMS_PER_PAGE as nat,
            |s: int|
                if self.pages[self.current_page][s] is Active {
                    spec_param_name(self.current_page, s)
                } else {
                    None
                },
        )
    }

    /// The values that the active page shows, slot by slot.
    pub open spec fn shown_values(self) -> Seq<Option<i32>> {
        Seq::new(
            PARAMS_PER_PAGE as nat,
            |s: int|
                match self.pages[self.current_page][s] {
                    ParameterSlot::Active(p) => Some(p.value),
                    ParameterSlot::Null => None,
                },
        )
    }

    /// The `changed_oled` flags of the active page, slot by slot.
    pub open spec fn shown_flags(self) -> Seq<bool> {
        Seq::new(
            PARAMS_PER_PAGE as nat,
            |s: int| self.pages[self.current_page][s].is_flagged(ChangeFlag::Oled),
        )
    }

    /// `state` is the frame of the active page.
    pub open spec fn is_shown_by(self, state: DisplayState) -> bool {
        state.shows(
            PAGE_NAMES[self.current_page].spec_bytes(),
            self.shown_names(),
            self.shown_values(),
        )
    }

    /// The store after a cycle that had seen the flags `changed` on `page`
    /// was reconciled: `changed_oled` is cleared on the slots of `page` whose
    /// flag the cycle saw set, and on no other.
    pub open spec fn after_reconcile(self, page: int, changed: Seq<bool>) -> StoreModel {
        if 0 <= page < N_PAGES {
            StoreModel {
                pages: self.pages.update(
                    page,
                    Seq::new(
                        PARAMS_PER_PAGE as nat,
                        |s: int|
                            if changed[s] {
                                self.pages[page][s].cleared(ChangeFlag::Oled)
                            } else {
                                self.pages[page][s]
                            },
                    ),
                ),
                current_page: self.current_page,
            }
        } else {
            self
        }
    }
}

impl PageSnapshot {
    /// The snapshot holds what `store` shows on its active page.
    pub open spec fn taken_from(&self, store: StoreModel) -> bool {
        &&& self.page == store.current_page
        &&& self.page_name == PAGE_NAMES[store.current_page]
        &&& self.param_names@ == store.shown_names()
        &&& self.param_values@ == store.shown_values()
        &&& self.changed@ == store.shown_flags()
    }

    /// The frame of the page that the snapshot was taken of.
    pub fn to_state(&self) -> (state: DisplayState)
        ensures
            state.shows(self.page_name.spec_bytes(), self.param_names@, self.param_values@),
    {
        DisplayState::from_params(self.page_name, self.param_names, self.param_values)
    }
}

/// Step 1 of a cycle: copy the active page's names, values and
/// `changed_oled` flags. Call with the store's lock held, and release the
/// lock before anything is drawn.
pub fn take_snapshot(store: &ParameterValues) -> (snapshot: PageSnapshot)
    requires
        store.current_page < N_PAGES,
    ensures
        snapshot.taken_from(store@),
{
    let page = store.current_page;
    let mut param_names: [Option<&'static str>; COLUMNS] = [None, None, None, None];
    let mut param_values: [Option<i32>; COLUMNS] = [None, None, None, None];
    let mut changed: [bool; COLUMNS] = [false, false, false, false];
    let mut i: usize = 0;
    while i < PARAMS_PER_PAGE
        invariant
            i <= PARAMS_PER_PAGE,
            page == store.current_page,
            page < N_PAGES,
            forall|k: int| 0 <= k < i ==> #[trigger] param_names[k] == store@.shown_names()[k],
            forall|k: int| 0 <= k < i ==> #[trigger] param_values[k] == store@.shown_values()[k],
            forall|k: int| 0 <= k < i ==> #[trigger] changed[k] == store@.shown_flags()[k],
            forall|k: int| i <= k < COLUMNS ==> (#[trigger] param_names[k]) is None,
            forall|k: int| i <= k < COLUMNS ==> (#[trigger] param_values[k]) is None,
            forall|k: int| i <= k < COLUMNS ==> !(#[trigger] changed[k]),
        decreases PARAMS_PER_PAGE - i,
    {
        match store.pages[page].params[i] {
            ParameterSlot::Active(param) => {
                param_names[i] = param_name(page, i);
                param_values[i] = Some(param.value);
                changed[i] = param.changed_oled;
            },
            ParameterSlot::Null => {},
        }
        i += 1;
    }
    assert(param_names@ =~= store@.shown_names());
    assert(param_values@ =~= store@.shown_values());
    assert(changed@ =~= store@.shown_flags());
    PageSnapshot { page, page_name: PAGE_NAMES[page], param_names, param_values, changed }
}

/// Step 6 of a cycle: clear `changed_oled` on the slots on which the
/// snapshot saw it set, and on no other. Call with the store's lock held,
/// after the frame has reached the display.
///
/// A parameter that a producer flagged after the snapshot on a slot that the
/// snapshot saw clean keeps its flag and is drawn in the next cycle.
pub fn reconcile(store: &mut ParameterValues, snapshot: &PageSnapshot)
    ensures
        final(store)@ == old(store)@.after_reconcile(snapshot.page as int, snapshot.changed@),
        old(store).wf() ==> final(store).wf(),
{
    let page = snapshot.page;
    if page >= N_PAGES {
        return ;
    }
    let mut i: usize = 0;
    while i < PARAMS_PER_PAGE
        invariant
            i <= PARAMS_PER_PAGE,
            page < N_PAGES,
            page == snapshot.page,
            store@.current_page == old(store)@.current_page,
            forall|p: int, s: int|
                0 <= p < N_PAGES && 0 <= s < PARAMS_PER_PAGE ==> #[trigger] store@.pages[p][s]
                    == if p == page && s < i && snapshot.changed[s] {
                    old(store)@.pages[p][s].cleared(ChangeFlag::Oled)
                } else {
                    old(store)@.pages[p][s]
                },
        decreases PARAMS_PER_PAGE - i,
    {
        if snapshot.changed[i] {
            store.clear_flag(page, i, ChangeFlag::Oled);
        }
        i += 1;
    }
    assert(store@.pages =~~= old(store)@.after_reconcile(
        snapshot.page as int,
        snapshot.changed@,
    ).pages);
}

/// Where the display task stands.
#[derive(Debug, Clone, Copy, PartialEq, Eq, Structural)]
pub enum SchedulerPhase {
    /// The display has not been initialised yet.
    Uninitialized,
    /// The display is initialised and no cycle has run.
    Ready,
    /// Between two cycles.
    Idle,
    /// A frame is being drawn or transferred; the store's lock is not held.
    Rendering,
    /// Initialisation failed. The task has ended and stays so.
    Failed,
}

/// The frame that a cycle is drawing, with the snapshot it was built from.
#[derive(Clone, Copy)]
pub struct PendingFrame {
    /// The frame.
    pub state: DisplayState,
    /// What the cycle read of the store.
    pub snapshot: PageSnapshot,
}

/// The decisions of the display task. The caller waits, locks, draws and
/// transfers; the scheduler says what to draw and what to clear.
pub struct DisplayRenderScheduler {
    /// Where the task stands.
    pub phase: SchedulerPhase,
    /// The frame that the display shows: the last one that was drawn and
    /// transferred without error.
    pub last_state: DisplayState,
    /// The frame of the cycle that is under way, if one is.
    pub pending: Option<PendingFrame>,
}

impl DisplayRenderScheduler {
    /// A frame is pending exactly while one is being drawn.
    pub open spec fn wf(&self) -> bool {
        self.phase == SchedulerPhase::Rendering <==> self.pending is Some
    }

    /// A cycle can begin: the display is initialised and no frame is under
    /// way.
    pub open spec fn can_begin(&self) -> bool {
        self.phase == SchedulerPhase::Ready || self.phase == SchedulerPhase::Idle
    }

    /// A scheduler for a display that is yet to be initialised. The display
    /// is taken to show nothing.
    pub fn new() -> (scheduler: Self)
        ensures
            scheduler.phase == SchedulerPhase::Uninitialized,
            scheduler.last_state.blank(),
            scheduler.pending is None,
            scheduler.wf(),
    {
        Self { phase: SchedulerPhase::Uninitialized, last_state: DisplayState::default(), pending: None }
    }

    /// Takes the outcome of the display's initialisation and tells whether
    /// the task goes on. Success makes the scheduler `Ready`; failure makes
    /// it `Failed` for good. In any phase but `Uninitialized` nothing
    /// changes, and the task goes on unless it has failed.
    pub fn on_init(&mut self, ok: bool) -> (go_on: bool)
        ensures
            final(self).phase == match old(self).phase {
                SchedulerPhase::Uninitialized => if ok {
                    SchedulerPhase::Ready
                } else {
                    SchedulerPhase::Failed
                },
                phase => phase,
            },
            final(self).last_state == old(self).last_state,
            final(self).pending == old(self).pending,
            go_on == (final(self).phase != SchedulerPhase::Failed),
            old(self).wf() ==> final(self).wf(),
    {
        match self.phase {
            SchedulerPhase::Uninitialized => {
                if ok {
                    self.phase = SchedulerPhase::Ready;
                    true
                } else {
                    self.phase = SchedulerPhase::Failed;
                    false
                }
            },
            SchedulerPhase::Failed => false,
            _ => true,
        }
    }

    /// Steps 1 to 3 of a cycle: read the active page, build its frame, and
    /// compare it with the frame that the display shows. Call with the
    /// store's lock held and release it on return.
    ///
    /// Returns the frame to draw and goes to `Rendering`, or returns `None`
    /// and goes to `Idle` if the display shows that frame already. Where no
    /// cycle can begin, returns `None` and changes nothing.
    pub fn begin_cycle(&mut self, store: &ParameterValues) -> (frame: Option<DisplayState>)
        requires
            store.current_page < N_PAGES,
        ensures
            final(self).last_state == old(self).last_state,
            old(self).can_begin() ==> match frame {
                Some(state) => {
                    &&& store@.is_shown_by(state)
                    &&& state != old(self).last_state
                    &&& final(self).phase == SchedulerPhase::Rendering
                    &&& final(self).pending matches Some(pending)
                    &&& pending.state == state
                    &&& pending.snapshot.taken_from(store@)
                },
                None => {
                    &&& store@.is_shown_by(old(self).last_state)
                    &&& final(self).phase == SchedulerPhase::Idle
                    &&& final(self).pending is None
                },
            },
            old(self).can_begin() ==> (frame is None <==> store@.is_shown_by(old(self).last_state)),
            !old(self).can_begin() ==> frame is None && final(self).phase == old(self).phase
                && final(self).pending == old(self).pending,
            old(self).wf() ==> final(self).wf(),
    {
        match self.phase {
            SchedulerPhase::Ready | SchedulerPhase::Idle => {},
            _ => {
                return None;
            },
        }
        let snapshot = take_snapshot(store);
        let state = snapshot.to_state();
        proof {
            if store@.is_shown_by(self.last_state) {
                lemma_frame_is_unique(store@, state, self.last_state);
            }
        }
        if state == self.last_state {
            self.phase = SchedulerPhase::Idle;
            self.pending = None;
            None
        } else {
            self.phase = SchedulerPhase::Rendering;
            self.pending = Some(PendingFrame { state, snapshot });
            Some(state)
        }
    }

    /// Steps 6 and 7 of a cycle, once the frame has been drawn and
    /// transferred. Call with the store's lock held.
    ///
    /// The flags that the cycle's snapshot saw set are cleared, the frame
    /// becomes the one that the display shows, and the scheduler goes to
    /// `Idle`. Where no frame is under way nothing changes.
    pub fn finish_cycle(&mut self, store: &mut ParameterValues)
        ensures
            match (old(self).phase, old(self).pending) {
                (SchedulerPhase::Rendering, Some(pending)) => {
                    &&& final(self).phase == SchedulerPhase::Idle
                    &&& final(self).pending is None
                    &&& final(self).last_state == pending.state
                    &&& final(store)@ == old(store)@.after_reconcile(
                        pending.snapshot.page as int,
                        pending.snapshot.changed@,
                    )
                },
                _ => {
                    &&& final(self).phase == old(self).phase
                    &&& final(self).pending == old(self).pending
                    &&& final(self).last_state == old(self).last_state
                    &&& final(store)@ == old(store)@
                },
            },
            old(self).wf() ==> final(self).wf(),
            old(store).wf() ==> final(store).wf(),
    {
        let pending = match (self.phase, self.pending) {
            (SchedulerPhase::Rendering, Some(pending)) => pending,
            _ => {
                return ;
            },
        };
        reconcile(store, &pending.snapshot);
        self.last_state = pending.state;
        self.pending = None;
        self.phase = SchedulerPhase::Idle;
    }

    /// Gives the cycle up after drawing or transfer failed. The store is not
    /// touched, so no flag is cleared, and the display is taken to show what
    /// it showed: the next cycle finds the same difference and tries again.
    /// The scheduler goes to `Idle`. Where no frame is under way nothing
    /// changes.
    pub fn abandon_cycle(&mut self)
        ensures
            final(self).last_state == old(self).last_state,
            match (old(self).phase, old(self).pending) {
                (SchedulerPhase::Rendering, Some(_)) => {
                    &&& final(self).phase == SchedulerPhase::Idle
                    &&& final(self).pending is None
                },
                _ => {
                    &&& final(self).phase == old(self).phase
                    &&& final(self).pending == old(self).pending
                },
            },
            old(self).wf() ==> final(self).wf(),
    {
        match (self.phase, self.pending) {
            (SchedulerPhase::Rendering, Some(_)) => {
                self.pending = None;
                self.phase = SchedulerPhase::Idle;
            },
            _ => {},
        }
    }
}

/// A store has one frame: two states that both show it are equal.
pub proof fn lemma_frame_is_unique(m: StoreModel, a: DisplayState, b: DisplayState)
    requires
        m.is_shown_by(a),
        m.is_shown_by(b),
    ensures
        a == b,
{
    assert(a.page_name =~= b.page_name);
    assert forall|i: int| 0 <= i < COLUMNS implies a.param_names[i] == b.param_names[i] by {
        assert(a.param_names[i] =~= b.param_names[i]);
    }
    assert(a.param_names =~= b.param_names);
    assert(a.param_values =~= b.param_values);
}

/// Reconciling clears nothing that the snapshot did not see set: a slot on
/// another page, or a slot whose flag the snapshot saw clear, is after the
/// reconcile exactly what it was just before it. So a parameter that was
/// clean at the snapshot and written during the drawing stays flagged for
/// the next cycle.
pub proof fn lemma_reconcile_keeps_unseen(
    m: StoreModel,
    page: int,
    changed: Seq<bool>,
    p: int,
    s: int,
)
    requires
        m.shaped(),
        0 <= p < N_PAGES,
        0 <= s < PARAMS_PER_PAGE,
        p != page || !changed[s],
    ensures
        m.after_reconcile(page, changed).pages[p][s] == m.pages[p][s],
{
}

/// A write that lands between snapshot and reconcile on a slot that the
/// snapshot did not see flagged is still flagged for the display after the
/// reconcile, and holds the value that was written.
pub proof fn lemma_write_during_draw_stays_flagged(
    m: StoreModel,
    page: int,
    changed: Seq<bool>,
    slot: int,
    delta: int,
)
    requires
        m.shaped(),
        0 <= m.current_page < N_PAGES,
        0 <= slot < PARAMS_PER_PAGE,
        m.slot(m.current_page, slot) is Active,
        page != m.current_page || !changed[slot],
    ensures
        m.after_encoder(slot, delta).after_reconcile(page, changed).slot(m.current_page, slot)
            == m.slot(m.current_page, slot).nudged(delta),
        m.after_encoder(slot, delta).after_reconcile(page, changed).slot(
            m.current_page,
            slot,
        ).is_flagged(ChangeFlag::Oled),
{
}

/// Reconciling changes no value, no range and no `changed_i2c` flag, and
/// leaves the cursor where it is: a slot is what it was, or what it was with
/// `changed_oled` cleared.
pub proof fn lemma_reconcile_only_clears(
    m: StoreModel,
    page: int,
    changed: Seq<bool>,
    p: int,
    s: int,
)
    requires
        m.shaped(),
        0 <= p < N_PAGES,
        0 <= s < PARAMS_PER_PAGE,
    ensures
        m.after_reconcile(page, changed).current_page == m.current_page,
        m.after_reconcile(page, changed).pages[p][s] == m.pages[p][s] || m.after_reconcile(
            page,
            changed,
        ).pages[p][s] == m.pages[p][s].cleared(ChangeFlag::Oled),
        m.wf() ==> m.after_reconcile(page, changed).wf(),
{
    let n = m.after_reconcile(page, changed);
    if m.wf() {
        assert forall|p: int, s: int| 0 <= p < N_PAGES && 0 <= s < PARAMS_PER_PAGE implies {
            &&& (#[trigger] n.pages[p][s]).wf()
            &&& n.pages[p][s] is Active <==> spec_param_name(p, s) is Some
        } by {
            assert(m.pages[p][s].wf());
        }
    }
}

/// No change of a shown value goes unseen: if the value in some slot of the
/// active page differs from what the display shows, the frame of the store
/// differs from the frame on the display, so the next cycle draws.
pub proof fn lemma_value_change_is_drawn(
    shown: StoreModel,
    now: StoreModel,
    on_display: DisplayState,
    frame: DisplayState,
    s: int,
)
    requires
        shown.is_shown_by(on_display),
        now.is_shown_by(frame),
        0 <= s < PARAMS_PER_PAGE,
        shown.shown_values()[s] != now.shown_values()[s],
    ensures
        frame != on_display,
{
    assert(on_display.param_values@[s] == shown.shown_values()[s]);
    assert(frame.param_values@[s] == now.shown_values()[s]);
}

} // verus!
