//! From absolute encoder positions to deltas on the active page.

use vstd::prelude::*;

use super::registers::ENCODER_COUNT;
use crate::parameter_values::{ParameterValues, StoreModel, N_PAGES};

verus! {

/// Remembers the positions of the last reading, so that the next reading can
/// be turned into deltas.
pub struct EncoderUpdateProcessor {
    /// The absolute positions of the last reading that succeeded.
    pub previous_positions: [i32; ENCODER_COUNT],
}

/// The differences `positions[i] - previous[i]`.
pub open spec fn spec_deltas(previous: Seq<i32>, positions: Seq<i32>) -> Seq<i64> {
    Seq::new(ENCODER_COUNT as nat, |i: int| (positions[i] - previous[i]) as i64)
}

/// Some encoder has moved.
pub open spec fn any_movement(deltas: Seq<i64>) -> bool {
    exists|i: int| 0 <= i < ENCODER_COUNT && #[trigger] deltas[i] != 0
}

impl StoreModel {
    /// The store after each slot of the active page was moved by its delta.
    /// A delta of zero leaves its slot untouched, flags included.
    pub open spec fn after_deltas(self, deltas: Seq<i64>) -> StoreModel {
        StoreModel {
            pages: self.pages.update(
                self.current_page,
                Seq::new(
                    ENCODER_COUNT as nat,
                    |s: int|
                        if deltas[s] != 0 {
                            self.pages[self.current_page][s].nudged(deltas[s] as int)
                        } else {
                            self.pages[self.current_page][s]
                        },
                ),
            ),
            current_page: self.current_page,
        }
    }
}

impl EncoderUpdateProcessor {
    /// A processor whose baseline is `positions`.
    pub fn new(positions: [i32; ENCODER_COUNT]) -> (processor: Self)
        ensures
            processor.previous_positions == positions,
    {
        Self { previous_positions: positions }
    }

    /// Takes the outcome of one batched read of all positions.
    ///
    /// A failed read (`None`) leaves the baseline as it was and yields
    /// nothing. A reading replaces the baseline, whether anything moved or
    /// not, and yields the deltas against the old baseline if at least one of
    /// them is not zero.
    pub fn on_reading(&mut self, reading: Option<[i32; ENCODER_COUNT]>) -> (deltas: Option<
        [i64; ENCODER_COUNT],
    >)
        ensures
            reading is None ==> deltas is None && *final(self) == *old(self),
            reading matches Some(positions) ==> {
                let moved = spec_deltas(old(self).previous_positions@, positions@);
                &&& final(self).previous_positions == positions
                &&& deltas is Some <==> any_movement(moved)
                &&& deltas matches Some(d) ==> d@ == moved
            },
    {
        let positions = match reading {
            Some(positions) => positions,
            None => {
                return None;
            },
        };
        let ghost moved = spec_deltas(self.previous_positions@, positions@);
        let mut deltas: [i64; ENCODER_COUNT] = [0, 0, 0, 0];
        let mut any = false;
        let mut i: usize = 0;
        while i < ENCODER_COUNT
            invariant
                i <= ENCODER_COUNT,
                moved == spec_deltas(self.previous_positions@, positions@),
                forall|k: int| 0 <= k < i ==> #[trigger] deltas[k] == moved[k],
                any <==> exists|k: int| 0 <= k < i && #[trigger] moved[k] != 0,
            decreases ENCODER_COUNT - i,
        {
            let delta: i64 = positions[i] as i64 - self.previous_positions[i] as i64;
            deltas[i] = delta;
            if delta != 0 {
                any = true;
                assert(moved[i as int] != 0);
            }
            i += 1;
        }
        self.previous_positions = positions;
        if any {
            Some(deltas)
        } else {
            None
        }
    }

    /// Applies the deltas of one reading to the active page: each slot whose
    /// delta is not zero is moved by it, as
    /// [`ParameterValues::update_from_encoder`] does.
    pub fn apply(store: &mut ParameterValues, deltas: &[i64; ENCODER_COUNT])
        requires
            old(store).wf(),
        ensures
            final(store)@ == old(store)@.after_deltas(deltas@),
            final(store).wf(),
    {
        let ghost moved = deltas@;
        let mut i: usize = 0;
        while i < ENCODER_COUNT
            invariant
                i <= ENCODER_COUNT,
                moved == deltas@,
                store.wf(),
                old(store).wf(),
                store@.current_page == old(store)@.current_page,
                forall|p: int|
                    0 <= p < N_PAGES && p != store@.current_page ==> #[trigger] store@.pages[p] == old(
                        store,
                    )@.pages[p],
                forall|s: int|
                    0 <= s < ENCODER_COUNT ==> #[trigger] store@.pages[store@.current_page][s]
                        == if s < i && moved[s] != 0 {
                        old(store)@.pages[store@.current_page][s].nudged(moved[s] as int)
                    } else {
                        old(store)@.pages[store@.current_page][s]
                    },
            decreases ENCODER_COUNT - i,
        {
            if deltas[i] != 0 {
                store.nudge_slot(i, deltas[i]);
            }
            i += 1;
        }
        assert(store@.pages =~~= old(store)@.after_deltas(moved).pages);
    }
}

/// One slot's share of [`StoreModel::after_deltas`]: an encoder write if the
/// delta is not zero, nothing otherwise.
pub open spec fn after_delta(m: StoreModel, deltas: Seq<i64>, slot: int) -> StoreModel {
    if deltas[slot] != 0 {
        m.after_encoder(slot, deltas[slot] as int)
    } else {
        m
    }
}

/// Applying the deltas of one reading is one encoder write for each delta
/// that is not zero, in slot order.
pub proof fn lemma_deltas_are_encoder_writes(m: StoreModel, deltas: Seq<i64>)
    requires
        m.shaped(),
        0 <= m.current_page < N_PAGES,
        deltas.len() == ENCODER_COUNT,
    ensures
        m.after_deltas(deltas) == after_delta(
            after_delta(after_delta(after_delta(m, deltas, 0), deltas, 1), deltas, 2),
            deltas,
            3,
        ),
{
    let m1 = after_delta(m, deltas, 0);
    let m2 = after_delta(m1, deltas, 1);
    let m3 = after_delta(m2, deltas, 2);
    let m4 = after_delta(m3, deltas, 3);
    assert(m4.pages =~~= m.after_deltas(deltas).pages);
}

/// Deltas do not drift: the deltas of two readings in a row add up to the
/// difference between the second reading and the baseline before the first,
/// because every reading becomes the next baseline.
pub proof fn lemma_deltas_add_up(baseline: Seq<i32>, first: Seq<i32>, second: Seq<i32>, i: int)
    requires
        0 <= i < ENCODER_COUNT,
    ensures
        spec_deltas(baseline, first)[i] + spec_deltas(first, second)[i] == second[i] - baseline[i],
{
}

/// Nothing has moved exactly if the reading equals the baseline.
pub proof fn lemma_no_movement(baseline: Seq<i32>, positions: Seq<i32>)
    requires
        baseline.len() == ENCODER_COUNT,
        positions.len() == ENCODER_COUNT,
    ensures
        !any_movement(spec_deltas(baseline, positions)) <==> positions == baseline,
{
    let moved = spec_deltas(baseline, positions);
    if !any_movement(moved) {
        assert forall|i: int| 0 <= i < ENCODER_COUNT implies positions[i] == baseline[i] by {
            assert(moved[i] == 0);
        }
        assert(positions =~= baseline);
    }
}

} // verus!
