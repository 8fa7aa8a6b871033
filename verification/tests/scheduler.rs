use spirant::display::layout::DisplayState;
use spirant::display::scheduler::{
    reconcile, take_snapshot, DisplayRenderScheduler, PageSnapshot, SchedulerPhase,
};
use spirant::display::text::bytes_to_str;
use spirant::parameter_values::{ParameterSlot, ParameterValues};

fn flags(pv: &ParameterValues, page: usize) -> [Option<(bool, bool)>; 4] {
    let mut out = [None; 4];
    for (i, slot) in pv.pages[page].params.iter().enumerate() {
        if let ParameterSlot::Active(p) = slot {
            out[i] = Some((p.changed_oled, p.changed_i2c));
        }
    }
    out
}

fn ready_scheduler() -> DisplayRenderScheduler {
    let mut scheduler = DisplayRenderScheduler::new();
    assert!(scheduler.on_init(true));
    scheduler
}

// ── Snapshot ─────────────────────────────────────────────────────

#[test]
fn snapshot_copies_the_active_page() {
    let mut pv = ParameterValues::new();
    pv.set_page(2).unwrap();
    pv.update_from_encoder(1, 7);
    pv.update_from_i2c(8, 3).unwrap();

    let snapshot = take_snapshot(&pv);
    assert_eq!(snapshot.page, 2);
    assert_eq!(snapshot.page_name, "LFO");
    assert_eq!(snapshot.param_names, [Some("LFO Rate"), Some("LFO Depth"), Some("LFO Shape"), None]);
    assert_eq!(snapshot.param_values, [Some(3), Some(7), Some(0), None]);
    assert_eq!(snapshot.changed, [true, true, false, false]);
}

#[test]
fn snapshot_does_not_touch_the_store() {
    let mut pv = ParameterValues::new();
    pv.update_from_encoder(0, 1);
    let before = flags(&pv, 0);
    let _ = take_snapshot(&pv);
    assert_eq!(flags(&pv, 0), before);
}

#[test]
fn snapshot_builds_the_frame() {
    let mut pv = ParameterValues::new();
    pv.set_page(3).unwrap();
    pv.update_from_encoder(1, 42);
    let state = take_snapshot(&pv).to_state();
    assert_eq!(bytes_to_str(&state.page_name), "Effects");
    assert_eq!(bytes_to_str(&state.param_names[0]), "Delay Time");
    assert_eq!(bytes_to_str(&state.param_names[1]), "Reverb");
    assert_eq!(bytes_to_str(&state.param_names[2]), "");
    assert_eq!(state.param_values, [Some(0), Some(42), None, None]);
}

// ── Reconcile ────────────────────────────────────────────────────

#[test]
fn reconcile_clears_only_what_the_snapshot_saw() {
    let mut pv = ParameterValues::new();
    pv.update_from_encoder(0, 5);
    let snapshot = take_snapshot(&pv);

    // A producer writes to another slot while the frame is under way.
    pv.update_from_encoder(1, 9);

    reconcile(&mut pv, &snapshot);
    assert_eq!(
        flags(&pv, 0),
        [Some((false, true)), Some((true, true)), Some((false, false)), Some((false, false))]
    );
    assert_eq!(pv.pages[0].params[0].as_ref().unwrap().value, 5);
    assert_eq!(pv.pages[0].params[1].as_ref().unwrap().value, 9);
}

#[test]
fn reconcile_acts_on_the_page_of_the_snapshot() {
    let mut pv = ParameterValues::new();
    pv.update_from_encoder(0, 5);
    let snapshot = take_snapshot(&pv);

    // The page is switched while the frame is under way.
    pv.set_active_page(1).unwrap();

    reconcile(&mut pv, &snapshot);
    assert_eq!(pv.current_page(), 1);
    assert!(!pv.pages[0].params[0].as_ref().unwrap().changed_oled);
    for slot in &pv.pages[1].params {
        assert!(slot.as_ref().unwrap().changed_oled);
    }
}

#[test]
fn reconcile_leaves_the_bus_flag_alone() {
    let mut pv = ParameterValues::new();
    pv.update_from_encoder(2, 5);
    let snapshot = take_snapshot(&pv);
    reconcile(&mut pv, &snapshot);
    let p = pv.pages[0].params[2].as_ref().unwrap();
    assert!(!p.changed_oled);
    assert!(p.changed_i2c);
}

#[test]
fn reconcile_ignores_a_page_that_does_not_exist() {
    let mut pv = ParameterValues::new();
    pv.update_from_encoder(0, 5);
    let snapshot = PageSnapshot {
        page: 4,
        page_name: "",
        param_names: [None; 4],
        param_values: [None; 4],
        changed: [true; 4],
    };
    reconcile(&mut pv, &snapshot);
    assert!(pv.pages[0].params[0].as_ref().unwrap().changed_oled);
}

#[test]
fn reconcile_with_a_flag_on_a_null_slot_changes_nothing() {
    let mut pv = ParameterValues::new();
    pv.set_page(3).unwrap();
    let snapshot = PageSnapshot {
        page: 3,
        page_name: "Effects",
        param_names: [None; 4],
        param_values: [None; 4],
        changed: [false, false, true, true],
    };
    reconcile(&mut pv, &snapshot);
    assert!(matches!(pv.pages[3].params[2], ParameterSlot::Null));
    assert!(matches!(pv.pages[3].params[3], ParameterSlot::Null));
    assert!(pv.is_consistent());
}

// ── The cycle ────────────────────────────────────────────────────

#[test]
fn scheduler_starts_uninitialized() {
    let scheduler = DisplayRenderScheduler::new();
    assert_eq!(scheduler.phase, SchedulerPhase::Uninitialized);
    assert!(scheduler.pending.is_none());
    assert!(scheduler.last_state == DisplayState::default());
}

#[test]
fn failed_init_ends_the_task() {
    let mut scheduler = DisplayRenderScheduler::new();
    assert!(!scheduler.on_init(false));
    assert_eq!(scheduler.phase, SchedulerPhase::Failed);
    // It stays failed.
    assert!(!scheduler.on_init(true));
    assert_eq!(scheduler.phase, SchedulerPhase::Failed);
    let pv = ParameterValues::new();
    assert!(scheduler.begin_cycle(&pv).is_none());
    assert_eq!(scheduler.phase, SchedulerPhase::Failed);
}

#[test]
fn no_cycle_before_init() {
    let mut scheduler = DisplayRenderScheduler::new();
    let mut pv = ParameterValues::new();
    pv.update_from_encoder(0, 1);
    assert!(scheduler.begin_cycle(&pv).is_none());
    assert_eq!(scheduler.phase, SchedulerPhase::Uninitialized);
    scheduler.finish_cycle(&mut pv);
    assert_eq!(scheduler.phase, SchedulerPhase::Uninitialized);
    scheduler.abandon_cycle();
    assert_eq!(scheduler.phase, SchedulerPhase::Uninitialized);
    assert!(pv.pages[0].params[0].as_ref().unwrap().changed_oled);
}

#[test]
fn first_cycle_draws_the_page() {
    let mut scheduler = ready_scheduler();
    assert_eq!(scheduler.phase, SchedulerPhase::Ready);
    let mut pv = ParameterValues::new();

    let frame = scheduler.begin_cycle(&pv).unwrap();
    assert_eq!(scheduler.phase, SchedulerPhase::Rendering);
    assert_eq!(bytes_to_str(&frame.page_name), "Filter");
    assert_eq!(frame.param_values, [Some(0); 4]);

    scheduler.finish_cycle(&mut pv);
    assert_eq!(scheduler.phase, SchedulerPhase::Idle);
    assert!(scheduler.last_state == frame);
    assert!(scheduler.pending.is_none());
}

#[test]
fn unchanged_page_is_not_drawn_again() {
    let mut scheduler = ready_scheduler();
    let mut pv = ParameterValues::new();
    scheduler.begin_cycle(&pv).unwrap();
    scheduler.finish_cycle(&mut pv);

    assert!(scheduler.begin_cycle(&pv).is_none());
    assert_eq!(scheduler.phase, SchedulerPhase::Idle);
    assert!(scheduler.begin_cycle(&pv).is_none());
}

#[test]
fn changed_value_is_drawn_and_its_flag_cleared() {
    let mut scheduler = ready_scheduler();
    let mut pv = ParameterValues::new();
    scheduler.begin_cycle(&pv).unwrap();
    scheduler.finish_cycle(&mut pv);

    pv.update_from_encoder(1, 12);
    let frame = scheduler.begin_cycle(&pv).unwrap();
    assert_eq!(frame.param_values, [Some(0), Some(12), Some(0), Some(0)]);
    scheduler.finish_cycle(&mut pv);

    let p = pv.pages[0].params[1].as_ref().unwrap();
    assert!(!p.changed_oled);
    assert!(p.changed_i2c);
    assert!(scheduler.begin_cycle(&pv).is_none());
}

#[test]
fn failed_draw_is_tried_again() {
    let mut scheduler = ready_scheduler();
    let mut pv = ParameterValues::new();
    scheduler.begin_cycle(&pv).unwrap();
    scheduler.finish_cycle(&mut pv);
    let shown = scheduler.last_state;

    pv.update_from_encoder(0, 3);
    let frame = scheduler.begin_cycle(&pv).unwrap();
    scheduler.abandon_cycle();

    // Nothing was cleared and nothing was recorded as shown.
    assert_eq!(scheduler.phase, SchedulerPhase::Idle);
    assert!(scheduler.last_state == shown);
    assert!(pv.pages[0].params[0].as_ref().unwrap().changed_oled);

    // The next cycle offers the same frame again.
    let again = scheduler.begin_cycle(&pv).unwrap();
    assert!(again == frame);
}

#[test]
fn no_second_frame_while_one_is_under_way() {
    let mut scheduler = ready_scheduler();
    let mut pv = ParameterValues::new();
    let frame = scheduler.begin_cycle(&pv).unwrap();
    pv.update_from_encoder(0, 3);
    assert!(scheduler.begin_cycle(&pv).is_none());
    assert_eq!(scheduler.phase, SchedulerPhase::Rendering);
    assert!(scheduler.pending.unwrap().state == frame);
}

#[test]
fn page_switch_is_drawn() {
    let mut scheduler = ready_scheduler();
    let mut pv = ParameterValues::new();
    scheduler.begin_cycle(&pv).unwrap();
    scheduler.finish_cycle(&mut pv);

    pv.set_active_page(1).unwrap();
    let frame = scheduler.begin_cycle(&pv).unwrap();
    assert_eq!(bytes_to_str(&frame.page_name), "Envelope");
    assert_eq!(bytes_to_str(&frame.param_names[3]), "Release");
    scheduler.finish_cycle(&mut pv);
    for slot in &pv.pages[1].params {
        assert!(!slot.as_ref().unwrap().changed_oled);
    }
}

#[test]
fn write_to_a_clean_slot_during_the_draw_stays_flagged() {
    let mut scheduler = ready_scheduler();
    let mut pv = ParameterValues::new();
    pv.update_from_encoder(0, 5);

    let frame = scheduler.begin_cycle(&pv).unwrap();
    assert_eq!(frame.param_values[1], Some(0));
    // Slot 1 was clean at the snapshot; it is written while the frame is drawn.
    pv.update_from_encoder(1, 8);
    scheduler.finish_cycle(&mut pv);

    assert!(!pv.pages[0].params[0].as_ref().unwrap().changed_oled);
    assert!(pv.pages[0].params[1].as_ref().unwrap().changed_oled);

    // The next cycle draws it and then clears it.
    let next = scheduler.begin_cycle(&pv).unwrap();
    assert_eq!(next.param_values[1], Some(8));
    scheduler.finish_cycle(&mut pv);
    assert!(!pv.pages[0].params[1].as_ref().unwrap().changed_oled);
}

#[test]
fn second_write_to_a_flagged_slot_during_the_draw_is_still_drawn() {
    // Parameter A is flagged before the cycle begins.
    let mut scheduler = ready_scheduler();
    let mut pv = ParameterValues::new();
    pv.update_from_encoder(0, 5);

    // The snapshot sees A flagged.
    let frame = scheduler.begin_cycle(&pv).unwrap();
    assert!(scheduler.pending.unwrap().snapshot.changed[0]);
    assert_eq!(frame.param_values[0], Some(5));

    // A is written again before the reconcile.
    pv.update_from_encoder(0, 10);
    assert!(pv.pages[0].params[0].as_ref().unwrap().changed_oled);

    scheduler.finish_cycle(&mut pv);

    // The reconcile clears the flag that the snapshot saw ...
    assert!(!pv.pages[0].params[0].as_ref().unwrap().changed_oled);
    // ... and the write is not lost: the next cycle finds the frame changed.
    let next = scheduler.begin_cycle(&pv).unwrap();
    assert_eq!(next.param_values[0], Some(15));
    assert!(next != frame);
    // The bus consumer still sees it too.
    let (changes, count) = pv.take_i2c_changes();
    assert_eq!(count, 1);
    assert_eq!(changes[0].unwrap().value, 15);
}
