use desktop_shell::geometry::{Lookup, WorkArea};
use desktop_shell::placement::{main_window_label, start, step, Phase};
use desktop_shell::protocol::{Reply, Request};

fn area() -> WorkArea {
    WorkArea { x: 100, y: 0, width: 1280, height: 1024 }
}

#[test]
fn starts_by_looking_for_the_window() {
    assert_eq!(start(), (Phase::FindingWindow, Some(Request::FindWindow)));
}

#[test]
fn the_main_window_is_labelled_main() {
    assert_eq!(main_window_label(), "main");
}

#[test]
fn without_a_window_nothing_is_done() {
    let (phase, _) = start();
    assert_eq!(step(phase, Reply::Window { found: false }), (Phase::Finished, None));
}

#[test]
fn with_a_window_the_current_monitor_is_asked_first() {
    let (phase, _) = start();
    assert_eq!(
        step(phase, Reply::Window { found: true }),
        (Phase::QueryingCurrent, Some(Request::CurrentMonitor))
    );
}

#[test]
fn a_found_current_monitor_is_applied_at_once() {
    assert_eq!(
        step(Phase::QueryingCurrent, Reply::Monitor(Lookup::Found(area()))),
        (Phase::Positioning(area()), Some(Request::SetPosition { x: 100, y: 0 }))
    );
}

#[test]
fn a_failed_or_empty_current_lookup_falls_back_to_the_primary() {
    for lookup in [Lookup::Failed, Lookup::Absent] {
        assert_eq!(
            step(Phase::QueryingCurrent, Reply::Monitor(lookup)),
            (Phase::QueryingPrimary, Some(Request::PrimaryMonitor))
        );
    }
}

#[test]
fn a_found_primary_monitor_is_applied() {
    assert_eq!(
        step(Phase::QueryingPrimary, Reply::Monitor(Lookup::Found(area()))),
        (Phase::Positioning(area()), Some(Request::SetPosition { x: 100, y: 0 }))
    );
}

#[test]
fn without_any_monitor_the_window_is_only_shown() {
    for lookup in [Lookup::Failed, Lookup::Absent] {
        assert_eq!(
            step(Phase::QueryingPrimary, Reply::Monitor(lookup)),
            (Phase::Showing, Some(Request::Show))
        );
    }
}

#[test]
fn the_size_is_set_whether_or_not_the_position_was() {
    for applied in [true, false] {
        assert_eq!(
            step(Phase::Positioning(area()), Reply::Mutation { applied }),
            (Phase::Sizing(area()), Some(Request::SetSize { width: 1280, height: 1024 }))
        );
    }
}

#[test]
fn the_window_is_shown_whether_or_not_the_size_was_set() {
    for applied in [true, false] {
        assert_eq!(
            step(Phase::Sizing(area()), Reply::Mutation { applied }),
            (Phase::Showing, Some(Request::Show))
        );
    }
}

#[test]
fn the_routine_ends_whether_or_not_the_window_could_be_shown() {
    for applied in [true, false] {
        assert_eq!(
            step(Phase::Showing, Reply::Mutation { applied }),
            (Phase::Finished, None)
        );
    }
}

#[test]
fn a_finished_routine_stays_finished() {
    for reply in [
        Reply::Window { found: true },
        Reply::Monitor(Lookup::Found(area())),
        Reply::Mutation { applied: true },
    ] {
        assert_eq!(step(Phase::Finished, reply), (Phase::Finished, None));
    }
}

#[test]
fn a_reply_of_another_kind_counts_as_a_failure() {
    assert_eq!(
        step(Phase::FindingWindow, Reply::Mutation { applied: true }),
        (Phase::Finished, None)
    );
    assert_eq!(
        step(Phase::QueryingCurrent, Reply::Window { found: true }),
        (Phase::QueryingPrimary, Some(Request::PrimaryMonitor))
    );
    assert_eq!(
        step(Phase::QueryingPrimary, Reply::Mutation { applied: true }),
        (Phase::Showing, Some(Request::Show))
    );
}

#[test]
fn each_phase_names_its_own_request() {
    assert_eq!(Phase::FindingWindow.request(), Some(Request::FindWindow));
    assert_eq!(Phase::QueryingCurrent.request(), Some(Request::CurrentMonitor));
    assert_eq!(Phase::QueryingPrimary.request(), Some(Request::PrimaryMonitor));
    assert_eq!(
        Phase::Positioning(area()).request(),
        Some(Request::SetPosition { x: 100, y: 0 })
    );
    assert_eq!(
        Phase::Sizing(area()).request(),
        Some(Request::SetSize { width: 1280, height: 1024 })
    );
    assert_eq!(Phase::Showing.request(), Some(Request::Show));
    assert_eq!(Phase::Finished.request(), None);
}

#[test]
fn negative_offsets_and_full_range_extents_pass_through() {
    let far = WorkArea { x: i32::MIN, y: -1, width: u32::MAX, height: 0 };
    assert_eq!(
        Phase::Positioning(far).request(),
        Some(Request::SetPosition { x: i32::MIN, y: -1 })
    );
    assert_eq!(
        Phase::Sizing(far).request(),
        Some(Request::SetSize { width: u32::MAX, height: 0 })
    );
}

#[test]
fn only_a_found_monitor_resolves_to_a_work_area() {
    assert_eq!(Lookup::Found(area()).resolve(), Some(area()));
    assert_eq!(Lookup::Absent.resolve(), None);
    assert_eq!(Lookup::Failed.resolve(), None);
}

#[test]
fn replies_are_read_by_their_kind() {
    assert!(Reply::Window { found: true }.is_window_found());
    assert!(!Reply::Window { found: false }.is_window_found());
    assert!(!Reply::Mutation { applied: true }.is_window_found());
    assert!(!Reply::Monitor(Lookup::Found(area())).is_window_found());
    assert_eq!(Reply::Monitor(Lookup::Found(area())).monitor_area(), Some(area()));
    assert_eq!(Reply::Monitor(Lookup::Absent).monitor_area(), None);
    assert_eq!(Reply::Monitor(Lookup::Failed).monitor_area(), None);
    assert_eq!(Reply::Window { found: true }.monitor_area(), None);
    assert_eq!(Reply::Mutation { applied: true }.monitor_area(), None);
}
