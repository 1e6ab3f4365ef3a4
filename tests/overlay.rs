use midday_desktop::{
    dismiss_plan, exit_plan, show_main_plan, Action, OverlayController, OverlayState,
    SimulatedDesktop,
};

fn enabled() -> OverlayController {
    let mut c = OverlayController::new();
    let _ = c.set_search_enabled(true, OverlayState::Absent);
    c
}

fn desktop_with_overlay(state: OverlayState) -> SimulatedDesktop {
    let mut d = SimulatedDesktop::new();
    d.apply(Action::CreateOverlay);
    if state == OverlayState::Visible {
        d.apply(Action::ShowOverlay);
    }
    if state == OverlayState::Absent {
        d.apply(Action::DestroyOverlay);
    }
    d
}

#[test]
fn controller_starts_disabled() {
    assert!(!OverlayController::new().search_enabled());
}

#[test]
fn disabled_toggle_shows_main_for_every_state() {
    let c = OverlayController::new();
    for state in [OverlayState::Absent, OverlayState::Hidden, OverlayState::Visible] {
        let plan = c.toggle(state);
        assert_eq!(plan, vec![Action::ShowMain, Action::FocusMain]);
        let mut d = desktop_with_overlay(state);
        let before = d.overlays_created;
        d.apply_all(&plan);
        assert_eq!(d.overlay, state);
        assert_eq!(d.overlays_created, before);
        assert!(d.opened.is_empty());
        assert!(d.main_visible && d.main_focused);
    }
}

#[test]
fn toggle_creates_absent_overlay_and_shows_it() {
    let plan = enabled().toggle(OverlayState::Absent);
    assert_eq!(
        plan,
        vec![
            Action::CreateOverlay,
            Action::PositionOverlay,
            Action::SetOverlayOnTop(true),
            Action::ShowOverlay,
            Action::FocusOverlay,
            Action::EmitOverlayOpen(true),
        ]
    );
    let mut d = SimulatedDesktop::new();
    d.apply_all(&plan);
    assert_eq!(d.overlay, OverlayState::Visible);
    assert!(d.overlay_on_top && d.overlay_focused);
    assert_eq!(d.opened, vec![true]);
}

#[test]
fn toggle_twice_from_hidden_returns_to_hidden() {
    let c = enabled();
    let mut d = desktop_with_overlay(OverlayState::Hidden);
    d.apply_all(&c.toggle(d.overlay));
    assert_eq!(d.overlay, OverlayState::Visible);
    d.apply_all(&c.toggle(d.overlay));
    assert_eq!(d.overlay, OverlayState::Hidden);
    assert_eq!(d.opened, vec![true, false]);
    assert!(!d.overlay_on_top);
    assert_eq!(d.overlays_created, 1);
}

#[test]
fn disable_while_visible_destroys_after_one_close() {
    let mut c = enabled();
    let mut d = desktop_with_overlay(OverlayState::Visible);
    let plan = c.set_search_enabled(false, d.overlay);
    assert_eq!(plan, vec![Action::EmitOverlayOpen(false), Action::DestroyOverlay]);
    d.apply_all(&plan);
    assert!(!c.search_enabled());
    assert_eq!(d.overlay, OverlayState::Absent);
    assert_eq!(d.opened, vec![false]);
}

#[test]
fn disable_while_hidden_or_absent() {
    let mut c = enabled();
    assert_eq!(c.set_search_enabled(false, OverlayState::Hidden), vec![Action::DestroyOverlay]);
    assert!(c.set_search_enabled(false, OverlayState::Absent).is_empty());
    assert!(c.set_search_enabled(true, OverlayState::Visible).is_empty());
    assert!(c.search_enabled());
}

#[test]
fn racing_toggles_create_one_overlay() {
    let c = enabled();
    let mut d = SimulatedDesktop::new();
    // Both toggles looked before either created the window.
    let first = c.toggle(OverlayState::Absent);
    let second = c.toggle(OverlayState::Absent);
    d.apply_all(&first);
    d.apply_all(&second);
    assert_eq!(d.overlays_created, 1);
    assert_eq!(d.overlay, OverlayState::Visible);
}

#[test]
fn sequential_toggles_from_absent_create_one_overlay() {
    let c = enabled();
    let mut d = SimulatedDesktop::new();
    for _ in 0..5 {
        d.apply_all(&c.toggle(d.overlay));
    }
    assert_eq!(d.overlays_created, 1);
    assert_eq!(d.overlay, OverlayState::Visible);
    assert_eq!(d.opened, vec![true, false, true, false, true]);
}

#[test]
fn dismiss_hides_only_a_visible_overlay() {
    assert_eq!(
        dismiss_plan(OverlayState::Visible),
        vec![Action::EmitOverlayOpen(false), Action::SetOverlayOnTop(false), Action::HideOverlay]
    );
    assert!(dismiss_plan(OverlayState::Hidden).is_empty());
    assert!(dismiss_plan(OverlayState::Absent).is_empty());
    let mut d = desktop_with_overlay(OverlayState::Hidden);
    d.apply_all(&enabled().toggle(d.overlay));
    d.apply_all(&dismiss_plan(d.overlay));
    assert_eq!(d.overlay, OverlayState::Hidden);
    assert!(!d.overlay_on_top && !d.overlay_focused);
}

#[test]
fn exit_hides_everything() {
    assert_eq!(exit_plan(OverlayState::Hidden), vec![Action::HideMain]);
    assert_eq!(
        exit_plan(OverlayState::Visible),
        vec![
            Action::HideMain,
            Action::EmitOverlayOpen(false),
            Action::SetOverlayOnTop(false),
            Action::HideOverlay,
        ]
    );
    assert_eq!(show_main_plan(), vec![Action::ShowMain, Action::FocusMain]);
}

#[test]
fn enabled_signal_reads_json_booleans() {
    let mut c = OverlayController::new();
    assert!(c.apply_enabled_signal("true", OverlayState::Absent).is_empty());
    assert!(c.search_enabled());
    let plan = c.apply_enabled_signal(" \n false\t\r", OverlayState::Visible);
    assert!(!c.search_enabled());
    assert_eq!(plan, vec![Action::EmitOverlayOpen(false), Action::DestroyOverlay]);
}

#[test]
fn enabled_signal_ignores_other_payloads() {
    let mut c = enabled();
    for payload in ["\"false\"", "0", "", "False", "false false", "null", "fals"] {
        assert!(c.apply_enabled_signal(payload, OverlayState::Visible).is_empty());
        assert!(c.search_enabled());
    }
}
