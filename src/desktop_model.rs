use vstd::prelude::*;
use crate::overlay::{
    conceal_steps, dismiss_steps, exit_steps, reveal_steps, show_main_steps, switch_steps,
    toggle_steps, Action, OverlayState,
};

verus! {

/// The windows as far as the overlay's lifecycle is concerned, and what their
/// content has been told.
pub struct DesktopView {
    pub main_visible: bool,
    pub main_focused: bool,
    pub overlay: OverlayState,
    pub overlay_on_top: bool,
    pub overlay_focused: bool,
    /// Every `search-window-open` value the overlay's content has received.
    pub opened: Seq<bool>,
    /// How many overlay windows have been created so far.
    pub overlays_created: nat,
}

/// What one platform call does. A call aimed at an overlay that is not in a
/// state to take it does nothing; creating the overlay when a window with its
/// label already exists does nothing either.
pub open spec fn step(d: DesktopView, a: Action) -> DesktopView {
    match a {
        Action::ShowMain => DesktopView { main_visible: true, ..d },
        Action::FocusMain => if d.main_visible {
            DesktopView { main_focused: true, overlay_focused: false, ..d }
        } else {
            d
        },
        Action::HideMain => DesktopView { main_visible: false, main_focused: false, ..d },
        Action::CreateOverlay => if d.overlay is Absent {
            DesktopView {
                overlay: OverlayState::Hidden,
                overlay_on_top: false,
                overlay_focused: false,
                overlays_created: d.overlays_created + 1,
                ..d
            }
        } else {
            d
        },
        Action::PositionOverlay => d,
        Action::SetOverlayOnTop(on) => if d.overlay is Absent {
            d
        } else {
            DesktopView { overlay_on_top: on, ..d }
        },
        Action::ShowOverlay => if d.overlay is Hidden {
            DesktopView { overlay: OverlayState::Visible, ..d }
        } else {
            d
        },
        Action::FocusOverlay => if d.overlay is Visible {
            DesktopView { overlay_focused: true, main_focused: false, ..d }
        } else {
            d
        },
        Action::HideOverlay => if d.overlay is Visible {
            DesktopView { overlay: OverlayState::Hidden, overlay_focused: false, ..d }
        } else {
            d
        },
        Action::DestroyOverlay => DesktopView {
            overlay: OverlayState::Absent,
            overlay_on_top: false,
            overlay_focused: false,
            ..d
        },
        Action::EmitOverlayOpen(open) => if d.overlay is Absent {
            d
        } else {
            DesktopView { opened: d.opened.push(open), ..d }
        },
    }
}

/// Performs `steps` from index `i` on.
pub open spec fn run_from(d: DesktopView, steps: Seq<Action>, i: int) -> DesktopView
    decreases steps.len() - i,
{
    if i < 0 || i >= steps.len() {
        d
    } else {
        run_from(step(d, steps[i]), steps, i + 1)
    }
}

/// Performs `steps` in order.
pub open spec fn run(d: DesktopView, steps: Seq<Action>) -> DesktopView {
    run_from(d, steps, 0)
}

/// The overlay is always-on-top, or has focus, only while it is shown.
pub open spec fn consistent(d: DesktopView) -> bool {
    (d.overlay_on_top || d.overlay_focused) ==> d.overlay is Visible
}

proof fn lemma_run_show_main(d: DesktopView)
    ensures
        run(d, show_main_steps()) == (DesktopView {
            main_visible: true,
            main_focused: true,
            overlay_focused: false,
            ..d
        }),
{
    reveal_with_fuel(run_from, 3);
}

proof fn lemma_run_reveal(d: DesktopView)
    requires
        !(d.overlay is Absent),
    ensures
        run(d, reveal_steps()) == (DesktopView {
            overlay: OverlayState::Visible,
            overlay_on_top: true,
            overlay_focused: true,
            main_focused: false,
            opened: d.opened.push(true),
            ..d
        }),
{
    reveal_with_fuel(run_from, 6);
}

proof fn lemma_run_create_and_reveal(d: DesktopView)
    requires
        d.overlay is Absent,
    ensures
        run(d, seq![Action::CreateOverlay] + reveal_steps()) == (DesktopView {
            overlay: OverlayState::Visible,
            overlay_on_top: true,
            overlay_focused: true,
            main_focused: false,
            opened: d.opened.push(true),
            overlays_created: d.overlays_created + 1,
            ..d
        }),
{
    reveal_with_fuel(run_from, 7);
}

proof fn lemma_run_conceal(d: DesktopView)
    requires
        d.overlay is Visible,
    ensures
        run(d, conceal_steps()) == (DesktopView {
            overlay: OverlayState::Hidden,
            overlay_on_top: false,
            overlay_focused: false,
            opened: d.opened.push(false),
            ..d
        }),
{
    reveal_with_fuel(run_from, 4);
}

/// While search is switched off, a toggle brings the main window forward and
/// focuses it, and leaves the overlay as it was, whatever its state.
pub proof fn lemma_disabled_toggle_leaves_overlay(d: DesktopView, observed: OverlayState)
    ensures
        ({
            let after = run(d, toggle_steps(false, observed));
            &&& after.main_visible
            &&& after.main_focused
            &&& after.overlay == d.overlay
            &&& after.overlay_on_top == d.overlay_on_top
            &&& after.opened == d.opened
            &&& after.overlays_created == d.overlays_created
        }),
{
    lemma_run_show_main(d);
}

/// With search switched on, two toggles that start from a hidden overlay
/// leave it hidden again, after telling its content that it opened and then
/// that it closed.
pub proof fn lemma_toggle_twice_from_hidden(d: DesktopView)
    requires
        d.overlay is Hidden,
    ensures
        ({
            let once = run(d, toggle_steps(true, d.overlay));
            let twice = run(once, toggle_steps(true, once.overlay));
            &&& once.overlay is Visible
            &&& twice.overlay is Hidden
            &&& twice.opened == d.opened + seq![true, false]
        }),
{
    lemma_run_reveal(d);
    let once = run(d, toggle_steps(true, d.overlay));
    lemma_run_conceal(once);
    assert(d.opened.push(true).push(false) =~= d.opened + seq![true, false]);
}

/// Switching search off while the overlay is shown destroys the overlay, and
/// its content is told once, before the window goes, that it closed.
pub proof fn lemma_disable_while_visible(d: DesktopView)
    requires
        d.overlay is Visible,
    ensures
        ({
            let after = run(d, switch_steps(false, d.overlay));
            &&& after.overlay is Absent
            &&& after.opened == d.opened.push(false)
        }),
{
    reveal_with_fuel(run_from, 3);
}

/// Two toggles that both found no overlay, performed one after the other as
/// they race, create exactly one overlay window and leave it shown.
pub proof fn lemma_racing_toggles_create_one_overlay(d: DesktopView)
    requires
        d.overlay is Absent,
    ensures
        ({
            let first = run(d, toggle_steps(true, OverlayState::Absent));
            let second = run(first, toggle_steps(true, OverlayState::Absent));
            &&& second.overlay is Visible
            &&& second.overlays_created == d.overlays_created + 1
        }),
{
    lemma_run_create_and_reveal(d);
    reveal_with_fuel(run_from, 7);
}

/// Every answer, computed from the overlay's true state, leaves the overlay
/// always-on-top or focused only while it is shown.
pub proof fn lemma_answers_keep_overlay_consistent(d: DesktopView, enabled: bool)
    requires
        consistent(d),
    ensures
        consistent(run(d, toggle_steps(enabled, d.overlay))),
        consistent(run(d, dismiss_steps(d.overlay))),
        consistent(run(d, switch_steps(enabled, d.overlay))),
        consistent(run(d, exit_steps(d.overlay))),
{
    reveal_with_fuel(run_from, 7);
}

/// A desktop that can be driven with action lists, for checking what they do.
pub struct SimulatedDesktop {
    pub main_visible: bool,
    pub main_focused: bool,
    pub overlay: OverlayState,
    pub overlay_on_top: bool,
    pub overlay_focused: bool,
    pub opened: Vec<bool>,
    pub overlays_created: u64,
}

impl View for SimulatedDesktop {
    type V = DesktopView;

    open spec fn view(&self) -> DesktopView {
        DesktopView {
            main_visible: self.main_visible,
            main_focused: self.main_focused,
            overlay: self.overlay,
            overlay_on_top: self.overlay_on_top,
            overlay_focused: self.overlay_focused,
            opened: self.opened@,
            overlays_created: self.overlays_created as nat,
        }
    }
}

impl SimulatedDesktop {
    /// Nothing shown, no overlay, nothing emitted.
    pub fn new() -> (r: Self)
        ensures
            r@ == (DesktopView {
                main_visible: false,
                main_focused: false,
                overlay: OverlayState::Absent,
                overlay_on_top: false,
                overlay_focused: false,
                opened: Seq::empty(),
                overlays_created: 0,
            }),
    {
        SimulatedDesktop {
            main_visible: false,
            main_focused: false,
            overlay: OverlayState::Absent,
            overlay_on_top: false,
            overlay_focused: false,
            opened: Vec::new(),
            overlays_created: 0,
        }
    }

    /// Performs one platform call.
    pub fn apply(&mut self, a: Action)
        requires
            old(self).overlays_created < u64::MAX,
        ensures
            final(self)@ == step(old(self)@, a),
    {
        match a {
            Action::ShowMain => {
                self.main_visible = true;
            },
            Action::FocusMain => {
                if self.main_visible {
                    self.main_focused = true;
                    self.overlay_focused = false;
                }
            },
            Action::HideMain => {
                self.main_visible = false;
                self.main_focused = false;
            },
            Action::CreateOverlay => {
                if self.overlay == OverlayState::Absent {
                    self.overlay = OverlayState::Hidden;
                    self.overlay_on_top = false;
                    self.overlay_focused = false;
                    self.overlays_created = self.overlays_created + 1;
                }
            },
            Action::PositionOverlay => {},
            Action::SetOverlayOnTop(on) => {
                if self.overlay != OverlayState::Absent {
                    self.overlay_on_top = on;
                }
            },
            Action::ShowOverlay => {
                if self.overlay == OverlayState::Hidden {
                    self.overlay = OverlayState::Visible;
                }
            },
            Action::FocusOverlay => {
                if self.overlay == OverlayState::Visible {
                    self.overlay_focused = true;
                    self.main_focused = false;
                }
            },
            Action::HideOverlay => {
                if self.overlay == OverlayState::Visible {
                    self.overlay = OverlayState::Hidden;
                    self.overlay_focused = false;
                }
            },
            Action::DestroyOverlay => {
                self.overlay = OverlayState::Absent;
                self.overlay_on_top = false;
                self.overlay_focused = false;
            },
            Action::EmitOverlayOpen(open) => {
                if self.overlay != OverlayState::Absent {
                    self.opened.push(open);
                }
            },
        }
    }

    /// Performs the calls of `steps` in order.
    pub fn apply_all(&mut self, steps: &Vec<Action>)
        requires
            old(self).overlays_created + steps@.len() <= u64::MAX,
        ensures
            final(self)@ == run(old(self)@, steps@),
    {
        let mut i: usize = 0;
        while i < steps.len()
            invariant
                i <= steps@.len(),
                self.overlays_created <= old(self).overlays_created + i,
                old(self).overlays_created + steps@.len() <= u64::MAX,
                run(old(self)@, steps@) == run_from(self@, steps@, i as int),
            decreases steps@.len() - i,
        {
            self.apply(steps[i]);
            i = i + 1;
        }
    }
}

} // verus!
