use vstd::prelude::*;

verus! {

/// What the platform reports about the window labelled `search`, queried
/// afresh before every decision.
#[derive(Clone, Copy, Debug, PartialEq, Eq, Structural)]
pub enum OverlayState {
    /// No window with the overlay's label exists.
    Absent,
    /// The overlay window exists and is hidden.
    Hidden,
    /// The overlay window exists and is shown.
    Visible,
}

/// One platform call, performed in list order by the program that owns the
/// windows. A failed call is reported and the remaining calls still run.
#[derive(Clone, Copy, Debug, PartialEq, Eq, Structural)]
pub enum Action {
    ShowMain,
    FocusMain,
    HideMain,
    /// Create the overlay window hidden and not always-on-top, with its
    /// focus-loss handler, unless a window with its label already exists.
    CreateOverlay,
    /// Place the overlay on the monitor under the cursor
    /// (see `geometry::place_overlay`).
    PositionOverlay,
    SetOverlayOnTop(bool),
    ShowOverlay,
    FocusOverlay,
    HideOverlay,
    /// Destroy the overlay window, not merely hide it.
    DestroyOverlay,
    /// Tell the overlay's content whether it is now open (`search-window-open`).
    EmitOverlayOpen(bool),
}

/// Bring the main window forward.
pub open spec fn show_main_steps() -> Seq<Action> {
    seq![Action::ShowMain, Action::FocusMain]
}

/// Show an existing overlay where the user is working.
pub open spec fn reveal_steps() -> Seq<Action> {
    seq![
        Action::PositionOverlay,
        Action::SetOverlayOnTop(true),
        Action::ShowOverlay,
        Action::FocusOverlay,
        Action::EmitOverlayOpen(true),
    ]
}

/// Hide a shown overlay; it stops being always-on-top as it goes.
pub open spec fn conceal_steps() -> Seq<Action> {
    seq![Action::EmitOverlayOpen(false), Action::SetOverlayOnTop(false), Action::HideOverlay]
}

/// The answer to a toggle (hotkey or tray click).
pub open spec fn toggle_steps(enabled: bool, observed: OverlayState) -> Seq<Action> {
    if !enabled {
        show_main_steps()
    } else {
        match observed {
            OverlayState::Absent => seq![Action::CreateOverlay] + reveal_steps(),
            OverlayState::Hidden => reveal_steps(),
            OverlayState::Visible => conceal_steps(),
        }
    }
}

/// The answer to the overlay losing focus, or to its content asking to close.
pub open spec fn dismiss_steps(observed: OverlayState) -> Seq<Action> {
    if observed is Visible {
        conceal_steps()
    } else {
        seq![]
    }
}

/// The answer to the search feature being switched off.
pub open spec fn disable_steps(observed: OverlayState) -> Seq<Action> {
    match observed {
        OverlayState::Absent => seq![],
        OverlayState::Hidden => seq![Action::DestroyOverlay],
        OverlayState::Visible => seq![Action::EmitOverlayOpen(false), Action::DestroyOverlay],
    }
}

/// The answer to a request to quit: hide everything and keep running, so that
/// the global hotkey still works.
pub open spec fn exit_steps(observed: OverlayState) -> Seq<Action> {
    seq![Action::HideMain] + dismiss_steps(observed)
}

/// The answer to the search feature being switched on or off.
pub open spec fn switch_steps(enabled: bool, observed: OverlayState) -> Seq<Action> {
    if enabled {
        seq![]
    } else {
        disable_steps(observed)
    }
}

fn push_reveal(v: &mut Vec<Action>)
    ensures
        final(v)@ == old(v)@ + reveal_steps(),
{
    v.push(Action::PositionOverlay);
    v.push(Action::SetOverlayOnTop(true));
    v.push(Action::ShowOverlay);
    v.push(Action::FocusOverlay);
    v.push(Action::EmitOverlayOpen(true));
    assert(v@ =~= old(v)@ + reveal_steps());
}

fn push_conceal(v: &mut Vec<Action>)
    ensures
        final(v)@ == old(v)@ + conceal_steps(),
{
    v.push(Action::EmitOverlayOpen(false));
    v.push(Action::SetOverlayOnTop(false));
    v.push(Action::HideOverlay);
    assert(v@ =~= old(v)@ + conceal_steps());
}

/// The calls that bring the main window forward (tray reopen, deep links,
/// and a toggle while search is switched off).
pub fn show_main_plan() -> (r: Vec<Action>)
    ensures
        r@ == show_main_steps(),
{
    let r = vec![Action::ShowMain, Action::FocusMain];
    assert(r@ =~= show_main_steps());
    r
}

/// The calls that answer the overlay losing focus, or its content asking to
/// close: a shown overlay is hidden, anything else is left alone.
pub fn dismiss_plan(observed: OverlayState) -> (r: Vec<Action>)
    ensures
        r@ == dismiss_steps(observed),
{
    let mut r: Vec<Action> = Vec::new();
    if observed == OverlayState::Visible {
        push_conceal(&mut r);
    }
    assert(r@ =~= dismiss_steps(observed));
    r
}

/// The calls that answer a request to quit: the main window is hidden and a
/// shown overlay is dismissed; the process keeps running.
pub fn exit_plan(observed: OverlayState) -> (r: Vec<Action>)
    ensures
        r@ == exit_steps(observed),
{
    let mut r: Vec<Action> = Vec::new();
    r.push(Action::HideMain);
    if observed == OverlayState::Visible {
        push_conceal(&mut r);
    }
    assert(r@ =~= exit_steps(observed));
    r
}

/// JSON's insignificant whitespace.
pub open spec fn is_json_space(c: char) -> bool {
    c == ' ' || c == '\n' || c == '\t' || c == '\r'
}

pub open spec fn all_json_space(s: Seq<char>) -> bool {
    forall|i: int| 0 <= i < s.len() ==> is_json_space(#[trigger] s[i])
}

/// `s` is the single JSON token `word`, with only whitespace around it.
pub open spec fn is_json_token(s: Seq<char>, word: Seq<char>) -> bool {
    exists|i: int|
        0 <= i && i + word.len() <= s.len() && all_json_space(#[trigger] s.subrange(0, i))
            && s.subrange(i, i + word.len()) == word && all_json_space(
            s.subrange(i + word.len(), s.len() as int),
        )
}

/// The boolean that a JSON text holds, if it holds one and nothing else.
pub open spec fn json_bool(s: Seq<char>) -> Option<bool> {
    if is_json_token(s, "true"@) {
        Some(true)
    } else if is_json_token(s, "false"@) {
        Some(false)
    } else {
        None
    }
}

/// Relies on `serde_json::from_str::<bool>`: it skips JSON whitespace, reads
/// one `true` or `false` literal, and then accepts only whitespace up to the
/// end; anything else is an error.
#[verifier::external_body]
fn parse_json_bool(s: &str) -> (r: Option<bool>)
    ensures
        r == json_bool(s@),
{
    serde_json::from_str::<bool>(s).ok()
}

/// The process-wide switch that decides whether the overlay may be used.
/// The hosted web content turns it on and off; it starts off.
pub struct OverlayController {
    search_enabled: bool,
}

impl View for OverlayController {
    type V = bool;

    closed spec fn view(&self) -> bool {
        self.search_enabled
    }
}

impl OverlayController {
    pub fn new() -> (r: Self)
        ensures
            !r@,
    {
        OverlayController { search_enabled: false }
    }

    pub fn search_enabled(&self) -> (r: bool)
        ensures
            r == self@,
    {
        self.search_enabled
    }

    /// The calls that answer a toggle, given what the platform reports about
    /// the overlay right now. While search is off the main window is shown
    /// instead and the overlay is not touched.
    pub fn toggle(&self, observed: OverlayState) -> (r: Vec<Action>)
        ensures
            r@ == toggle_steps(self@, observed),
    {
        let mut r: Vec<Action> = Vec::new();
        if !self.search_enabled {
            r = show_main_plan();
        } else {
            match observed {
                OverlayState::Absent => {
                    r.push(Action::CreateOverlay);
                    push_reveal(&mut r);
                },
                OverlayState::Hidden => {
                    push_reveal(&mut r);
                },
                OverlayState::Visible => {
                    push_conceal(&mut r);
                },
            }
        }
        assert(r@ =~= toggle_steps(self@, observed));
        r
    }

    /// Records whether search is on, and returns the calls that follow: when
    /// it goes off, an existing overlay is destroyed, after its content has
    /// been told that it closed if it was shown.
    pub fn set_search_enabled(&mut self, enabled: bool, observed: OverlayState) -> (r: Vec<
        Action,
    >)
        ensures
            final(self)@ == enabled,
            r@ == switch_steps(enabled, observed),
    {
        self.search_enabled = enabled;
        let mut r: Vec<Action> = Vec::new();
        if !enabled {
            match observed {
                OverlayState::Absent => {},
                OverlayState::Hidden => {
                    r.push(Action::DestroyOverlay);
                },
                OverlayState::Visible => {
                    r.push(Action::EmitOverlayOpen(false));
                    r.push(Action::DestroyOverlay);
                },
            }
        }
        assert(r@ =~= switch_steps(enabled, observed));
        r
    }

    /// Handles the signal by which the hosted content switches search on or
    /// off; its payload is a JSON boolean. A payload that is not one changes
    /// nothing.
    pub fn apply_enabled_signal(&mut self, payload: &str, observed: OverlayState) -> (r: Vec<
        Action,
    >)
        ensures
            json_bool(payload@) is None ==> final(self)@ == old(self)@ && r@ == Seq::<
                Action,
            >::empty(),
            json_bool(payload@) matches Some(b) ==> final(self)@ == b && r@ == switch_steps(
                b,
                observed,
            ),
    {
        match parse_json_bool(payload) {
            Some(enabled) => self.set_search_enabled(enabled, observed),
            None => Vec::new(),
        }
    }
}

} // verus!
