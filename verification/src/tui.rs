//! The decisions of the interactive terminal front end: which handler a key
//! goes to, and how a project created from it enters the project index.
use crate::models::{GlobalIndex, ProjectRef};
use crate::projects::{entry_of, has_dir};
use crate::text::{copy_str, str_eq};
use vstd::prelude::*;

verus! {

/// The key codes the front end tells apart.
#[derive(Debug, Clone, Copy, PartialEq, Eq, Structural)]
pub enum Key {
    Char(char),
    Enter,
    Esc,
    Backspace,
    Tab,
    Up,
    Down,
    Left,
    Right,
    Home,
    End,
    PageUp,
    PageDown,
    Delete,
    Other,
}

/// What the dispatch looks at: the open overlays, and whether a `g` of a
/// `gg` jump is pending.
#[derive(Debug, Clone, Copy, PartialEq, Eq, Structural)]
pub struct TuiState {
    pub confirm_open: bool,
    pub help_open: bool,
    pub console_visible: bool,
    pub vim_pending_g: bool,
}

/// Where a key goes.
#[derive(Debug, Clone, Copy, PartialEq, Eq, Structural)]
pub enum TuiAction {
    /// To the open confirmation prompt.
    Confirm,
    /// To the open help overlay.
    Help,
    /// To the visible console.
    Console,
    /// `?` opened the help overlay.
    HelpOpened,
    /// To the open modal, and to the current screen where no modal takes it.
    ModalOrScreen,
}

/// The dispatch order: confirmation, help, console, `?`, then modal and
/// screen. Only `?` changes the state: it opens help and drops a pending `g`.
pub open spec fn tui_step_spec(s: TuiState, key: Key) -> (TuiState, TuiAction) {
    if s.confirm_open {
        (s, TuiAction::Confirm)
    } else if s.help_open {
        (s, TuiAction::Help)
    } else if s.console_visible {
        (s, TuiAction::Console)
    } else if key == Key::Char('?') {
        (TuiState { help_open: true, vim_pending_g: false, ..s }, TuiAction::HelpOpened)
    } else {
        (s, TuiAction::ModalOrScreen)
    }
}

/// Routes one key press.
pub fn tui_step(state: &TuiState, key: Key) -> (r: (TuiState, TuiAction))
    ensures
        r == tui_step_spec(*state, key),
{
    let s = *state;
    if s.confirm_open {
        (s, TuiAction::Confirm)
    } else if s.help_open {
        (s, TuiAction::Help)
    } else if s.console_visible {
        (s, TuiAction::Console)
    } else if key == Key::Char('?') {
        (TuiState { help_open: true, vim_pending_g: false, ..s }, TuiAction::HelpOpened)
    } else {
        (s, TuiAction::ModalOrScreen)
    }
}

/// The index after a project created from the front end is registered: it
/// is added at the end unless a project with its directory is registered.
pub fn register_created(index: &GlobalIndex, p: &ProjectRef) -> (r: GlobalIndex)
    ensures
        r@ == if has_dir(index@, p.project_dir@) {
            index@
        } else {
            index@.push(entry_of(*p))
        },
{
    let mut projects: Vec<ProjectRef> = Vec::new();
    let mut found = false;
    let mut i: usize = 0;
    while i < index.projects.len()
        invariant
            i <= index.projects.len(),
            projects@.map_values(|q: ProjectRef| entry_of(q)) == index@.take(i as int),
            found == exists|j: int| 0 <= j < i && (#[trigger] index@[j]).1 == p.project_dir@,
        decreases index.projects.len() - i,
    {
        let q = &index.projects[i];
        let ghost before = projects@.map_values(|q: ProjectRef| entry_of(q));
        assert(index@[i as int] == entry_of(*q));
        if str_eq(q.project_dir.as_str(), p.project_dir.as_str()) {
            found = true;
        }
        let c = ProjectRef { project_name: copy_str(q.project_name.as_str()), project_dir: copy_str(q.project_dir.as_str()) };
        projects.push(c);
        assert(projects@.map_values(|q: ProjectRef| entry_of(q)) =~= before.push(entry_of(c)));
        assert(index@.take(i + 1) =~= index@.take(i as int).push(index@[i as int]));
        i = i + 1;
    }
    assert(index@.take(index.projects.len() as int) =~= index@);
    if !found {
        let c = ProjectRef { project_name: copy_str(p.project_name.as_str()), project_dir: copy_str(p.project_dir.as_str()) };
        let ghost before = projects@.map_values(|q: ProjectRef| entry_of(q));
        projects.push(c);
        assert(projects@.map_values(|q: ProjectRef| entry_of(q)) =~= before.push(entry_of(c)));
    }
    GlobalIndex { projects }
}

} // verus!
