use vstd::prelude::*;
use crate::dispatch::WindowAction;
use crate::dispatch::spec_toggle_action;

verus! {

/// The observable state of the main window, as far as the command
/// surface touches it: its displayed title and its minimized and
/// maximized flags. The host runtime owns the real window; this is the
/// model the dispatcher's decisions are proved against.
pub struct WindowModel {
    pub title: String,
    pub minimized: bool,
    pub maximized: bool,
}

/// What each window action does to the observable state: setting the
/// title replaces the title and nothing else; minimize sets the
/// minimized flag; maximize and unmaximize set and clear the maximized
/// flag. Every action leaves the other fields alone.
pub open spec fn spec_apply(w: WindowModel, a: WindowAction) -> WindowModel {
    match a {
        WindowAction::SetTitle(t) => WindowModel { title: t, minimized: w.minimized, maximized: w.maximized },
        WindowAction::Minimize => WindowModel { title: w.title, minimized: true, maximized: w.maximized },
        WindowAction::Maximize => WindowModel { title: w.title, minimized: w.minimized, maximized: true },
        WindowAction::Unmaximize => WindowModel { title: w.title, minimized: w.minimized, maximized: false },
    }
}

impl WindowModel {
    /// Apply one window action to the model, exactly as `spec_apply`
    /// describes it.
    pub fn apply_action(self, a: WindowAction) -> (r: WindowModel)
        ensures
            r == spec_apply(self, a),
    {
        match a {
            WindowAction::SetTitle(t) => WindowModel {
                title: t,
                minimized: self.minimized,
                maximized: self.maximized,
            },
            WindowAction::Minimize => WindowModel {
                title: self.title,
                minimized: true,
                maximized: self.maximized,
            },
            WindowAction::Maximize => WindowModel {
                title: self.title,
                minimized: self.minimized,
                maximized: true,
            },
            WindowAction::Unmaximize => WindowModel {
                title: self.title,
                minimized: self.minimized,
                maximized: false,
            },
        }
    }
}

/// Setting a title and then reading it back gives exactly the requested
/// title, whatever state the window was in.
pub proof fn lemma_set_title_then_query(w: WindowModel, t: String)
    ensures
        spec_apply(w, WindowAction::SetTitle(t)).title == t,
{
}

/// Minimizing a window that is already minimized changes nothing at
/// all: the action is idempotent, so repeating it gives the host no new
/// work and no new way to fail.
pub proof fn lemma_minimize_when_minimized(w: WindowModel)
    requires
        w.minimized,
    ensures
        spec_apply(w, WindowAction::Minimize) == w,
{
}

/// Toggling the maximized state twice in a row, starting from a
/// non-maximized window and with no interference in between, first
/// maximizes and then restores: the window ends exactly as it began.
pub proof fn lemma_toggle_twice_restores(w: WindowModel)
    requires
        !w.maximized,
    ensures
        ({
            let once = spec_apply(w, spec_toggle_action(w.maximized));
            let twice = spec_apply(once, spec_toggle_action(once.maximized));
            once.maximized && twice == w
        }),
{
}

} // verus!
