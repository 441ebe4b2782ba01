use vstd::prelude::*;
use crate::failure::OperationError;

verus! {

/// A single OS-level window operation the dispatcher may request of the
/// host runtime. The dispatcher only ever decides which of these to
/// perform; the host performs it.
pub enum WindowAction {
    SetTitle(String),
    Minimize,
    Maximize,
    Unmaximize,
}

/// The action that toggles a window's maximized state: restore when the
/// window reports itself maximized, maximize when it does not.
pub open spec fn spec_toggle_action(is_maximized: bool) -> WindowAction {
    if is_maximized {
        WindowAction::Unmaximize
    } else {
        WindowAction::Maximize
    }
}

/// The set-title command's decision: set the requested title if the main
/// window was found, otherwise do nothing.
pub open spec fn spec_set_title_action(window_found: bool, title: String) -> Option<WindowAction> {
    if window_found {
        Some(WindowAction::SetTitle(title))
    } else {
        None
    }
}

/// The minimize command's decision: minimize if the main window was
/// found, otherwise do nothing.
pub open spec fn spec_minimize_action(window_found: bool) -> Option<WindowAction> {
    if window_found {
        Some(WindowAction::Minimize)
    } else {
        None
    }
}

/// The toggle command's decision, from the host's answer to the
/// maximized-state query: `None` when there is no main window (no query
/// was made, the command is a successful no-op), a failed query's text
/// when the query failed, and otherwise the toggling action for the
/// reported state.
pub open spec fn spec_toggle_outcome(queried: Option<Result<bool, String>>) -> Result<
    Option<WindowAction>,
    Seq<char>,
> {
    match queried {
        None => Ok(None),
        Some(Ok(m)) => Ok(Some(spec_toggle_action(m))),
        Some(Err(s)) => Err(s@),
    }
}

/// The result every window command reports once its action, if any, was
/// performed: success when no action was performed (window absent) and
/// when the OS call succeeded; the OS failure's text otherwise.
pub open spec fn spec_complete(performed: Option<Result<(), String>>) -> Result<(), Seq<char>> {
    match performed {
        None => Ok(()),
        Some(Ok(())) => Ok(()),
        Some(Err(s)) => Err(s@),
    }
}

/// Decide the set-title command. `window_found` says whether the host
/// found a window named "main"; absence means no action (and so, once
/// completed, success by explicit policy).
pub fn set_window_title(window_found: bool, title: String) -> (r: Option<WindowAction>)
    ensures
        r == spec_set_title_action(window_found, title),
{
    if window_found {
        Some(WindowAction::SetTitle(title))
    } else {
        None
    }
}

/// Decide the minimize command. Absence of the main window means no
/// action (and so, once completed, success by explicit policy).
pub fn minimize_window(window_found: bool) -> (r: Option<WindowAction>)
    ensures
        r == spec_minimize_action(window_found),
{
    if window_found {
        Some(WindowAction::Minimize)
    } else {
        None
    }
}

/// The toggling decision alone: restore a maximized window, maximize a
/// non-maximized one.
pub fn toggle_action(is_maximized: bool) -> (r: WindowAction)
    ensures
        r == spec_toggle_action(is_maximized),
{
    if is_maximized {
        WindowAction::Unmaximize
    } else {
        WindowAction::Maximize
    }
}

/// Decide the toggle-maximize command from the host's answer to the
/// maximized-state query (`None`: no main window, so no query was made).
/// A failed query surfaces as an `OperationError` carrying the OS text;
/// otherwise the decided action, if any, is returned.
pub fn toggle_maximize(queried: Option<Result<bool, String>>) -> (r: Result<
    Option<WindowAction>,
    OperationError,
>)
    ensures
        r matches Ok(a) ==> spec_toggle_outcome(queried) == Ok::<Option<WindowAction>, Seq<char>>(a),
        r matches Err(e) ==> spec_toggle_outcome(queried) == Err::<Option<WindowAction>, Seq<char>>(e@),
{
    match queried {
        None => Ok(None),
        Some(Ok(m)) => Ok(Some(toggle_action(m))),
        Some(Err(s)) => Err(OperationError::from_os_error(s)),
    }
}

/// Turn the outcome of a command's OS call, if one was made, into the
/// command's result: success unless the OS reported a failure, whose
/// text is carried unchanged in the `OperationError`.
pub fn complete_operation(performed: Option<Result<(), String>>) -> (r: Result<(), OperationError>)
    ensures
        r matches Ok(u) ==> spec_complete(performed) == Ok::<(), Seq<char>>(u),
        r matches Err(e) ==> spec_complete(performed) == Err::<(), Seq<char>>(e@),
{
    match performed {
        None => Ok(()),
        Some(Ok(())) => Ok(()),
        Some(Err(s)) => Err(OperationError::from_os_error(s)),
    }
}

/// When no window named "main" exists, every window command decides to
/// perform no action, and completing a command that performed no action
/// reports success: absence of the window is success by policy, never an
/// error.
pub proof fn lemma_absent_window_is_success(title: String)
    ensures
        spec_set_title_action(false, title) is None,
        spec_minimize_action(false) is None,
        spec_toggle_outcome(None) == Ok::<Option<WindowAction>, Seq<char>>(None),
        spec_complete(None) == Ok::<(), Seq<char>>(()),
{
}

/// Any underlying OS failure surfaces as an error carrying the OS text
/// unchanged; in particular a non-empty OS text yields a non-empty error
/// message. This covers both places an OS call can fail: the
/// maximized-state query and a window action itself.
pub proof fn lemma_os_failure_surfaces(
    queried: Option<Result<bool, String>>,
    performed: Option<Result<(), String>>,
)
    ensures
        queried matches Some(Err(s)) ==> spec_toggle_outcome(queried) == Err::<
            Option<WindowAction>,
            Seq<char>,
        >(s@),
        (queried matches Some(Err(s)) && s@.len() > 0) ==> (spec_toggle_outcome(queried)
            matches Err(m) && m.len() > 0),
        performed matches Some(Err(s)) ==> spec_complete(performed) == Err::<(), Seq<char>>(s@),
        (performed matches Some(Err(s)) && s@.len() > 0) ==> (spec_complete(performed)
            matches Err(m) && m.len() > 0),
{
}

} // verus!
