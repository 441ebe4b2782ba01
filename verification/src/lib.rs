//! A minimal desktop-shell command surface: query the host system's
//! identity, and drive the one main window (title, minimize, toggle
//! maximize) through a fixed set of dispatcher decisions.
//!
//! The host windowing runtime owns the window itself. This crate holds
//! the part that can be reasoned about: what each command decides to do
//! given what the host reported (window present or absent, an OS call's
//! outcome), how an OS failure is surfaced, and a model of what each
//! window action does to the window's observable state.

mod dispatch;
mod failure;
mod state;
mod sysinfo;

pub use dispatch::WindowAction;
pub use dispatch::complete_operation;
pub use dispatch::lemma_absent_window_is_success;
pub use dispatch::lemma_os_failure_surfaces;
pub use dispatch::minimize_window;
pub use dispatch::set_window_title;
pub use dispatch::spec_complete;
pub use dispatch::spec_minimize_action;
pub use dispatch::spec_set_title_action;
pub use dispatch::spec_toggle_action;
pub use dispatch::spec_toggle_outcome;
pub use dispatch::toggle_action;
pub use dispatch::toggle_maximize;
pub use failure::OperationError;
pub use state::WindowModel;
pub use state::lemma_minimize_when_minimized;
pub use state::lemma_set_title_then_query;
pub use state::lemma_toggle_twice_restores;
pub use state::spec_apply;
pub use sysinfo::get_system_info;
pub use sysinfo::spec_system_info;
