//! Decision logic of a desktop companion that mirrors the state of
//! OpenCode agent sessions: command-line flags, display-server detection,
//! the state-file location, session selection, event payloads and the
//! polling state machine.

pub mod cli;
pub mod paths;
pub mod session;
pub mod payload;
pub mod poll;
mod text;

pub use cli::{
    CliArgs, WindowToggle, argv_requests_toggle, is_wayland_from, is_x11, must_exit_without_session,
    parse_args_from, pinned_session_id, toggle_action,
};
pub use paths::state_file_path_from;
pub use session::{CompanionState, STATE_VERSION, Session, choose_session, parse_state};
pub use payload::{Payload, build_payload, current_payload, emit_if_changed, idle_payload, same_payload};
pub use poll::{FileStamp, Poller, ReadAction, ReadOutcome};
