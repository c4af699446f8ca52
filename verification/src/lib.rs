//! Verified core of a pseudo-terminal (PTY) session manager.
//!
//! The library models the lifecycle of at most one interactive child process
//! bound to a pseudo-terminal: spawning it in a chosen working directory,
//! writing keystrokes to it, resizing its window, killing it, and relaying
//! its output as an ordered stream of events that ends with exactly one exit
//! event.  The operating-system side of each step (opening the PTY, spawning
//! the child, the blocking reads and writes) is performed by the embedding
//! application; this crate makes every decision and proves the lifecycle
//! invariants.
//!
//! One deliberate asymmetry: termination detected by the relay (end of
//! stream or a read error) does not clear the manager's slot, so the manager
//! may report a session active after its child has exited, until an explicit
//! kill or a new spawn.  The two components share no state; only the
//! embedding application holds both.

mod auth;
mod deps;
mod errors;
mod paths;
mod relay;
mod session;

pub use auth::AuthStatus;
pub use auth::ConfigDirListing;
pub use auth::check_auth_status;
pub use auth::get_claude_config_dir;
pub use auth::get_claude_config_info;
pub use deps::DependencyStatus;
pub use deps::check_dependencies;
pub use deps::get_shell_path;
pub use deps::install_claude_code;
pub use deps::latest_nvm_version;
pub use deps::seq_char_lt;
pub use deps::str_lt;
pub use paths::join_path;

pub use errors::SessionError;
pub use relay::OutputRelay;
pub use relay::ReadEvent;
pub use relay::RelayAction;
pub use relay::lossy_of;
pub use errors::spec_message;
pub use session::DEFAULT_COLS;
pub use session::DEFAULT_ROWS;
pub use session::PtySession;
pub use session::PtyState;
pub use session::ResizeOutcome;
pub use session::ResizeRequest;
pub use session::SlotDecision;
pub use session::SpawnOutcome;
pub use session::SpawnRequest;
pub use session::WriteOutcome;
pub use session::WriteRequest;
pub use session::has_active_session;
pub use session::kill_session;
pub use session::lemma_failed_spawn_inactive;
pub use session::lemma_kill_idempotent;
pub use session::lemma_no_session_errors;
pub use session::lemma_resize_effect;
pub use session::lemma_spawn_supersedes;
pub use session::resize_terminal_begin;
pub use session::resize_terminal_finish;
pub use session::send_input_begin;
pub use session::send_input_finish;
pub use session::spawn_claude_begin;
pub use session::spawn_claude_finish;
pub use session::spec_is_active;
pub use session::spec_kill;
pub use session::spec_resize_finish;
pub use session::spec_slot_decision;
pub use session::spec_spawn_begin;
pub use session::spec_spawn_error_message;
pub use session::spec_spawn_finish;
pub use session::spec_send_error_message;
