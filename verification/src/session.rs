//! The session manager: a single slot holding at most one PTY session.
//!
//! The manager owns every lifecycle decision.  The operating-system work that
//! a decision calls for (opening a PTY pair, spawning the child, writing,
//! flushing, resizing) is described by a request value that the embedding
//! application executes; the outcome of that work is handed back and the
//! manager turns it into the operation's result and its state change.  Each
//! operation therefore comes as a pure `begin` step that inspects or updates
//! the slot and a `finish` step that folds the outside outcome back in; `kill`
//! and the activity query need no outside work at all.

use vstd::prelude::*;

use crate::errors::SessionError;

verus! {

/// Default terminal height, in rows, of a freshly spawned session.
pub const DEFAULT_ROWS: u16 = 24;

/// Default terminal width, in columns, of a freshly spawned session.
pub const DEFAULT_COLS: u16 = 80;

/// One spawned child bound to a pseudo-terminal.
///
/// The record tracks the identity and the externally observable geometry of
/// the session.  The OS-level handles themselves (child process, input
/// writer, master control) are opaque resources that the embedding
/// application keeps keyed by `session_id`; dropping the record is the signal
/// to drop those handles.
#[derive(Debug, Clone, PartialEq, Eq)]
pub struct PtySession {
    /// Identity of this session; distinct for every spawn of one manager.
    pub session_id: u64,
    /// Working directory the child was started in.
    pub cwd: String,
    /// Current terminal height in rows.
    pub rows: u16,
    /// Current terminal width in columns.
    pub cols: u16,
}

/// The session manager's state: one optional slot, plus a counter that mints
/// a fresh identity for every session it ever installs.
///
/// The embedding application guards a `PtyState` with one mutual-exclusion
/// lock and performs every operation under it.
pub struct PtyState {
    /// The slot: at any instant it holds zero or one session record.
    pub session: Option<PtySession>,
    /// Next unused session identity; strictly above every identity handed out.
    pub next_id: u64,
}

impl PtyState {
    /// Well-formedness: the stored session, if any, carries an identity that
    /// was minted by this manager, i.e. one below the counter.
    pub open spec fn wf(self) -> bool {
        match self.session {
            Some(s) => s.session_id < self.next_id,
            None => true,
        }
    }
}

impl Default for PtyState {
    /// A manager with an empty slot.
    fn default() -> (r: Self)
        ensures
            r.session is None,
            r.next_id == 0,
            r.wf(),
    {
        PtyState { session: None, next_id: 0 }
    }
}

/// The outside work that `spawn_claude` asks the embedding application to
/// perform: open a PTY pair of the given size, build a command for the given
/// program with the given working directory and environment, spawn it
/// attached to the PTY's slave side, and take the master's input writer.
#[derive(Debug, Clone, PartialEq, Eq)]
pub struct SpawnRequest {
    /// Program to start.
    pub program: String,
    /// Working directory of the child.
    pub cwd: String,
    /// Value of the child's `TERM` environment variable.
    pub term: String,
    /// Value of the child's `COLORTERM` environment variable.
    pub colorterm: String,
    /// Initial terminal height in rows.
    pub rows: u16,
    /// Initial terminal width in columns.
    pub cols: u16,
}

/// How the outside work of a spawn ended.  The payload of a failing variant
/// is the error text reported by the PTY backend.
#[derive(Debug, Clone, PartialEq, Eq)]
pub enum SpawnOutcome {
    /// PTY pair opened, child spawned, writer taken: the session is live.
    Ready,
    /// Opening the PTY pair failed.
    PtyOpenFailed(String),
    /// Spawning the child attached to the slave side failed.
    SpawnFailed(String),
    /// Taking the master's input writer failed.
    WriterFailed(String),
}

/// Model of `spawn_claude_begin`'s state change: the slot is cleared.
pub open spec fn spec_spawn_begin(s: PtyState) -> PtyState {
    PtyState { session: None, ..s }
}

/// First step of `spawn_claude`: clear any existing session — dropping the
/// prior record's handles, which tears down the prior child and PTY — and
/// describe the outside work for the new one: the host's CLI `program`,
/// started in `cwd` at the default window size, under a color-capable
/// terminal environment.
pub fn spawn_claude_begin(state: &mut PtyState, cwd: &String, program: &str) -> (req: SpawnRequest)
    ensures
        *final(state) == spec_spawn_begin(*old(state)),
        final(state).session is None,
        final(state).next_id == old(state).next_id,
        req.program@ == program@,
        req.cwd@ == cwd@,
        req.term@ == "xterm-256color"@,
        req.colorterm@ == "truecolor"@,
        req.rows == DEFAULT_ROWS,
        req.cols == DEFAULT_COLS,
        old(state).wf() ==> final(state).wf(),
{
    state.session = None;
    SpawnRequest {
        program: String::from_str(program),
        cwd: cwd.clone(),
        term: String::from_str("xterm-256color"),
        colorterm: String::from_str("truecolor"),
        rows: DEFAULT_ROWS,
        cols: DEFAULT_COLS,
    }
}

/// Model of `spawn_claude_finish`'s state change: on success a fresh record
/// for `cwd` is installed at the default size and the identity counter moves
/// past it; on failure the state is untouched.
pub open spec fn spec_spawn_finish(s: PtyState, cwd: String, outcome: SpawnOutcome) -> PtyState {
    match outcome {
        SpawnOutcome::Ready => PtyState {
            session: Some(
                PtySession {
                    session_id: s.next_id,
                    cwd: cwd,
                    rows: DEFAULT_ROWS,
                    cols: DEFAULT_COLS,
                },
            ),
            next_id: (s.next_id + 1) as u64,
        },
        _ => s,
    }
}

/// The descriptive message of a failed spawn, by the step that failed.
pub open spec fn spec_spawn_error_message(outcome: SpawnOutcome) -> Seq<char>
    recommends
        !(outcome is Ready),
{
    match outcome {
        SpawnOutcome::Ready => Seq::empty(),
        SpawnOutcome::PtyOpenFailed(e) => "Failed to open PTY: "@ + e@,
        SpawnOutcome::SpawnFailed(e) => "Failed to spawn command: "@ + e@,
        SpawnOutcome::WriterFailed(e) => "Failed to get PTY writer: "@ + e@,
    }
}

/// Second step of `spawn_claude`: fold the outcome of the outside work back
/// into the manager.  On success a fresh record for `cwd` is installed at the
/// default window size; on failure the slot is left untouched — the prior
/// session was already cleared by the first step, so a failed spawn leaves no
/// session installed.
pub fn spawn_claude_finish(state: &mut PtyState, cwd: String, outcome: SpawnOutcome) -> (r: Result<
    (),
    SessionError,
>)
    requires
        old(state).next_id < u64::MAX,
    ensures
        *final(state) == spec_spawn_finish(*old(state), cwd, outcome),
        r is Ok <==> outcome is Ready,
        !(outcome is Ready) ==> (r matches Err(SessionError::SpawnError(m)) && m@
            == spec_spawn_error_message(outcome)),
        old(state).wf() ==> final(state).wf(),
{
    match outcome {
        SpawnOutcome::Ready => {
            state.session = Some(
                PtySession {
                    session_id: state.next_id,
                    cwd: cwd,
                    rows: DEFAULT_ROWS,
                    cols: DEFAULT_COLS,
                },
            );
            state.next_id = state.next_id + 1;
            Ok(())
        },
        SpawnOutcome::PtyOpenFailed(e) => Err(
            SessionError::SpawnError(String::from_str("Failed to open PTY: ").concat(e.as_str())),
        ),
        SpawnOutcome::SpawnFailed(e) => Err(
            SessionError::SpawnError(String::from_str("Failed to spawn command: ").concat(e.as_str())),
        ),
        SpawnOutcome::WriterFailed(e) => Err(
            SessionError::SpawnError(String::from_str("Failed to get PTY writer: ").concat(e.as_str())),
        ),
    }
}

/// The decision a slot-guarded operation takes: act on the stored session,
/// or fail for want of one.
#[derive(Debug, Clone, PartialEq, Eq)]
pub enum SlotDecision {
    /// A session with this identity is installed; perform the outside work.
    Proceed(u64),
    /// The slot is empty; the operation fails with `NoActiveSession`.
    NoSession,
}

/// Model of the slot check shared by `send_input` and `resize_terminal`.
pub open spec fn spec_slot_decision(s: PtyState) -> SlotDecision {
    match s.session {
        Some(rec) => SlotDecision::Proceed(rec.session_id),
        None => SlotDecision::NoSession,
    }
}

/// The outside work that `send_input` asks for: write these bytes to the
/// session's PTY input writer and flush it, so that keystrokes are delivered
/// promptly.
#[derive(Debug, Clone, PartialEq, Eq)]
pub struct WriteRequest {
    /// Identity of the session whose writer is to be used.
    pub session_id: u64,
    /// The raw bytes to write: the UTF-8 encoding of the caller's text.
    pub bytes: Vec<u8>,
}

/// How the outside work of a send ended.  The payload of a failing variant
/// is the error text reported by the write or flush call.
#[derive(Debug, Clone, PartialEq, Eq)]
pub enum WriteOutcome {
    /// Both the write and the flush succeeded.
    Done,
    /// The write failed.
    WriteFailed(String),
    /// The write succeeded but the flush failed.
    FlushFailed(String),
}

/// First step of `send_input`: if a session is installed, ask for its writer
/// to receive exactly the raw bytes of `input`; fail with `NoActiveSession`
/// otherwise.  The slot itself is never changed by a send.
pub fn send_input_begin(state: &PtyState, input: &String) -> (r: Result<WriteRequest, SessionError>)
    ensures
        spec_slot_decision(*state) matches SlotDecision::Proceed(id) ==> (r matches Ok(req)
            && req.session_id == id && req.bytes@ == vstd::utf8::encode_utf8(input@)),
        spec_slot_decision(*state) is NoSession ==> (r matches Err(e) && e
            == SessionError::NoActiveSession),
        r is Ok <==> state.session is Some,
{
    match &state.session {
        Some(rec) => Ok(
            WriteRequest { session_id: rec.session_id, bytes: input.as_str().as_bytes_vec() },
        ),
        None => Err(SessionError::NoActiveSession),
    }
}

/// The descriptive message of a failed send, by the call that failed.
pub open spec fn spec_send_error_message(outcome: WriteOutcome) -> Seq<char>
    recommends
        !(outcome is Done),
{
    match outcome {
        WriteOutcome::Done => Seq::empty(),
        WriteOutcome::WriteFailed(e) => "Failed to write to PTY: "@ + e@,
        WriteOutcome::FlushFailed(e) => "Failed to flush PTY: "@ + e@,
    }
}

/// Second step of `send_input`: turn the outcome of the write and flush into
/// the operation's result.  A failure of either call is an `IOError` against
/// live handles; the manager's state is not involved.
pub fn send_input_finish(outcome: WriteOutcome) -> (r: Result<(), SessionError>)
    ensures
        r is Ok <==> outcome is Done,
        !(outcome is Done) ==> (r matches Err(SessionError::IOError(m)) && m@
            == spec_send_error_message(outcome)),
{
    match outcome {
        WriteOutcome::Done => Ok(()),
        WriteOutcome::WriteFailed(e) => Err(
            SessionError::IOError(String::from_str("Failed to write to PTY: ").concat(e.as_str())),
        ),
        WriteOutcome::FlushFailed(e) => Err(
            SessionError::IOError(String::from_str("Failed to flush PTY: ").concat(e.as_str())),
        ),
    }
}

/// The outside work that `resize_terminal` asks for: apply these window
/// dimensions to the session's master control handle.
#[derive(Debug, Clone, PartialEq, Eq)]
pub struct ResizeRequest {
    /// Identity of the session whose master handle is to be resized.
    pub session_id: u64,
    /// New terminal height in rows.
    pub rows: u16,
    /// New terminal width in columns.
    pub cols: u16,
}

/// How the outside work of a resize ended.
#[derive(Debug, Clone, PartialEq, Eq)]
pub enum ResizeOutcome {
    /// The new dimensions were applied.
    Done,
    /// The resize call failed; the payload is the backend's error text.
    ResizeFailed(String),
}

/// First step of `resize_terminal`: if a session is installed, ask for its
/// master handle to take the new dimensions; fail with `NoActiveSession`
/// otherwise, with no side effect.
pub fn resize_terminal_begin(state: &PtyState, rows: u16, cols: u16) -> (r: Result<
    ResizeRequest,
    SessionError,
>)
    ensures
        spec_slot_decision(*state) matches SlotDecision::Proceed(id) ==> (r matches Ok(req)
            && req.session_id == id && req.rows == rows && req.cols == cols),
        spec_slot_decision(*state) is NoSession ==> (r matches Err(e) && e
            == SessionError::NoActiveSession),
        r is Ok <==> state.session is Some,
{
    match &state.session {
        Some(rec) => Ok(ResizeRequest { session_id: rec.session_id, rows: rows, cols: cols }),
        None => Err(SessionError::NoActiveSession),
    }
}

/// Model of `resize_terminal_finish`'s state change: on success the stored
/// session — provided it is still the one the request was made for — records
/// the new dimensions; in every other case the state is untouched.
pub open spec fn spec_resize_finish(s: PtyState, req: ResizeRequest, outcome: ResizeOutcome) -> PtyState {
    match outcome {
        ResizeOutcome::Done => match s.session {
            Some(rec) => if rec.session_id == req.session_id {
                PtyState {
                    session: Some(PtySession { rows: req.rows, cols: req.cols, ..rec }),
                    ..s
                }
            } else {
                s
            },
            None => s,
        },
        ResizeOutcome::ResizeFailed(_) => s,
    }
}

/// Second step of `resize_terminal`: fold the backend's answer back in.  On
/// success the manager records the dimensions now in force for the session
/// the request named — if that session was superseded in the meantime, the
/// newcomer is left alone.  On failure the result is an `IOError` and
/// nothing changes.
pub fn resize_terminal_finish(state: &mut PtyState, req: &ResizeRequest, outcome: ResizeOutcome) -> (r:
    Result<(), SessionError>)
    ensures
        *final(state) == spec_resize_finish(*old(state), *req, outcome),
        r is Ok <==> outcome is Done,
        outcome matches ResizeOutcome::ResizeFailed(e) ==> (r matches Err(
            SessionError::IOError(m),
        ) && m@ == "Failed to resize PTY: "@ + e@),
        old(state).wf() ==> final(state).wf(),
{
    match outcome {
        ResizeOutcome::Done => {
            match &mut state.session {
                Some(rec) => {
                    if rec.session_id == req.session_id {
                        rec.rows = req.rows;
                        rec.cols = req.cols;
                    }
                },
                None => {},
            }
            Ok(())
        },
        ResizeOutcome::ResizeFailed(e) => Err(
            SessionError::IOError(String::from_str("Failed to resize PTY: ").concat(e.as_str())),
        ),
    }
}

/// Model of `kill_session`: the slot after the call and the returned result.
pub open spec fn spec_kill(s: PtyState) -> (PtyState, Result<(), SessionError>) {
    match s.session {
        Some(_) => (PtyState { session: None, ..s }, Ok(())),
        None => (s, Err(SessionError::NoActiveSession)),
    }
}

/// Kill the current session: clear the slot, which drops all owned handles
/// and thereby releases the OS resources and closes the child's PTY.
///
/// Succeeds exactly when a session was installed; with an empty slot it
/// returns `NoActiveSession` and has no effect.
pub fn kill_session(state: &mut PtyState) -> (r: Result<(), SessionError>)
    ensures
        (*final(state), r) == spec_kill(*old(state)),
        final(state).session is None,
        final(state).next_id == old(state).next_id,
        r is Ok <==> old(state).session is Some,
        old(state).wf() ==> final(state).wf(),
{
    if state.session.is_some() {
        state.session = None;
        Ok(())
    } else {
        Err(SessionError::NoActiveSession)
    }
}

/// Model of `has_active_session`.
pub open spec fn spec_is_active(s: PtyState) -> bool {
    s.session is Some
}

/// Whether the slot currently holds a session.
pub fn has_active_session(state: &PtyState) -> (b: bool)
    ensures
        b == spec_is_active(*state),
{
    state.session.is_some()
}

/// Single-session invariant under supersession: a spawn issued while a
/// session is active first drops the prior record, and afterwards exactly
/// one session is active, bound to the new working directory, with an
/// identity the manager had never handed out before — so the prior record's
/// handles are no longer referenced.
pub proof fn lemma_spawn_supersedes(s: PtyState, cwd_a: String, cwd_b: String)
    requires
        s.wf(),
        s.next_id + 1 < u64::MAX,
    ensures
        ({
            let s1 = spec_spawn_finish(spec_spawn_begin(s), cwd_a, SpawnOutcome::Ready);
            let s2 = spec_spawn_finish(spec_spawn_begin(s1), cwd_b, SpawnOutcome::Ready);
            &&& spec_is_active(s2)
            &&& s2.session matches Some(rb) && rb.cwd == cwd_b && (s1.session matches Some(ra)
                && rb.session_id != ra.session_id)
            &&& s2.wf()
        }),
{
}

/// No-session errors: with an empty slot, `send_input` and `resize_terminal`
/// decide to fail, `kill_session` fails with `NoActiveSession`, and none of
/// them has a side effect.
pub proof fn lemma_no_session_errors(s: PtyState)
    requires
        s.session is None,
    ensures
        spec_slot_decision(s) is NoSession,
        spec_kill(s) == (s, Err::<(), SessionError>(SessionError::NoActiveSession)),
{
}

/// Idempotent kill: with a session active, the first kill succeeds and
/// empties the slot, and a second kill then fails with `NoActiveSession`
/// without further effect.
pub proof fn lemma_kill_idempotent(s: PtyState)
    requires
        s.session is Some,
    ensures
        ({
            let (s1, r1) = spec_kill(s);
            let (s2, r2) = spec_kill(s1);
            &&& r1 == Ok::<(), SessionError>(())
            &&& !spec_is_active(s1)
            &&& r2 == Err::<(), SessionError>(SessionError::NoActiveSession)
            &&& s2 == s1
        }),
{
}

/// Resize effect: a resize that the backend accepts leaves the session it
/// was issued against reporting exactly the new dimensions, with its
/// identity and working directory untouched.
pub proof fn lemma_resize_effect(s: PtyState, req: ResizeRequest, rec: PtySession)
    requires
        s.session == Some(rec),
        req.session_id == rec.session_id,
    ensures
        ({
            let s1 = spec_resize_finish(s, req, ResizeOutcome::Done);
            s1.session matches Some(after) && after.rows == req.rows && after.cols == req.cols
                && after.session_id == rec.session_id && after.cwd == rec.cwd
        }),
{
}

/// A failed spawn leaves no session installed, even where one was active
/// before the attempt began: the prior record is dropped by the first step
/// and the failing second step installs nothing.
pub proof fn lemma_failed_spawn_inactive(s: PtyState, cwd: String, outcome: SpawnOutcome)
    requires
        !(outcome is Ready),
    ensures
        !spec_is_active(spec_spawn_finish(spec_spawn_begin(s), cwd, outcome)),
{
}

} // verus!
