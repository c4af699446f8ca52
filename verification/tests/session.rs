use pty_session::{
    OutputRelay, PtyState, ReadEvent, RelayAction, ResizeOutcome, SessionError, SpawnOutcome,
    WriteOutcome, has_active_session, kill_session, resize_terminal_begin,
    resize_terminal_finish, send_input_begin, send_input_finish, spawn_claude_begin,
    spawn_claude_finish, DEFAULT_COLS, DEFAULT_ROWS,
};

fn spawn(state: &mut PtyState, cwd: &str) {
    let cwd = cwd.to_string();
    let _req = spawn_claude_begin(state, &cwd, "shellcli");
    let r = spawn_claude_finish(state, cwd, SpawnOutcome::Ready);
    assert!(r.is_ok());
}

#[test]
fn default_state_is_inactive() {
    let state = PtyState::default();
    assert!(!has_active_session(&state));
    assert!(state.session.is_none());
    assert_eq!(state.next_id, 0);
}

#[test]
fn spawn_success_reports_active() {
    let mut state = PtyState::default();
    spawn(&mut state, "/tmp/project");
    assert!(has_active_session(&state));
    let rec = state.session.as_ref().unwrap();
    assert_eq!(rec.cwd, "/tmp/project");
    assert_eq!(rec.rows, DEFAULT_ROWS);
    assert_eq!(rec.cols, DEFAULT_COLS);
}

#[test]
fn spawn_request_describes_the_command() {
    let mut state = PtyState::default();
    let cwd = "/tmp/project".to_string();
    let req = spawn_claude_begin(&mut state, &cwd, "shellcli");
    assert_eq!(req.program, "shellcli");
    assert_eq!(req.cwd, "/tmp/project");
    assert_eq!(req.term, "xterm-256color");
    assert_eq!(req.colorterm, "truecolor");
    assert_eq!(req.rows, 24);
    assert_eq!(req.cols, 80);
}

#[test]
fn no_session_errors() {
    let mut state = PtyState::default();
    let input = "ls\n".to_string();
    assert_eq!(
        send_input_begin(&state, &input).unwrap_err(),
        SessionError::NoActiveSession
    );
    assert_eq!(
        resize_terminal_begin(&state, 40, 120).unwrap_err(),
        SessionError::NoActiveSession
    );
    assert_eq!(kill_session(&mut state).unwrap_err(), SessionError::NoActiveSession);
    assert_eq!(SessionError::NoActiveSession.message(), "No active PTY session");
}

#[test]
fn kill_then_inactive() {
    let mut state = PtyState::default();
    spawn(&mut state, "/tmp/project");
    assert!(kill_session(&mut state).is_ok());
    assert!(!has_active_session(&state));
}

#[test]
fn kill_twice() {
    let mut state = PtyState::default();
    spawn(&mut state, "/tmp/project");
    assert!(kill_session(&mut state).is_ok());
    assert_eq!(kill_session(&mut state).unwrap_err(), SessionError::NoActiveSession);
}

#[test]
fn second_spawn_supersedes_the_first() {
    let mut state = PtyState::default();
    spawn(&mut state, "/a");
    let first_id = state.session.as_ref().unwrap().session_id;
    spawn(&mut state, "/b");
    assert!(has_active_session(&state));
    let rec = state.session.as_ref().unwrap();
    assert_eq!(rec.cwd, "/b");
    assert_ne!(rec.session_id, first_id);
}

#[test]
fn failed_spawn_leaves_no_session() {
    let mut state = PtyState::default();
    spawn(&mut state, "/a");
    let cwd = "/b".to_string();
    let _req = spawn_claude_begin(&mut state, &cwd, "shellcli");
    let r = spawn_claude_finish(&mut state, cwd, SpawnOutcome::PtyOpenFailed("boom".to_string()));
    assert_eq!(
        r.unwrap_err(),
        SessionError::SpawnError("Failed to open PTY: boom".to_string())
    );
    assert!(!has_active_session(&state));
}

#[test]
fn spawn_failure_messages() {
    let mut state = PtyState::default();
    let cwd = "/c".to_string();
    let _req = spawn_claude_begin(&mut state, &cwd, "shellcli");
    let r = spawn_claude_finish(
        &mut state,
        cwd.clone(),
        SpawnOutcome::SpawnFailed("no such file".to_string()),
    );
    let e = r.unwrap_err();
    assert_eq!(e.message(), "Failed to spawn command: no such file");
    let _req = spawn_claude_begin(&mut state, &cwd, "shellcli");
    let r = spawn_claude_finish(&mut state, cwd, SpawnOutcome::WriterFailed("closed".to_string()));
    assert_eq!(e_message(r), "Failed to get PTY writer: closed");
}

fn e_message(r: Result<(), SessionError>) -> String {
    r.unwrap_err().message()
}

#[test]
fn errors_carry_their_messages() {
    assert_eq!(SessionError::LockError("poisoned".to_string()).message(), "poisoned");
    assert_eq!(SessionError::IOError("nope".to_string()).message(), "nope");
    assert_eq!(SessionError::SpawnError("why".to_string()).message(), "why");
}

#[test]
fn exit_event_does_not_clear_the_slot() {
    let mut state = PtyState::default();
    spawn(&mut state, "/tmp/project");
    let mut relay = OutputRelay::new();
    let a = relay.on_read(ReadEvent::Eof);
    assert_eq!(a, RelayAction::Exit);
    assert!(relay.done);
    assert!(has_active_session(&state));
    assert!(kill_session(&mut state).is_ok());
    assert!(!has_active_session(&state));
}

#[test]
fn send_carries_the_raw_bytes() {
    let mut state = PtyState::default();
    spawn(&mut state, "/tmp/project");
    let input = "ls\n".to_string();
    let req = send_input_begin(&state, &input).unwrap();
    assert_eq!(req.session_id, state.session.as_ref().unwrap().session_id);
    assert_eq!(req.bytes, b"ls\n".to_vec());
    assert!(send_input_finish(WriteOutcome::Done).is_ok());
}

#[test]
fn send_failure_messages() {
    let r = send_input_finish(WriteOutcome::WriteFailed("broken pipe".to_string()));
    assert_eq!(
        r.unwrap_err(),
        SessionError::IOError("Failed to write to PTY: broken pipe".to_string())
    );
    let r = send_input_finish(WriteOutcome::FlushFailed("broken pipe".to_string()));
    assert_eq!(
        r.unwrap_err(),
        SessionError::IOError("Failed to flush PTY: broken pipe".to_string())
    );
}

#[test]
fn resize_effect() {
    let mut state = PtyState::default();
    spawn(&mut state, "/tmp/project");
    let req = resize_terminal_begin(&state, 40, 120).unwrap();
    assert_eq!(req.rows, 40);
    assert_eq!(req.cols, 120);
    assert!(resize_terminal_finish(&mut state, &req, ResizeOutcome::Done).is_ok());
    let rec = state.session.as_ref().unwrap();
    assert_eq!(rec.rows, 40);
    assert_eq!(rec.cols, 120);
    assert_eq!(rec.cwd, "/tmp/project");
}

#[test]
fn resize_failure_leaves_size_alone() {
    let mut state = PtyState::default();
    spawn(&mut state, "/tmp/project");
    let req = resize_terminal_begin(&state, 40, 120).unwrap();
    let r = resize_terminal_finish(
        &mut state,
        &req,
        ResizeOutcome::ResizeFailed("bad ioctl".to_string()),
    );
    assert_eq!(
        r.unwrap_err(),
        SessionError::IOError("Failed to resize PTY: bad ioctl".to_string())
    );
    let rec = state.session.as_ref().unwrap();
    assert_eq!(rec.rows, 24);
    assert_eq!(rec.cols, 80);
}
