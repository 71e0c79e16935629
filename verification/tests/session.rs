use uciclient::session::Engine;
use uciclient::session::EngineError;
use uciclient::session::SessionState;
use uciclient::session::Transport;

fn live_engine(lines: Vec<&str>) -> Engine {
    Engine {
        attached: true,
        alive: true,
        synced: true,
        pending: lines.into_iter().map(|s| s.to_string()).collect(),
        sent: Vec::new(),
        scan_budget: 16,
    }
}

#[test]
fn write_absent_fails_cleanly() {
    let mut e = Engine::idle(16);
    assert_eq!(e.write("stop"), Err(EngineError::WriteError));
    assert_eq!(e.state(), SessionState::Absent);
    assert!(e.sent.is_empty());
}

#[test]
fn write_live_appends_to_log() {
    let mut e = live_engine(vec![]);
    assert_eq!(e.write("stop"), Ok(()));
    assert_eq!(e.write("ucinewgame"), Ok(()));
    assert_eq!(e.sent, vec!["stop".to_string(), "ucinewgame".to_string()]);
    assert_eq!(e.state(), SessionState::LiveReady);
}

#[test]
fn write_on_closed_pipe_detaches() {
    let mut e = live_engine(vec![]);
    e.alive = false;
    assert_eq!(e.write("stop"), Err(EngineError::WriteError));
    assert_eq!(e.state(), SessionState::Absent);
}

#[test]
fn read_line_stalled_times_out() {
    let mut e = live_engine(vec![]);
    assert_eq!(e.read_line(), Err(EngineError::ReadTimeout));
    assert_eq!(e.read_line(), Err(EngineError::ReadTimeout));
    assert_eq!(e.state(), SessionState::LiveReady);
}

#[test]
fn read_line_absent_times_out() {
    let mut e = Engine::idle(16);
    assert_eq!(e.read_line(), Err(EngineError::ReadTimeout));
}

#[test]
fn read_line_returns_oldest_line_first() {
    let mut e = live_engine(vec!["first", "second"]);
    assert_eq!(e.read_line(), Ok("first".to_string()));
    assert_eq!(e.read_line(), Ok("second".to_string()));
    assert_eq!(e.read_line(), Err(EngineError::ReadTimeout));
}

#[test]
fn expect_skips_to_matching_prefix() {
    let mut e = live_engine(vec!["info depth 1", "info depth 2", "bestmove a2a3"]);
    assert_eq!(e.expect("bestmove"), Ok("bestmove a2a3".to_string()));
    assert!(e.pending.is_empty());
}

#[test]
fn expect_exhausted_reports_not_found() {
    let mut e = live_engine(vec!["info depth 1"]);
    assert_eq!(e.expect("bestmove"), Err(EngineError::NotFound));
    assert!(e.pending.is_empty());
}

#[test]
fn expect_respects_scan_budget() {
    let mut e = live_engine(vec!["noise", "noise", "bestmove a2a3"]);
    e.scan_budget = 2;
    assert_eq!(e.expect("bestmove"), Err(EngineError::NotFound));
    assert_eq!(e.pending, vec!["bestmove a2a3".to_string()]);
}

#[test]
fn handshake_on_immediate_sentinel_leaves_live_ready() {
    let mut e = Engine::idle(16);
    let spawned = Transport { pending: vec!["uciok".to_string()], alive: true };
    assert_eq!(e.new(Some(spawned)), Ok(()));
    assert_eq!(e.state(), SessionState::LiveReady);
    assert_eq!(e.sent, vec!["uci".to_string()]);
}

#[test]
fn handshake_without_sentinel_stays_unsynchronized() {
    let mut e = Engine::idle(4);
    let spawned = Transport { pending: vec!["id name demo".to_string()], alive: true };
    assert_eq!(e.new(Some(spawned)), Err(EngineError::NotFound));
    assert_eq!(e.state(), SessionState::LiveUnsynchronized);
}

#[test]
fn failed_spawn_reports_spawn_error() {
    let mut e = Engine::idle(16);
    assert_eq!(e.new(None), Err(EngineError::SpawnError));
    assert_eq!(e.state(), SessionState::Absent);
}

#[test]
fn isready_accepts_exact_token() {
    let mut e = live_engine(vec!["readyok"]);
    assert_eq!(e.isready(), Ok(()));
    assert_eq!(e.sent, vec!["isready".to_string()]);
}

#[test]
fn isready_rejects_other_content() {
    let mut e = live_engine(vec!["readyok maybe"]);
    assert_eq!(e.isready(), Err(EngineError::NotReady));
}

#[test]
fn isready_on_silent_child_times_out() {
    let mut e = live_engine(vec![]);
    assert_eq!(e.isready(), Err(EngineError::ReadTimeout));
}

#[test]
fn get_options_returns_block_through_sentinel_in_order() {
    let mut e = live_engine(vec![
        "id name demo",
        "option name Hash type spin",
        "option name Threads type spin",
        "uciok",
        "bestmove a2a3",
    ]);
    let block = e.get_options().unwrap();
    assert_eq!(
        block,
        vec![
            "id name demo".to_string(),
            "option name Hash type spin".to_string(),
            "option name Threads type spin".to_string(),
            "uciok".to_string(),
        ]
    );
    assert_eq!(e.pending, vec!["bestmove a2a3".to_string()]);
    assert_eq!(e.sent, vec!["uci".to_string()]);
}

#[test]
fn get_options_without_sentinel_returns_what_was_read() {
    let mut e = live_engine(vec!["id name demo", "option name Hash type spin"]);
    let block = e.get_options().unwrap();
    assert_eq!(
        block,
        vec!["id name demo".to_string(), "option name Hash type spin".to_string()]
    );
    assert!(e.pending.is_empty());
}

#[test]
fn get_options_absent_fails_with_write_error() {
    let mut e = Engine::idle(16);
    assert_eq!(e.get_options(), Err(EngineError::WriteError));
}

#[test]
fn get_bestmove_extracts_second_token() {
    let mut e = live_engine(vec!["bestmove e2e4 ponder e7e5"]);
    assert_eq!(e.get_bestmove(), Ok("e2e4".to_string()));
}

#[test]
fn get_bestmove_single_token_line_fails() {
    let mut e = live_engine(vec!["bestmove"]);
    assert_eq!(e.get_bestmove(), Err(EngineError::NoBestMove));
}

#[test]
fn get_bestmove_never_observed_fails() {
    let mut e = live_engine(vec!["info depth 1"]);
    assert_eq!(e.get_bestmove(), Err(EngineError::NoBestMove));
}

#[test]
fn terminate_twice_is_idempotent() {
    let mut e = live_engine(vec!["uciok"]);
    assert_eq!(e.terminate(true), Ok(()));
    assert_eq!(e.state(), SessionState::Absent);
    assert_eq!(e.terminate(true), Ok(()));
    assert_eq!(e.terminate(false), Ok(()));
    assert_eq!(e.state(), SessionState::Absent);
}

#[test]
fn terminate_faulted_stop_keeps_handle() {
    let mut e = live_engine(vec![]);
    assert_eq!(e.terminate(false), Err(EngineError::TerminationError));
    assert_eq!(e.state(), SessionState::LiveReady);
    assert_eq!(e.terminate(true), Ok(()));
    assert_eq!(e.state(), SessionState::Absent);
}

#[test]
fn full_search_scenario_ends_absent() {
    let mut e = Engine::idle(16);
    let spawned = Transport { pending: vec!["uciok".to_string()], alive: true };
    assert_eq!(e.new(Some(spawned)), Ok(()));
    assert_eq!(e.state(), SessionState::LiveReady);
    assert_eq!(e.position_startpos(""), Ok(()));
    assert_eq!(e.go(), Ok(()));
    e.pending.push("bestmove d2d4".to_string());
    assert_eq!(e.get_bestmove(), Ok("d2d4".to_string()));
    assert_eq!(e.quit(), Ok(()));
    assert_eq!(e.terminate(true), Ok(()));
    assert_eq!(e.state(), SessionState::Absent);
    assert_eq!(
        e.sent,
        vec![
            "uci".to_string(),
            "position startpos moves ".to_string(),
            "go infinite".to_string(),
            "quit".to_string(),
        ]
    );
}
