use stockfish_chess::actor::{ActorCore, ActorInput, ActorState, Step, Wait, DRAIN_LIMIT};
use stockfish_chess::difficulty::DifficultyLevel;
use stockfish_chess::protocol::{EngineCommand, EngineEvent};

fn line(core: &mut ActorCore, text: &str) -> Step {
    core.handle(ActorInput::Line(text.to_string()))
}

fn cmd(core: &mut ActorCore, c: EngineCommand) -> Step {
    core.handle(ActorInput::Command(c))
}

fn ready_core() -> ActorCore {
    let mut core = ActorCore::new();
    assert_eq!(core.wait(), Wait::Command);
    let s = cmd(&mut core, EngineCommand::Init);
    assert!(s.send.is_empty());
    assert_eq!(core.wait(), Wait::Spawn);
    let s = core.handle(ActorInput::Spawned);
    assert_eq!(s.send, vec!["uci".to_string()]);
    assert!(line(&mut core, "id name Fake").send.is_empty());
    let s = line(&mut core, "uciok");
    assert_eq!(s.send, vec!["isready".to_string()]);
    let s = line(&mut core, "readyok");
    assert_eq!(
        s.send,
        vec![
            "setoption name UCI_LimitStrength value true".to_string(),
            "setoption name UCI_Elo value 1500".to_string(),
            "isready".to_string(),
        ]
    );
    assert!(s.events.is_empty());
    let s = line(&mut core, "readyok");
    assert!(matches!(s.events.as_slice(), [EngineEvent::Ready]));
    assert!(matches!(core.state(), ActorState::Idle));
    core
}

#[test]
fn handshake_then_ready_once() {
    let mut core = ready_core();
    let s = line(&mut core, "readyok");
    assert!(s.events.is_empty());
}

#[test]
fn go_sends_position_and_reports_info_then_bestmove() {
    let mut core = ready_core();
    let s = cmd(
        &mut core,
        EngineCommand::Go { fen: "F".to_string(), moves: Vec::new(), movetime_ms: None },
    );
    assert_eq!(s.send, vec!["position fen F".to_string(), "go movetime 1000".to_string()]);
    assert!(matches!(core.state(), ActorState::Thinking));
    assert_eq!(core.wait(), Wait::Line);
    let s = line(&mut core, "info depth 1 score cp 5 pv e2e4");
    assert!(matches!(s.events.as_slice(), [EngineEvent::Info { .. }]));
    let s = line(&mut core, "bestmove e2e4 ponder e7e5");
    match s.events.as_slice() {
        [EngineEvent::BestMove { best_move, ponder }] => {
            assert_eq!(best_move, "e2e4");
            assert_eq!(ponder.as_deref(), Some("e7e5"));
        }
        other => panic!("unexpected {:?}", other),
    }
    assert!(matches!(core.state(), ActorState::Idle));
}

#[test]
fn go_while_thinking_is_rejected_not_started() {
    let mut core = ready_core();
    cmd(&mut core, EngineCommand::Go { fen: "F".to_string(), moves: Vec::new(), movetime_ms: Some(50) });
    let s = cmd(&mut core, EngineCommand::Go { fen: "G".to_string(), moves: Vec::new(), movetime_ms: Some(50) });
    assert!(s.send.is_empty());
    match s.events.as_slice() {
        [EngineEvent::Error(m)] => assert_eq!(m, "engine is busy"),
        other => panic!("unexpected {:?}", other),
    }
    assert!(matches!(core.state(), ActorState::Thinking));
}

#[test]
fn analyze_three_infos_then_stop_and_the_engine_closes_its_output() {
    let mut core = ready_core();
    let s = cmd(&mut core, EngineCommand::Analyze { fen: "F".to_string(), moves: Vec::new() });
    assert_eq!(s.send, vec!["position fen F".to_string(), "go infinite".to_string()]);
    assert_eq!(core.wait(), Wait::CommandOrLine);
    let mut infos = 0;
    for d in 1..=3 {
        let s = line(&mut core, &format!("info depth {} score cp {} pv e2e4", d, d * 10));
        infos += s.events.iter().filter(|e| matches!(e, EngineEvent::Info { .. })).count();
    }
    assert_eq!(infos, 3);
    let s = cmd(&mut core, EngineCommand::Stop);
    assert_eq!(s.send, vec!["stop".to_string()]);
    let s = core.handle(ActorInput::OutputClosed);
    assert!(s.events.is_empty());
    assert!(matches!(core.state(), ActorState::Idle));
}

#[test]
fn drain_gives_up_after_its_limit() {
    let mut core = ready_core();
    cmd(&mut core, EngineCommand::Analyze { fen: "F".to_string(), moves: Vec::new() });
    cmd(&mut core, EngineCommand::Stop);
    let mut reads = 0;
    while matches!(core.state(), ActorState::Draining { .. }) {
        line(&mut core, "chatter");
        reads += 1;
        assert!(reads <= DRAIN_LIMIT);
    }
    assert_eq!(reads, DRAIN_LIMIT);
    assert!(matches!(core.state(), ActorState::Idle));
}

#[test]
fn analyze_while_analyzing_stops_first() {
    let mut core = ready_core();
    cmd(&mut core, EngineCommand::Analyze { fen: "F".to_string(), moves: Vec::new() });
    let s = cmd(&mut core, EngineCommand::Analyze { fen: "G".to_string(), moves: Vec::new() });
    assert_eq!(s.send, vec!["stop".to_string()]);
    let s = line(&mut core, "info depth 9 score cp 1 pv a2a3");
    assert_eq!(s.events.len(), 1);
    assert!(s.send.is_empty());
    let s = line(&mut core, "bestmove a2a3");
    assert!(s.events.is_empty());
    assert_eq!(s.send, vec!["position fen G".to_string(), "go infinite".to_string()]);
    assert!(matches!(core.state(), ActorState::Analyzing));
}

#[test]
fn init_against_an_engine_that_never_says_uciok() {
    let mut core = ActorCore::new();
    cmd(&mut core, EngineCommand::SetDifficulty(DifficultyLevel::Expert));
    cmd(&mut core, EngineCommand::Init);
    core.handle(ActorInput::Spawned);
    for _ in 0..50 {
        let s = line(&mut core, "some noise");
        assert!(s.send.is_empty() && s.events.is_empty());
    }
    assert!(matches!(core.state(), ActorState::AwaitUciOk));
    assert_eq!(core.difficulty(), DifficultyLevel::Expert);
    let s = cmd(&mut core, EngineCommand::Quit);
    assert_eq!(s.send, vec!["quit".to_string()]);
    assert!(matches!(s.events.as_slice(), [EngineEvent::Terminated]));
    assert!(s.release);
}

#[test]
fn settings_in_idle_wait_for_readyok() {
    let mut core = ready_core();
    let s = cmd(&mut core, EngineCommand::SetMultiPV(8));
    assert_eq!(
        s.send,
        vec!["setoption name MultiPV value 5".to_string(), "isready".to_string()]
    );
    assert!(matches!(core.state(), ActorState::AwaitReady { .. }));
    line(&mut core, "readyok");
    let s = cmd(&mut core, EngineCommand::NewGame);
    assert_eq!(s.send, vec!["ucinewgame".to_string(), "isready".to_string()]);
    line(&mut core, "readyok");
    let s = cmd(&mut core, EngineCommand::SetDifficulty(DifficultyLevel::Maximum));
    assert_eq!(
        s.send,
        vec!["setoption name UCI_LimitStrength value false".to_string(), "isready".to_string()]
    );
}

#[test]
fn failures_report_errors_and_release_the_engine() {
    let mut core = ActorCore::new();
    let s = cmd(&mut core, EngineCommand::NewGame);
    assert!(matches!(s.events.as_slice(), [EngineEvent::Error(m)] if m == "engine is not initialized"));
    cmd(&mut core, EngineCommand::Init);
    let s = core.handle(ActorInput::SpawnFailed("missing".to_string()));
    assert!(matches!(s.events.as_slice(), [EngineEvent::Error(m)] if m == "missing"));
    assert!(matches!(core.state(), ActorState::Uninitialized));
    cmd(&mut core, EngineCommand::Init);
    core.handle(ActorInput::Spawned);
    let s = core.handle(ActorInput::OutputClosed);
    assert!(s.release);
    assert!(matches!(s.events.as_slice(), [EngineEvent::Error(m)] if m == "engine closed its output"));
    assert!(matches!(core.state(), ActorState::Uninitialized));
}

#[test]
fn closing_the_command_queue_terminates_once() {
    let mut core = ready_core();
    let s = core.handle(ActorInput::CommandsClosed);
    assert_eq!(s.send, vec!["quit".to_string()]);
    assert!(matches!(s.events.as_slice(), [EngineEvent::Terminated]));
    assert_eq!(core.wait(), Wait::Exit);
    let s = cmd(&mut core, EngineCommand::Quit);
    assert!(s.send.is_empty() && s.events.is_empty());
}

#[test]
fn settings_during_analysis_are_applied_when_it_ends() {
    let mut core = ready_core();
    cmd(&mut core, EngineCommand::Analyze { fen: "F".to_string(), moves: Vec::new() });
    let s = cmd(&mut core, EngineCommand::SetDifficulty(DifficultyLevel::Advanced));
    assert!(s.send.is_empty() && s.events.is_empty());
    assert_eq!(core.difficulty(), DifficultyLevel::Advanced);
    let s = cmd(&mut core, EngineCommand::NewGame);
    assert!(s.send.is_empty() && s.events.is_empty());
    assert!(matches!(core.state(), ActorState::Analyzing));
    cmd(&mut core, EngineCommand::Stop);
    let s = line(&mut core, "bestmove e2e4");
    assert_eq!(
        s.send,
        vec![
            "ucinewgame".to_string(),
            "setoption name UCI_LimitStrength value true".to_string(),
            "setoption name UCI_Elo value 2100".to_string(),
            "isready".to_string(),
        ]
    );
    assert!(matches!(core.state(), ActorState::AwaitReady { .. }));
    let s = line(&mut core, "readyok");
    assert!(s.send.is_empty());
    assert!(matches!(core.state(), ActorState::Idle));
}

#[test]
fn restarting_analysis_applies_multipv_before_the_new_search() {
    let mut core = ready_core();
    cmd(&mut core, EngineCommand::Analyze { fen: "F".to_string(), moves: Vec::new() });
    let s = cmd(&mut core, EngineCommand::SetMultiPV(5));
    assert!(s.events.is_empty());
    let s = cmd(&mut core, EngineCommand::Analyze { fen: "G".to_string(), moves: Vec::new() });
    assert_eq!(s.send, vec!["stop".to_string()]);
    let s = line(&mut core, "bestmove a2a3");
    assert_eq!(
        s.send,
        vec!["setoption name MultiPV value 5".to_string(), "isready".to_string()]
    );
    let s = line(&mut core, "readyok");
    assert_eq!(s.send, vec!["position fen G".to_string(), "go infinite".to_string()]);
    assert!(matches!(core.state(), ActorState::Analyzing));
}

#[test]
fn analysis_ending_by_itself_applies_deferred_settings() {
    let mut core = ready_core();
    cmd(&mut core, EngineCommand::Analyze { fen: "F".to_string(), moves: Vec::new() });
    cmd(&mut core, EngineCommand::SetMultiPV(0));
    let s = line(&mut core, "bestmove e2e4");
    assert!(s.events.is_empty());
    assert_eq!(
        s.send,
        vec!["setoption name MultiPV value 1".to_string(), "isready".to_string()]
    );
    line(&mut core, "readyok");
    assert!(matches!(core.state(), ActorState::Idle));
}

#[test]
fn two_searches_are_served_in_order() {
    let mut core = ready_core();
    let s = cmd(&mut core, EngineCommand::Go { fen: "A".to_string(), moves: Vec::new(), movetime_ms: Some(10) });
    assert_eq!(s.send, vec!["position fen A".to_string(), "go movetime 10".to_string()]);
    assert_eq!(core.wait(), Wait::Line);
    let first = line(&mut core, "bestmove a2a3");
    assert!(matches!(first.events.as_slice(), [EngineEvent::BestMove { best_move, .. }] if best_move == "a2a3"));
    let s = cmd(&mut core, EngineCommand::Go { fen: "B".to_string(), moves: Vec::new(), movetime_ms: Some(20) });
    assert_eq!(s.send, vec!["position fen B".to_string(), "go movetime 20".to_string()]);
    let second = line(&mut core, "bestmove b2b3");
    assert!(matches!(second.events.as_slice(), [EngineEvent::BestMove { best_move, .. }] if best_move == "b2b3"));
}

#[test]
fn stop_without_an_analysis_changes_nothing() {
    let mut core = ActorCore::new();
    let s = cmd(&mut core, EngineCommand::Stop);
    assert!(s.send.is_empty() && s.events.is_empty());
    cmd(&mut core, EngineCommand::Init);
    core.handle(ActorInput::Spawned);
    let s = cmd(&mut core, EngineCommand::Stop);
    assert!(s.send.is_empty() && s.events.is_empty());
    assert!(matches!(core.state(), ActorState::AwaitUciOk));
    line(&mut core, "uciok");
    line(&mut core, "readyok");
    line(&mut core, "readyok");
    let s = cmd(&mut core, EngineCommand::Stop);
    assert!(s.send.is_empty() && s.events.is_empty());
    cmd(&mut core, EngineCommand::Go { fen: "F".to_string(), moves: Vec::new(), movetime_ms: None });
    let s = cmd(&mut core, EngineCommand::Stop);
    assert!(s.send.is_empty() && s.events.is_empty());
    assert!(matches!(core.state(), ActorState::Thinking));
}
