use stockfish_chess::protocol::{
    go_movetime_command, multipv_command, parse_info_line, parse_line, position_command,
    EngineEvent,
};
use stockfish_chess::text::{parse_i32, parse_u32, parse_u64, split_tokens};

#[test]
fn info_line_with_depth_score_nodes_and_pv() {
    let e = parse_line("info depth 12 score cp 34 nodes 1000 pv e2e4 e7e5").unwrap();
    match e {
        EngineEvent::Info { depth, score_cp, score_mate, pv, nodes, time_ms, multipv } => {
            assert_eq!(depth, Some(12));
            assert_eq!(score_cp, Some(34));
            assert_eq!(score_mate, None);
            assert_eq!(nodes, Some(1000));
            assert_eq!(pv, vec!["e2e4".to_string(), "e7e5".to_string()]);
            assert_eq!(time_ms, None);
            assert_eq!(multipv, None);
        }
        other => panic!("unexpected {:?}", other),
    }
}

#[test]
fn info_string_line_gives_no_event() {
    assert!(parse_line("info string NNUE evaluation").is_none());
}

#[test]
fn bestmove_with_and_without_ponder() {
    match parse_line("bestmove e2e4 ponder e7e5").unwrap() {
        EngineEvent::BestMove { best_move, ponder } => {
            assert_eq!(best_move, "e2e4");
            assert_eq!(ponder, Some("e7e5".to_string()));
        }
        other => panic!("unexpected {:?}", other),
    }
    match parse_line("bestmove (none)").unwrap() {
        EngineEvent::BestMove { best_move, ponder } => {
            assert_eq!(best_move, "(none)");
            assert_eq!(ponder, None);
        }
        other => panic!("unexpected {:?}", other),
    }
}

#[test]
fn info_line_with_mate_multipv_time_and_trailing_keywords() {
    let e = parse_line("  info depth 20 seldepth 30 multipv 2 score mate -3 nodes 5 nps 9 time 77 pv a7a8q b1b2 currmove x1").unwrap();
    match e {
        EngineEvent::Info { depth, score_cp, score_mate, pv, nodes, time_ms, multipv } => {
            assert_eq!(depth, Some(20));
            assert_eq!(score_cp, None);
            assert_eq!(score_mate, Some(-3));
            assert_eq!(pv, vec!["a7a8q".to_string(), "b1b2".to_string()]);
            assert_eq!(nodes, Some(5));
            assert_eq!(time_ms, Some(77));
            assert_eq!(multipv, Some(2));
        }
        other => panic!("unexpected {:?}", other),
    }
}

#[test]
fn auxiliary_info_and_chatter_give_no_event() {
    assert!(parse_line("info nps 1000 hashfull 20 tbhits 0").is_none());
    assert!(parse_line("").is_none());
    assert!(parse_line("   ").is_none());
    assert!(parse_line("id name Stockfish 17").is_none());
    assert!(parse_line("option name Hash type spin default 16").is_none());
    assert!(parse_line("readyok").is_none());
    assert!(parse_info_line("bestmove e2e4").is_none());
}

#[test]
fn unparsable_numbers_leave_fields_empty() {
    match parse_line("info depth x score cp 99999999999 pv e2e4").unwrap() {
        EngineEvent::Info { depth, score_cp, pv, .. } => {
            assert_eq!(depth, None);
            assert_eq!(score_cp, None);
            assert_eq!(pv, vec!["e2e4".to_string()]);
        }
        other => panic!("unexpected {:?}", other),
    }
    assert!(parse_line("info depth").is_none());
}

#[test]
fn tokens_split_on_any_whitespace() {
    let t = split_tokens(" a\tbb  c\n");
    assert_eq!(t, vec!["a".to_string(), "bb".to_string(), "c".to_string()]);
    assert!(split_tokens("").is_empty());
}

#[test]
fn integers_parse_as_std_does() {
    assert_eq!(parse_u32("+42"), Some(42));
    assert_eq!(parse_u32("4294967295"), Some(u32::MAX));
    assert_eq!(parse_u32("4294967296"), None);
    assert_eq!(parse_u32("-1"), None);
    assert_eq!(parse_u32(""), None);
    assert_eq!(parse_u32("+"), None);
    assert_eq!(parse_u64("18446744073709551615"), Some(u64::MAX));
    assert_eq!(parse_u64("18446744073709551616"), None);
    assert_eq!(parse_i32("-2147483648"), Some(i32::MIN));
    assert_eq!(parse_i32("2147483648"), None);
    assert_eq!(parse_i32("-0"), Some(0));
    assert_eq!(parse_i32("-"), None);
    assert_eq!(parse_i32("1a"), None);
}

#[test]
fn command_lines() {
    assert_eq!(position_command("8/8/8/8/8/8/8/K6k w - - 0 1"), "position fen 8/8/8/8/8/8/8/K6k w - - 0 1");
    assert_eq!(go_movetime_command(Some(1500)), "go movetime 1500");
    assert_eq!(go_movetime_command(None), "go movetime 1000");
    assert_eq!(multipv_command(0), "setoption name MultiPV value 1");
    assert_eq!(multipv_command(3), "setoption name MultiPV value 3");
    assert_eq!(multipv_command(9), "setoption name MultiPV value 5");
}

#[test]
fn decimal_text_of_large_numbers() {
    assert_eq!(go_movetime_command(Some(u64::MAX)), "go movetime 18446744073709551615");
    assert_eq!(go_movetime_command(Some(0)), "go movetime 0");
    assert_eq!(go_movetime_command(Some(10)), "go movetime 10");
}
