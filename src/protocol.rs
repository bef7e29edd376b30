//! The UCI text protocol: commands and events of the engine actor, the lines each
//! command sends, and the reading of the engine's output lines.

use vstd::prelude::*;
use crate::difficulty::{setoption, setoption_line, DifficultyLevel};
use crate::text::{
    decimal, parse_i32, parse_i32_spec, parse_u32, parse_u32_spec, parse_u64, parse_u64_spec,
    split_tokens, str_eq, tokens, u64_to_decimal,
};

verus! {

/// A request to the engine actor.
#[derive(Debug, Clone)]
pub enum EngineCommand {
    Init,
    SetDifficulty(DifficultyLevel),
    SetMultiPV(u32),
    NewGame,
    /// Search the position for a bounded time and report one move.
    Go { fen: String, moves: Vec<String>, movetime_ms: Option<u64> },
    /// Analyze the position until stopped.
    Analyze { fen: String, moves: Vec<String> },
    Stop,
    Quit,
}

/// What the engine actor reports.
#[derive(Debug, Clone)]
pub enum EngineEvent {
    Ready,
    BestMove { best_move: String, ponder: Option<String> },
    Info {
        depth: Option<u32>,
        score_cp: Option<i32>,
        score_mate: Option<i32>,
        pv: Vec<String>,
        nodes: Option<u64>,
        time_ms: Option<u64>,
        /// 1-based index of the line among several principal variations.
        multipv: Option<u32>,
    },
    Error(String),
    Terminated,
}

/// The fields an `info` line carries.
pub struct InfoFields {
    pub depth: Option<u32>,
    pub score_cp: Option<i32>,
    pub score_mate: Option<i32>,
    pub pv: Seq<Seq<char>>,
    pub nodes: Option<u64>,
    pub time_ms: Option<u64>,
    pub multipv: Option<u32>,
}

/// Mathematical form of an [`EngineEvent`].
pub enum EventModel {
    Ready,
    BestMove { best_move: Seq<char>, ponder: Option<Seq<char>> },
    Info(InfoFields),
    Error(Seq<char>),
    Terminated,
}

pub open spec fn opt_str_view(o: Option<String>) -> Option<Seq<char>> {
    match o {
        Some(s) => Some(s@),
        None => None,
    }
}

impl View for EngineEvent {
    type V = EventModel;

    open spec fn view(&self) -> EventModel {
        match self {
            EngineEvent::Ready => EventModel::Ready,
            EngineEvent::BestMove { best_move, ponder } => EventModel::BestMove {
                best_move: best_move@,
                ponder: opt_str_view(*ponder),
            },
            EngineEvent::Info { depth, score_cp, score_mate, pv, nodes, time_ms, multipv } => {
                EventModel::Info(
                    InfoFields {
                        depth: *depth,
                        score_cp: *score_cp,
                        score_mate: *score_mate,
                        pv: pv.deep_view(),
                        nodes: *nodes,
                        time_ms: *time_ms,
                        multipv: *multipv,
                    },
                )
            },
            EngineEvent::Error(m) => EventModel::Error(m@),
            EngineEvent::Terminated => EventModel::Terminated,
        }
    }
}

pub open spec fn opt_event_view(o: Option<EngineEvent>) -> Option<EventModel> {
    match o {
        Some(e) => Some(e@),
        None => None,
    }
}

/// Words of an `info` line that end a principal variation.
pub open spec fn is_info_keyword(t: Seq<char>) -> bool {
    t == "depth"@ || t == "score"@ || t == "nodes"@ || t == "time"@ || t == "nps"@ || t
        == "multipv"@ || t == "seldepth"@ || t == "hashfull"@ || t == "tbhits"@ || t
        == "string"@ || t == "currmove"@ || t == "currmovenumber"@
}

pub open spec fn no_info() -> InfoFields {
    InfoFields {
        depth: None,
        score_cp: None,
        score_mate: None,
        pv: Seq::empty(),
        nodes: None,
        time_ms: None,
        multipv: None,
    }
}

/// The keyword-driven scan of the tokens of an `info` line from position `i`, with
/// `in_pv` telling whether a principal variation is being read.
pub open spec fn scan_info(toks: Seq<Seq<char>>, i: nat, in_pv: bool, acc: InfoFields) -> InfoFields
    decreases toks.len() - i,
{
    if i >= toks.len() {
        acc
    } else {
        let t = toks[i as int];
        let more = i + 1 < toks.len();
        if in_pv && !is_info_keyword(t) {
            scan_info(toks, i + 1, true, InfoFields { pv: acc.pv.push(t), ..acc })
        } else if t == "depth"@ && more {
            scan_info(
                toks,
                i + 2,
                false,
                InfoFields { depth: parse_u32_spec(toks[i + 1 as int]), ..acc },
            )
        } else if t == "multipv"@ && more {
            scan_info(
                toks,
                i + 2,
                false,
                InfoFields { multipv: parse_u32_spec(toks[i + 1 as int]), ..acc },
            )
        } else if t == "nodes"@ && more {
            scan_info(
                toks,
                i + 2,
                false,
                InfoFields { nodes: parse_u64_spec(toks[i + 1 as int]), ..acc },
            )
        } else if t == "time"@ && more {
            scan_info(
                toks,
                i + 2,
                false,
                InfoFields { time_ms: parse_u64_spec(toks[i + 1 as int]), ..acc },
            )
        } else if t == "score"@ && i + 2 < toks.len() {
            let kind = toks[i + 1 as int];
            let v = parse_i32_spec(toks[i + 2 as int]);
            let next = if kind == "cp"@ {
                InfoFields { score_cp: v, ..acc }
            } else if kind == "mate"@ {
                InfoFields { score_mate: v, ..acc }
            } else {
                acc
            };
            scan_info(toks, i + 3, false, next)
        } else if t == "pv"@ {
            scan_info(toks, i + 1, true, acc)
        } else {
            scan_info(toks, i + 1, false, acc)
        }
    }
}

/// An `info` line yields an event only when it has a depth, a score or a principal
/// variation.
pub open spec fn info_event(toks: Seq<Seq<char>>) -> Option<EventModel> {
    let f = scan_info(toks, 1, false, no_info());
    if f.depth is Some || f.score_cp is Some || f.score_mate is Some || f.pv.len() > 0 {
        Some(EventModel::Info(f))
    } else {
        None
    }
}

/// The event a `bestmove` line stands for.
pub open spec fn bestmove_event(toks: Seq<Seq<char>>) -> EventModel {
    EventModel::BestMove {
        best_move: if toks.len() > 1 {
            toks[1]
        } else {
            Seq::empty()
        },
        ponder: if toks.len() >= 4 && toks[2] == "ponder"@ {
            Some(toks[3])
        } else {
            None
        },
    }
}

/// The event an engine output line stands for; `None` for every line that is
/// neither `bestmove ...` nor an `info` line with a depth, score or variation.
pub open spec fn parse_line_spec(line: Seq<char>) -> Option<EventModel> {
    let toks = tokens(line);
    if toks.len() > 0 && toks[0] == "bestmove"@ {
        Some(bestmove_event(toks))
    } else if toks.len() > 0 && toks[0] == "info"@ {
        info_event(toks)
    } else {
        None
    }
}

/// Whether a token ends a principal variation.
pub fn info_keyword(t: &str) -> (r: bool)
    ensures
        r == is_info_keyword(t@),
{
    str_eq(t, "depth") || str_eq(t, "score") || str_eq(t, "nodes") || str_eq(t, "time")
        || str_eq(t, "nps") || str_eq(t, "multipv") || str_eq(t, "seldepth") || str_eq(
        t,
        "hashfull",
    ) || str_eq(t, "tbhits") || str_eq(t, "string") || str_eq(t, "currmove") || str_eq(
        t,
        "currmovenumber",
    )
}

/// Reads the fields of an `info` line from its tokens; `None` where it has no depth,
/// score or principal variation.
pub fn parse_info_tokens(toks: &Vec<String>) -> (r: Option<EngineEvent>)
    ensures
        opt_event_view(r) == info_event(toks.deep_view()),
{
    let ghost tv = toks.deep_view();
    let n = toks.len();
    let mut depth: Option<u32> = None;
    let mut score_cp: Option<i32> = None;
    let mut score_mate: Option<i32> = None;
    let mut pv: Vec<String> = Vec::new();
    let mut nodes: Option<u64> = None;
    let mut time_ms: Option<u64> = None;
    let mut multipv: Option<u32> = None;
    let mut in_pv: bool = false;
    let mut i: usize = 1;
    assert(pv.deep_view() =~= Seq::<Seq<char>>::empty());
    while i < n
        invariant
            n == toks.len(),
            tv == toks.deep_view(),
            1 <= i,
            scan_info(tv, 1, false, no_info()) == scan_info(
                tv,
                i as nat,
                in_pv,
                InfoFields {
                    depth,
                    score_cp,
                    score_mate,
                    pv: pv.deep_view(),
                    nodes,
                    time_ms,
                    multipv,
                },
            ),
        decreases n - i,
    {
        let t = toks[i].as_str();
        assert(tv[i as int] == t@);
        let more = i + 1 < n;
        if in_pv && !info_keyword(t) {
            let ghost before = pv.deep_view();
            pv.push(toks[i].clone());
            assert(pv.deep_view() =~= before.push(t@));
            i = i + 1;
        } else if str_eq(t, "depth") && more {
            depth = parse_u32(toks[i + 1].as_str());
            in_pv = false;
            i = i + 2;
        } else if str_eq(t, "multipv") && more {
            multipv = parse_u32(toks[i + 1].as_str());
            in_pv = false;
            i = i + 2;
        } else if str_eq(t, "nodes") && more {
            nodes = parse_u64(toks[i + 1].as_str());
            in_pv = false;
            i = i + 2;
        } else if str_eq(t, "time") && more {
            time_ms = parse_u64(toks[i + 1].as_str());
            in_pv = false;
            i = i + 2;
        } else if str_eq(t, "score") && n - i > 2 {
            let v = parse_i32(toks[i + 2].as_str());
            if str_eq(toks[i + 1].as_str(), "cp") {
                score_cp = v;
            } else if str_eq(toks[i + 1].as_str(), "mate") {
                score_mate = v;
            }
            in_pv = false;
            i = i + 3;
        } else if str_eq(t, "pv") {
            in_pv = true;
            i = i + 1;
        } else {
            in_pv = false;
            i = i + 1;
        }
    }
    if depth.is_some() || score_cp.is_some() || score_mate.is_some() || pv.len() > 0 {
        Some(EngineEvent::Info { depth, score_cp, score_mate, pv, nodes, time_ms, multipv })
    } else {
        None
    }
}

/// Reads a `bestmove <move> [ponder <move>]` line from its tokens.
pub fn parse_bestmove_tokens(toks: &Vec<String>) -> (r: EngineEvent)
    ensures
        r@ == bestmove_event(toks.deep_view()),
{
    let ghost tv = toks.deep_view();
    let best_move = if toks.len() > 1 {
        toks[1].clone()
    } else {
        String::new()
    };
    let ponder = if toks.len() >= 4 && str_eq(toks[2].as_str(), "ponder") {
        Some(toks[3].clone())
    } else {
        None
    };
    assert(toks.len() > 1 ==> tv[1] == toks[1]@);
    assert(toks.len() >= 4 ==> tv[2] == toks[2]@ && tv[3] == toks[3]@);
    EngineEvent::BestMove { best_move, ponder }
}

/// Reads one line of engine output. Every line is accepted: those that carry no
/// event give `None`.
pub fn parse_line(line: &str) -> (r: Option<EngineEvent>)
    ensures
        opt_event_view(r) == parse_line_spec(line@),
{
    let toks = split_tokens(line);
    let ghost tv = toks.deep_view();
    if toks.len() == 0 {
        return None;
    }
    assert(tv[0] == toks[0]@);
    if str_eq(toks[0].as_str(), "bestmove") {
        Some(parse_bestmove_tokens(&toks))
    } else if str_eq(toks[0].as_str(), "info") {
        parse_info_tokens(&toks)
    } else {
        None
    }
}

/// Reads one `info` line; `None` unless it has a depth, a score or a variation.
pub fn parse_info_line(line: &str) -> (r: Option<EngineEvent>)
    ensures
        opt_event_view(r) == (if tokens(line@).len() > 0 && tokens(line@)[0] == "info"@ {
            info_event(tokens(line@))
        } else {
            None
        }),
{
    let toks = split_tokens(line);
    let ghost tv = toks.deep_view();
    if toks.len() == 0 {
        return None;
    }
    assert(tv[0] == toks[0]@);
    if str_eq(toks[0].as_str(), "info") {
        parse_info_tokens(&toks)
    } else {
        None
    }
}

pub open spec fn position_line(fen: Seq<char>) -> Seq<char> {
    "position fen "@ + fen
}

/// The time a bounded search gets: the one asked for, else one second.
pub open spec fn movetime_or_default(ms: Option<u64>) -> u64 {
    match ms {
        Some(v) => v,
        None => 1000,
    }
}

pub open spec fn go_movetime_line(ms: Option<u64>) -> Seq<char> {
    "go movetime "@ + decimal(movetime_or_default(ms) as nat)
}

/// `n` brought into the range of line counts the engine supports, 1 to 5.
pub open spec fn clamp_lines(n: u32) -> u32 {
    if n < 1 {
        1
    } else if n > 5 {
        5
    } else {
        n
    }
}

pub open spec fn multipv_line(n: u32) -> Seq<char> {
    setoption_line("MultiPV"@, decimal(clamp_lines(n) as nat))
}

/// `position fen {fen}`: the position is always sent whole.
pub fn position_command(fen: &str) -> (r: String)
    ensures
        r@ == position_line(fen@),
{
    let mut s = String::from_str("position fen ");
    s.append(fen);
    s
}

/// `go movetime {ms}`, one second where no time is given.
pub fn go_movetime_command(movetime_ms: Option<u64>) -> (r: String)
    ensures
        r@ == go_movetime_line(movetime_ms),
{
    let ms: u64 = match movetime_ms {
        Some(v) => v,
        None => 1000,
    };
    let digits = u64_to_decimal(ms);
    let mut s = String::from_str("go movetime ");
    s.append(digits.as_str());
    s
}

/// `setoption name MultiPV value {n}`, with `n` clamped to 1..=5.
pub fn multipv_command(lines: u32) -> (r: String)
    ensures
        r@ == multipv_line(lines),
{
    let n: u32 = if lines < 1 {
        1
    } else if lines > 5 {
        5
    } else {
        lines
    };
    let digits = u64_to_decimal(n as u64);
    setoption("MultiPV", digits.as_str())
}

} // verus!
