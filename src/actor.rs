//! The engine actor's decisions, as a state machine. The host that owns the engine
//! process feeds it one input at a time (a command taken from the queue, a line the
//! engine wrote, the outcome of starting or writing to the process), performs the
//! step it answers with, and then waits for what `wait` names.

use vstd::prelude::*;
use crate::difficulty::{level_options, option_lines, DifficultyLevel};
use crate::protocol::{
    go_movetime_command, go_movetime_line, info_event, multipv_command, multipv_line,
    opt_event_view, parse_line, parse_line_spec, position_command, position_line, EngineCommand,
    EngineEvent, EventModel, InfoFields,
};
use crate::text::{begins_with, line_begins_with, tokens};

verus! {

/// How many lines a drain reads at most after `stop` before it gives up waiting for
/// `bestmove`.
pub const DRAIN_LIMIT: u32 = 100;

/// What the actor does once a drain is over.
#[derive(Debug, Clone)]
pub enum Resume {
    Idle,
    Go { fen: String, movetime_ms: Option<u64> },
    Analyze { fen: String },
}

/// The actor's state. `Spawning` through `AwaitOptionsReady` make up initialization.
#[derive(Debug, Clone)]
pub enum ActorState {
    Uninitialized,
    /// The host is asked to start the engine process.
    Spawning,
    /// `uci` was sent.
    AwaitUciOk,
    /// `isready` of the handshake was sent.
    AwaitReadyOk,
    /// The difficulty options and `isready` were sent; `Ready` follows.
    AwaitOptionsReady,
    /// Settings were sent with `isready`; once it is answered the actor goes on
    /// as `then` says.
    AwaitReady { then: Resume },
    Idle,
    /// A bounded search runs.
    Thinking,
    /// An unbounded search runs.
    Analyzing,
    /// `stop` was sent; output is read until `bestmove` or the read limit.
    Draining { reads: u32, then: Resume },
    Terminated,
}

/// Something the host hands the actor.
#[derive(Debug, Clone)]
pub enum ActorInput {
    Command(EngineCommand),
    /// A line the engine wrote.
    Line(String),
    /// The engine's output reached its end.
    OutputClosed,
    Spawned,
    SpawnFailed(String),
    WriteFailed(String),
    /// Every sender of commands is gone.
    CommandsClosed,
}

/// What the host waits for next.
#[derive(Debug, Clone, Copy, PartialEq, Eq, Structural)]
pub enum Wait {
    /// Block on the command queue.
    Command,
    /// Take a command if one is queued, else read one engine line.
    CommandOrLine,
    /// Read one engine line.
    Line,
    /// Start the engine process.
    Spawn,
    /// Wait for the process to exit and stop.
    Exit,
}

/// The host's part of one transition, in this order: write the lines of `send` to
/// the engine; where `release` is set, let go of the process (after `quit`, waiting
/// for it to exit); only then publish `events`, in order. So `Terminated` is
/// published after the process is gone.
#[derive(Debug)]
pub struct Step {
    pub send: Vec<String>,
    pub events: Vec<EngineEvent>,
    pub release: bool,
}

/// Settings asked for while an analysis runs. They are sent once the analysis is
/// over, before anything else.
#[derive(Debug, Clone, Copy)]
pub struct Pending {
    pub new_game: bool,
    /// The stored difficulty is to be applied.
    pub level: bool,
    pub multipv: Option<u32>,
}

/// The actor's decisions: its state and the difficulty it applies on
/// initialization and on request. Exactly one host drives it.
pub struct ActorCore {
    state: ActorState,
    difficulty: DifficultyLevel,
    pending: Pending,
}

/// Mathematical form of an [`EngineCommand`]; the move list is not part of it, as
/// positions are always sent whole.
pub enum CommandModel {
    Init,
    SetDifficulty(DifficultyLevel),
    SetMultiPV(u32),
    NewGame,
    Go { fen: Seq<char>, movetime_ms: Option<u64> },
    Analyze { fen: Seq<char> },
    Stop,
    Quit,
}

pub enum ResumeModel {
    Idle,
    Go { fen: Seq<char>, movetime_ms: Option<u64> },
    Analyze { fen: Seq<char> },
}

pub enum StateModel {
    Uninitialized,
    Spawning,
    AwaitUciOk,
    AwaitReadyOk,
    AwaitOptionsReady,
    AwaitReady { then: ResumeModel },
    Idle,
    Thinking,
    Analyzing,
    Draining { reads: u32, then: ResumeModel },
    Terminated,
}

pub enum InputModel {
    Command(CommandModel),
    Line(Seq<char>),
    OutputClosed,
    Spawned,
    SpawnFailed(Seq<char>),
    WriteFailed(Seq<char>),
    CommandsClosed,
}

pub struct StepModel {
    pub send: Seq<Seq<char>>,
    pub events: Seq<EventModel>,
    pub release: bool,
}

pub struct CoreModel {
    pub state: StateModel,
    pub difficulty: DifficultyLevel,
    pub pending: Pending,
}

impl View for EngineCommand {
    type V = CommandModel;

    open spec fn view(&self) -> CommandModel {
        match self {
            EngineCommand::Init => CommandModel::Init,
            EngineCommand::SetDifficulty(l) => CommandModel::SetDifficulty(*l),
            EngineCommand::SetMultiPV(n) => CommandModel::SetMultiPV(*n),
            EngineCommand::NewGame => CommandModel::NewGame,
            EngineCommand::Go { fen, moves, movetime_ms } => CommandModel::Go {
                fen: fen@,
                movetime_ms: *movetime_ms,
            },
            EngineCommand::Analyze { fen, moves } => CommandModel::Analyze { fen: fen@ },
            EngineCommand::Stop => CommandModel::Stop,
            EngineCommand::Quit => CommandModel::Quit,
        }
    }
}

impl View for Resume {
    type V = ResumeModel;

    open spec fn view(&self) -> ResumeModel {
        match self {
            Resume::Idle => ResumeModel::Idle,
            Resume::Go { fen, movetime_ms } => ResumeModel::Go {
                fen: fen@,
                movetime_ms: *movetime_ms,
            },
            Resume::Analyze { fen } => ResumeModel::Analyze { fen: fen@ },
        }
    }
}

impl View for ActorState {
    type V = StateModel;

    open spec fn view(&self) -> StateModel {
        match self {
            ActorState::Uninitialized => StateModel::Uninitialized,
            ActorState::Spawning => StateModel::Spawning,
            ActorState::AwaitUciOk => StateModel::AwaitUciOk,
            ActorState::AwaitReadyOk => StateModel::AwaitReadyOk,
            ActorState::AwaitOptionsReady => StateModel::AwaitOptionsReady,
            ActorState::AwaitReady { then } => StateModel::AwaitReady { then: then@ },
            ActorState::Idle => StateModel::Idle,
            ActorState::Thinking => StateModel::Thinking,
            ActorState::Analyzing => StateModel::Analyzing,
            ActorState::Draining { reads, then } => StateModel::Draining {
                reads: *reads,
                then: then@,
            },
            ActorState::Terminated => StateModel::Terminated,
        }
    }
}

impl View for ActorInput {
    type V = InputModel;

    open spec fn view(&self) -> InputModel {
        match self {
            ActorInput::Command(c) => InputModel::Command(c@),
            ActorInput::Line(l) => InputModel::Line(l@),
            ActorInput::OutputClosed => InputModel::OutputClosed,
            ActorInput::Spawned => InputModel::Spawned,
            ActorInput::SpawnFailed(m) => InputModel::SpawnFailed(m@),
            ActorInput::WriteFailed(m) => InputModel::WriteFailed(m@),
            ActorInput::CommandsClosed => InputModel::CommandsClosed,
        }
    }
}

impl View for Step {
    type V = StepModel;

    open spec fn view(&self) -> StepModel {
        StepModel {
            send: self.send.deep_view(),
            events: self.events@.map_values(|e: EngineEvent| e@),
            release: self.release,
        }
    }
}

impl View for ActorCore {
    type V = CoreModel;

    closed spec fn view(&self) -> CoreModel {
        CoreModel { state: self.state@, difficulty: self.difficulty, pending: self.pending }
    }
}

pub open spec fn busy_message() -> Seq<char> {
    "engine is busy"@
}

pub open spec fn not_initialized_message() -> Seq<char> {
    "engine is not initialized"@
}

pub open spec fn already_initialized_message() -> Seq<char> {
    "engine is already initialized"@
}

pub open spec fn closed_message() -> Seq<char> {
    "engine closed its output"@
}

pub open spec fn no_step() -> StepModel {
    StepModel { send: Seq::empty(), events: Seq::empty(), release: false }
}

pub open spec fn send_step(send: Seq<Seq<char>>) -> StepModel {
    StepModel { send, events: Seq::empty(), release: false }
}

pub open spec fn event_step(e: EventModel) -> StepModel {
    StepModel { send: Seq::empty(), events: seq![e], release: false }
}

/// A search is in flight with the engine.
pub open spec fn searching(s: StateModel) -> bool {
    s is Thinking || s is Analyzing
}

/// The engine process is owned, from its start until it is released.
pub open spec fn has_engine(s: StateModel) -> bool {
    !(s is Uninitialized || s is Spawning || s is Terminated)
}

/// What the host waits for in each state.
pub open spec fn wait_for(s: StateModel) -> Wait {
    match s {
        StateModel::Uninitialized | StateModel::Idle => Wait::Command,
        StateModel::Spawning => Wait::Spawn,
        StateModel::Analyzing => Wait::CommandOrLine,
        StateModel::Terminated => Wait::Exit,
        _ => Wait::Line,
    }
}

/// Starting what a drain was holding back.
pub open spec fn resume(c: CoreModel, then: ResumeModel, events: Seq<EventModel>) -> (
    CoreModel,
    StepModel,
) {
    match then {
        ResumeModel::Idle => (
            CoreModel { state: StateModel::Idle, ..c },
            StepModel { send: Seq::empty(), events, release: false },
        ),
        ResumeModel::Go { fen, movetime_ms } => (
            CoreModel { state: StateModel::Thinking, ..c },
            StepModel {
                send: seq![position_line(fen), go_movetime_line(movetime_ms)],
                events,
                release: false,
            },
        ),
        ResumeModel::Analyze { fen } => (
            CoreModel { state: StateModel::Analyzing, ..c },
            StepModel { send: seq![position_line(fen), "go infinite"@], events, release: false },
        ),
    }
}

pub open spec fn no_pending() -> Pending {
    Pending { new_game: false, level: false, multipv: None }
}

pub open spec fn has_pending(p: Pending) -> bool {
    p.new_game || p.level || p.multipv is Some
}

/// The lines that apply deferred settings: a new game first, then the difficulty's
/// options, then the number of lines.
pub open spec fn pending_lines(p: Pending, level: DifficultyLevel) -> Seq<Seq<char>> {
    (if p.new_game {
        seq!["ucinewgame"@]
    } else {
        Seq::empty()
    }) + (if p.level {
        option_lines(level_options(level))
    } else {
        Seq::empty()
    }) + match p.multipv {
        Some(n) => seq![multipv_line(n)],
        None => Seq::empty(),
    }
}

/// Leaving an analysis: deferred settings are sent first, with `isready`, and
/// `then` waits for its answer; without any, `then` starts at once.
pub open spec fn settle(c: CoreModel, then: ResumeModel, events: Seq<EventModel>) -> (
    CoreModel,
    StepModel,
) {
    if has_pending(c.pending) {
        (
            CoreModel { state: StateModel::AwaitReady { then }, pending: no_pending(), ..c },
            StepModel {
                send: pending_lines(c.pending, c.difficulty).push("isready"@),
                events,
                release: false,
            },
        )
    } else {
        resume(c, then, events)
    }
}

/// `quit` where a process is owned, then `Terminated` as the last event.
pub open spec fn shut_down(c: CoreModel) -> (CoreModel, StepModel) {
    (
        CoreModel { state: StateModel::Terminated, pending: no_pending(), ..c },
        StepModel {
            send: if has_engine(c.state) {
                seq!["quit"@]
            } else {
                Seq::empty()
            },
            events: seq![EventModel::Terminated],
            release: true,
        },
    )
}

/// The engine is lost: report `msg` and start over without a process.
pub open spec fn lose_engine(c: CoreModel, msg: Seq<char>) -> (CoreModel, StepModel) {
    (
        CoreModel { state: StateModel::Uninitialized, pending: no_pending(), ..c },
        StepModel { send: Seq::empty(), events: seq![EventModel::Error(msg)], release: true },
    )
}

pub open spec fn on_command(c: CoreModel, cmd: CommandModel) -> (CoreModel, StepModel) {
    match c.state {
        StateModel::Uninitialized => match cmd {
            CommandModel::Init => (CoreModel { state: StateModel::Spawning, ..c }, no_step()),
            CommandModel::SetDifficulty(l) => (CoreModel { difficulty: l, ..c }, no_step()),
            CommandModel::SetMultiPV(_) | CommandModel::Stop => (c, no_step()),
            _ => (c, event_step(EventModel::Error(not_initialized_message()))),
        },
        StateModel::Idle => match cmd {
            CommandModel::Init => (c, event_step(EventModel::Error(already_initialized_message()))),
            CommandModel::SetDifficulty(l) => (
                CoreModel {
                    state: StateModel::AwaitReady { then: ResumeModel::Idle },
                    difficulty: l,
                    ..c
                },
                send_step(option_lines(level_options(l)).push("isready"@)),
            ),
            CommandModel::SetMultiPV(n) => (
                CoreModel { state: StateModel::AwaitReady { then: ResumeModel::Idle }, ..c },
                send_step(seq![multipv_line(n), "isready"@]),
            ),
            CommandModel::NewGame => (
                CoreModel { state: StateModel::AwaitReady { then: ResumeModel::Idle }, ..c },
                send_step(seq!["ucinewgame"@, "isready"@]),
            ),
            CommandModel::Go { fen, movetime_ms } => resume(
                c,
                ResumeModel::Go { fen, movetime_ms },
                Seq::empty(),
            ),
            CommandModel::Analyze { fen } => resume(c, ResumeModel::Analyze { fen }, Seq::empty()),
            _ => (c, no_step()),
        },
        StateModel::Analyzing => match cmd {
            CommandModel::Stop => (
                CoreModel { state: StateModel::Draining { reads: 0, then: ResumeModel::Idle }, ..c },
                send_step(seq!["stop"@]),
            ),
            CommandModel::Go { fen, movetime_ms } => (
                CoreModel {
                    state: StateModel::Draining {
                        reads: 0,
                        then: ResumeModel::Go { fen, movetime_ms },
                    },
                    ..c
                },
                send_step(seq!["stop"@]),
            ),
            CommandModel::Analyze { fen } => (
                CoreModel {
                    state: StateModel::Draining { reads: 0, then: ResumeModel::Analyze { fen } },
                    ..c
                },
                send_step(seq!["stop"@]),
            ),
            CommandModel::SetDifficulty(l) => (
                CoreModel { difficulty: l, pending: Pending { level: true, ..c.pending }, ..c },
                no_step(),
            ),
            CommandModel::SetMultiPV(n) => (
                CoreModel { pending: Pending { multipv: Some(n), ..c.pending }, ..c },
                no_step(),
            ),
            CommandModel::NewGame => (
                CoreModel { pending: Pending { new_game: true, ..c.pending }, ..c },
                no_step(),
            ),
            _ => (c, event_step(EventModel::Error(already_initialized_message()))),
        },
        _ => match cmd {
            CommandModel::Stop => (c, no_step()),
            _ => (c, event_step(EventModel::Error(busy_message()))),
        },
    }
}

pub open spec fn on_line(c: CoreModel, line: Seq<char>) -> (CoreModel, StepModel) {
    match c.state {
        StateModel::AwaitUciOk => if begins_with(line, "uciok"@) {
            (CoreModel { state: StateModel::AwaitReadyOk, ..c }, send_step(seq!["isready"@]))
        } else {
            (c, no_step())
        },
        StateModel::AwaitReadyOk => if begins_with(line, "readyok"@) {
            (
                CoreModel { state: StateModel::AwaitOptionsReady, ..c },
                send_step(option_lines(level_options(c.difficulty)).push("isready"@)),
            )
        } else {
            (c, no_step())
        },
        StateModel::AwaitOptionsReady => if begins_with(line, "readyok"@) {
            (CoreModel { state: StateModel::Idle, ..c }, event_step(EventModel::Ready))
        } else {
            (c, no_step())
        },
        StateModel::AwaitReady { then } => if begins_with(line, "readyok"@) {
            resume(c, then, Seq::empty())
        } else {
            (c, no_step())
        },
        StateModel::Thinking => match parse_line_spec(line) {
            Some(e) => match e {
                EventModel::BestMove { .. } => (
                    CoreModel { state: StateModel::Idle, ..c },
                    event_step(e),
                ),
                _ => (c, event_step(e)),
            },
            None => (c, no_step()),
        },
        StateModel::Analyzing => match parse_line_spec(line) {
            Some(e) => match e {
                EventModel::BestMove { .. } => settle(c, ResumeModel::Idle, Seq::empty()),
                _ => (c, event_step(e)),
            },
            None => (c, no_step()),
        },
        StateModel::Draining { reads, then } => {
            let parsed = parse_line_spec(line);
            let events = match parsed {
                Some(e) => match e {
                    EventModel::Info(_) => seq![e],
                    _ => Seq::empty(),
                },
                None => Seq::empty(),
            };
            let done = match parsed {
                Some(e) => e is BestMove,
                None => false,
            };
            if done || reads + 1 >= DRAIN_LIMIT {
                settle(c, then, events)
            } else {
                (
                    CoreModel { state: StateModel::Draining { reads: (reads + 1) as u32, then }, ..c },
                    StepModel { send: Seq::empty(), events, release: false },
                )
            }
        },
        _ => (c, no_step()),
    }
}

/// One transition of the actor: its new state and the step the host performs.
pub open spec fn transition(c: CoreModel, input: InputModel) -> (CoreModel, StepModel) {
    if c.state is Terminated {
        (c, no_step())
    } else {
        match input {
            InputModel::CommandsClosed => shut_down(c),
            InputModel::Command(CommandModel::Quit) => shut_down(c),
            InputModel::Command(cmd) => on_command(c, cmd),
            InputModel::Line(line) => on_line(c, line),
            InputModel::OutputClosed => match c.state {
                StateModel::Draining { reads, then } => settle(c, then, Seq::empty()),
                StateModel::Uninitialized | StateModel::Spawning | StateModel::Idle => (
                    c,
                    no_step(),
                ),
                _ => lose_engine(c, closed_message()),
            },
            InputModel::Spawned => if c.state is Spawning {
                (CoreModel { state: StateModel::AwaitUciOk, ..c }, send_step(seq!["uci"@]))
            } else {
                (c, no_step())
            },
            InputModel::SpawnFailed(m) => if c.state is Spawning {
                (
                    CoreModel { state: StateModel::Uninitialized, ..c },
                    event_step(EventModel::Error(m)),
                )
            } else {
                (c, no_step())
            },
            InputModel::WriteFailed(m) => if has_engine(c.state) {
                lose_engine(c, m)
            } else {
                (c, no_step())
            },
        }
    }
}

pub open spec fn events_view(v: Seq<EngineEvent>) -> Seq<EventModel> {
    v.map_values(|e: EngineEvent| e@)
}

fn text(s: &str) -> (r: String)
    ensures
        r@ == s@,
{
    String::from_str(s)
}

fn empty_step() -> (r: Step)
    ensures
        r@ == no_step(),
{
    let r = Step { send: Vec::new(), events: Vec::new(), release: false };
    assert(r@.send =~= Seq::<Seq<char>>::empty());
    assert(r@.events =~= Seq::<EventModel>::empty());
    r
}

fn sending(send: Vec<String>) -> (r: Step)
    ensures
        r@ == send_step(send.deep_view()),
{
    let r = Step { send, events: Vec::new(), release: false };
    assert(r@.events =~= Seq::<EventModel>::empty());
    r
}

fn reporting(e: EngineEvent) -> (r: Step)
    ensures
        r@ == event_step(e@),
{
    let ghost ev = e@;
    let r = Step { send: Vec::new(), events: vec![e], release: false };
    assert(r@.send =~= Seq::<Seq<char>>::empty());
    assert(r@.events =~= seq![ev]);
    r
}

fn error_step(msg: String) -> (r: Step)
    ensures
        r@ == event_step(EventModel::Error(msg@)),
{
    reporting(EngineEvent::Error(msg))
}

fn copy_resume(r: &Resume) -> (o: Resume)
    ensures
        o@ == r@,
{
    match r {
        Resume::Idle => Resume::Idle,
        Resume::Go { fen, movetime_ms } => Resume::Go { fen: fen.clone(), movetime_ms: *movetime_ms },
        Resume::Analyze { fen } => Resume::Analyze { fen: fen.clone() },
    }
}

fn settings_then_isready(level: DifficultyLevel) -> (r: Vec<String>)
    ensures
        r.deep_view() == option_lines(level_options(level)).push("isready"@),
{
    let mut r = level.uci_commands();
    let ghost before = r.deep_view();
    r.push(text("isready"));
    assert(r.deep_view() =~= before.push("isready"@));
    r
}

impl ActorCore {
    /// A fresh actor: no engine yet, at the default difficulty.
    pub fn new() -> (r: ActorCore)
        ensures
            r@ == (CoreModel {
                state: StateModel::Uninitialized,
                difficulty: DifficultyLevel::Casual,
                pending: no_pending(),
            }),
    {
        ActorCore {
            state: ActorState::Uninitialized,
            difficulty: DifficultyLevel::Casual,
            pending: Pending { new_game: false, level: false, multipv: None },
        }
    }

    pub fn state(&self) -> (r: &ActorState)
        ensures
            r@ == self@.state,
    {
        &self.state
    }

    pub fn difficulty(&self) -> (r: DifficultyLevel)
        ensures
            r == self@.difficulty,
    {
        self.difficulty
    }

    /// What the host waits for before the next input.
    pub fn wait(&self) -> (r: Wait)
        ensures
            r == wait_for(self@.state),
    {
        match &self.state {
            ActorState::Uninitialized | ActorState::Idle => Wait::Command,
            ActorState::Spawning => Wait::Spawn,
            ActorState::Analyzing => Wait::CommandOrLine,
            ActorState::Terminated => Wait::Exit,
            _ => Wait::Line,
        }
    }

    fn resume_with(&mut self, then: Resume, events: Vec<EngineEvent>) -> (r: Step)
        ensures
            (final(self)@, r@) == resume(old(self)@, then@, events_view(events@)),
    {
        match then {
            Resume::Idle => {
                self.state = ActorState::Idle;
                let r = Step { send: Vec::new(), events, release: false };
                assert(r@.send =~= Seq::<Seq<char>>::empty());
                r
            },
            Resume::Go { fen, movetime_ms } => {
                self.state = ActorState::Thinking;
                let send = vec![position_command(fen.as_str()), go_movetime_command(movetime_ms)];
                let r = Step { send, events, release: false };
                assert(r@.send =~= seq![position_line(fen@), go_movetime_line(movetime_ms)]);
                r
            },
            Resume::Analyze { fen } => {
                self.state = ActorState::Analyzing;
                let send = vec![position_command(fen.as_str()), text("go infinite")];
                let r = Step { send, events, release: false };
                assert(r@.send =~= seq![position_line(fen@), "go infinite"@]);
                r
            },
        }
    }

    fn settle(&mut self, then: Resume, events: Vec<EngineEvent>) -> (r: Step)
        ensures
            (final(self)@, r@) == settle(old(self)@, then@, events_view(events@)),
    {
        let p = self.pending;
        if p.new_game || p.level || p.multipv.is_some() {
            let mut send: Vec<String> = Vec::new();
            if p.new_game {
                send.push(text("ucinewgame"));
            }
            let ghost first = send.deep_view();
            if p.level {
                let mut opts = self.difficulty.uci_commands();
                send.append(&mut opts);
            }
            let ghost second = send.deep_view();
            assert(second =~= first + (if p.level {
                option_lines(level_options(self.difficulty))
            } else {
                Seq::empty()
            }));
            match p.multipv {
                Some(n) => send.push(multipv_command(n)),
                None => {},
            }
            let ghost third = send.deep_view();
            send.push(text("isready"));
            assert(send.deep_view() =~= pending_lines(p, self.difficulty).push("isready"@));
            self.state = ActorState::AwaitReady { then };
            self.pending = Pending { new_game: false, level: false, multipv: None };
            Step { send, events, release: false }
        } else {
            self.resume_with(then, events)
        }
    }

    fn shut_down(&mut self) -> (r: Step)
        ensures
            (final(self)@, r@) == shut_down(old(self)@),
    {
        let owned = match &self.state {
            ActorState::Uninitialized | ActorState::Spawning | ActorState::Terminated => false,
            _ => true,
        };
        let mut send: Vec<String> = Vec::new();
        if owned {
            send.push(text("quit"));
        }
        self.state = ActorState::Terminated;
        self.pending = Pending { new_game: false, level: false, multipv: None };
        let r = Step { send, events: vec![EngineEvent::Terminated], release: true };
        assert(r@.events =~= seq![EventModel::Terminated]);
        if owned {
            assert(r@.send =~= seq!["quit"@]);
        } else {
            assert(r@.send =~= Seq::<Seq<char>>::empty());
        }
        r
    }

    fn lose_engine(&mut self, msg: String) -> (r: Step)
        ensures
            (final(self)@, r@) == lose_engine(old(self)@, msg@),
    {
        self.state = ActorState::Uninitialized;
        self.pending = Pending { new_game: false, level: false, multipv: None };
        let ghost m = msg@;
        let r = Step { send: Vec::new(), events: vec![EngineEvent::Error(msg)], release: true };
        assert(r@.send =~= Seq::<Seq<char>>::empty());
        assert(r@.events =~= seq![EventModel::Error(m)]);
        r
    }

    fn on_command(&mut self, cmd: EngineCommand) -> (r: Step)
        ensures
            (final(self)@, r@) == on_command(old(self)@, cmd@),
    {
        match &self.state {
            ActorState::Uninitialized => match cmd {
                EngineCommand::Init => {
                    self.state = ActorState::Spawning;
                    empty_step()
                },
                EngineCommand::SetDifficulty(l) => {
                    self.difficulty = l;
                    empty_step()
                },
                EngineCommand::SetMultiPV(_) | EngineCommand::Stop => empty_step(),
                _ => error_step(text("engine is not initialized")),
            },
            ActorState::Idle => match cmd {
                EngineCommand::Init => error_step(text("engine is already initialized")),
                EngineCommand::SetDifficulty(l) => {
                    self.difficulty = l;
                    self.state = ActorState::AwaitReady { then: Resume::Idle };
                    sending(settings_then_isready(l))
                },
                EngineCommand::SetMultiPV(n) => {
                    self.state = ActorState::AwaitReady { then: Resume::Idle };
                    let send = vec![multipv_command(n), text("isready")];
                    assert(send.deep_view() =~= seq![multipv_line(n), "isready"@]);
                    sending(send)
                },
                EngineCommand::NewGame => {
                    self.state = ActorState::AwaitReady { then: Resume::Idle };
                    let send = vec![text("ucinewgame"), text("isready")];
                    assert(send.deep_view() =~= seq!["ucinewgame"@, "isready"@]);
                    sending(send)
                },
                EngineCommand::Go { fen, moves, movetime_ms } => {
                    let none: Vec<EngineEvent> = Vec::new();
                    assert(events_view(none@) =~= Seq::<EventModel>::empty());
                    self.resume_with(Resume::Go { fen, movetime_ms }, none)
                },
                EngineCommand::Analyze { fen, moves } => {
                    let none: Vec<EngineEvent> = Vec::new();
                    assert(events_view(none@) =~= Seq::<EventModel>::empty());
                    self.resume_with(Resume::Analyze { fen }, none)
                },
                _ => empty_step(),
            },
            ActorState::Analyzing => match cmd {
                EngineCommand::Stop => {
                    self.state = ActorState::Draining { reads: 0, then: Resume::Idle };
                    let send = vec![text("stop")];
                    assert(send.deep_view() =~= seq!["stop"@]);
                    sending(send)
                },
                EngineCommand::Go { fen, moves, movetime_ms } => {
                    self.state = ActorState::Draining {
                        reads: 0,
                        then: Resume::Go { fen, movetime_ms },
                    };
                    let send = vec![text("stop")];
                    assert(send.deep_view() =~= seq!["stop"@]);
                    sending(send)
                },
                EngineCommand::Analyze { fen, moves } => {
                    self.state = ActorState::Draining { reads: 0, then: Resume::Analyze { fen } };
                    let send = vec![text("stop")];
                    assert(send.deep_view() =~= seq!["stop"@]);
                    sending(send)
                },
                EngineCommand::SetDifficulty(l) => {
                    self.difficulty = l;
                    self.pending.level = true;
                    empty_step()
                },
                EngineCommand::SetMultiPV(n) => {
                    self.pending.multipv = Some(n);
                    empty_step()
                },
                EngineCommand::NewGame => {
                    self.pending.new_game = true;
                    empty_step()
                },
                _ => error_step(text("engine is already initialized")),
            },
            _ => {
                if let EngineCommand::Stop = &cmd {
                    empty_step()
                } else {
                    error_step(text("engine is busy"))
                }
            },
        }
    }

    fn on_line(&mut self, line: String) -> (r: Step)
        ensures
            (final(self)@, r@) == on_line(old(self)@, line@),
    {
        match &self.state {
            ActorState::AwaitUciOk => if line_begins_with(line.as_str(), "uciok") {
                self.state = ActorState::AwaitReadyOk;
                let send = vec![text("isready")];
                assert(send.deep_view() =~= seq!["isready"@]);
                sending(send)
            } else {
                empty_step()
            },
            ActorState::AwaitReadyOk => if line_begins_with(line.as_str(), "readyok") {
                self.state = ActorState::AwaitOptionsReady;
                sending(settings_then_isready(self.difficulty))
            } else {
                empty_step()
            },
            ActorState::AwaitOptionsReady => if line_begins_with(line.as_str(), "readyok") {
                self.state = ActorState::Idle;
                reporting(EngineEvent::Ready)
            } else {
                empty_step()
            },
            ActorState::AwaitReady { then } => {
                if line_begins_with(line.as_str(), "readyok") {
                    let then = copy_resume(then);
                    let none: Vec<EngineEvent> = Vec::new();
                    assert(events_view(none@) =~= Seq::<EventModel>::empty());
                    self.resume_with(then, none)
                } else {
                    empty_step()
                }
            },
            ActorState::Thinking => match parse_line(line.as_str()) {
                Some(e) => {
                    if let EngineEvent::BestMove { .. } = &e {
                        self.state = ActorState::Idle;
                    }
                    reporting(e)
                },
                None => empty_step(),
            },
            ActorState::Analyzing => match parse_line(line.as_str()) {
                Some(e) => {
                    if let EngineEvent::BestMove { .. } = &e {
                        let none: Vec<EngineEvent> = Vec::new();
                        assert(events_view(none@) =~= Seq::<EventModel>::empty());
                        self.settle(Resume::Idle, none)
                    } else {
                        reporting(e)
                    }
                },
                None => empty_step(),
            },
            ActorState::Draining { reads, then } => {
                let reads: u32 = *reads;
                let then = copy_resume(then);
                let mut events: Vec<EngineEvent> = Vec::new();
                let mut done: bool = false;
                match parse_line(line.as_str()) {
                    Some(e) => {
                        if let EngineEvent::BestMove { .. } = &e {
                            done = true;
                        } else if let EngineEvent::Info { .. } = &e {
                            events.push(e);
                        }
                    },
                    None => {},
                }
                assert(events_view(events@) =~= match parse_line_spec(line@) {
                    Some(e) => match e {
                        EventModel::Info(_) => seq![e],
                        _ => Seq::empty(),
                    },
                    None => Seq::empty(),
                });
                if done || reads >= DRAIN_LIMIT - 1 {
                    self.settle(then, events)
                } else {
                    self.state = ActorState::Draining { reads: reads + 1, then };
                    let r = Step { send: Vec::new(), events, release: false };
                    assert(r@.send =~= Seq::<Seq<char>>::empty());
                    r
                }
            },
            _ => empty_step(),
        }
    }

    /// Takes one input and answers with the step the host is to perform.
    pub fn handle(&mut self, input: ActorInput) -> (r: Step)
        ensures
            (final(self)@, r@) == transition(old(self)@, input@),
    {
        if let ActorState::Terminated = &self.state {
            return empty_step();
        }
        match input {
            ActorInput::CommandsClosed => self.shut_down(),
            ActorInput::Command(cmd) => {
                if let EngineCommand::Quit = &cmd {
                    self.shut_down()
                } else {
                    self.on_command(cmd)
                }
            },
            ActorInput::Line(line) => self.on_line(line),
            ActorInput::OutputClosed => match &self.state {
                ActorState::Draining { reads, then } => {
                    let then = copy_resume(then);
                    let none: Vec<EngineEvent> = Vec::new();
                    assert(events_view(none@) =~= Seq::<EventModel>::empty());
                    self.settle(then, none)
                },
                ActorState::Uninitialized | ActorState::Spawning | ActorState::Idle => empty_step(),
                _ => self.lose_engine(text("engine closed its output")),
            },
            ActorInput::Spawned => if let ActorState::Spawning = &self.state {
                self.state = ActorState::AwaitUciOk;
                let send = vec![text("uci")];
                assert(send.deep_view() =~= seq!["uci"@]);
                sending(send)
            } else {
                empty_step()
            },
            ActorInput::SpawnFailed(m) => if let ActorState::Spawning = &self.state {
                self.state = ActorState::Uninitialized;
                error_step(m)
            } else {
                empty_step()
            },
            ActorInput::WriteFailed(m) => match &self.state {
                ActorState::Uninitialized | ActorState::Spawning | ActorState::Terminated => empty_step(),
                _ => self.lose_engine(m),
            },
        }
    }
}

/// No input starts a second search while one is in flight: from a searching state
/// the actor either stays in that same state, sending nothing to the engine, or
/// leaves searching (for a drain after `stop`, for idle, or on losing the engine).
pub proof fn lemma_one_search_at_a_time(c: CoreModel, input: InputModel)
    ensures
        ({
            let (next, step) = transition(c, input);
            searching(c.state) && searching(next.state) ==> next.state == c.state
                && step.send.len() == 0
        }),
{
}

/// A new engine process is asked for only while none is owned, so an actor owns at
/// most one process at a time.
pub proof fn lemma_one_process_at_a_time(c: CoreModel, input: InputModel)
    ensures
        transition(c, input).0.state is Spawning ==> !has_engine(c.state),
{
}

/// `Stop` with no analysis running sends nothing, publishes nothing and changes
/// nothing, in every state.
pub proof fn lemma_stop_outside_analysis_is_ignored(c: CoreModel)
    requires
        !(c.state is Analyzing),
    ensures
        transition(c, InputModel::Command(CommandModel::Stop)) == (c, no_step()),
{
}

/// `Go` while a bounded search runs is rejected with an error and changes nothing,
/// and a host that follows `wait_for` does not even take it from the queue then.
pub proof fn lemma_go_while_thinking_rejected(
    c: CoreModel,
    fen: Seq<char>,
    movetime_ms: Option<u64>,
)
    requires
        c.state is Thinking,
    ensures
        transition(c, InputModel::Command(CommandModel::Go { fen, movetime_ms })) == (
            c,
            event_step(EventModel::Error(busy_message())),
        ),
        wait_for(c.state) == Wait::Line,
{
}

/// `Ready` is only reported by the step that completes initialization.
pub proof fn lemma_ready_only_after_handshake(c: CoreModel, input: InputModel, k: int)
    requires
        0 <= k < transition(c, input).1.events.len(),
        transition(c, input).1.events[k] is Ready,
    ensures
        c.state is AwaitOptionsReady,
        transition(c, input).0.state is Idle,
{
}

/// Once terminated the actor does nothing more.
pub proof fn lemma_terminated_absorbs(c: CoreModel, input: InputModel)
    requires
        c.state is Terminated,
    ensures
        transition(c, input) == (c, no_step()),
{
}

/// `Terminated` is reported only on entering the terminated state, and as the
/// last event of its step.
pub proof fn lemma_terminated_reported_last(c: CoreModel, input: InputModel, k: int)
    requires
        0 <= k < transition(c, input).1.events.len(),
        transition(c, input).1.events[k] is Terminated,
    ensures
        !(c.state is Terminated),
        transition(c, input).0.state is Terminated,
        k == transition(c, input).1.events.len() - 1,
{
}

/// While analyzing, each engine line that carries an `Info` event is published as
/// exactly that one event, and the analysis goes on.
pub proof fn lemma_analysis_forwards_info(c: CoreModel, line: Seq<char>)
    requires
        c.state is Analyzing,
        parse_line_spec(line) matches Some(EventModel::Info(_)),
    ensures
        transition(c, InputModel::Line(line)) == (c, event_step(parse_line_spec(line)->0)),
{
}

/// Every line read during a drain counts towards the limit: a drain that goes on
/// has read one line more, and fewer than `DRAIN_LIMIT`.
pub proof fn lemma_drain_bounded(c: CoreModel, line: Seq<char>)
    requires
        c.state is Draining,
    ensures
        transition(c, InputModel::Line(line)).0.state is Draining ==> transition(
            c,
            InputModel::Line(line),
        ).0.state->reads == c.state->reads + 1 && transition(
            c,
            InputModel::Line(line),
        ).0.state->reads < DRAIN_LIMIT,
{
}

/// While the handshake waits for `uciok`, other engine lines and every command but
/// `Quit` leave the actor as it was: an engine that never answers stalls
/// initialization and nothing else.
pub proof fn lemma_handshake_waits(c: CoreModel, input: InputModel)
    requires
        c.state is AwaitUciOk,
        match input {
            InputModel::Line(l) => !begins_with(l, "uciok"@),
            InputModel::Command(cmd) => !(cmd is Quit),
            _ => false,
        },
    ensures
        transition(c, input).0 == c,
        transition(c, input).1.send.len() == 0,
{
}

/// Inputs handed over one after another: the final state, every line sent and
/// every event published, in order.
pub open spec fn run_inputs(c: CoreModel, inputs: Seq<InputModel>) -> (
    CoreModel,
    Seq<Seq<char>>,
    Seq<EventModel>,
)
    decreases inputs.len(),
{
    if inputs.len() == 0 {
        (c, Seq::empty(), Seq::empty())
    } else {
        let (c1, step) = transition(c, inputs[0]);
        let (c2, sent, published) = run_inputs(c1, inputs.drop_first());
        (c2, step.send + sent, step.events + published)
    }
}

/// Engine lines as inputs.
pub open spec fn line_inputs(lines: Seq<Seq<char>>) -> Seq<InputModel> {
    lines.map_values(|l: Seq<char>| InputModel::Line(l))
}

pub open spec fn is_bestmove_line(line: Seq<char>) -> bool {
    parse_line_spec(line) matches Some(EventModel::BestMove { .. })
}

proof fn lemma_run_one(c: CoreModel, first: InputModel, rest: Seq<InputModel>)
    ensures
        ({
            let (c1, step) = transition(c, first);
            let (c2, sent, published) = run_inputs(c1, rest);
            run_inputs(c, seq![first] + rest) == (c2, step.send + sent, step.events + published)
        }),
{
    assert((seq![first] + rest)[0] == first);
    assert((seq![first] + rest).drop_first() =~= rest);
}

/// Two bounded searches asked for in a row are served one after the other: the
/// host takes no command while the first runs (it waits for engine lines), and
/// the second `position`/`go` pair is sent only after the first `bestmove`. Both
/// best moves are published, in order.
pub proof fn lemma_two_searches_in_order(
    c: CoreModel,
    fen1: Seq<char>,
    ms1: Option<u64>,
    best1: Seq<char>,
    fen2: Seq<char>,
    ms2: Option<u64>,
    best2: Seq<char>,
)
    requires
        c.state is Idle,
        is_bestmove_line(best1),
        is_bestmove_line(best2),
    ensures
        wait_for(StateModel::Thinking) == Wait::Line,
        ({
            let (end, sent, published) = run_inputs(
                c,
                seq![
                    InputModel::Command(CommandModel::Go { fen: fen1, movetime_ms: ms1 }),
                    InputModel::Line(best1),
                    InputModel::Command(CommandModel::Go { fen: fen2, movetime_ms: ms2 }),
                    InputModel::Line(best2),
                ],
            );
            &&& end.state is Idle
            &&& sent == seq![
                position_line(fen1),
                go_movetime_line(ms1),
                position_line(fen2),
                go_movetime_line(ms2),
            ]
            &&& published == seq![parse_line_spec(best1)->0, parse_line_spec(best2)->0]
        }),
{
    let i0 = InputModel::Command(CommandModel::Go { fen: fen1, movetime_ms: ms1 });
    let i1 = InputModel::Line(best1);
    let i2 = InputModel::Command(CommandModel::Go { fen: fen2, movetime_ms: ms2 });
    let i3 = InputModel::Line(best2);
    let (c1, s0) = transition(c, i0);
    let (c2, s1) = transition(c1, i1);
    let (c3, s2) = transition(c2, i2);
    let (c4, s3) = transition(c3, i3);
    lemma_run_one(c3, i3, Seq::empty());
    assert(seq![i3] + Seq::<InputModel>::empty() =~= seq![i3]);
    lemma_run_one(c2, i2, seq![i3]);
    assert(seq![i2] + seq![i3] =~= seq![i2, i3]);
    lemma_run_one(c1, i1, seq![i2, i3]);
    assert(seq![i1] + seq![i2, i3] =~= seq![i1, i2, i3]);
    lemma_run_one(c, i0, seq![i1, i2, i3]);
    assert(seq![i0] + seq![i1, i2, i3] =~= seq![i0, i1, i2, i3]);
    let (end, sent, published) = run_inputs(c, seq![i0, i1, i2, i3]);
    assert(sent =~= seq![
        position_line(fen1),
        go_movetime_line(ms1),
        position_line(fen2),
        go_movetime_line(ms2),
    ]);
    assert(published =~= seq![parse_line_spec(best1)->0, parse_line_spec(best2)->0]);
}

/// Engine lines that reach an idle actor change nothing.
pub proof fn lemma_idle_ignores_lines(c: CoreModel, lines: Seq<Seq<char>>)
    requires
        c.state is Idle,
    ensures
        run_inputs(c, line_inputs(lines)) == (c, Seq::<Seq<char>>::empty(), Seq::<EventModel>::empty()),
    decreases lines.len(),
{
    if lines.len() > 0 {
        let ins = line_inputs(lines);
        assert(ins[0] == InputModel::Line(lines[0]));
        assert(ins.drop_first() =~= line_inputs(lines.drop_first()));
        lemma_idle_ignores_lines(c, lines.drop_first());
        assert(Seq::<Seq<char>>::empty() + Seq::<Seq<char>>::empty() =~= Seq::<Seq<char>>::empty());
        assert(Seq::<EventModel>::empty() + Seq::<EventModel>::empty() =~= Seq::<EventModel>::empty());
    }
}

/// A drain after `stop`, with nothing deferred, ends in idle after at most
/// `DRAIN_LIMIT` engine lines, whatever they are (no `bestmove` needed). It sends
/// nothing and publishes only `Info` events.
pub proof fn lemma_drain_ends(c: CoreModel, lines: Seq<Seq<char>>)
    requires
        c.state matches StateModel::Draining { reads, then: ResumeModel::Idle },
        c.state->reads < DRAIN_LIMIT,
        !has_pending(c.pending),
        lines.len() >= DRAIN_LIMIT - c.state->reads,
    ensures
        run_inputs(c, line_inputs(lines)).0.state is Idle,
        run_inputs(c, line_inputs(lines)).1.len() == 0,
        forall|k: int|
            0 <= k < run_inputs(c, line_inputs(lines)).2.len() ==> (#[trigger] run_inputs(
                c,
                line_inputs(lines),
            ).2[k]) is Info,
    decreases lines.len(),
{
    let ins = line_inputs(lines);
    assert(ins[0] == InputModel::Line(lines[0]));
    assert(ins.drop_first() =~= line_inputs(lines.drop_first()));
    let (c1, step) = transition(c, ins[0]);
    assert(step.send.len() == 0);
    assert(forall|k: int| 0 <= k < step.events.len() ==> (#[trigger] step.events[k]) is Info);
    if c1.state is Draining {
        lemma_drain_bounded(c, lines[0]);
        lemma_drain_ends(c1, lines.drop_first());
    } else {
        lemma_idle_ignores_lines(c1, lines.drop_first());
    }
    let (c2, sent, published) = run_inputs(c1, ins.drop_first());
    assert(step.send + sent =~= Seq::<Seq<char>>::empty());
    assert forall|k: int| 0 <= k < (step.events + published).len() implies (#[trigger] (
    step.events + published)[k]) is Info by {
        if k < step.events.len() {
            assert((step.events + published)[k] == step.events[k]);
        } else {
            assert((step.events + published)[k] == published[k - step.events.len()]);
        }
    }
}

/// An analysis that reports three `Info` lines and is then stopped, after which the
/// engine writes nothing and closes its output: exactly the three `Info` events are
/// published, in order, no `BestMove`, and the actor is idle again.
pub proof fn lemma_analysis_then_stop(
    c: CoreModel,
    fen: Seq<char>,
    l1: Seq<char>,
    l2: Seq<char>,
    l3: Seq<char>,
    f1: InfoFields,
    f2: InfoFields,
    f3: InfoFields,
)
    requires
        c.state is Idle,
        !has_pending(c.pending),
        parse_line_spec(l1) == Some(EventModel::Info(f1)),
        parse_line_spec(l2) == Some(EventModel::Info(f2)),
        parse_line_spec(l3) == Some(EventModel::Info(f3)),
    ensures
        ({
            let (end, sent, published) = run_inputs(
                c,
                seq![
                    InputModel::Command(CommandModel::Analyze { fen }),
                    InputModel::Line(l1),
                    InputModel::Line(l2),
                    InputModel::Line(l3),
                    InputModel::Command(CommandModel::Stop),
                    InputModel::OutputClosed,
                ],
            );
            &&& end.state is Idle
            &&& sent == seq![position_line(fen), "go infinite"@, "stop"@]
            &&& published == seq![
                EventModel::Info(f1),
                EventModel::Info(f2),
                EventModel::Info(f3),
            ]
        }),
{
    let i0 = InputModel::Command(CommandModel::Analyze { fen });
    let i1 = InputModel::Line(l1);
    let i2 = InputModel::Line(l2);
    let i3 = InputModel::Line(l3);
    let i4 = InputModel::Command(CommandModel::Stop);
    let i5 = InputModel::OutputClosed;
    let (c1, s0) = transition(c, i0);
    let (c2, s1) = transition(c1, i1);
    let (c3, s2) = transition(c2, i2);
    let (c4, s3) = transition(c3, i3);
    let (c5, s4) = transition(c4, i4);
    let (c6, s5) = transition(c5, i5);
    assert(c6.state is Idle);
    lemma_run_one(c5, i5, Seq::empty());
    assert(seq![i5] + Seq::<InputModel>::empty() =~= seq![i5]);
    lemma_run_one(c4, i4, seq![i5]);
    assert(seq![i4] + seq![i5] =~= seq![i4, i5]);
    lemma_run_one(c3, i3, seq![i4, i5]);
    assert(seq![i3] + seq![i4, i5] =~= seq![i3, i4, i5]);
    lemma_run_one(c2, i2, seq![i3, i4, i5]);
    assert(seq![i2] + seq![i3, i4, i5] =~= seq![i2, i3, i4, i5]);
    lemma_run_one(c1, i1, seq![i2, i3, i4, i5]);
    assert(seq![i1] + seq![i2, i3, i4, i5] =~= seq![i1, i2, i3, i4, i5]);
    lemma_run_one(c, i0, seq![i1, i2, i3, i4, i5]);
    assert(seq![i0] + seq![i1, i2, i3, i4, i5] =~= seq![i0, i1, i2, i3, i4, i5]);
    let (end, sent, published) = run_inputs(c, seq![i0, i1, i2, i3, i4, i5]);
    assert(sent =~= seq![position_line(fen), "go infinite"@, "stop"@]);
    assert(published =~= seq![EventModel::Info(f1), EventModel::Info(f2), EventModel::Info(f3)]);
}

/// While analyzing, a line whose first token is `info` publishes exactly the event
/// its fields give, if any, and the analysis goes on.
pub proof fn lemma_analysis_info_line(c: CoreModel, line: Seq<char>)
    requires
        c.state is Analyzing,
        tokens(line).len() > 0,
        tokens(line)[0] == "info"@,
    ensures
        transition(c, InputModel::Line(line)) == (c, match info_event(tokens(line)) {
            Some(e) => event_step(e),
            None => no_step(),
        }),
{
    reveal_strlit("info");
    reveal_strlit("bestmove");
    assert("info"@.len() != "bestmove"@.len());
}

} // verus!
