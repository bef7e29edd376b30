//! Engine strength levels and the option settings that select them.

use vstd::prelude::*;

verus! {

/// Playing strength asked of the engine, from weakest to strongest.
#[derive(Debug, Clone, Copy, PartialEq, Eq, Structural)]
pub enum DifficultyLevel {
    Novice,
    Beginner,
    Casual,
    Intermediate,
    Advanced,
    Expert,
    Maximum,
}

/// The text of a UCI `setoption` command.
pub open spec fn setoption_line(name: Seq<char>, value: Seq<char>) -> Seq<char> {
    "setoption name "@ + name + " value "@ + value
}

/// The option commands for a list of `(name, value)` settings, in order.
pub open spec fn option_lines(opts: Seq<(Seq<char>, Seq<char>)>) -> Seq<Seq<char>> {
    opts.map_values(|o: (Seq<char>, Seq<char>)| setoption_line(o.0, o.1))
}

/// The engine options that select a level. The weakest level switches the rating
/// limiter off and sets the skill parameter low instead; the strongest switches the
/// limiter off and nothing more.
pub open spec fn level_options(level: DifficultyLevel) -> Seq<(Seq<char>, Seq<char>)> {
    let limit = "UCI_LimitStrength"@;
    let elo = "UCI_Elo"@;
    match level {
        DifficultyLevel::Novice => seq![(limit, "false"@), ("Skill Level"@, "0"@)],
        DifficultyLevel::Beginner => seq![(limit, "true"@), (elo, "1350"@)],
        DifficultyLevel::Casual => seq![(limit, "true"@), (elo, "1500"@)],
        DifficultyLevel::Intermediate => seq![(limit, "true"@), (elo, "1800"@)],
        DifficultyLevel::Advanced => seq![(limit, "true"@), (elo, "2100"@)],
        DifficultyLevel::Expert => seq![(limit, "true"@), (elo, "2500"@)],
        DifficultyLevel::Maximum => seq![(limit, "false"@)],
    }
}

/// The engine's option table after it has applied `opts` in order.
pub open spec fn apply_options(
    table: Map<Seq<char>, Seq<char>>,
    opts: Seq<(Seq<char>, Seq<char>)>,
) -> Map<Seq<char>, Seq<char>>
    decreases opts.len(),
{
    if opts.len() == 0 {
        table
    } else {
        apply_options(table.insert(opts[0].0, opts[0].1), opts.drop_first())
    }
}

pub open spec fn level_label(level: DifficultyLevel) -> Seq<char> {
    match level {
        DifficultyLevel::Novice => "Novice (~1100)"@,
        DifficultyLevel::Beginner => "Beginner (~1350)"@,
        DifficultyLevel::Casual => "Casual (~1500)"@,
        DifficultyLevel::Intermediate => "Intermediate (~1800)"@,
        DifficultyLevel::Advanced => "Advanced (~2100)"@,
        DifficultyLevel::Expert => "Expert (~2500)"@,
        DifficultyLevel::Maximum => "Maximum Strength"@,
    }
}

pub open spec fn level_elo(level: DifficultyLevel) -> u32 {
    match level {
        DifficultyLevel::Novice => 1100,
        DifficultyLevel::Beginner => 1350,
        DifficultyLevel::Casual => 1500,
        DifficultyLevel::Intermediate => 1800,
        DifficultyLevel::Advanced => 2100,
        DifficultyLevel::Expert => 2500,
        DifficultyLevel::Maximum => 3500,
    }
}

/// Builds `setoption name {name} value {value}`.
pub fn setoption(name: &str, value: &str) -> (r: String)
    ensures
        r@ == setoption_line(name@, value@),
{
    let mut s = String::from_str("setoption name ");
    s.append(name);
    s.append(" value ");
    s.append(value);
    s
}

impl DifficultyLevel {
    /// Every level, weakest first.
    pub fn all() -> (r: Vec<DifficultyLevel>)
        ensures
            r@ == seq![
                DifficultyLevel::Novice,
                DifficultyLevel::Beginner,
                DifficultyLevel::Casual,
                DifficultyLevel::Intermediate,
                DifficultyLevel::Advanced,
                DifficultyLevel::Expert,
                DifficultyLevel::Maximum,
            ],
    {
        let r = vec![
            DifficultyLevel::Novice,
            DifficultyLevel::Beginner,
            DifficultyLevel::Casual,
            DifficultyLevel::Intermediate,
            DifficultyLevel::Advanced,
            DifficultyLevel::Expert,
            DifficultyLevel::Maximum,
        ];
        assert(r@ =~= seq![
            DifficultyLevel::Novice,
            DifficultyLevel::Beginner,
            DifficultyLevel::Casual,
            DifficultyLevel::Intermediate,
            DifficultyLevel::Advanced,
            DifficultyLevel::Expert,
            DifficultyLevel::Maximum,
        ]);
        r
    }

    pub fn label(&self) -> (r: &'static str)
        ensures
            r@ == level_label(*self),
    {
        match self {
            DifficultyLevel::Novice => "Novice (~1100)",
            DifficultyLevel::Beginner => "Beginner (~1350)",
            DifficultyLevel::Casual => "Casual (~1500)",
            DifficultyLevel::Intermediate => "Intermediate (~1800)",
            DifficultyLevel::Advanced => "Advanced (~2100)",
            DifficultyLevel::Expert => "Expert (~2500)",
            DifficultyLevel::Maximum => "Maximum Strength",
        }
    }

    /// The UCI commands that configure the engine for this level: never empty, one
    /// `setoption` line per setting.
    pub fn uci_commands(&self) -> (r: Vec<String>)
        ensures
            r.deep_view() == option_lines(level_options(*self)),
            r.len() > 0,
    {
        let mut r: Vec<String> = Vec::new();
        match self {
            DifficultyLevel::Novice => {
                r.push(setoption("UCI_LimitStrength", "false"));
                r.push(setoption("Skill Level", "0"));
            },
            DifficultyLevel::Beginner => {
                r.push(setoption("UCI_LimitStrength", "true"));
                r.push(setoption("UCI_Elo", "1350"));
            },
            DifficultyLevel::Casual => {
                r.push(setoption("UCI_LimitStrength", "true"));
                r.push(setoption("UCI_Elo", "1500"));
            },
            DifficultyLevel::Intermediate => {
                r.push(setoption("UCI_LimitStrength", "true"));
                r.push(setoption("UCI_Elo", "1800"));
            },
            DifficultyLevel::Advanced => {
                r.push(setoption("UCI_LimitStrength", "true"));
                r.push(setoption("UCI_Elo", "2100"));
            },
            DifficultyLevel::Expert => {
                r.push(setoption("UCI_LimitStrength", "true"));
                r.push(setoption("UCI_Elo", "2500"));
            },
            DifficultyLevel::Maximum => {
                r.push(setoption("UCI_LimitStrength", "false"));
            },
        }
        assert(r.deep_view() =~= option_lines(level_options(*self)));
        r
    }

    pub fn approximate_elo(&self) -> (r: u32)
        ensures
            r == level_elo(*self),
    {
        match self {
            DifficultyLevel::Novice => 1100,
            DifficultyLevel::Beginner => 1350,
            DifficultyLevel::Casual => 1500,
            DifficultyLevel::Intermediate => 1800,
            DifficultyLevel::Advanced => 2100,
            DifficultyLevel::Expert => 2500,
            DifficultyLevel::Maximum => 3500,
        }
    }
}

impl Default for DifficultyLevel {
    fn default() -> (r: DifficultyLevel)
        ensures
            r == DifficultyLevel::Casual,
    {
        DifficultyLevel::Casual
    }
}

/// Every level has at least one option command, and applying a level's options a
/// second time leaves the engine's option table as the first application left it.
pub proof fn lemma_level_options_idempotent(
    level: DifficultyLevel,
    table: Map<Seq<char>, Seq<char>>,
)
    ensures
        level_options(level).len() > 0,
        apply_options(apply_options(table, level_options(level)), level_options(level))
            == apply_options(table, level_options(level)),
{
    let o = level_options(level);
    reveal_with_fuel(apply_options, 5);
    if o.len() == 1 {
        assert(o.drop_first().len() == 0);
        assert(table.insert(o[0].0, o[0].1).insert(o[0].0, o[0].1) =~= table.insert(o[0].0, o[0].1));
    } else {
        assert(o.len() == 2);
        assert(o.drop_first().drop_first().len() == 0);
        assert(o.drop_first()[0] == o[1]);
        let once = table.insert(o[0].0, o[0].1).insert(o[1].0, o[1].1);
        assert(apply_options(table, o) == once);
        assert(apply_options(once, o) == once.insert(o[0].0, o[0].1).insert(o[1].0, o[1].1));
        assert(once.insert(o[0].0, o[0].1).insert(o[1].0, o[1].1) =~= once);
    }
}

} // verus!
