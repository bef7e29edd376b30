use std::collections::HashMap;
use stockfish_chess::difficulty::DifficultyLevel;

fn apply(table: &mut HashMap<String, String>, lines: &[String]) {
    for line in lines {
        let rest = line.strip_prefix("setoption name ").expect("a setoption line");
        let (name, value) = rest.split_once(" value ").expect("a value");
        table.insert(name.to_string(), value.to_string());
    }
}

#[test]
fn every_level_has_commands_and_reapplying_them_changes_nothing() {
    for level in DifficultyLevel::all() {
        let cmds = level.uci_commands();
        assert!(!cmds.is_empty());
        assert_eq!(cmds, level.uci_commands());
        let mut once = HashMap::new();
        apply(&mut once, &cmds);
        let mut twice = once.clone();
        apply(&mut twice, &cmds);
        assert_eq!(once, twice);
    }
}

#[test]
fn levels_in_order_with_their_settings() {
    let all = DifficultyLevel::all();
    assert_eq!(all.len(), 7);
    assert_eq!(all[0], DifficultyLevel::Novice);
    assert_eq!(all[6], DifficultyLevel::Maximum);
    assert_eq!(
        DifficultyLevel::Novice.uci_commands(),
        vec![
            "setoption name UCI_LimitStrength value false".to_string(),
            "setoption name Skill Level value 0".to_string(),
        ]
    );
    assert_eq!(
        DifficultyLevel::Expert.uci_commands(),
        vec![
            "setoption name UCI_LimitStrength value true".to_string(),
            "setoption name UCI_Elo value 2500".to_string(),
        ]
    );
    assert_eq!(
        DifficultyLevel::Maximum.uci_commands(),
        vec!["setoption name UCI_LimitStrength value false".to_string()]
    );
    assert_eq!(DifficultyLevel::Intermediate.label(), "Intermediate (~1800)");
    assert_eq!(DifficultyLevel::Maximum.label(), "Maximum Strength");
    assert_eq!(DifficultyLevel::Beginner.approximate_elo(), 1350);
    assert_eq!(DifficultyLevel::Maximum.approximate_elo(), 3500);
    assert_eq!(DifficultyLevel::default(), DifficultyLevel::Casual);
}
