use stockfish_chess::game::MoveRecord;
use stockfish_chess::study::{Study, StudyChapter, StudyNode};

fn mv(san: &str, uci: &str) -> MoveRecord {
    MoveRecord { san: san.to_string(), uci: uci.to_string(), resulting_fen: format!("after {}", uci) }
}

#[test]
fn adding_moves_builds_variations() {
    let mut ch = StudyChapter::new(0, "Open".to_string());
    assert!(ch.add_move(mv("e4", "e2e4"), "f1".to_string()));
    assert!(ch.add_move(mv("e5", "e7e5"), "f2".to_string()));
    assert_eq!(ch.current_fen(), "f2");
    assert!(ch.go_back());
    assert!(ch.add_move(mv("c5", "c7c5"), "f3".to_string()));
    assert_eq!(ch.current_path, vec![0, 1]);
    assert!(ch.go_back());
    assert!(!ch.add_move(mv("e5", "e7e5"), "ignored".to_string()));
    assert_eq!(ch.current_path, vec![0, 0]);
    assert_eq!(ch.current_fen(), "f2");
    ch.go_to_start();
    assert!(!ch.can_go_back());
    assert!(ch.can_go_forward(0));
    assert!(!ch.can_go_forward(1));
    assert!(ch.go_to_child(0));
    assert!(!ch.go_to_child(5));
    assert_eq!(ch.current_node().children.len(), 2);
    ch.add_comment("sharp".to_string());
    assert_eq!(ch.root.children[0].comments, vec!["sharp".to_string()]);
}

#[test]
fn lines_and_main_line() {
    let mut root = StudyNode::new_root("start".to_string());
    assert_eq!(root.get_lines(), vec![Vec::<String>::new()]);
    assert_eq!(root.add_child(mv("d4", "d2d4"), "x".to_string()), 0);
    assert_eq!(root.add_child(mv("c4", "c2c4"), "y".to_string()), 1);
    root.children[1].add_child(mv("e5", "e7e5"), "z".to_string());
    assert_eq!(
        root.get_lines(),
        vec![vec!["d4".to_string()], vec!["c4".to_string(), "e5".to_string()]]
    );
    let mut ch = StudyChapter::new(0, "A".to_string());
    ch.add_move(mv("e4", "e2e4"), "a".to_string());
    ch.go_back();
    ch.add_move(mv("d4", "d2d4"), "b".to_string());
    assert_eq!(ch.get_main_line(), vec!["d4".to_string()]);
}

#[test]
fn studies_and_chapters() {
    let mut s = Study::created("Prep".to_string(), 1700000000123, "2024-05-06T07:08:09+00:00".to_string());
    assert_eq!(s.id, "study_1700000000123");
    assert_eq!(s.chapters.len(), 1);
    assert_eq!(s.current_chapter().name, "Chapter 1");
    assert_eq!(
        s.current_chapter().current_fen(),
        "rnbqkbnr/pppppppp/8/8/8/8/PPPPPPPP/RNBQKBNR w KQkq - 0 1"
    );
    assert_eq!(s.add_chapter("Second".to_string()), 1);
    assert_eq!(s.current_chapter, 1);
    assert!(s.switch_chapter(0));
    assert!(!s.switch_chapter(2));
    assert_eq!(s.current_chapter, 0);
    s.current_chapter_mut().add_move(mv("e4", "e2e4"), "p".to_string());
    assert_eq!(s.chapters[0].current_path, vec![0]);
    let fresh = Study::new("Now".to_string());
    assert!(fresh.id.starts_with("study_"));
    assert_eq!(fresh.created_at, fresh.updated_at);
}

#[test]
fn pgn_export() {
    let mut s = Study::created("Prep".to_string(), -5, "2024-05-06T07:08:09+00:00".to_string());
    assert_eq!(s.id, "study_-5");
    {
        let ch = s.current_chapter_mut();
        ch.add_comment("start here".to_string());
        ch.add_move(mv("e4", "e2e4"), "a".to_string());
        ch.add_move(mv("e5", "e7e5"), "b".to_string());
        ch.add_move(mv("Nf3", "g1f3"), "c".to_string());
    }
    s.add_chapter("Empty".to_string());
    assert_eq!(
        s.to_pgn(),
        "[Event \"Prep\"]\n[Site \"Stockfish Chess\"]\n[Date \"2024-05-06\"]\n\n[Chapter \"Chapter 1\"]\n{ start here } \n1. e4 e5 2. Nf3 *\n\n[Chapter \"Empty\"]\n*\n"
    );
}

#[test]
fn default_study_is_untitled() {
    let s = Study::default();
    assert_eq!(s.name, "Untitled Study");
    assert_eq!(s.chapters.len(), 1);
}

#[test]
fn pgn_date_is_the_first_ten_bytes() {
    let s = Study::created("N".to_string(), 0, "é2024-05-06T07".to_string());
    assert!(s.to_pgn().contains("[Date \"é2024-05-\"]"));
    let short = Study::created("N".to_string(), 0, "2024".to_string());
    assert!(short.to_pgn().contains("[Date \"2024\"]"));
}
