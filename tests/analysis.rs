use stockfish_chess::analysis::{AnalysisPanel, EngineLine};

fn line(cp: Option<i32>, mate: Option<i32>) -> EngineLine {
    EngineLine { id: 1, score_cp: cp, score_mate: mate, depth: 0, pv: Vec::new() }
}

#[test]
fn scores_are_formatted() {
    assert_eq!(line(Some(34), None).format_score(), "+0.34");
    assert_eq!(line(Some(0), None).format_score(), "+0.00");
    assert_eq!(line(Some(-150), None).format_score(), "-1.50");
    assert_eq!(line(Some(-5), None).format_score(), "-0.05");
    assert_eq!(line(Some(1234), None).format_score(), "+12.34");
    assert_eq!(line(Some(10), Some(3)).format_score(), "+M3");
    assert_eq!(line(None, Some(-2)).format_score(), "-M2");
    assert_eq!(line(None, None).format_score(), "--");
}

#[test]
fn sort_keys_put_mates_first() {
    assert_eq!(line(None, Some(3)).sort_key(), 99700);
    assert_eq!(line(None, Some(-3)).sort_key(), -99700);
    assert_eq!(line(Some(-20), None).sort_key(), -20);
    assert_eq!(line(None, None).sort_key(), 0);
}

#[test]
fn new_lines_are_sorted_and_renumbered() {
    let mut p = AnalysisPanel::default();
    p.update_line(1, Some(10), None, Some(5), vec!["a".to_string()]);
    p.update_line(2, Some(50), None, Some(7), vec!["b".to_string()]);
    assert_eq!(p.all_lines.len(), 2);
    assert_eq!(p.all_lines[0].pv, vec!["b".to_string()]);
    assert_eq!(p.all_lines[0].id, 1);
    assert_eq!(p.all_lines[1].id, 2);
    assert_eq!(p.current_depth, 7);
    assert_eq!(p.max_calculated, 5);
    p.update_line(1, Some(-30), None, None, Vec::new());
    assert_eq!(p.all_lines[0].score_cp, Some(-30));
    assert_eq!(p.all_lines[0].depth, 7);
    assert_eq!(p.all_lines[0].pv, vec!["b".to_string()]);
    p.update_line(0, None, Some(2), Some(3), vec!["c".to_string()]);
    assert_eq!(p.all_lines[0].score_mate, Some(2));
    p.update_line(9, Some(1), None, None, Vec::new());
    assert_eq!(p.max_calculated, 9);
    assert_eq!(p.all_lines.len(), 3);
    assert_eq!(p.all_lines[2].id, 3);
}

#[test]
fn display_lines_are_clamped_and_clear_resets() {
    let mut p = AnalysisPanel::default();
    assert_eq!(p.get_display_lines(), 3);
    p.set_display_lines(0);
    assert_eq!(p.get_display_lines(), 1);
    p.set_display_lines(7);
    assert_eq!(p.get_display_lines(), 5);
    p.update_line(1, Some(1), None, Some(4), Vec::new());
    p.total_nodes = 99;
    p.clear();
    assert!(p.all_lines.is_empty());
    assert_eq!(p.current_depth, 0);
    assert_eq!(p.total_nodes, 0);
    assert_eq!(p.max_calculated, 5);
}
