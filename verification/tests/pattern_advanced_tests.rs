use shogi_engine::board::Board;
use shogi_engine::pattern_advanced::{
    position_type_for_phase, PatternAnalytics, PatternExplainer, PatternExplanation, PatternVisualizer, PositionType,
};
use shogi_engine::types::{Player, Position};

#[test]
fn test_pattern_visualizer() {
    let board = Board::new();
    let patterns: Vec<PatternExplanation> = vec![];
    let visualization = PatternVisualizer::visualize_board(&board, &patterns);
    assert!(visualization.contains("a b c d e f g h i"));
    assert!(visualization.contains("9"));
    assert!(visualization.contains("1"));
}

#[test]
fn test_pattern_explanation_structure() {
    let explanation = PatternExplanation {
        pattern_name: "Fork".to_string(),
        description: "Knight forks king and rook".to_string(),
        value: 150,
        squares: vec![Position::new(4, 4), Position::new(3, 2), Position::new(3, 6)],
    };
    assert_eq!(explanation.pattern_name, "Fork");
    assert_eq!(explanation.value, 150);
    assert_eq!(explanation.squares.len(), 3);
}

#[test]
fn test_pattern_analytics_stats() {
    let mut analytics = PatternAnalytics::new();
    analytics.record_pattern("fork", 100);
    analytics.record_pattern("pin", 80);
    analytics.record_pattern("outpost", 60);
    let stats = analytics.get_stats();
    assert_eq!(stats.total_patterns, 3);
    assert_eq!(stats.unique_patterns, 3);
}

#[test]
fn test_pattern_explainer() {
    let explainer = PatternExplainer::new();
    let board = Board::new();
    let explanations = explainer.explain(&board, Player::Black);
    assert!(explanations.is_empty());
}

#[test]
fn analytics_frequencies() {
    let mut analytics = PatternAnalytics::new();
    assert_eq!(analytics.get_frequency("fork"), 0);
    analytics.record_pattern("fork", 100);
    analytics.record_pattern("fork", 120);
    analytics.record_pattern("pin", 80);
    assert_eq!(analytics.get_frequency("fork"), 2);
    assert_eq!(analytics.get_frequency("pin"), 1);
    for i in 0..100 {
        analytics.record_pattern("test_pattern", i);
    }
    assert_eq!(analytics.get_frequency("test_pattern"), 100);
    let stats = analytics.get_stats();
    assert_eq!(stats.total_patterns, 103);
    assert_eq!(stats.unique_patterns, 3);
}

#[test]
fn visualizer_marks_pattern_squares_with_pieces() {
    let board = Board::new();
    let patterns = vec![PatternExplanation {
        pattern_name: "test".to_string(),
        description: String::new(),
        value: 0,
        squares: vec![Position::new(8, 4), Position::new(4, 4)],
    }];
    let text = PatternVisualizer::visualize_board(&board, &patterns);
    let lines: Vec<&str> = text.lines().collect();
    assert_eq!(lines.len(), 10);
    assert_eq!(lines[0], "  a b c d e f g h i");
    // Row 8 holds Black's king at column 4; row 4 is empty.
    assert_eq!(lines[9], "1 . . . . * . . . . ");
    assert_eq!(lines[5], "5 . . . . . . . . . ");
}

#[test]
fn phase_stages() {
    assert_eq!(position_type_for_phase(200), PositionType::Opening);
    assert_eq!(position_type_for_phase(192), PositionType::Middlegame);
    assert_eq!(position_type_for_phase(128), PositionType::Middlegame);
    assert_eq!(position_type_for_phase(64), PositionType::Endgame);
    assert_eq!(position_type_for_phase(30), PositionType::Endgame);
}

#[test]
fn recorded_values_in_order() {
    let mut analytics = PatternAnalytics::new();
    analytics.record_pattern("fork", 100);
    analytics.record_pattern("fork", 120);
    analytics.record_pattern("pin", 80);
    assert_eq!(analytics.get_values("fork"), vec![100, 120]);
    assert_eq!(analytics.get_values("pin"), vec![80]);
    assert!(analytics.get_values("skewer").is_empty());
}
