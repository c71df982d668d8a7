use shogi_engine::position_features::PositionFeatureStats;
use shogi_engine::positional_patterns::PositionalStatsSnapshot;
use shogi_engine::statistics::{
    AccuracyMetrics, EvaluationStatistics, EvaluationTelemetry, PerformanceMetrics, PhaseStatistics,
    PieceSquareStatisticsAggregate, PieceSquareTelemetry, ScoreStatistics,
};
use shogi_engine::types::{PieceType, TaperedScore};

#[test]
fn test_statistics_creation() {
    let stats = EvaluationStatistics::new();
    assert!(!stats.is_enabled());
    assert_eq!(stats.count(), 0);
}

#[test]
fn test_enable_disable() {
    let mut stats = EvaluationStatistics::new();

    assert!(!stats.is_enabled());

    stats.enable();
    assert!(stats.is_enabled());

    stats.disable();
    assert!(!stats.is_enabled());
}

#[test]
fn test_record_evaluation() {
    let mut stats = EvaluationStatistics::new();
    stats.enable();

    stats.record_evaluation(150, 200);
    stats.record_evaluation(200, 180);
    stats.record_evaluation(100, 128);

    assert_eq!(stats.count(), 3);
}

#[test]
fn test_reset() {
    let mut stats = EvaluationStatistics::new();
    stats.enable();

    stats.record_evaluation(150, 200);
    assert_eq!(stats.count(), 1);

    stats.reset();
    assert_eq!(stats.count(), 0);
}

#[test]
fn test_disabled_no_recording() {
    let mut stats = EvaluationStatistics::new();

    stats.record_evaluation(150, 200);
    assert_eq!(stats.count(), 0);
}

#[test]
fn score_statistics_track_extremes_and_buckets() {
    let mut s = ScoreStatistics::default();
    s.record(100);
    s.record(200);
    s.record(150);
    assert_eq!((s.sum, s.min, s.max, s.count), (450, 100, 200, 3));
    assert_eq!(s.distribution[5], 3);
    s.record(-20_000);
    assert_eq!(s.min, -20_000);
    assert_eq!(s.distribution[0], 1);
}

#[test]
fn phase_statistics_count_categories() {
    let mut p = PhaseStatistics::default();
    for phase in [256, 200, 128, 100, 32, 10] {
        p.record(phase);
    }
    assert_eq!((p.opening_count, p.middlegame_count, p.endgame_count), (2, 2, 2));
    assert_eq!(p.sum, 726);
    assert_eq!(p.distribution[25], 1);
    assert_eq!(p.distribution[20], 1);
    assert_eq!(p.distribution[1], 1);
}

#[test]
fn accuracy_and_timing_sums() {
    let mut a = AccuracyMetrics::default();
    a.record(100, 110);
    a.record(200, 190);
    a.record(150, 150);
    assert_eq!((a.sum_absolute_error, a.sum_squared_error, a.count), (20, 200, 3));

    let mut t = PerformanceMetrics::default();
    t.record_timing(1000);
    t.record_timing(1500);
    t.record_timing(1200);
    assert_eq!((t.total_time_ns, t.timing_count, t.min_time_ns, t.max_time_ns), (3700, 3, 1000, 1500));
}

#[test]
fn tracker_records_only_when_enabled() {
    let mut stats = EvaluationStatistics::new();
    stats.record_accuracy(100, 90);
    stats.record_timing(500);
    stats.record_phase(100);
    assert_eq!(stats.accuracy_metrics().count, 0);
    assert_eq!(stats.performance_metrics().timing_count, 0);
    assert_eq!(stats.phase_statistics().middlegame_count, 0);

    stats.enable();
    stats.record_evaluation(-40, 250);
    stats.record_phase(30);
    stats.record_accuracy(100, 90);
    stats.record_timing(500);
    assert_eq!(stats.count(), 1);
    assert_eq!(stats.score_statistics().sum, -40);
    let phases = stats.phase_statistics();
    assert_eq!((phases.opening_count, phases.endgame_count), (1, 1));
    assert_eq!(stats.accuracy_metrics().sum_squared_error, 100);
    assert_eq!(stats.performance_metrics().max_time_ns, 500);
    assert!(stats.has_room());
    assert!(stats.session_nanos().is_some());
}

#[test]
fn telemetry_feeds_the_aggregates() {
    let mut per_piece = [TaperedScore::new_tapered(0, 0); 14];
    per_piece[0] = TaperedScore::new_tapered(12, 4);
    per_piece[6] = TaperedScore::new_tapered(-5, 0);
    let pst = PieceSquareTelemetry::from_contributions(TaperedScore::new_tapered(7, 4), &per_piece);
    assert_eq!(pst.per_piece.len(), 2);
    assert_eq!(pst.per_piece[1].piece, PieceType::Rook);

    let mut stats = EvaluationStatistics::new();
    stats.set_collect_position_feature_stats(true);
    let features = PositionFeatureStats {
        king_safety_evals: 3,
        pawn_structure_evals: 2,
        mobility_evals: 0,
        center_control_evals: 1,
        development_evals: 1,
    };
    let telemetry = EvaluationTelemetry {
        pst: Some(pst.clone()),
        position_features: Some(features),
        positional: Some(PositionalStatsSnapshot::default()),
    };
    stats.update_telemetry(telemetry.clone());
    assert_eq!(stats.pst_statistics().sample_count(), 0);
    assert!(stats.telemetry().is_some());
    assert!(stats.position_feature_stats().is_none());

    stats.enable();
    stats.update_telemetry(telemetry.clone());
    stats.update_telemetry(telemetry);
    let agg: &PieceSquareStatisticsAggregate = stats.pst_statistics();
    assert_eq!(agg.sample_count(), 2);
    assert_eq!(agg.total_sums(), (14, 8));
    assert_eq!(agg.last_totals(), Some((7, 4)));
    assert_eq!(agg.previous_totals(), Some((7, 4)));
    let rook = agg.piece_sums(PieceType::Rook).unwrap();
    assert_eq!((rook.sum_mg, rook.sum_eg, rook.samples), (-10, 0, 2));
    assert_eq!(stats.position_feature_stats(), Some(features));
    assert!(stats.positional_stats().is_some());

    stats.reset();
    assert_eq!(stats.pst_statistics().sample_count(), 0);
    assert!(stats.telemetry().is_none());
    assert!(stats.position_feature_stats().is_none());
    assert!(stats.is_enabled());
}
