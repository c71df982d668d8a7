//! Phase-aware evaluation components for a shogi engine: board model,
//! NNUE accumulator network, piece-square tables, opening principles,
//! position features and a family of pattern helpers.

pub mod types;
pub mod board;
pub mod nnue;
pub mod nnue_training;
pub mod piece_square_tables;
pub mod attacks;
pub mod opening_principles;
pub mod clock;
pub mod pattern_optimization;
pub mod pattern_search_integration;
pub mod pattern_comprehensive_tests;
pub mod pattern_config;
pub mod pattern_cache;
pub mod castles;
pub mod patterns;
pub mod king_safety;
pub mod pawn_structure;
pub mod position_features;
pub mod bitboards;
pub mod material;
pub mod performance;
pub mod tactical_patterns_simd;
pub mod pst_loader;
pub mod positional_patterns;
pub mod positional_scoring;
pub mod positional_fixtures;
pub mod statistics;
pub mod storm_tracking;
pub mod pattern_advanced;
