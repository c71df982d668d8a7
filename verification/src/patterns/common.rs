//! Tactical threat patterns against the king and their evaluation.

use vstd::prelude::*;
use crate::board::{Board, king_square};
use crate::types::{Player, Position, TaperedScore};

verus! {

/// Kinds of tactical patterns.
#[derive(Debug, Clone, Copy, PartialEq, Eq, Structural)]
pub enum TacticalType {
    MatingNet,
    Sacrifice,
    Pin,
    Skewer,
    DiscoveredAttack,
    DoubleAttack,
}

/// A named tactical pattern and how dangerous it is (1-10).
#[derive(Debug, Clone, Copy)]
pub struct TacticalPattern {
    pub name: &'static str,
    pub pattern_type: TacticalType,
    pub danger_level: u8,
}

/// Detects tactical threats against a king.
pub struct ThreatEvaluator {
    pub patterns: Vec<TacticalPattern>,
}

impl ThreatEvaluator {
    /// The rook pin (danger 7), bishop skewer (6) and knight fork (8)
    /// patterns.
    pub fn new() -> (r: Self)
        ensures
            r.patterns@.len() == 3,
            r.patterns@[0].name@ == "Rook Pin"@,
            r.patterns@[0].pattern_type == TacticalType::Pin,
            r.patterns@[0].danger_level == 7,
            r.patterns@[1].name@ == "Bishop Skewer"@,
            r.patterns@[1].pattern_type == TacticalType::Skewer,
            r.patterns@[1].danger_level == 6,
            r.patterns@[2].name@ == "Knight Fork"@,
            r.patterns@[2].pattern_type == TacticalType::DoubleAttack,
            r.patterns@[2].danger_level == 8,
    {
        let mut patterns: Vec<TacticalPattern> = Vec::new();
        patterns.push(TacticalPattern { name: "Rook Pin", pattern_type: TacticalType::Pin, danger_level: 7 });
        patterns.push(TacticalPattern { name: "Bishop Skewer", pattern_type: TacticalType::Skewer, danger_level: 6 });
        patterns.push(TacticalPattern { name: "Knight Fork", pattern_type: TacticalType::DoubleAttack, danger_level: 8 });
        ThreatEvaluator { patterns }
    }

    /// Threats to `player`'s king: 20 per danger level of every pattern the
    /// opponent has against it (a third in the endgame), zero without a
    /// king. None of the detectors reports a pattern, so the score is zero.
    pub fn evaluate_threats(&self, board: &Board, player: Player) -> (r: TaperedScore)
        ensures
            r.mg == 0,
            r.eg == 0,
    {
        let king_pos = match board.find_king_position(player) {
            Some(pos) => pos,
            None => return TaperedScore::default(),
        };
        let mut threat_score: i32 = 0;
        let mut k: usize = 0;
        while k < self.patterns.len()
            invariant
                k <= self.patterns.len(),
                threat_score == 0,
            decreases self.patterns.len() - k,
        {
            let pattern = self.patterns[k];
            if self.detect_pattern(board, player.opposite(), king_pos, &pattern) {
                threat_score += pattern.danger_level as i32 * 20;
            }
            k += 1;
        }
        TaperedScore::new_tapered(-threat_score, -threat_score / 3)
    }

    fn detect_pattern(&self, board: &Board, player: Player, king_pos: Position, pattern: &TacticalPattern) -> (r: bool)
        ensures
            !r,
    {
        match pattern.pattern_type {
            TacticalType::Pin => self.detect_rook_pin(board, player, king_pos),
            TacticalType::Skewer => self.detect_bishop_skewer(board, player, king_pos),
            TacticalType::DoubleAttack => self.detect_knight_fork(board, player, king_pos),
            _ => false,
        }
    }

    fn detect_rook_pin(&self, _board: &Board, _player: Player, _king_pos: Position) -> (r: bool)
        ensures
            !r,
    {
        false
    }

    fn detect_bishop_skewer(&self, _board: &Board, _player: Player, _king_pos: Position) -> (r: bool)
        ensures
            !r,
    {
        false
    }

    fn detect_knight_fork(&self, _board: &Board, _player: Player, _king_pos: Position) -> (r: bool)
        ensures
            !r,
    {
        false
    }
}

impl Default for ThreatEvaluator {
    fn default() -> (r: Self)
        ensures
            r.patterns@.len() == 3,
    {
        ThreatEvaluator::new()
    }
}

} // verus!
