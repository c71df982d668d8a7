//! Position features by game phase: king safety, pawn structure, mobility,
//! centre control and development, each as a tapered score, with per-pass
//! caching of the kings and pawns of the position.
//!
//! The scorers accept hands of up to a million pieces of each kind. A legal
//! position holds at most 18 of a kind, so every game lies far inside that
//! bound, which is chosen well below where the weighted sums would leave `i32`.

use vstd::prelude::*;
use crate::attacks::{attacks, attacks_square};
use crate::board::{Board, at_home, initial_square, is_home_square, lemma_square_sum_zero, is_kind, king_square, piece_at, pieces_of, square_sum, sum_over};
use crate::king_safety::{
    floor_zero,
    add2, castle_bonus, castle_pattern_bonus, enemy_attacker_penalty, enemy_attackers, enemy_hand_pressure,
    enemy_hand_pressure_score, gold_equivalent, hand_defense, hand_defense_score, is_gold_equivalent, king_exposure,
    king_exposure_penalty, king_shield, king_shield_score, open_file_attack_penalty, open_file_attacks, oriented_row,
    pawn_cover, pawn_cover_score, tokin_threat_penalty, tokin_threats,
};
use crate::pawn_structure::{
    doubled_pawns, evaluate_doubled_pawns, evaluate_hand_supported_chains, evaluate_passed_pawns,
    evaluate_pawn_advancement, evaluate_pawn_chains, evaluate_pawn_isolation, hand_supported_chains, passed_pawns,
    pawn_advancement, pawn_chains, pawn_isolation, pawn_list,
};
use crate::types::{CapturedPieces, Piece, PieceType, Player, Position, TaperedScore, trunc_div};
use crate::positional_scoring::{controls, drop_is_legal, drop_legal, piece_controls_square};

verus! {

/// Switches for the feature families.
#[derive(Debug, Clone, Copy, PartialEq, Eq, Structural)]
pub struct PositionFeatureConfig {
    pub enable_king_safety: bool,
    pub enable_pawn_structure: bool,
    pub enable_mobility: bool,
    pub enable_center_control: bool,
    pub enable_development: bool,
}

impl PositionFeatureConfig {
    pub open spec fn all_enabled() -> Self {
        PositionFeatureConfig {
            enable_king_safety: true,
            enable_pawn_structure: true,
            enable_mobility: true,
            enable_center_control: true,
            enable_development: true,
        }
    }
}

impl Default for PositionFeatureConfig {
    /// Every family enabled.
    fn default() -> (r: Self)
        ensures
            r == PositionFeatureConfig::all_enabled(),
    {
        PositionFeatureConfig {
            enable_king_safety: true,
            enable_pawn_structure: true,
            enable_mobility: true,
            enable_center_control: true,
            enable_development: true,
        }
    }
}

/// Evaluations performed, by family.
#[derive(Debug, Clone, Copy, PartialEq, Eq, Structural)]
pub struct PositionFeatureStats {
    pub king_safety_evals: u64,
    pub pawn_structure_evals: u64,
    pub mobility_evals: u64,
    pub center_control_evals: u64,
    pub development_evals: u64,
}

impl PositionFeatureStats {
    pub open spec fn zeroed() -> Self {
        PositionFeatureStats {
            king_safety_evals: 0,
            pawn_structure_evals: 0,
            mobility_evals: 0,
            center_control_evals: 0,
            development_evals: 0,
        }
    }
}

impl Default for PositionFeatureStats {
    fn default() -> (r: Self)
        ensures
            r == PositionFeatureStats::zeroed(),
    {
        PositionFeatureStats {
            king_safety_evals: 0,
            pawn_structure_evals: 0,
            mobility_evals: 0,
            center_control_evals: 0,
            development_evals: 0,
        }
    }
}

/// Kings and pawns of the position, gathered once per evaluation pass.
struct PositionFeatureInputCache {
    prepared: bool,
    king_black: Option<Position>,
    king_white: Option<Position>,
    pawns_black: Vec<Position>,
    pawns_white: Vec<Position>,
}

/// Phase-aware evaluator of position features.
pub struct PositionFeatureEvaluator {
    config: PositionFeatureConfig,
    stats: PositionFeatureStats,
    inputs_cache: PositionFeatureInputCache,
}

/// King safety of a king on `k`: shield, pawn cover, hand defence and castle
/// bonus, less enemy hand pressure, nearby enemy pieces, open files, tokins
/// and empty squares around it.
pub open spec fn king_safety_total(b: Board, k: Position, player: Player, cp: CapturedPieces) -> (int, int) {
    let plus = add2(add2(king_shield(b, k, player), pawn_cover(b, k, player)), add2(hand_defense(b, k, player, cp), castle_bonus(b, k, player, cp)));
    let minus = add2(
        add2(enemy_hand_pressure(b, k, player, cp), enemy_attackers(b, k, player)),
        add2(add2(open_file_attacks(b, k, player), tokin_threats(b, k, player)), king_exposure(b, k)),
    );
    (plus.0 - minus.0, plus.1 - minus.1)
}

/// Pawn structure of `player`'s pawns `s`: chains, chains the hand could
/// complete, advancement, isolation, passed pawns (unless skipped) and
/// doubled pawns; zero without pawns.
pub open spec fn pawn_structure_total(b: Board, s: Seq<Position>, player: Player, cp: CapturedPieces, skip_passed: bool) -> (int, int) {
    if s.len() == 0 {
        (0, 0)
    } else {
        let base = add2(
            add2(pawn_chains(s, player), hand_supported_chains(b, s, player, cp)),
            add2(pawn_advancement(s, player), pawn_isolation(b, s, player, cp)),
        );
        let with_passed = if skip_passed {
            base
        } else {
            add2(base, passed_pawns(b, s, player, cp))
        };
        add2(with_passed, doubled_pawns(s))
    }
}

impl PositionFeatureEvaluator {
    pub closed spec fn config_view(&self) -> PositionFeatureConfig {
        self.config
    }

    pub closed spec fn stats_view(&self) -> PositionFeatureStats {
        self.stats
    }

    /// Kings and pawns are cached for the current pass.
    pub closed spec fn prepared(&self) -> bool {
        self.inputs_cache.prepared
    }

    pub closed spec fn cached_king(&self, player: Player) -> Option<Position> {
        if player == Player::Black {
            self.inputs_cache.king_black
        } else {
            self.inputs_cache.king_white
        }
    }

    pub closed spec fn cached_pawns(&self, player: Player) -> Seq<Position> {
        if player == Player::Black {
            self.inputs_cache.pawns_black@
        } else {
            self.inputs_cache.pawns_white@
        }
    }

    /// The king used for `board`: the cached one during a pass, else the
    /// board's.
    pub open spec fn king_for(&self, b: Board, player: Player) -> Option<Position> {
        if self.prepared() {
            self.cached_king(player)
        } else {
            king_square(b, player)
        }
    }

    /// The pawns used for `board`: the cached ones during a pass, else the
    /// board's, in row-major order.
    pub open spec fn pawns_for(&self, b: Board, player: Player) -> Seq<Position> {
        if self.prepared() {
            self.cached_pawns(player)
        } else {
            pieces_of(b, player, PieceType::Pawn)
        }
    }

    pub closed spec fn wf(&self) -> bool {
        &&& (self.inputs_cache.king_black.is_some() ==> self.inputs_cache.king_black.unwrap().valid())
        &&& (self.inputs_cache.king_white.is_some() ==> self.inputs_cache.king_white.unwrap().valid())
        &&& pawn_list(self.inputs_cache.pawns_black@)
        &&& pawn_list(self.inputs_cache.pawns_white@)
    }

    /// After gathering inputs for `b`, the cache holds what the evaluator
    /// would have used for `b`.
    pub open spec fn gathered(&self, old: &PositionFeatureEvaluator, b: Board) -> bool {
        &&& self.prepared()
        &&& self.cached_king(Player::Black) == old.king_for(b, Player::Black)
        &&& self.cached_king(Player::White) == old.king_for(b, Player::White)
        &&& self.cached_pawns(Player::Black) == old.pawns_for(b, Player::Black)
        &&& self.cached_pawns(Player::White) == old.pawns_for(b, Player::White)
    }

    pub open spec fn same_cache(&self, other: &PositionFeatureEvaluator) -> bool {
        &&& self.prepared() == other.prepared()
        &&& self.cached_king(Player::Black) == other.cached_king(Player::Black)
        &&& self.cached_king(Player::White) == other.cached_king(Player::White)
        &&& self.cached_pawns(Player::Black) == other.cached_pawns(Player::Black)
        &&& self.cached_pawns(Player::White) == other.cached_pawns(Player::White)
    }

    /// All families enabled, statistics zeroed, nothing cached.
    pub fn new() -> (r: Self)
        ensures
            r.config_view() == PositionFeatureConfig::all_enabled(),
            r.stats_view() == PositionFeatureStats::zeroed(),
            !r.prepared(),
            r.wf(),
    {
        PositionFeatureEvaluator::with_config(PositionFeatureConfig::default())
    }

    /// The given switches, statistics zeroed, nothing cached.
    pub fn with_config(config: PositionFeatureConfig) -> (r: Self)
        ensures
            r.config_view() == config,
            r.stats_view() == PositionFeatureStats::zeroed(),
            !r.prepared(),
            r.wf(),
    {
        PositionFeatureEvaluator {
            config,
            stats: PositionFeatureStats::default(),
            inputs_cache: PositionFeatureInputCache {
                prepared: false,
                king_black: None,
                king_white: None,
                pawns_black: Vec::new(),
                pawns_white: Vec::new(),
            },
        }
    }

    fn ensure_inputs(&mut self, board: &Board)
        requires
            old(self).wf(),
        ensures
            final(self).wf(),
            final(self).gathered(old(self), *board),
            final(self).config_view() == old(self).config_view(),
            final(self).stats_view() == old(self).stats_view(),
    {
        if self.inputs_cache.prepared {
            return;
        }
        let kb = board.find_king_position(Player::Black);
        let kw = board.find_king_position(Player::White);
        let pb = board.find_pieces(Player::Black, PieceType::Pawn);
        let pw = board.find_pieces(Player::White, PieceType::Pawn);
        proof {
            crate::board::lemma_pieces_upto(*board, Player::Black, PieceType::Pawn, 81);
            crate::board::lemma_pieces_upto(*board, Player::White, PieceType::Pawn, 81);
        }
        self.inputs_cache = PositionFeatureInputCache {
            prepared: true,
            king_black: kb,
            king_white: kw,
            pawns_black: pb,
            pawns_white: pw,
        };
    }

    /// Gathers the kings and pawns of `board` for an evaluation pass (kept
    /// until `end_evaluation`).
    pub fn begin_evaluation(&mut self, board: &Board)
        requires
            old(self).wf(),
        ensures
            final(self).wf(),
            final(self).gathered(old(self), *board),
            final(self).config_view() == old(self).config_view(),
            final(self).stats_view() == old(self).stats_view(),
    {
        self.ensure_inputs(board);
    }

    /// Ends the pass: the cache is cleared.
    pub fn end_evaluation(&mut self)
        ensures
            final(self).wf(),
            !final(self).prepared(),
            final(self).config_view() == old(self).config_view(),
            final(self).stats_view() == old(self).stats_view(),
    {
        self.inputs_cache = PositionFeatureInputCache {
            prepared: false,
            king_black: None,
            king_white: None,
            pawns_black: Vec::new(),
            pawns_white: Vec::new(),
        };
    }

    /// Outside an evaluation pass (as after `end_evaluation`) the evaluator
    /// reads kings and pawns from the board it is given, never from an
    /// earlier board.
    pub proof fn law_unprepared_reads_board(&self, b: Board, player: Player)
        requires
            !self.prepared(),
        ensures
            self.king_for(b, player) == king_square(b, player),
            self.pawns_for(b, player) == pieces_of(b, player, PieceType::Pawn),
    {
    }

    /// The switches.
    pub fn config(&self) -> (r: &PositionFeatureConfig)
        ensures
            *r == self.config_view(),
    {
        &self.config
    }

    /// Replaces the switches.
    pub fn set_config(&mut self, config: PositionFeatureConfig)
        ensures
            final(self).config_view() == config,
            final(self).stats_view() == old(self).stats_view(),
            final(self).same_cache(old(self)),
            old(self).wf() ==> final(self).wf(),
    {
        self.config = config;
    }

    /// The king of `player` (cached during a pass).
    pub fn find_king_position(&mut self, board: &Board, player: Player) -> (r: Option<Position>)
        requires
            old(self).wf(),
        ensures
            r == old(self).king_for(*board, player),
            r.is_some() ==> r.unwrap().valid(),
            final(self).wf(),
            final(self).gathered(old(self), *board),
            final(self).config_view() == old(self).config_view(),
            final(self).stats_view() == old(self).stats_view(),
    {
        self.ensure_inputs(board);
        match player {
            Player::Black => self.inputs_cache.king_black,
            Player::White => self.inputs_cache.king_white,
        }
    }

    /// The pawns of `player` (cached during a pass).
    fn collect_pawns(&mut self, board: &Board, player: Player) -> (r: Vec<Position>)
        requires
            old(self).wf(),
        ensures
            r@ == old(self).pawns_for(*board, player),
            pawn_list(r@),
            final(self).wf(),
            final(self).gathered(old(self), *board),
            final(self).config_view() == old(self).config_view(),
            final(self).stats_view() == old(self).stats_view(),
    {
        self.ensure_inputs(board);
        match player {
            Player::Black => self.inputs_cache.pawns_black.clone(),
            Player::White => self.inputs_cache.pawns_white.clone(),
        }
    }

    /// King safety of `player` (zero when disabled or without a king); the
    /// evaluation is counted.
    pub fn evaluate_king_safety(&mut self, board: &Board, player: Player, captured_pieces: &CapturedPieces) -> (r: TaperedScore)
        requires
            old(self).wf(),
            captured_pieces.counts_at_most(1_000_000),
        ensures
            !old(self).config_view().enable_king_safety ==> r.mg == 0 && r.eg == 0 && *final(self) == *old(self),
            old(self).config_view().enable_king_safety ==> {
                &&& final(self).gathered(old(self), *board)
                &&& final(self).stats_view() == (PositionFeatureStats {
                    king_safety_evals: old(self).stats_view().king_safety_evals.wrapping_add(1),
                    ..old(self).stats_view()
                })
                &&& match old(self).king_for(*board, player) {
                    Some(k) => (r.mg as int, r.eg as int) == king_safety_total(*board, k, player, *captured_pieces),
                    None => r.mg == 0 && r.eg == 0,
                }
            },
            final(self).wf(),
            final(self).config_view() == old(self).config_view(),
    {
        if !self.config.enable_king_safety {
            return TaperedScore::default();
        }
        self.stats.king_safety_evals = self.stats.king_safety_evals.wrapping_add(1);
        let king_pos = match self.find_king_position(board, player) {
            Some(k) => k,
            None => return TaperedScore::default(),
        };
        let shield = king_shield_score(board, king_pos, player);
        let cover = pawn_cover_score(board, king_pos, player);
        let defense = hand_defense_score(board, king_pos, player, captured_pieces);
        let castle = castle_pattern_bonus(board, king_pos, player, captured_pieces);
        let pressure = enemy_hand_pressure_score(board, king_pos, player, captured_pieces);
        let attackers = enemy_attacker_penalty(board, king_pos, player);
        let open_files = open_file_attack_penalty(board, king_pos, player);
        let tokins = tokin_threat_penalty(board, king_pos, player);
        let exposure = king_exposure_penalty(board, king_pos);
        let mg = shield.mg + cover.mg + (defense.mg + castle.mg) - ((pressure.mg + attackers.mg) + ((open_files.mg
            + tokins.mg) + exposure.mg));
        let eg = shield.eg + cover.eg + (defense.eg + castle.eg) - ((pressure.eg + attackers.eg) + ((open_files.eg
            + tokins.eg) + exposure.eg));
        TaperedScore::new_tapered(mg, eg)
    }

    /// Pawn structure of `player` (zero when disabled or without pawns); the
    /// evaluation is counted.
    pub fn evaluate_pawn_structure(
        &mut self,
        board: &Board,
        player: Player,
        captured_pieces: &CapturedPieces,
        skip_passed_pawn_evaluation: bool,
    ) -> (r: TaperedScore)
        requires
            old(self).wf(),
            captured_pieces.counts_at_most(1_000_000),
        ensures
            !old(self).config_view().enable_pawn_structure ==> r.mg == 0 && r.eg == 0 && *final(self) == *old(self),
            old(self).config_view().enable_pawn_structure ==> {
                &&& final(self).gathered(old(self), *board)
                &&& final(self).stats_view() == (PositionFeatureStats {
                    pawn_structure_evals: old(self).stats_view().pawn_structure_evals.wrapping_add(1),
                    ..old(self).stats_view()
                })
                &&& (r.mg as int, r.eg as int) == pawn_structure_total(
                    *board,
                    old(self).pawns_for(*board, player),
                    player,
                    *captured_pieces,
                    skip_passed_pawn_evaluation,
                )
            },
            final(self).wf(),
            final(self).config_view() == old(self).config_view(),
    {
        if !self.config.enable_pawn_structure {
            return TaperedScore::default();
        }
        self.stats.pawn_structure_evals = self.stats.pawn_structure_evals.wrapping_add(1);
        let pawns = self.collect_pawns(board, player);
        if pawns.len() == 0 {
            return TaperedScore::default();
        }
        let chains = evaluate_pawn_chains(&pawns, player);
        let hand_chains = evaluate_hand_supported_chains(board, &pawns, player, captured_pieces);
        let advancement = evaluate_pawn_advancement(&pawns, player);
        let isolation = evaluate_pawn_isolation(board, &pawns, player, captured_pieces);
        let mut mg = (chains.mg + hand_chains.mg) + (advancement.mg + isolation.mg);
        let mut eg = (chains.eg + hand_chains.eg) + (advancement.eg + isolation.eg);
        if !skip_passed_pawn_evaluation {
            let passed = evaluate_passed_pawns(board, &pawns, player, captured_pieces);
            mg += passed.mg;
            eg += passed.eg;
        }
        let doubled = evaluate_doubled_pawns(&pawns);
        mg += doubled.mg;
        eg += doubled.eg;
        TaperedScore::new_tapered(mg, eg)
    }

    /// The statistics.
    pub fn stats(&self) -> (r: &PositionFeatureStats)
        ensures
            *r == self.stats_view(),
    {
        &self.stats
    }

    /// Zeroes the statistics.
    pub fn reset_stats(&mut self)
        ensures
            final(self).stats_view() == PositionFeatureStats::zeroed(),
            final(self).config_view() == old(self).config_view(),
            final(self).same_cache(old(self)),
            old(self).wf() ==> final(self).wf(),
    {
        self.stats = PositionFeatureStats::default();
    }
}

impl Default for PositionFeatureEvaluator {
    fn default() -> (r: Self)
        ensures
            r.config_view() == PositionFeatureConfig::all_enabled(),
            r.stats_view() == PositionFeatureStats::zeroed(),
            !r.prepared(),
            r.wf(),
    {
        PositionFeatureEvaluator::new()
    }
}

} // verus!

verus! {

// ---------------------------------------------------------------------------
// Centre control
// ---------------------------------------------------------------------------

/// Control weight of a piece kind over a square it can move to.
pub open spec fn control_value(pt: PieceType) -> (int, int) {
    match pt {
        PieceType::Pawn => (15, 8),
        PieceType::Knight => (25, 15),
        PieceType::Silver => (22, 18),
        PieceType::Gold => (20, 16),
        PieceType::Bishop => (30, 20),
        PieceType::Rook => (28, 22),
        PieceType::PromotedPawn => (25, 20),
        PieceType::PromotedBishop => (35, 28),
        PieceType::PromotedRook => (32, 26),
        _ => (0, 0),
    }
}

/// A move of `pt` to `row` must promote (pawn or lance to the last rank,
/// knight to the last two).
pub open spec fn must_promote(pt: PieceType, side: Player, row: int) -> bool {
    if pt == PieceType::Pawn || pt == PieceType::Lance {
        if side == Player::Black { row == 0 } else { row == 8 }
    } else if pt == PieceType::Knight {
        if side == Player::Black { row <= 1 } else { row >= 7 }
    } else {
        false
    }
}

/// The piece of `side` on square `i` has a board move without promotion to
/// `sq`: it attacks the square, the square holds no own piece, and the move
/// need not promote.
pub open spec fn moves_to(b: Board, side: Player, i: int, sq: Position) -> bool {
    match b.squares@[i] {
        Some(pc) => pc.player == side && attacks(b, Position::at_index(i), pc.piece_type, side, sq) && !(piece_at(
            b,
            sq.row as int,
            sq.col as int,
        ) matches Some(t) && t.player == side) && !must_promote(pc.piece_type, side, sq.row as int),
        None => false,
    }
}

pub open spec fn imax(a: int, b: int) -> int {
    if a >= b {
        a
    } else {
        b
    }
}

/// Strongest control weight of `side`'s pieces on squares `0..n` over `sq`
/// (zero when none moves there).
pub open spec fn control_upto(b: Board, side: Player, sq: Position, n: int, part: int) -> int
    decreases n,
{
    if n <= 0 {
        0
    } else {
        let prev = control_upto(b, side, sq, n - 1, part);
        if moves_to(b, side, n - 1, sq) {
            let v = control_value(b.squares@[n - 1].unwrap().piece_type);
            imax(prev, if part == 0 { v.0 } else { v.1 })
        } else {
            prev
        }
    }
}

pub open spec fn control_diff(b: Board, player: Player, sq: Position, part: int) -> int {
    control_upto(b, player, sq, 81, part) - control_upto(b, player.other(), sq, 81, part)
}

pub open spec fn sq(r: u8, c: u8) -> Position {
    Position { row: r, col: c }
}

/// The core: rows and files 3 to 5.
pub open spec fn core_squares() -> Seq<Position> {
    seq![sq(3, 3), sq(3, 4), sq(3, 5), sq(4, 3), sq(4, 4), sq(4, 5), sq(5, 3), sq(5, 4), sq(5, 5)]
}

/// The ring around the core: rows and files 2 to 6 outside the core.
pub open spec fn ring_squares() -> Seq<Position> {
    seq![
        sq(2, 2), sq(2, 3), sq(2, 4), sq(2, 5), sq(2, 6), sq(3, 2), sq(3, 6), sq(4, 2), sq(4, 6), sq(5, 2), sq(5, 6),
        sq(6, 2), sq(6, 3), sq(6, 4), sq(6, 5), sq(6, 6),
    ]
}

/// The edge files, rows 2 to 6.
pub open spec fn edge_squares() -> Seq<Position> {
    seq![sq(2, 0), sq(3, 0), sq(4, 0), sq(5, 0), sq(6, 0), sq(2, 8), sq(3, 8), sq(4, 8), sq(5, 8), sq(6, 8)]
}

/// Squares where `player` builds castles.
pub open spec fn anchor_squares(player: Player) -> Seq<Position> {
    if player == Player::Black {
        seq![sq(7, 1), sq(7, 7), sq(6, 2), sq(6, 6), sq(8, 2), sq(8, 6)]
    } else {
        seq![sq(1, 7), sq(1, 1), sq(2, 6), sq(2, 2), sq(0, 6), sq(0, 2)]
    }
}

/// Bonus for a piece standing on a castle anchor square, negative for an
/// enemy piece.
pub open spec fn anchor_occupant(pc: Piece, player: Player) -> (int, int) {
    let m = if gold_equivalent(pc.piece_type) {
        (18, 10)
    } else if pc.piece_type == PieceType::Silver {
        (14, 8)
    } else if pc.piece_type == PieceType::King {
        (12, 6)
    } else if pc.piece_type == PieceType::Knight {
        (10, 6)
    } else {
        (6, 4)
    };
    if pc.player == player {
        m
    } else {
        (-m.0, -m.1)
    }
}

pub open spec fn anchor_term(b: Board, player: Player, s: Position, part: int) -> int {
    let occ = match piece_at(b, s.row as int, s.col as int) {
        Some(pc) => if part == 0 { anchor_occupant(pc, player).0 } else { anchor_occupant(pc, player).1 },
        None => 0,
    };
    trunc_div(control_diff(b, player, s, part), 2) + occ
}

/// Value of `side`'s castle anchors for `side`: half the control difference
/// on each anchor plus its occupant.
pub open spec fn anchor_total(b: Board, side: Player, part: int) -> int {
    sum_over(anchor_squares(side), |s: Position| anchor_term(b, side, s, part))
}

/// Centre control: full control difference on the core, two thirds on the
/// ring, half on the edge files, and the value of `player`'s castle anchors
/// less that of the opponent's.
pub open spec fn center_control_total(b: Board, player: Player, part: int) -> int {
    sum_over(core_squares(), |s: Position| control_diff(b, player, s, part)) + sum_over(
        ring_squares(),
        |s: Position| trunc_div(control_diff(b, player, s, part) * 2, 3),
    ) + sum_over(edge_squares(), |s: Position| trunc_div(control_diff(b, player, s, part), 2)) + anchor_total(
        b,
        player,
        part,
    ) - anchor_total(b, player.other(), part)
}

proof fn lemma_sum_over_neg(s: Seq<Position>, f: spec_fn(Position) -> int, g: spec_fn(Position) -> int)
    requires
        forall|p: Position| #[trigger] f(p) == -g(p),
    ensures
        sum_over(s, f) == -sum_over(s, g),
    decreases s.len(),
{
    if s.len() > 0 {
        lemma_sum_over_neg(s.drop_last(), f, g);
    }
}

proof fn lemma_trunc_div_odd(x: int, d: int)
    requires
        d > 0,
    ensures
        trunc_div(-x, d) == -trunc_div(x, d),
{
}

/// Centre control is zero-sum: the opponent's score is the negation of the
/// player's, in both phases.
pub proof fn law_center_control_zero_sum(b: Board, player: Player, part: int)
    ensures
        center_control_total(b, player.other(), part) == -center_control_total(b, player, part),
{
    let opp = player.other();
    assert(opp.other() == player);
    assert forall|p: Position| #[trigger] control_diff(b, opp, p, part) == -control_diff(b, player, p, part) by {}
    lemma_sum_over_neg(core_squares(), |p: Position| control_diff(b, opp, p, part), |p: Position| control_diff(b, player, p, part));
    assert forall|p: Position| #[trigger] trunc_div(control_diff(b, opp, p, part) * 2, 3) == -trunc_div(control_diff(b, player, p, part) * 2, 3) by {
        lemma_trunc_div_odd(control_diff(b, player, p, part) * 2, 3);
    }
    lemma_sum_over_neg(
        ring_squares(),
        |p: Position| trunc_div(control_diff(b, opp, p, part) * 2, 3),
        |p: Position| trunc_div(control_diff(b, player, p, part) * 2, 3),
    );
    assert forall|p: Position| #[trigger] trunc_div(control_diff(b, opp, p, part), 2) == -trunc_div(control_diff(b, player, p, part), 2) by {
        lemma_trunc_div_odd(control_diff(b, player, p, part), 2);
    }
    lemma_sum_over_neg(
        edge_squares(),
        |p: Position| trunc_div(control_diff(b, opp, p, part), 2),
        |p: Position| trunc_div(control_diff(b, player, p, part), 2),
    );
}

fn control_value_of(pt: PieceType) -> (r: (i32, i32))
    ensures
        (r.0 as int, r.1 as int) == control_value(pt),
        0 <= r.0 <= 35,
        0 <= r.1 <= 28,
{
    match pt {
        PieceType::Pawn => (15, 8),
        PieceType::Knight => (25, 15),
        PieceType::Silver => (22, 18),
        PieceType::Gold => (20, 16),
        PieceType::Bishop => (30, 20),
        PieceType::Rook => (28, 22),
        PieceType::PromotedPawn => (25, 20),
        PieceType::PromotedBishop => (35, 28),
        PieceType::PromotedRook => (32, 26),
        _ => (0, 0),
    }
}

fn must_promote_exec(pt: PieceType, side: Player, row: u8) -> (r: bool)
    ensures
        r == must_promote(pt, side, row as int),
{
    match pt {
        PieceType::Pawn | PieceType::Lance => match side {
            Player::Black => row == 0,
            Player::White => row == 8,
        },
        PieceType::Knight => match side {
            Player::Black => row <= 1,
            Player::White => row >= 7,
        },
        _ => false,
    }
}

/// Strongest control weight of `side` over `target`.
fn control_at(board: &Board, side: Player, target: Position) -> (r: (i32, i32))
    requires
        target.valid(),
    ensures
        r.0 == control_upto(*board, side, target, 81, 0),
        r.1 == control_upto(*board, side, target, 81, 1),
        0 <= r.0 <= 35,
        0 <= r.1 <= 28,
{
    let own_on_target = match board.get_piece(target) {
        Some(t) => t.player == side,
        None => false,
    };
    let mut mg: i32 = 0;
    let mut eg: i32 = 0;
    let mut i: usize = 0;
    while i < 81
        invariant
            i <= 81,
            target.valid(),
            own_on_target == (piece_at(*board, target.row as int, target.col as int) matches Some(t) && t.player == side),
            mg == control_upto(*board, side, target, i as int, 0),
            eg == control_upto(*board, side, target, i as int, 1),
            0 <= mg <= 35,
            0 <= eg <= 28,
        decreases 81 - i,
    {
        match board.squares[i] {
            Some(piece) => {
                if piece.player == side && !own_on_target && !must_promote_exec(piece.piece_type, side, target.row)
                    && attacks_square(board, Position::from_index(i), piece.piece_type, side, target) {
                    let v = control_value_of(piece.piece_type);
                    if v.0 > mg {
                        mg = v.0;
                    }
                    if v.1 > eg {
                        eg = v.1;
                    }
                }
            },
            None => {},
        }
        i += 1;
    }
    (mg, eg)
}

fn diff_at(board: &Board, player: Player, target: Position) -> (r: (i32, i32))
    requires
        target.valid(),
    ensures
        r.0 == control_diff(*board, player, target, 0),
        r.1 == control_diff(*board, player, target, 1),
        -35 <= r.0 <= 35,
        -28 <= r.1 <= 28,
{
    let a = control_at(board, player, target);
    let b = control_at(board, player.opposite(), target);
    (a.0 - b.0, a.1 - b.1)
}

fn trunc_div_i32(a: i32, b: i32) -> (r: i32)
    requires
        b > 0,
        -1_000_000 <= a <= 1_000_000,
    ensures
        r == trunc_div(a as int, b as int),
        -1_000_000 <= r <= 1_000_000,
{
    crate::types::div_trunc(a as i64, b as i64) as i32
}

fn core_array() -> (r: [Position; 9])
    ensures
        r@ == core_squares(),
{
    let r = [
        Position::new(3, 3), Position::new(3, 4), Position::new(3, 5), Position::new(4, 3), Position::new(4, 4),
        Position::new(4, 5), Position::new(5, 3), Position::new(5, 4), Position::new(5, 5),
    ];
    assert(r@ =~= core_squares());
    r
}

fn ring_array() -> (r: [Position; 16])
    ensures
        r@ == ring_squares(),
{
    let r = [
        Position::new(2, 2), Position::new(2, 3), Position::new(2, 4), Position::new(2, 5), Position::new(2, 6),
        Position::new(3, 2), Position::new(3, 6), Position::new(4, 2), Position::new(4, 6), Position::new(5, 2),
        Position::new(5, 6), Position::new(6, 2), Position::new(6, 3), Position::new(6, 4), Position::new(6, 5),
        Position::new(6, 6),
    ];
    assert(r@ =~= ring_squares());
    r
}

fn edge_array() -> (r: [Position; 10])
    ensures
        r@ == edge_squares(),
{
    let r = [
        Position::new(2, 0), Position::new(3, 0), Position::new(4, 0), Position::new(5, 0), Position::new(6, 0),
        Position::new(2, 8), Position::new(3, 8), Position::new(4, 8), Position::new(5, 8), Position::new(6, 8),
    ];
    assert(r@ =~= edge_squares());
    r
}

fn anchor_array(player: Player) -> (r: [Position; 6])
    ensures
        r@ == anchor_squares(player),
{
    match player {
        Player::Black => {
            let r = [
                Position::new(7, 1), Position::new(7, 7), Position::new(6, 2), Position::new(6, 6), Position::new(8, 2),
                Position::new(8, 6),
            ];
            assert(r@ =~= anchor_squares(player));
            r
        },
        Player::White => {
            let r = [
                Position::new(1, 7), Position::new(1, 1), Position::new(2, 6), Position::new(2, 2), Position::new(0, 6),
                Position::new(0, 2),
            ];
            assert(r@ =~= anchor_squares(player));
            r
        },
    }
}

fn anchor_occupant_bonus(piece: Piece, player: Player) -> (r: (i32, i32))
    ensures
        (r.0 as int, r.1 as int) == anchor_occupant(piece, player),
        -18 <= r.0 <= 18,
        -10 <= r.1 <= 10,
{
    let m: (i32, i32) = if is_gold_equivalent(piece.piece_type) {
        (18, 10)
    } else {
        match piece.piece_type {
            PieceType::Silver => (14, 8),
            PieceType::King => (12, 6),
            PieceType::Knight => (10, 6),
            _ => (6, 4),
        }
    };
    if piece.player == player {
        m
    } else {
        (-m.0, -m.1)
    }
}

/// Weighted sum of the control differences over a list of squares: the
/// difference times `num` divided (toward zero) by `den`.
fn weighted_control(board: &Board, player: Player, squares: &[Position], num: i32, den: i32, Ghost(part_fn): Ghost<spec_fn(Position) -> int>, Ghost(part_fe): Ghost<spec_fn(Position) -> int>) -> (r: (i32, i32))
    requires
        squares@.len() <= 16,
        forall|k: int| 0 <= k < squares@.len() ==> (#[trigger] squares@[k]).valid(),
        1 <= num <= 2,
        1 <= den <= 3,
        part_fn == (|s: Position| trunc_div(control_diff(*board, player, s, 0) * num, den as int)),
        part_fe == (|s: Position| trunc_div(control_diff(*board, player, s, 1) * num, den as int)),
    ensures
        r.0 == sum_over(squares@, part_fn),
        r.1 == sum_over(squares@, part_fe),
        -1200 <= r.0 <= 1200,
        -1200 <= r.1 <= 1200,
{
    let mut mg: i32 = 0;
    let mut eg: i32 = 0;
    let mut k: usize = 0;
    while k < squares.len()
        invariant
            k <= squares@.len(),
            squares@.len() <= 16,
            forall|k: int| 0 <= k < squares@.len() ==> (#[trigger] squares@[k]).valid(),
            1 <= num <= 2,
            1 <= den <= 3,
            part_fn == (|s: Position| trunc_div(control_diff(*board, player, s, 0) * num, den as int)),
            part_fe == (|s: Position| trunc_div(control_diff(*board, player, s, 1) * num, den as int)),
            mg == sum_over(squares@.take(k as int), part_fn),
            eg == sum_over(squares@.take(k as int), part_fe),
            -70 * k <= mg <= 70 * k,
            -70 * k <= eg <= 70 * k,
        decreases squares@.len() - k,
    {
        proof {
            crate::board::lemma_sum_take(squares@, part_fn, k as int);
            crate::board::lemma_sum_take(squares@, part_fe, k as int);
        }
        let d = diff_at(board, player, squares[k]);
        let a = trunc_div_i32(d.0 * num, den);
        let b = trunc_div_i32(d.1 * num, den);
        proof {
            if d.0 * num >= 0 {
                assert((d.0 * num) as int / (den as int) <= d.0 * num) by (nonlinear_arith)
                    requires d.0 * num >= 0, den >= 1;
            } else {
                assert((-(d.0 * num)) as int / (den as int) <= -(d.0 * num)) by (nonlinear_arith)
                    requires d.0 * num < 0, den >= 1;
            }
            if d.1 * num >= 0 {
                assert((d.1 * num) as int / (den as int) <= d.1 * num) by (nonlinear_arith)
                    requires d.1 * num >= 0, den >= 1;
            } else {
                assert((-(d.1 * num)) as int / (den as int) <= -(d.1 * num)) by (nonlinear_arith)
                    requires d.1 * num < 0, den >= 1;
            }
        }
        mg += a;
        eg += b;
        k += 1;
    }
    proof {
        crate::board::lemma_take_all(squares@);
    }
    (mg, eg)
}

/// Value of `side`'s castle anchors for `side`.
fn anchor_value(board: &Board, side: Player) -> (r: (i32, i32))
    ensures
        r.0 == anchor_total(*board, side, 0),
        r.1 == anchor_total(*board, side, 1),
        -240 <= r.0 <= 240,
        -240 <= r.1 <= 240,
{
    let anchors = anchor_array(side);
    let mut amg: i32 = 0;
    let mut aeg: i32 = 0;
    let mut k: usize = 0;
    while k < 6
        invariant
            k <= 6,
            anchors@ == anchor_squares(side),
            amg == sum_over(anchor_squares(side).take(k as int), |s: Position| anchor_term(*board, side, s, 0)),
            aeg == sum_over(anchor_squares(side).take(k as int), |s: Position| anchor_term(*board, side, s, 1)),
            -40 * k <= amg <= 40 * k,
            -40 * k <= aeg <= 40 * k,
        decreases 6 - k,
    {
        proof {
            crate::board::lemma_sum_take(anchor_squares(side), |s: Position| anchor_term(*board, side, s, 0), k as int);
            crate::board::lemma_sum_take(anchor_squares(side), |s: Position| anchor_term(*board, side, s, 1), k as int);
        }
        let s = anchors[k];
        let d = diff_at(board, side, s);
        let mut tm = trunc_div_i32(d.0, 2);
        let mut te = trunc_div_i32(d.1, 2);
        proof {
            assert(-18 <= tm <= 18);
            assert(-14 <= te <= 14);
        }
        match board.get_piece(s) {
            Some(piece) => {
                let bonus = anchor_occupant_bonus(piece, side);
                tm += bonus.0;
                te += bonus.1;
            },
            None => {},
        }
        amg += tm;
        aeg += te;
        k += 1;
    }
    proof {
        crate::board::lemma_take_all(anchor_squares(side));
    }
    (amg, aeg)
}

impl PositionFeatureEvaluator {
    /// Centre control of `player` against the opponent (zero when skipped
    /// or disabled); the evaluation is counted.
    pub fn evaluate_center_control(&mut self, board: &Board, player: Player, skip_center_control: bool) -> (r: TaperedScore)
        ensures
            (skip_center_control || !old(self).config_view().enable_center_control) ==> r.mg == 0 && r.eg == 0
                && *final(self) == *old(self),
            !(skip_center_control || !old(self).config_view().enable_center_control) ==> {
                &&& r.mg as int == center_control_total(*board, player, 0)
                &&& r.eg as int == center_control_total(*board, player, 1)
                &&& final(self).stats_view() == (PositionFeatureStats {
                    center_control_evals: old(self).stats_view().center_control_evals.wrapping_add(1),
                    ..old(self).stats_view()
                })
                &&& final(self).same_cache(old(self))
                &&& final(self).config_view() == old(self).config_view()
            },
            old(self).wf() ==> final(self).wf(),
    {
        if skip_center_control {
            return TaperedScore::default();
        }
        if !self.config.enable_center_control {
            return TaperedScore::default();
        }
        self.stats.center_control_evals = self.stats.center_control_evals.wrapping_add(1);
        let core = core_array();
        let ring = ring_array();
        let edges = edge_array();
        let c = weighted_control(
            board,
            player,
            &core,
            1,
            1,
            Ghost(|s: Position| trunc_div(control_diff(*board, player, s, 0) * 1, 1)),
            Ghost(|s: Position| trunc_div(control_diff(*board, player, s, 1) * 1, 1)),
        );
        let r = weighted_control(
            board,
            player,
            &ring,
            2,
            3,
            Ghost(|s: Position| trunc_div(control_diff(*board, player, s, 0) * 2, 3)),
            Ghost(|s: Position| trunc_div(control_diff(*board, player, s, 1) * 2, 3)),
        );
        let e = weighted_control(
            board,
            player,
            &edges,
            1,
            2,
            Ghost(|s: Position| trunc_div(control_diff(*board, player, s, 0) * 1, 2)),
            Ghost(|s: Position| trunc_div(control_diff(*board, player, s, 1) * 1, 2)),
        );
        let mine = anchor_value(board, player);
        let theirs = anchor_value(board, player.opposite());
        proof {
            assert forall|s: Position| #[trigger] trunc_div(control_diff(*board, player, s, 0) * 1, 1) == control_diff(*board, player, s, 0) by {
                let x = control_diff(*board, player, s, 0);
                if x >= 0 { assert(x * 1 / 1 == x); } else { assert((-(x * 1)) / 1 == -x); }
            }
            assert forall|s: Position| #[trigger] trunc_div(control_diff(*board, player, s, 1) * 1, 1) == control_diff(*board, player, s, 1) by {
                let x = control_diff(*board, player, s, 1);
                if x >= 0 { assert(x * 1 / 1 == x); } else { assert((-(x * 1)) / 1 == -x); }
            }
            assert((|s: Position| trunc_div(control_diff(*board, player, s, 0) * 1, 1)) =~= (|s: Position| control_diff(*board, player, s, 0)));
            assert((|s: Position| trunc_div(control_diff(*board, player, s, 1) * 1, 1)) =~= (|s: Position| control_diff(*board, player, s, 1)));
            assert((|s: Position| trunc_div(control_diff(*board, player, s, 0) * 1, 2)) =~= (|s: Position| trunc_div(control_diff(*board, player, s, 0), 2)));
            assert((|s: Position| trunc_div(control_diff(*board, player, s, 1) * 1, 2)) =~= (|s: Position| trunc_div(control_diff(*board, player, s, 1), 2)));
        }
        TaperedScore::new_tapered(c.0 + r.0 + e.0 + mine.0 - theirs.0, c.1 + r.1 + e.1 + mine.1 - theirs.1)
    }
}

} // verus!

verus! {

// ---------------------------------------------------------------------------
// Development
// ---------------------------------------------------------------------------

/// Development value of a piece by its row from its owner's side: major and
/// minor pieces gain with each rank advanced and lose on the back rank;
/// promoted pieces lose when they retreat into their own camp.
pub open spec fn development_value(pt: PieceType, pos: Position, player: Player) -> (int, int) {
    let r = oriented_row(pos, player);
    let adv = 8 - r;
    if pt == PieceType::Rook {
        if adv == 0 { (-24, -6) } else { (adv * 10, adv * 4) }
    } else if pt == PieceType::Bishop {
        if adv == 0 { (-20, -6) } else { (adv * 9, adv * 4) }
    } else if pt == PieceType::Gold {
        if adv == 0 { (-18, -6) } else { (adv * 6, adv * 3) }
    } else if pt == PieceType::Silver {
        if adv == 0 { (-20, -8) } else { (if adv * 7 < 24 { adv * 7 } else { 24 }, adv * 3) }
    } else if pt == PieceType::Knight {
        if r >= 7 {
            (-24, -8)
        } else {
            let bonus = ((if adv > 2 { adv } else { 2 }) - 1) * 12;
            (bonus, bonus / 3)
        }
    } else if pt == PieceType::Lance {
        if adv == 0 { (-12, -4) } else { (adv * 5, adv * 2) }
    } else if pt == PieceType::PromotedPawn || pt == PieceType::PromotedLance || pt == PieceType::PromotedKnight
        || pt == PieceType::PromotedSilver {
        if r >= 6 { (-(r - 5) * 8, -(r - 5) * 4) } else { (12, 6) }
    } else if pt == PieceType::PromotedBishop || pt == PieceType::PromotedRook {
        if r >= 6 { (-(r - 5) * 10, -(r - 5) * 6) } else { (adv * 6, adv * 4) }
    } else {
        (0, 0)
    }
}

/// Development of the piece on square `i`, if it is `player`'s and has
/// left its starting square; a piece still on its starting square counts
/// nothing.
pub open spec fn development_term(b: Board, player: Player, i: int, part: int) -> int {
    match b.squares@[i] {
        Some(pc) => if pc.player == player && !at_home(pc, i) {
            if part == 0 {
                development_value(pc.piece_type, Position::at_index(i), player).0
            } else {
                development_value(pc.piece_type, Position::at_index(i), player).1
            }
        } else {
            0
        },
        None => 0,
    }
}

/// Development of all of `player`'s pieces.
pub open spec fn development_total(b: Board, player: Player, part: int) -> int {
    square_sum(|i: int| development_term(b, player, i, part), 81)
}

/// In the initial position nothing is developed: both sides score zero in
/// both phases.
pub proof fn law_initial_position_undeveloped(b: Board, player: Player, part: int)
    requires
        forall|i: int| 0 <= i < 81 ==> #[trigger] b.squares@[i] == initial_square(i),
    ensures
        development_total(b, player, part) == 0,
{
    let f = |i: int| development_term(b, player, i, part);
    assert forall|i: int| 0 <= i < 81 implies #[trigger] f(i) == 0 by {
        assert(b.squares@[i] == initial_square(i));
    }
    lemma_square_sum_zero(f, 81);
}

fn development_contribution(pt: PieceType, pos: Position, player: Player) -> (r: (i32, i32))
    requires
        pos.valid(),
    ensures
        (r.0 as int, r.1 as int) == development_value(pt, pos, player),
        -30 <= r.0 <= 84,
        -18 <= r.1 <= 32,
{
    let r: i32 = match player {
        Player::Black => pos.row as i32,
        Player::White => 8 - pos.row as i32,
    };
    let adv = 8 - r;
    match pt {
        PieceType::Rook => if adv == 0 { (-24, -6) } else { (adv * 10, adv * 4) },
        PieceType::Bishop => if adv == 0 { (-20, -6) } else { (adv * 9, adv * 4) },
        PieceType::Gold => if adv == 0 { (-18, -6) } else { (adv * 6, adv * 3) },
        PieceType::Silver => if adv == 0 { (-20, -8) } else { (if adv * 7 < 24 { adv * 7 } else { 24 }, adv * 3) },
        PieceType::Knight => {
            if r >= 7 {
                (-24, -8)
            } else {
                let bonus = ((if adv > 2 { adv } else { 2 }) - 1) * 12;
                (bonus, bonus / 3)
            }
        },
        PieceType::Lance => if adv == 0 { (-12, -4) } else { (adv * 5, adv * 2) },
        PieceType::PromotedPawn | PieceType::PromotedLance | PieceType::PromotedKnight | PieceType::PromotedSilver => {
            if r >= 6 { (-(r - 5) * 8, -(r - 5) * 4) } else { (12, 6) }
        },
        PieceType::PromotedBishop | PieceType::PromotedRook => {
            if r >= 6 { (-(r - 5) * 10, -(r - 5) * 6) } else { (adv * 6, adv * 4) }
        },
        _ => (0, 0),
    }
}

impl PositionFeatureEvaluator {
    /// Development of `player`'s pieces (zero when skipped or disabled);
    /// the evaluation is counted.
    pub fn evaluate_development(&mut self, board: &Board, player: Player, skip_development: bool) -> (r: TaperedScore)
        ensures
            (skip_development || !old(self).config_view().enable_development) ==> r.mg == 0 && r.eg == 0
                && *final(self) == *old(self),
            !(skip_development || !old(self).config_view().enable_development) ==> {
                &&& r.mg as int == development_total(*board, player, 0)
                &&& r.eg as int == development_total(*board, player, 1)
                &&& final(self).stats_view() == (PositionFeatureStats {
                    development_evals: old(self).stats_view().development_evals.wrapping_add(1),
                    ..old(self).stats_view()
                })
                &&& final(self).same_cache(old(self))
                &&& final(self).config_view() == old(self).config_view()
            },
            old(self).wf() ==> final(self).wf(),
    {
        if skip_development {
            return TaperedScore::default();
        }
        if !self.config.enable_development {
            return TaperedScore::default();
        }
        self.stats.development_evals = self.stats.development_evals.wrapping_add(1);
        let ghost fm = |i: int| development_term(*board, player, i, 0);
        let ghost fe = |i: int| development_term(*board, player, i, 1);
        let mut mg: i32 = 0;
        let mut eg: i32 = 0;
        let mut i: usize = 0;
        while i < 81
            invariant
                i <= 81,
                fm == (|i: int| development_term(*board, player, i, 0)),
                fe == (|i: int| development_term(*board, player, i, 1)),
                mg == square_sum(fm, i as int),
                eg == square_sum(fe, i as int),
                -30 * i <= mg <= 84 * i,
                -18 * i <= eg <= 32 * i,
            decreases 81 - i,
        {
            match board.squares[i] {
                Some(piece) => {
                    if piece.player == player && !is_home_square(piece, i) {
                        let c = development_contribution(piece.piece_type, Position::from_index(i), player);
                        mg += c.0;
                        eg += c.1;
                    }
                },
                None => {},
            }
            i += 1;
        }
        TaperedScore::new_tapered(mg, eg)
    }
}

} // verus!

verus! {

// ---------------------------------------------------------------------------
// Mobility weights
// ---------------------------------------------------------------------------

pub open spec fn mobility_weight(pt: PieceType) -> (int, int) {
    match pt {
        PieceType::Rook => (5, 7),
        PieceType::PromotedRook => (6, 8),
        PieceType::Bishop => (4, 6),
        PieceType::PromotedBishop => (5, 7),
        PieceType::Gold => (2, 3),
        PieceType::Silver => (2, 3),
        PieceType::Knight => (3, 3),
        PieceType::Lance => (2, 2),
        PieceType::PromotedPawn => (3, 4),
        PieceType::PromotedLance => (3, 4),
        PieceType::PromotedKnight => (3, 4),
        PieceType::PromotedSilver => (3, 4),
        PieceType::Pawn => (1, 1),
        PieceType::King => (1, 2),
    }
}

pub open spec fn restriction_penalty(pt: PieceType) -> (int, int) {
    match pt {
        PieceType::Rook | PieceType::PromotedRook => (18, 24),
        PieceType::Bishop | PieceType::PromotedBishop => (16, 22),
        PieceType::Gold | PieceType::Silver => (6, 8),
        PieceType::Knight | PieceType::Lance => (7, 9),
        PieceType::PromotedPawn | PieceType::PromotedLance | PieceType::PromotedKnight | PieceType::PromotedSilver => (6, 8),
        PieceType::Pawn => (3, 4),
        PieceType::King => (4, 6),
    }
}

pub open spec fn central_mobility_bonus(pt: PieceType) -> (int, int) {
    match pt {
        PieceType::Rook | PieceType::PromotedRook => (4, 3),
        PieceType::Bishop | PieceType::PromotedBishop => (3, 3),
        PieceType::Knight => (4, 2),
        PieceType::Gold | PieceType::Silver => (2, 2),
        PieceType::Lance => (1, 1),
        PieceType::PromotedPawn | PieceType::PromotedLance | PieceType::PromotedKnight | PieceType::PromotedSilver => (3, 2),
        PieceType::Pawn => (1, 1),
        PieceType::King => (1, 1),
    }
}

impl PositionFeatureEvaluator {
    /// Mobility weight per move of a piece kind.
    pub fn get_mobility_weight(&self, piece_type: PieceType) -> (r: (i32, i32))
        ensures
            (r.0 as int, r.1 as int) == mobility_weight(piece_type),
    {
        match piece_type {
            PieceType::Rook => (5, 7),
            PieceType::PromotedRook => (6, 8),
            PieceType::Bishop => (4, 6),
            PieceType::PromotedBishop => (5, 7),
            PieceType::Gold => (2, 3),
            PieceType::Silver => (2, 3),
            PieceType::Knight => (3, 3),
            PieceType::Lance => (2, 2),
            PieceType::PromotedPawn => (3, 4),
            PieceType::PromotedLance => (3, 4),
            PieceType::PromotedKnight => (3, 4),
            PieceType::PromotedSilver => (3, 4),
            PieceType::Pawn => (1, 1),
            PieceType::King => (1, 2),
        }
    }

    /// Penalty for a piece of the kind with at most two moves.
    pub fn get_restriction_penalty(&self, piece_type: PieceType) -> (r: (i32, i32))
        ensures
            (r.0 as int, r.1 as int) == restriction_penalty(piece_type),
    {
        match piece_type {
            PieceType::Rook | PieceType::PromotedRook => (18, 24),
            PieceType::Bishop | PieceType::PromotedBishop => (16, 22),
            PieceType::Gold | PieceType::Silver => (6, 8),
            PieceType::Knight | PieceType::Lance => (7, 9),
            PieceType::PromotedPawn | PieceType::PromotedLance | PieceType::PromotedKnight
            | PieceType::PromotedSilver => (6, 8),
            PieceType::Pawn => (3, 4),
            PieceType::King => (4, 6),
        }
    }

    /// Bonus per move of the kind into the centre.
    pub fn get_central_mobility_bonus(&self, piece_type: PieceType) -> (r: (i32, i32))
        ensures
            (r.0 as int, r.1 as int) == central_mobility_bonus(piece_type),
    {
        match piece_type {
            PieceType::Rook | PieceType::PromotedRook => (4, 3),
            PieceType::Bishop | PieceType::PromotedBishop => (3, 3),
            PieceType::Knight => (4, 2),
            PieceType::Gold | PieceType::Silver => (2, 2),
            PieceType::Lance => (1, 1),
            PieceType::PromotedPawn | PieceType::PromotedLance | PieceType::PromotedKnight
            | PieceType::PromotedSilver => (3, 2),
            PieceType::Pawn => (1, 1),
            PieceType::King => (1, 1),
        }
    }

    /// The square is in the 3x3 centre.
    pub fn is_central_square(&self, pos: Position) -> (r: bool)
        ensures
            r == (3 <= pos.row <= 5 && 3 <= pos.col <= 5),
    {
        pos.row >= 3 && pos.row <= 5 && pos.col >= 3 && pos.col <= 5
    }
}

/// Bound on move counts, far above what a position allows.
pub const MOVE_COUNT_LIMIT: i32 = 1_000_000;

/// Moves of one piece: all of them, those into the centre, those that
/// capture.
#[derive(Debug, Clone, Copy, PartialEq, Eq, Structural, Default)]
pub struct PieceMobilityStats {
    pub total_moves: i32,
    pub central_moves: i32,
    pub attack_moves: i32,
}

/// Drops of one piece kind: all of them and those into the centre.
#[derive(Debug, Clone, Copy, PartialEq, Eq, Structural, Default)]
pub struct DropMobilityStats {
    pub total_moves: i32,
    pub central_moves: i32,
}

/// Mobility score of a piece with the given move counts: weight per move, a
/// penalty when it has at most two, bonuses for central and capturing moves.
pub open spec fn piece_mobility(pt: PieceType, s: PieceMobilityStats) -> (int, int) {
    let w = mobility_weight(pt);
    let pen: (int, int) = if s.total_moves <= 2 { restriction_penalty(pt) } else { (0, 0) };
    let c = central_mobility_bonus(pt);
    let cen: (int, int) = if s.central_moves > 0 { (s.central_moves * c.0, s.central_moves * c.1) } else { (0, 0) };
    let att: (int, int) = if s.attack_moves > 0 { (s.attack_moves * 4, s.attack_moves * 3) } else { (0, 0) };
    (s.total_moves * w.0 - pen.0 + cen.0 + att.0, s.total_moves * w.1 - pen.1 + cen.1 + att.1)
}

pub open spec fn half_up_at_least_one(x: int) -> int {
    if (x + 1) / 2 >= 1 { (x + 1) / 2 } else { 1 }
}

/// Weight per drop: half the move weight, rounded up, at least one.
pub open spec fn drop_mobility_weight(pt: PieceType) -> (int, int) {
    (half_up_at_least_one(mobility_weight(pt).0), half_up_at_least_one(mobility_weight(pt).1))
}

/// Bonus per central drop: half the central move bonus, rounded up.
pub open spec fn drop_central_bonus(pt: PieceType) -> (int, int) {
    let b = central_mobility_bonus(pt);
    (if b.0 == 0 { 0 } else { (b.0 + 1) / 2 }, if b.1 == 0 { 0 } else { (b.1 + 1) / 2 })
}

/// Mobility score of the drops of a piece kind.
pub open spec fn drop_mobility(pt: PieceType, s: DropMobilityStats) -> (int, int) {
    if s.total_moves == 0 {
        (0, 0)
    } else {
        let w = drop_mobility_weight(pt);
        let c = drop_central_bonus(pt);
        let cen: (int, int) = if s.central_moves > 0 { (s.central_moves * c.0, s.central_moves * c.1) } else { (0, 0) };
        (s.total_moves * w.0 + cen.0, s.total_moves * w.1 + cen.1)
    }
}

impl PositionFeatureEvaluator {
    /// Mobility score of a piece of the kind with the given move counts.
    pub fn evaluate_piece_mobility_from_stats(&self, piece_type: PieceType, stats: &PieceMobilityStats) -> (r: TaperedScore)
        requires
            0 <= stats.total_moves <= MOVE_COUNT_LIMIT,
            0 <= stats.central_moves <= MOVE_COUNT_LIMIT,
            0 <= stats.attack_moves <= MOVE_COUNT_LIMIT,
        ensures
            r.mg == piece_mobility(piece_type, *stats).0,
            r.eg == piece_mobility(piece_type, *stats).1,
    {
        let w = self.get_mobility_weight(piece_type);
        let n = stats.total_moves;
        assert(0 <= n * w.0 <= 8_000_000 && 0 <= n * w.1 <= 8_000_000) by (nonlinear_arith)
            requires
                0 <= n <= 1_000_000,
                1 <= w.0 <= 8,
                1 <= w.1 <= 8,
        ;
        let mut mg = n * w.0;
        let mut eg = n * w.1;
        if n <= 2 {
            let pen = self.get_restriction_penalty(piece_type);
            mg -= pen.0;
            eg -= pen.1;
        }
        if stats.central_moves > 0 {
            let c = self.get_central_mobility_bonus(piece_type);
            let k = stats.central_moves;
            assert(0 <= k * c.0 <= 4_000_000 && 0 <= k * c.1 <= 4_000_000) by (nonlinear_arith)
                requires
                    0 <= k <= 1_000_000,
                    1 <= c.0 <= 4,
                    1 <= c.1 <= 4,
            ;
            mg += k * c.0;
            eg += k * c.1;
        }
        if stats.attack_moves > 0 {
            mg += stats.attack_moves * 4;
            eg += stats.attack_moves * 3;
        }
        TaperedScore::new_tapered(mg, eg)
    }

    /// Weight per drop of a piece kind.
    pub fn get_drop_mobility_weight(&self, piece_type: PieceType) -> (r: (i32, i32))
        ensures
            (r.0 as int, r.1 as int) == drop_mobility_weight(piece_type),
    {
        let base = self.get_mobility_weight(piece_type);
        let mg = (base.0 + 1) / 2;
        let eg = (base.1 + 1) / 2;
        (if mg >= 1 { mg } else { 1 }, if eg >= 1 { eg } else { 1 })
    }

    /// Bonus per central drop of a piece kind.
    pub fn get_drop_central_bonus(&self, piece_type: PieceType) -> (r: (i32, i32))
        ensures
            (r.0 as int, r.1 as int) == drop_central_bonus(piece_type),
    {
        let base = self.get_central_mobility_bonus(piece_type);
        let mg = if base.0 == 0 { 0 } else { (base.0 + 1) / 2 };
        let eg = if base.1 == 0 { 0 } else { (base.1 + 1) / 2 };
        (mg, eg)
    }

    /// Mobility score of the drops of a piece kind.
    pub fn evaluate_drop_mobility(&self, piece_type: PieceType, stats: &DropMobilityStats) -> (r: TaperedScore)
        requires
            0 <= stats.total_moves <= MOVE_COUNT_LIMIT,
            0 <= stats.central_moves <= MOVE_COUNT_LIMIT,
        ensures
            r.mg == drop_mobility(piece_type, *stats).0,
            r.eg == drop_mobility(piece_type, *stats).1,
    {
        if stats.total_moves == 0 {
            return TaperedScore::new_tapered(0, 0);
        }
        let w = self.get_drop_mobility_weight(piece_type);
        let n = stats.total_moves;
        assert(0 <= n * w.0 <= 4_000_000 && 0 <= n * w.1 <= 4_000_000) by (nonlinear_arith)
            requires
                0 <= n <= 1_000_000,
                1 <= w.0 <= 4,
                1 <= w.1 <= 4,
        ;
        let mut mg = n * w.0;
        let mut eg = n * w.1;
        if stats.central_moves > 0 {
            let c = self.get_drop_central_bonus(piece_type);
            let k = stats.central_moves;
            assert(0 <= k * c.0 <= 2_000_000 && 0 <= k * c.1 <= 2_000_000) by (nonlinear_arith)
                requires
                    0 <= k <= 1_000_000,
                    0 <= c.0 <= 2,
                    0 <= c.1 <= 2,
            ;
            mg += k * c.0;
            eg += k * c.1;
        }
        TaperedScore::new_tapered(mg, eg)
    }
}

// ---------------------------------------------------------------------------
// Mobility
// ---------------------------------------------------------------------------

pub open spec fn central_index(t: int) -> bool {
    let p = Position::at_index(t);
    3 <= p.row <= 5 && 3 <= p.col <= 5
}

pub open spec fn enemy_at(b: Board, t: int, player: Player) -> bool {
    match b.squares@[t] {
        Some(pc) => pc.player != player,
        None => false,
    }
}

/// Square `t` is a move target of `pc` standing on `from`.
pub open spec fn move_target(b: Board, pc: Piece, from: Position, t: int) -> bool {
    controls(b, pc.piece_type, pc.player, from, Position::at_index(t))
}

/// Move counts of `pc` on `from`: the squares it controls, those of them in
/// the centre, and those holding an enemy piece.
pub open spec fn move_stats(b: Board, pc: Piece, from: Position) -> PieceMobilityStats {
    PieceMobilityStats {
        total_moves: square_sum(|t: int| if move_target(b, pc, from, t) { 1int } else { 0int }, 81) as i32,
        central_moves: square_sum(|t: int| if move_target(b, pc, from, t) && central_index(t) { 1int } else { 0int }, 81) as i32,
        attack_moves: square_sum(|t: int| if move_target(b, pc, from, t) && enemy_at(b, t, pc.player) { 1int } else { 0int }, 81) as i32,
    }
}

/// Mobility of `pc` on `from`: its move-count score, each phase floored at
/// zero, so a restricted piece costs nothing beyond having no mobility.
pub open spec fn piece_mobility_score(b: Board, pc: Piece, from: Position) -> (int, int) {
    let m = piece_mobility(pc.piece_type, move_stats(b, pc, from));
    (floor_zero(m.0), floor_zero(m.1))
}

/// Drop counts of a `pt` held by `player`: the legal drop squares and those
/// in the centre.
pub open spec fn drop_stats(b: Board, pt: PieceType, player: Player) -> DropMobilityStats {
    DropMobilityStats {
        total_moves: square_sum(|t: int| if drop_legal(b, pt, player, Position::at_index(t)) { 1int } else { 0int }, 81) as i32,
        central_moves: square_sum(
            |t: int| if drop_legal(b, pt, player, Position::at_index(t)) && central_index(t) { 1int } else { 0int },
            81,
        ) as i32,
    }
}

pub open spec fn board_mobility_term(b: Board, player: Player, i: int, part: int) -> int {
    match b.squares@[i] {
        Some(pc) => if pc.player == player {
            let v = piece_mobility_score(b, pc, Position::at_index(i));
            if part == 0 { v.0 } else { v.1 }
        } else {
            0
        },
        None => 0,
    }
}

pub open spec fn drop_mobility_term(b: Board, player: Player, cp: CapturedPieces, k: int, part: int) -> int {
    let pt = PieceType::from_idx(k);
    if cp.hand(pt, player) > 0 {
        let v = drop_mobility(pt, drop_stats(b, pt, player));
        if part == 0 { v.0 } else { v.1 }
    } else {
        0
    }
}

/// Mobility of `player`: the mobility of each of its pieces on the board
/// plus that of the drops of each kind it holds in hand.
pub open spec fn mobility_total(b: Board, player: Player, cp: CapturedPieces, part: int) -> int {
    square_sum(|i: int| board_mobility_term(b, player, i, part), 81) + square_sum(
        |k: int| drop_mobility_term(b, player, cp, k, part),
        14,
    )
}

fn move_counts(board: &Board, piece: Piece, from: Position) -> (r: PieceMobilityStats)
    requires
        from.valid(),
    ensures
        r == move_stats(*board, piece, from),
        0 <= r.total_moves <= 81,
        0 <= r.central_moves <= 81,
        0 <= r.attack_moves <= 81,
{
    let ghost ft = |t: int| if move_target(*board, piece, from, t) { 1int } else { 0int };
    let ghost fc = |t: int| if move_target(*board, piece, from, t) && central_index(t) { 1int } else { 0int };
    let ghost fa = |t: int| if move_target(*board, piece, from, t) && enemy_at(*board, t, piece.player) { 1int } else { 0int };
    let mut total: i32 = 0;
    let mut central: i32 = 0;
    let mut attack: i32 = 0;
    let mut t: usize = 0;
    while t < 81
        invariant
            t <= 81,
            from.valid(),
            ft == (|t: int| if move_target(*board, piece, from, t) { 1int } else { 0int }),
            fc == (|t: int| if move_target(*board, piece, from, t) && central_index(t) { 1int } else { 0int }),
            fa == (|t: int| if move_target(*board, piece, from, t) && enemy_at(*board, t, piece.player) { 1int } else { 0int }),
            total == square_sum(ft, t as int),
            central == square_sum(fc, t as int),
            attack == square_sum(fa, t as int),
            0 <= total <= t,
            0 <= central <= t,
            0 <= attack <= t,
        decreases 81 - t,
    {
        let target = Position::from_index(t);
        if piece_controls_square(board, &piece, from, target) {
            total += 1;
            if target.row >= 3 && target.row <= 5 && target.col >= 3 && target.col <= 5 {
                central += 1;
            }
            match board.squares[t] {
                Some(pc) => {
                    if pc.player != piece.player {
                        attack += 1;
                    }
                },
                None => {},
            }
        }
        t += 1;
    }
    PieceMobilityStats { total_moves: total, central_moves: central, attack_moves: attack }
}

fn drop_counts(board: &Board, pt: PieceType, player: Player) -> (r: DropMobilityStats)
    ensures
        r == drop_stats(*board, pt, player),
        0 <= r.total_moves <= 81,
        0 <= r.central_moves <= 81,
{
    let ghost ft = |t: int| if drop_legal(*board, pt, player, Position::at_index(t)) { 1int } else { 0int };
    let ghost fc = |t: int| if drop_legal(*board, pt, player, Position::at_index(t)) && central_index(t) { 1int } else { 0int };
    let mut total: i32 = 0;
    let mut central: i32 = 0;
    let mut t: usize = 0;
    while t < 81
        invariant
            t <= 81,
            ft == (|t: int| if drop_legal(*board, pt, player, Position::at_index(t)) { 1int } else { 0int }),
            fc == (|t: int| if drop_legal(*board, pt, player, Position::at_index(t)) && central_index(t) { 1int } else { 0int }),
            total == square_sum(ft, t as int),
            central == square_sum(fc, t as int),
            0 <= total <= t,
            0 <= central <= t,
        decreases 81 - t,
    {
        let target = Position::from_index(t);
        if drop_is_legal(board, pt, player, target) {
            total += 1;
            if target.row >= 3 && target.row <= 5 && target.col >= 3 && target.col <= 5 {
                central += 1;
            }
        }
        t += 1;
    }
    DropMobilityStats { total_moves: total, central_moves: central }
}

impl PositionFeatureEvaluator {
    /// Mobility of a piece of `piece_type` owned by `player` standing on
    /// `pos`: its move counts scored by kind, each phase floored at zero.
    pub fn evaluate_piece_mobility(
        &self,
        board: &Board,
        pos: Position,
        piece_type: PieceType,
        player: Player,
        _captured_pieces: &CapturedPieces,
    ) -> (r: TaperedScore)
        requires
            pos.valid(),
        ensures
            r.mg == piece_mobility_score(*board, Piece { piece_type, player }, pos).0,
            r.eg == piece_mobility_score(*board, Piece { piece_type, player }, pos).1,
            0 <= r.mg <= 1300,
            0 <= r.eg <= 1300,
    {
        let piece = Piece::new(piece_type, player);
        let stats = move_counts(board, piece, pos);
        let m = self.evaluate_piece_mobility_from_stats(piece_type, &stats);
        proof {
            let w = mobility_weight(piece_type);
            let c = central_mobility_bonus(piece_type);
            assert(stats.total_moves * w.0 <= 81 * 8 && stats.total_moves * w.1 <= 81 * 8) by (nonlinear_arith)
                requires
                    0 <= stats.total_moves <= 81,
                    1 <= w.0 <= 8,
                    1 <= w.1 <= 8,
            ;
            assert(stats.central_moves * c.0 <= 81 * 4 && stats.central_moves * c.1 <= 81 * 4) by (nonlinear_arith)
                requires
                    0 <= stats.central_moves <= 81,
                    1 <= c.0 <= 4,
                    1 <= c.1 <= 4,
            ;
        }
        TaperedScore::new_tapered(if m.mg > 0 { m.mg } else { 0 }, if m.eg > 0 { m.eg } else { 0 })
    }

    /// Mobility of `player`'s pieces on the board and of its drops (zero
    /// when disabled); the evaluation is counted.
    pub fn evaluate_mobility(&mut self, board: &Board, player: Player, captured_pieces: &CapturedPieces) -> (r: TaperedScore)
        ensures
            !old(self).config_view().enable_mobility ==> r.mg == 0 && r.eg == 0 && *final(self) == *old(self),
            old(self).config_view().enable_mobility ==> {
                &&& r.mg as int == mobility_total(*board, player, *captured_pieces, 0)
                &&& r.eg as int == mobility_total(*board, player, *captured_pieces, 1)
                &&& r.mg >= 0 && r.eg >= 0
                &&& final(self).stats_view() == (PositionFeatureStats {
                    mobility_evals: old(self).stats_view().mobility_evals.wrapping_add(1),
                    ..old(self).stats_view()
                })
                &&& final(self).same_cache(old(self))
                &&& final(self).config_view() == old(self).config_view()
            },
            old(self).wf() ==> final(self).wf(),
    {
        if !self.config.enable_mobility {
            return TaperedScore::default();
        }
        self.stats.mobility_evals = self.stats.mobility_evals.wrapping_add(1);
        let ghost fm = |i: int| board_mobility_term(*board, player, i, 0);
        let ghost fe = |i: int| board_mobility_term(*board, player, i, 1);
        let mut mg: i32 = 0;
        let mut eg: i32 = 0;
        let mut i: usize = 0;
        while i < 81
            invariant
                i <= 81,
                fm == (|i: int| board_mobility_term(*board, player, i, 0)),
                fe == (|i: int| board_mobility_term(*board, player, i, 1)),
                mg == square_sum(fm, i as int),
                eg == square_sum(fe, i as int),
                0 <= mg <= 1300 * i,
                0 <= eg <= 1300 * i,
            decreases 81 - i,
        {
            match board.squares[i] {
                Some(piece) => {
                    if piece.player == player {
                        let from = Position::from_index(i);
                        let v = self.evaluate_piece_mobility(board, from, piece.piece_type, player, captured_pieces);
                        mg += v.mg;
                        eg += v.eg;
                    }
                },
                None => {},
            }
            i += 1;
        }
        let ghost dm = |k: int| drop_mobility_term(*board, player, *captured_pieces, k, 0);
        let ghost de = |k: int| drop_mobility_term(*board, player, *captured_pieces, k, 1);
        let mut dmg: i32 = 0;
        let mut deg: i32 = 0;
        let mut k: usize = 0;
        while k < 14
            invariant
                k <= 14,
                dm == (|k: int| drop_mobility_term(*board, player, *captured_pieces, k, 0)),
                de == (|k: int| drop_mobility_term(*board, player, *captured_pieces, k, 1)),
                dmg == square_sum(dm, k as int),
                deg == square_sum(de, k as int),
                0 <= dmg <= 500 * k,
                0 <= deg <= 500 * k,
            decreases 14 - k,
        {
            let pt = PieceType::from_index(k);
            if captured_pieces.count(pt, player) > 0 {
                let stats = drop_counts(board, pt, player);
                let v = self.evaluate_drop_mobility(pt, &stats);
                proof {
                    let w = drop_mobility_weight(pt);
                    let c = drop_central_bonus(pt);
                    assert(stats.total_moves * w.0 <= 81 * 4 && stats.total_moves * w.1 <= 81 * 4) by (nonlinear_arith)
                        requires
                            0 <= stats.total_moves <= 81,
                            1 <= w.0 <= 4,
                            1 <= w.1 <= 4,
                    ;
                    assert(stats.central_moves * c.0 <= 81 * 2 && stats.central_moves * c.1 <= 81 * 2) by (nonlinear_arith)
                        requires
                            0 <= stats.central_moves <= 81,
                            0 <= c.0 <= 2,
                            0 <= c.1 <= 2,
                    ;
                    assert(0 <= stats.total_moves * w.0 && 0 <= stats.total_moves * w.1) by (nonlinear_arith)
                        requires
                            0 <= stats.total_moves,
                            1 <= w.0,
                            1 <= w.1,
                    ;
                    assert(0 <= stats.central_moves * c.0 && 0 <= stats.central_moves * c.1) by (nonlinear_arith)
                        requires
                            0 <= stats.central_moves,
                            0 <= c.0,
                            0 <= c.1,
                    ;
                }
                dmg += v.mg;
                deg += v.eg;
            }
            k += 1;
        }
        TaperedScore::new_tapered(mg + dmg, eg + deg)
    }
}

/// Every kind has positive mobility weights, worth at least as much in the
/// endgame, and a promoted rook weighs at least as much as a rook.
pub proof fn law_mobility_weights(pt: PieceType)
    ensures
        mobility_weight(pt).0 > 0,
        mobility_weight(pt).1 >= mobility_weight(pt).0,
        mobility_weight(PieceType::PromotedRook).0 >= mobility_weight(PieceType::Rook).0,
        mobility_weight(PieceType::PromotedRook).1 >= mobility_weight(PieceType::Rook).1,
{
}

} // verus!
