//! The integer core of positional pattern analysis: centre control,
//! outposts, weak squares around the king, piece activity, space and
//! tempo, each as an unweighted tapered score.
//!
//! Piece control here differs from plain attack generation in one way: a
//! piece does not control a square held by a piece of its own side.

use vstd::prelude::*;
use crate::attacks::{forward, forward_step, ray_hits, ray_reaches, step_attack, step_covers};
use crate::attacks::attacked_by;
use crate::board::{Board, king_square, lemma_sum_take, lemma_take_all, piece_at, square_sum, sum_over};
use crate::material::HAND_LIMIT;
use crate::positional_patterns::ControlCache;
use crate::types::{CapturedPieces, Piece, PieceType, Player, Position, TaperedScore, div_trunc, trunc_div};

verus! {

/// Bound on the integer settings, so that no sum over the board overflows.
/// The default settings are below 100; a sum over the 81 squares and the
/// hand stays inside `i32` for every setting under this bound.
pub const RULE_LIMIT: i32 = 100_000;

/// The integer settings of the positional analysis.
#[derive(Debug, Clone, Copy, PartialEq, Eq, Structural)]
pub struct PositionalRules {
    pub enable_center_control: bool,
    pub enable_outposts: bool,
    pub enable_weak_squares: bool,
    pub enable_piece_activity: bool,
    pub enable_space_advantage: bool,
    pub enable_tempo: bool,
    pub enable_hand_context: bool,
    pub enable_drop_threats: bool,
    pub pawn_center_bonus: i32,
    pub weak_square_penalty: i32,
    pub space_advantage_bonus: i32,
    pub tempo_bonus: i32,
}

impl PositionalRules {
    /// Every integer setting lies within `RULE_LIMIT` of zero.
    pub open spec fn wf(self) -> bool {
        &&& -RULE_LIMIT <= self.pawn_center_bonus <= RULE_LIMIT
        &&& -RULE_LIMIT <= self.weak_square_penalty <= RULE_LIMIT
        &&& -RULE_LIMIT <= self.space_advantage_bonus <= RULE_LIMIT
        &&& -RULE_LIMIT <= self.tempo_bonus <= RULE_LIMIT
    }

    pub open spec fn default_spec() -> PositionalRules {
        PositionalRules {
            enable_center_control: true,
            enable_outposts: true,
            enable_weak_squares: true,
            enable_piece_activity: true,
            enable_space_advantage: true,
            enable_tempo: true,
            enable_hand_context: true,
            enable_drop_threats: true,
            pawn_center_bonus: 25,
            weak_square_penalty: 40,
            space_advantage_bonus: 2,
            tempo_bonus: 15,
        }
    }
}

impl Default for PositionalRules {
    fn default() -> (r: Self)
        ensures
            r == PositionalRules::default_spec(),
    {
        PositionalRules {
            enable_center_control: true,
            enable_outposts: true,
            enable_weak_squares: true,
            enable_piece_activity: true,
            enable_space_advantage: true,
            enable_tempo: true,
            enable_hand_context: true,
            enable_drop_threats: true,
            pawn_center_bonus: 25,
            weak_square_penalty: 40,
            space_advantage_bonus: 2,
            tempo_bonus: 15,
        }
    }
}

// -------------------------------------------------------------------------
// Board geometry
// -------------------------------------------------------------------------

/// Rows `player` has advanced from its own back rank to reach `pos`.
pub open spec fn forward_steps(pos: Position, player: Player) -> int {
    match player {
        Player::Black => 8 - pos.row,
        Player::White => pos.row as int,
    }
}

/// Rows between `pos` and `player`'s own back rank.
pub open spec fn home_steps(pos: Position, player: Player) -> int {
    match player {
        Player::Black => pos.row as int,
        Player::White => 8 - pos.row,
    }
}

fn forward_steps_of(pos: Position, player: Player) -> (r: u8)
    requires
        pos.valid(),
    ensures
        r == forward_steps(pos, player),
        r < 9,
{
    match player {
        Player::Black => 8 - pos.row,
        Player::White => pos.row,
    }
}

fn home_steps_of(pos: Position, player: Player) -> (r: u8)
    requires
        pos.valid(),
    ensures
        r == home_steps(pos, player),
        r < 9,
{
    match player {
        Player::Black => pos.row,
        Player::White => 8 - pos.row,
    }
}

/// Bonus for reaching a square `steps` rows forward.
pub open spec fn center_forward_bonus(steps: int) -> int {
    if steps <= 0 {
        0
    } else if steps <= 6 {
        2 + 2 * steps
    } else {
        14
    }
}

fn center_forward_bonus_of(steps: u8) -> (r: i32)
    requires
        steps < 9,
    ensures
        r == center_forward_bonus(steps as int),
        0 <= r <= 14,
{
    let table: [i32; 9] = [0, 4, 6, 8, 10, 12, 14, 14, 14];
    table[steps as usize]
}

/// A square of `player`'s own is occupied by one of its pieces.
pub open spec fn own_at(b: Board, pos: Position, player: Player) -> bool {
    match piece_at(b, pos.row as int, pos.col as int) {
        Some(pc) => pc.player == player,
        None => false,
    }
}

fn own_piece_on(board: &Board, pos: Position, player: Player) -> (r: bool)
    requires
        pos.valid(),
    ensures
        r == own_at(*board, pos, player),
{
    match board.get_piece(pos) {
        Some(pc) => pc.player == player,
        None => false,
    }
}

/// The rank on which a piece of `pt` could never move again, so it may not
/// be dropped there.
pub open spec fn illegal_drop_rank(pt: PieceType, player: Player, row: int) -> bool {
    if pt == PieceType::Pawn || pt == PieceType::Lance {
        match player {
            Player::Black => row == 0,
            Player::White => row == 8,
        }
    } else if pt == PieceType::Knight {
        match player {
            Player::Black => row <= 1,
            Player::White => row >= 7,
        }
    } else {
        false
    }
}

fn is_illegal_drop_rank(pt: PieceType, player: Player, row: u8) -> (r: bool)
    ensures
        r == illegal_drop_rank(pt, player, row as int),
{
    match pt {
        PieceType::Pawn | PieceType::Lance => match player {
            Player::Black => row == 0,
            Player::White => row == 8,
        },
        PieceType::Knight => match player {
            Player::Black => row <= 1,
            Player::White => row >= 7,
        },
        _ => false,
    }
}

/// `player` has an unpromoted pawn somewhere on column `file`.
pub open spec fn pawn_on_file(b: Board, player: Player, file: int) -> bool {
    exists|row: int| 0 <= row < 9 && #[trigger] pawn_of_at(b, player, row, file)
}

pub open spec fn pawn_of_at(b: Board, player: Player, row: int, file: int) -> bool {
    match piece_at(b, row, file) {
        Some(pc) => pc.player == player && pc.piece_type == PieceType::Pawn,
        None => false,
    }
}

fn has_pawn_on_file(board: &Board, player: Player, file: u8) -> (r: bool)
    requires
        file < 9,
    ensures
        r == pawn_on_file(*board, player, file as int),
{
    let mut row: u8 = 0;
    while row < 9
        invariant
            row <= 9,
            file < 9,
            forall|k: int| 0 <= k < row ==> !#[trigger] pawn_of_at(*board, player, k, file as int),
        decreases 9 - row,
    {
        match board.get_piece(Position::new(row, file)) {
            Some(pc) => {
                if pc.player == player && pc.piece_type == PieceType::Pawn {
                    assert(pawn_of_at(*board, player, row as int, file as int));
                    return true;
                }
            },
            None => {},
        }
        row += 1;
    }
    false
}

/// `player` may drop a `pt` on `pos`: the square is empty, the rank leaves
/// the piece a move, and a pawn does not join another on its file.
pub open spec fn drop_legal(b: Board, pt: PieceType, player: Player, pos: Position) -> bool {
    &&& piece_at(b, pos.row as int, pos.col as int).is_none()
    &&& !illegal_drop_rank(pt, player, pos.row as int)
    &&& !(pt == PieceType::Pawn && pawn_on_file(b, player, pos.col as int))
}

pub(crate) fn drop_is_legal(board: &Board, pt: PieceType, player: Player, pos: Position) -> (r: bool)
    requires
        pos.valid(),
    ensures
        r == drop_legal(*board, pt, player, pos),
{
    if board.is_square_occupied(pos) {
        return false;
    }
    if is_illegal_drop_rank(pt, player, pos.row) {
        return false;
    }
    if pt == PieceType::Pawn && has_pawn_on_file(board, player, pos.col) {
        return false;
    }
    true
}

// -------------------------------------------------------------------------
// Control of squares
// -------------------------------------------------------------------------

pub open spec fn sign(x: int) -> int {
    if x > 0 {
        1
    } else if x < 0 {
        -1
    } else {
        0
    }
}

pub open spec fn abs(x: int) -> int {
    if x < 0 { -x } else { x }
}

/// Walking from `from` by `(sr, sc)` reaches `target` over empty squares,
/// and `target` does not hold a piece of `player`.
pub open spec fn slide_clear(b: Board, from: Position, target: Position, sr: int, sc: int, player: Player) -> bool {
    ray_hits(b, from.row as int, from.col as int, sr, sc, target.row as int, target.col as int, 8)
        && !own_at(b, target, player)
}

/// A piece of kind `pt` of `player` on `from` controls `target`: it can
/// reach the square and the square does not hold one of its own pieces.
pub open spec fn controls(b: Board, pt: PieceType, player: Player, from: Position, target: Position) -> bool {
    let dr = target.row - from.row;
    let dc = target.col - from.col;
    if from == target {
        false
    } else if pt == PieceType::Lance {
        dc == 0 && dr != 0 && sign(dr) == forward(player) && slide_clear(b, from, target, forward(player), 0, player)
    } else if pt == PieceType::Bishop {
        abs(dr) == abs(dc) && dr != 0 && slide_clear(b, from, target, sign(dr), sign(dc), player)
    } else if pt == PieceType::Rook {
        (dr == 0 || dc == 0) && slide_clear(b, from, target, sign(dr), sign(dc), player)
    } else if pt == PieceType::PromotedBishop {
        if abs(dr) == abs(dc) && dr != 0 {
            slide_clear(b, from, target, sign(dr), sign(dc), player)
        } else {
            step_attack(pt, player, dr, dc) && !own_at(b, target, player)
        }
    } else if pt == PieceType::PromotedRook {
        if dr != 0 && dc != 0 {
            step_attack(pt, player, dr, dc) && !own_at(b, target, player)
        } else {
            slide_clear(b, from, target, sign(dr), sign(dc), player)
        }
    } else {
        step_attack(pt, player, dr, dc) && !own_at(b, target, player)
    }
}

fn sign_i8(x: i8) -> (r: i8)
    ensures
        r == sign(x as int),
{
    if x > 0 {
        1
    } else if x < 0 {
        -1
    } else {
        0
    }
}

fn abs_i8(x: i8) -> (r: i8)
    requires
        x > i8::MIN,
    ensures
        r == abs(x as int),
{
    if x < 0 { -x } else { x }
}

fn sliding_path_clear(board: &Board, from: Position, target: Position, sr: i8, sc: i8, player: Player) -> (r: bool)
    requires
        from.valid(),
        target.valid(),
        -1 <= sr <= 1,
        -1 <= sc <= 1,
    ensures
        r == slide_clear(*board, from, target, sr as int, sc as int, player),
{
    ray_reaches(board, from, sr, sc, target) && !own_piece_on(board, target, player)
}

/// Whether `piece` standing on `from` controls `target`.
pub fn piece_controls_square(board: &Board, piece: &Piece, from: Position, target: Position) -> (r: bool)
    requires
        from.valid(),
        target.valid(),
    ensures
        r == controls(*board, piece.piece_type, piece.player, from, target),
{
    if from == target {
        return false;
    }
    let dr: i8 = target.row as i8 - from.row as i8;
    let dc: i8 = target.col as i8 - from.col as i8;
    let player = piece.player;
    match piece.piece_type {
        PieceType::Lance => {
            let f = forward_step(player);
            if dc != 0 || dr == 0 || sign_i8(dr) != f {
                return false;
            }
            sliding_path_clear(board, from, target, f, 0, player)
        },
        PieceType::Bishop => {
            if abs_i8(dr) != abs_i8(dc) || dr == 0 {
                return false;
            }
            sliding_path_clear(board, from, target, sign_i8(dr), sign_i8(dc), player)
        },
        PieceType::Rook => {
            if dr != 0 && dc != 0 {
                return false;
            }
            sliding_path_clear(board, from, target, sign_i8(dr), sign_i8(dc), player)
        },
        PieceType::PromotedBishop => {
            if abs_i8(dr) == abs_i8(dc) && dr != 0 {
                return sliding_path_clear(board, from, target, sign_i8(dr), sign_i8(dc), player);
            }
            step_covers(piece.piece_type, player, dr, dc) && !own_piece_on(board, target, player)
        },
        PieceType::PromotedRook => {
            if dr != 0 && dc != 0 {
                return step_covers(piece.piece_type, player, dr, dc) && !own_piece_on(board, target, player);
            }
            sliding_path_clear(board, from, target, sign_i8(dr), sign_i8(dc), player)
        },
        _ => step_covers(piece.piece_type, player, dr, dc) && !own_piece_on(board, target, player),
    }
}

/// Square `i` holds a piece of `player`, other than on `target`, that
/// controls `target`.
pub open spec fn controller_at(b: Board, player: Player, target: Position, i: int) -> bool {
    match b.squares@[i] {
        Some(pc) => i != target.index() && pc.player == player
            && controls(b, pc.piece_type, player, Position::at_index(i), target),
        None => false,
    }
}

/// Number of pieces of `player` that control `target`.
pub open spec fn controller_count(b: Board, player: Player, target: Position) -> int {
    square_sum(|i: int| if controller_at(b, player, target, i) { 1int } else { 0int }, 81)
}

/// Number of pieces of `player` that control `target`.
pub fn count_controllers(board: &Board, player: Player, target: Position) -> (r: u32)
    requires
        target.valid(),
    ensures
        r == controller_count(*board, player, target),
        r <= 81,
{
    let ghost f = |i: int| if controller_at(*board, player, target, i) { 1int } else { 0int };
    let mut count: u32 = 0;
    let mut i: usize = 0;
    while i < 81
        invariant
            i <= 81,
            target.valid(),
            f == (|i: int| if controller_at(*board, player, target, i) { 1int } else { 0int }),
            count == square_sum(f, i as int),
            count <= i,
        decreases 81 - i,
    {
        let from = Position::from_index(i);
        match board.squares[i] {
            Some(pc) => {
                if from != target && pc.player == player && piece_controls_square(board, &pc, from, target) {
                    count += 1;
                }
            },
            None => {},
        }
        proof {
            assert(from.index() == i);
            assert(Position::at_index(i as int) == from);
        }
        i += 1;
    }
    count
}


// -------------------------------------------------------------------------
// Outposts
// -------------------------------------------------------------------------

/// The row directly behind `pos` from `player`'s point of view.
pub open spec fn behind_row(pos: Position, player: Player) -> int {
    pos.row - forward(player)
}

pub open spec fn promoted_minor(pt: PieceType) -> bool {
    pt == PieceType::PromotedPawn || pt == PieceType::PromotedLance || pt == PieceType::PromotedKnight
        || pt == PieceType::PromotedSilver
}

/// Weight of a friendly piece standing directly behind an outpost.
pub open spec fn support_weight(pt: PieceType) -> int {
    if pt == PieceType::Pawn || pt == PieceType::King {
        2
    } else if pt == PieceType::Silver || pt == PieceType::Gold || promoted_minor(pt) {
        3
    } else {
        1
    }
}

/// Kinds that support an outpost from a diagonal behind it.
pub open spec fn diagonal_supporter(pt: PieceType) -> bool {
    pt == PieceType::Silver || pt == PieceType::Gold || promoted_minor(pt) || pt == PieceType::King
}

pub open spec fn diagonal_support(b: Board, row: int, col: int, player: Player) -> int {
    match piece_at(b, row, col) {
        Some(pc) => if pc.player == player && diagonal_supporter(pc.piece_type) { 1 } else { 0 },
        None => 0,
    }
}

/// Structural support for a piece of `player` on `pos`: what stands
/// directly behind it (or a pawn that could be dropped there) and the
/// defenders on the two diagonals behind.
pub open spec fn support_score(b: Board, pos: Position, player: Player, cp: CapturedPieces, rules: PositionalRules) -> int {
    let br = behind_row(pos, player);
    if !(0 <= br < 9) {
        0
    } else {
        let direct = match piece_at(b, br, pos.col as int) {
            Some(pc) => if pc.player == player { support_weight(pc.piece_type) } else { 0 },
            None => if rules.enable_hand_context && cp.hand(PieceType::Pawn, player) > 0 && !pawn_on_file(
                b,
                player,
                pos.col as int,
            ) && !illegal_drop_rank(PieceType::Pawn, player, br) {
                1
            } else {
                0
            },
        };
        direct + diagonal_support(b, br, pos.col - 1, player) + diagonal_support(b, br, pos.col + 1, player)
    }
}

fn support_weight_of(pt: PieceType) -> (r: i32)
    ensures
        r == support_weight(pt),
{
    match pt {
        PieceType::Pawn | PieceType::King => 2,
        PieceType::Silver | PieceType::Gold | PieceType::PromotedPawn | PieceType::PromotedLance
        | PieceType::PromotedKnight | PieceType::PromotedSilver => 3,
        _ => 1,
    }
}

fn diagonal_support_at(board: &Board, row: u8, col: i8, player: Player) -> (r: i32)
    requires
        row < 9,
    ensures
        r == diagonal_support(*board, row as int, col as int, player),
{
    if col < 0 || col >= 9 {
        return 0;
    }
    match board.get_piece(Position::new(row, col as u8)) {
        Some(pc) => {
            if pc.player == player {
                match pc.piece_type {
                    PieceType::Silver | PieceType::Gold | PieceType::PromotedPawn | PieceType::PromotedLance
                    | PieceType::PromotedKnight | PieceType::PromotedSilver | PieceType::King => 1,
                    _ => 0,
                }
            } else {
                0
            }
        },
        None => 0,
    }
}

fn behind_row_of(pos: Position, player: Player) -> (r: i8)
    requires
        pos.valid(),
    ensures
        r == behind_row(pos, player),
{
    match player {
        Player::Black => pos.row as i8 + 1,
        Player::White => pos.row as i8 - 1,
    }
}

/// Structural support for a piece of `player` on `pos`.
pub fn outpost_support_score(
    rules: &PositionalRules,
    board: &Board,
    pos: Position,
    player: Player,
    captured_pieces: &CapturedPieces,
) -> (r: i32)
    requires
        pos.valid(),
    ensures
        r == support_score(*board, pos, player, *captured_pieces, *rules),
        0 <= r <= 5,
{
    let br = behind_row_of(pos, player);
    if br < 0 || br >= 9 {
        return 0;
    }
    let row = br as u8;
    let mut score: i32 = 0;
    match board.get_piece(Position::new(row, pos.col)) {
        Some(pc) => {
            if pc.player == player {
                score += support_weight_of(pc.piece_type);
            }
        },
        None => {
            if rules.enable_hand_context && captured_pieces.count(PieceType::Pawn, player) > 0
                && !has_pawn_on_file(board, player, pos.col) && !is_illegal_drop_rank(PieceType::Pawn, player, row) {
                score += 1;
            }
        },
    }
    score += diagonal_support_at(board, row, pos.col as i8 - 1, player);
    score += diagonal_support_at(board, row, pos.col as i8 + 1, player);
    score
}

/// The squares behind `pos` (straight, then the two diagonals) where a
/// guard could be dropped.
pub open spec fn guard_squares(pos: Position, player: Player) -> Seq<Position> {
    let br = behind_row(pos, player);
    if !(0 <= br < 9) {
        Seq::empty()
    } else {
        let base = seq![Position { row: br as u8, col: pos.col }];
        let with_left = if pos.col >= 1 {
            base.push(Position { row: br as u8, col: (pos.col - 1) as u8 })
        } else {
            base
        };
        if pos.col + 1 < 9 {
            with_left.push(Position { row: br as u8, col: (pos.col + 1) as u8 })
        } else {
            with_left
        }
    }
}

fn guard_squares_for_player(pos: Position, player: Player) -> (r: Vec<Position>)
    requires
        pos.valid(),
    ensures
        r@ == guard_squares(pos, player),
        forall|k: int| 0 <= k < r@.len() ==> (#[trigger] r@[k]).valid(),
{
    let mut squares: Vec<Position> = Vec::new();
    let br = behind_row_of(pos, player);
    if br < 0 || br >= 9 {
        return squares;
    }
    let row = br as u8;
    squares.push(Position::new(row, pos.col));
    if pos.col >= 1 {
        squares.push(Position::new(row, pos.col - 1));
    }
    if pos.col + 1 < 9 {
        squares.push(Position::new(row, pos.col + 1));
    }
    squares
}

/// Some square of `s` takes a legal drop of `pt` by `player`.
pub open spec fn some_drop_legal(b: Board, pt: PieceType, player: Player, s: Seq<Position>) -> bool {
    exists|k: int| 0 <= k < s.len() && #[trigger] drop_legal(b, pt, player, s[k])
}

pub open spec fn guard_term(b: Board, pos: Position, player: Player, cp: CapturedPieces, pt: PieceType, value: int) -> int {
    if cp.hand(pt, player) > 0 && some_drop_legal(b, pt, player, guard_squares(pos, player)) {
        value
    } else {
        0
    }
}

/// Extra support from guards `player` holds in hand and could drop behind
/// `pos`: a gold counts two, a silver or a pawn one.
pub open spec fn drop_guard(b: Board, pos: Position, player: Player, cp: CapturedPieces, rules: PositionalRules) -> int {
    if !rules.enable_drop_threats {
        0
    } else {
        guard_term(b, pos, player, cp, PieceType::Gold, 2) + guard_term(b, pos, player, cp, PieceType::Silver, 1)
            + guard_term(b, pos, player, cp, PieceType::Pawn, 1)
    }
}

fn guard_drop_available(board: &Board, pt: PieceType, player: Player, squares: &Vec<Position>) -> (r: bool)
    requires
        forall|k: int| 0 <= k < squares@.len() ==> (#[trigger] squares@[k]).valid(),
    ensures
        r == some_drop_legal(*board, pt, player, squares@),
{
    let mut k: usize = 0;
    while k < squares.len()
        invariant
            k <= squares@.len(),
            forall|j: int| 0 <= j < squares@.len() ==> (#[trigger] squares@[j]).valid(),
            forall|j: int| 0 <= j < k ==> !#[trigger] drop_legal(*board, pt, player, squares@[j]),
        decreases squares@.len() - k,
    {
        if drop_is_legal(board, pt, player, squares[k]) {
            return true;
        }
        k += 1;
    }
    false
}

/// Support `player` could add behind `pos` by dropping guards from hand.
pub fn drop_guard_score(
    rules: &PositionalRules,
    board: &Board,
    pos: Position,
    player: Player,
    captured_pieces: &CapturedPieces,
) -> (r: i32)
    requires
        pos.valid(),
    ensures
        r == drop_guard(*board, pos, player, *captured_pieces, *rules),
        0 <= r <= 4,
{
    if !rules.enable_drop_threats {
        return 0;
    }
    let squares = guard_squares_for_player(pos, player);
    let mut score: i32 = 0;
    if captured_pieces.count(PieceType::Gold, player) > 0 && guard_drop_available(board, PieceType::Gold, player, &squares) {
        score += 2;
    }
    if captured_pieces.count(PieceType::Silver, player) > 0 && guard_drop_available(board, PieceType::Silver, player, &squares) {
        score += 1;
    }
    if captured_pieces.count(PieceType::Pawn, player) > 0 && guard_drop_available(board, PieceType::Pawn, player, &squares) {
        score += 1;
    }
    score
}

/// `opp` can drop a pawn directly in front of `pos` (from its side).
pub open spec fn pawn_threat(b: Board, pos: Position, opp: Player, cp: CapturedPieces) -> bool {
    let r = pos.row - forward(opp);
    &&& cp.hand(PieceType::Pawn, opp) > 0
    &&& 0 <= r < 9
    &&& piece_at(b, r, pos.col as int).is_none()
    &&& !illegal_drop_rank(PieceType::Pawn, opp, r)
    &&& !pawn_on_file(b, opp, pos.col as int)
}

/// `opp` can drop a lance on the empty square in front of `pos`.
pub open spec fn lance_threat(b: Board, pos: Position, opp: Player, cp: CapturedPieces) -> bool {
    let r = pos.row - forward(opp);
    &&& cp.hand(PieceType::Lance, opp) > 0
    &&& 0 <= r < 9
    &&& piece_at(b, r, pos.col as int).is_none()
}

pub open spec fn knight_spot(b: Board, row: int, col: int, opp: Player) -> bool {
    0 <= col < 9 && piece_at(b, row, col).is_none() && !illegal_drop_rank(PieceType::Knight, opp, row)
}

/// `opp` can drop a knight that attacks `pos`.
pub open spec fn knight_threat(b: Board, pos: Position, opp: Player, cp: CapturedPieces) -> bool {
    let r = pos.row - 2 * forward(opp);
    &&& cp.hand(PieceType::Knight, opp) > 0
    &&& 0 <= r < 9
    &&& (knight_spot(b, r, pos.col - 1, opp) || knight_spot(b, r, pos.col + 1, opp))
}

/// The opponent of `player` can drop a pawn, lance or knight that hits
/// `pos`.
pub open spec fn drop_threat(b: Board, pos: Position, player: Player, cp: CapturedPieces, rules: PositionalRules) -> bool {
    let opp = player.other();
    &&& rules.enable_drop_threats
    &&& rules.enable_hand_context
    &&& (pawn_threat(b, pos, opp, cp) || lance_threat(b, pos, opp, cp) || knight_threat(b, pos, opp, cp))
}

fn pawn_drop_threat(board: &Board, pos: Position, opp: Player, captured_pieces: &CapturedPieces) -> (r: bool)
    requires
        pos.valid(),
    ensures
        r == pawn_threat(*board, pos, opp, *captured_pieces),
{
    if captured_pieces.count(PieceType::Pawn, opp) == 0 {
        return false;
    }
    let row: i8 = pos.row as i8 - forward_step(opp);
    if row < 0 || row >= 9 {
        return false;
    }
    if board.get_piece(Position::new(row as u8, pos.col)).is_some() {
        return false;
    }
    !is_illegal_drop_rank(PieceType::Pawn, opp, row as u8) && !has_pawn_on_file(board, opp, pos.col)
}

fn lance_drop_threat(board: &Board, pos: Position, opp: Player, captured_pieces: &CapturedPieces) -> (r: bool)
    requires
        pos.valid(),
    ensures
        r == lance_threat(*board, pos, opp, *captured_pieces),
{
    if captured_pieces.count(PieceType::Lance, opp) == 0 {
        return false;
    }
    // The first square behind `pos` is never the lance's dead rank, and a
    // lance dropped farther back would be blocked by whatever stands there.
    let row: i8 = pos.row as i8 - forward_step(opp);
    if row < 0 || row >= 9 {
        return false;
    }
    board.get_piece(Position::new(row as u8, pos.col)).is_none()
}

fn knight_spot_free(board: &Board, row: u8, col: i8, opp: Player) -> (r: bool)
    requires
        row < 9,
    ensures
        r == knight_spot(*board, row as int, col as int, opp),
{
    if col < 0 || col >= 9 {
        return false;
    }
    board.get_piece(Position::new(row, col as u8)).is_none() && !is_illegal_drop_rank(PieceType::Knight, opp, row)
}

fn knight_drop_threat(board: &Board, pos: Position, opp: Player, captured_pieces: &CapturedPieces) -> (r: bool)
    requires
        pos.valid(),
    ensures
        r == knight_threat(*board, pos, opp, *captured_pieces),
{
    if captured_pieces.count(PieceType::Knight, opp) == 0 {
        return false;
    }
    let row: i8 = pos.row as i8 - 2 * forward_step(opp);
    if row < 0 || row >= 9 {
        return false;
    }
    knight_spot_free(board, row as u8, pos.col as i8 - 1, opp) || knight_spot_free(board, row as u8, pos.col as i8 + 1, opp)
}

/// Whether the opponent of `player` can drop a pawn, lance or knight that
/// hits `pos`.
pub fn has_drop_threat(
    rules: &PositionalRules,
    board: &Board,
    pos: Position,
    player: Player,
    captured_pieces: &CapturedPieces,
) -> (r: bool)
    requires
        pos.valid(),
    ensures
        r == drop_threat(*board, pos, player, *captured_pieces, *rules),
{
    if !rules.enable_drop_threats || !rules.enable_hand_context {
        return false;
    }
    let opp = player.opposite();
    pawn_drop_threat(board, pos, opp, captured_pieces) || lance_drop_threat(board, pos, opp, captured_pieces)
        || knight_drop_threat(board, pos, opp, captured_pieces)
}

/// An enemy pawn stands in front of `pos`, or (with hand context and drop
/// threats on) could be dropped there.
pub open spec fn pawn_threat_on(b: Board, pos: Position, player: Player, cp: CapturedPieces, rules: PositionalRules) -> bool {
    let opp = player.other();
    let r = pos.row - forward(opp);
    0 <= r < 9 && match piece_at(b, r, pos.col as int) {
        Some(pc) => pc.player == opp && pc.piece_type == PieceType::Pawn,
        None => rules.enable_hand_context && rules.enable_drop_threats && cp.hand(PieceType::Pawn, opp) > 0
            && !pawn_on_file(b, opp, pos.col as int) && !illegal_drop_rank(PieceType::Pawn, opp, r),
    }
}

/// Whether an enemy pawn threatens `pos`, on the board or from hand.
pub fn is_under_enemy_pawn_threat(
    rules: &PositionalRules,
    board: &Board,
    pos: Position,
    player: Player,
    captured_pieces: &CapturedPieces,
) -> (r: bool)
    requires
        pos.valid(),
    ensures
        r == pawn_threat_on(*board, pos, player, *captured_pieces, *rules),
{
    let opp = player.opposite();
    let row: i8 = pos.row as i8 - forward_step(opp);
    if row < 0 || row >= 9 {
        return false;
    }
    match board.get_piece(Position::new(row as u8, pos.col)) {
        Some(pc) => pc.player == opp && pc.piece_type == PieceType::Pawn,
        None => rules.enable_hand_context && rules.enable_drop_threats && captured_pieces.count(PieceType::Pawn, opp)
            > 0 && !has_pawn_on_file(board, opp, pos.col) && !is_illegal_drop_rank(PieceType::Pawn, opp, row as u8),
    }
}


/// Squares two to six rows forward make outposts.
pub open spec fn outpost_zone(pos: Position, player: Player) -> bool {
    2 <= forward_steps(pos, player) <= 6
}

/// Every piece but pawns, lances and kings can hold an outpost.
pub open spec fn outpost_piece(pt: PieceType) -> bool {
    !(pt == PieceType::Pawn || pt == PieceType::Lance || pt == PieceType::King)
}

/// How firmly a piece holds an outpost, and how deep it stands.
#[derive(Debug, Clone, Copy, PartialEq, Eq, Structural)]
pub struct OutpostContext {
    pub support_margin: i32,
    pub depth: u8,
}

/// The outpost held by `pc` on `pos`, as (support margin, depth), if it is
/// one: in the zone, of an outpost kind, structurally supported, safe from
/// pawns and drops, controlled by its side, and with more support
/// (controllers, structure, droppable guards) than enemy controllers.
pub open spec fn outpost_of(b: Board, pos: Position, pc: Piece, cp: CapturedPieces, rules: PositionalRules) -> Option<(int, int)> {
    let player = pc.player;
    let support = support_score(b, pos, player, cp, rules);
    if !outpost_zone(pos, player) || !outpost_piece(pc.piece_type) || support == 0 || pawn_threat_on(
        b,
        pos,
        player,
        cp,
        rules,
    ) || drop_threat(b, pos, player, cp, rules) || !attacked_by(b, pos, player) {
        None
    } else {
        let total = controller_count(b, player, pos) + support + if rules.enable_hand_context {
            drop_guard(b, pos, player, cp, rules)
        } else {
            0
        };
        let enemy = controller_count(b, player.other(), pos);
        if total <= enemy {
            None
        } else {
            Some((total - enemy, forward_steps(pos, player)))
        }
    }
}

/// Whether `piece` on `pos` holds an outpost, and how firmly.
pub fn outpost_context(
    rules: &PositionalRules,
    board: &Board,
    cache: &mut ControlCache,
    pos: Position,
    piece: &Piece,
    captured_pieces: &CapturedPieces,
) -> (r: Option<OutpostContext>)
    requires
        pos.valid(),
        old(cache).wf(),
        old(cache).board_view() == *board,
    ensures
        final(cache).wf(),
        final(cache).board_view() == *board,
        match outpost_of(*board, pos, *piece, *captured_pieces, *rules) {
            Some(ctx) => r == Some(OutpostContext { support_margin: ctx.0 as i32, depth: ctx.1 as u8 }),
            None => r.is_none(),
        },
        r.is_some() ==> 0 < r.unwrap().support_margin <= 90 && r.unwrap().depth < 9,
        outpost_of(*board, pos, *piece, *captured_pieces, *rules) matches Some(ctx) ==> 0 < ctx.0 <= 90 && 0
            <= ctx.1 < 9,
{
    let player = piece.player;
    let opp = player.opposite();
    let depth = forward_steps_of(pos, player);
    if depth < 2 || depth > 6 {
        return None;
    }
    match piece.piece_type {
        PieceType::Pawn | PieceType::Lance | PieceType::King => {
            return None;
        },
        _ => {},
    }
    let support = outpost_support_score(rules, board, pos, player, captured_pieces);
    if support == 0 {
        return None;
    }
    if is_under_enemy_pawn_threat(rules, board, pos, player, captured_pieces) {
        return None;
    }
    if has_drop_threat(rules, board, pos, player, captured_pieces) {
        return None;
    }
    if !cache.controlled_by(player, pos) {
        return None;
    }
    let friendly = count_controllers(board, player, pos) as i32;
    let enemy = count_controllers(board, opp, pos) as i32;
    let mut total = friendly + support;
    if rules.enable_hand_context {
        total += drop_guard_score(rules, board, pos, player, captured_pieces);
    }
    if total <= enemy {
        return None;
    }
    Some(OutpostContext { support_margin: total - enemy, depth })
}

pub open spec fn outpost_base(pt: PieceType) -> (int, int) {
    if pt == PieceType::Knight || pt == PieceType::PromotedKnight {
        (60, 40)
    } else if pt == PieceType::Silver {
        (58, 46)
    } else if pt == PieceType::Gold || pt == PieceType::PromotedPawn || pt == PieceType::PromotedLance
        || pt == PieceType::PromotedSilver {
        (52, 44)
    } else if pt == PieceType::Bishop || pt == PieceType::PromotedBishop {
        (64, 58)
    } else if pt == PieceType::Rook || pt == PieceType::PromotedRook {
        (70, 64)
    } else {
        (38, 32)
    }
}

pub open spec fn major(pt: PieceType) -> bool {
    pt == PieceType::Bishop || pt == PieceType::PromotedBishop || pt == PieceType::Rook
        || pt == PieceType::PromotedRook
}

/// Value of an outpost held by `pc` on `pos` with the given support margin
/// and depth: a base by kind, plus depth and margin bonuses, more depth for
/// the major pieces, a little for promoted minors, and an endgame discount
/// next to the own back rank.
pub open spec fn outpost_value(pc: Piece, pos: Position, margin: int, depth: int) -> (int, int) {
    let base = outpost_base(pc.piece_type);
    let major_bonus = if major(pc.piece_type) { depth * 4 } else { 0 };
    let small = pc.piece_type == PieceType::PromotedPawn || pc.piece_type == PieceType::PromotedLance
        || pc.piece_type == PieceType::PromotedKnight;
    (
        base.0 + depth * 6 + margin * 12 + major_bonus + if small { 6int } else { 0int },
        base.1 + depth * 4 + margin * 10 + major_bonus + (if small { 4int } else { 0int }) - (if home_steps(
            pos,
            pc.player,
        ) <= 1 {
            4int
        } else {
            0int
        }),
    )
}

/// Value of an outpost.
pub fn get_outpost_value(piece: &Piece, pos: Position, context: &OutpostContext) -> (r: TaperedScore)
    requires
        pos.valid(),
        0 <= context.support_margin <= 90,
        context.depth < 9,
    ensures
        r.mg == outpost_value(*piece, pos, context.support_margin as int, context.depth as int).0,
        r.eg == outpost_value(*piece, pos, context.support_margin as int, context.depth as int).1,
        0 <= r.mg <= 1300,
        0 <= r.eg <= 1300,
{
    let (mut mg, mut eg): (i32, i32) = match piece.piece_type {
        PieceType::Knight | PieceType::PromotedKnight => (60, 40),
        PieceType::Silver => (58, 46),
        PieceType::Gold | PieceType::PromotedPawn | PieceType::PromotedLance | PieceType::PromotedSilver => (52, 44),
        PieceType::Bishop | PieceType::PromotedBishop => (64, 58),
        PieceType::Rook | PieceType::PromotedRook => (70, 64),
        _ => (38, 32),
    };
    let depth = context.depth as i32;
    let margin = context.support_margin;
    mg += depth * 6;
    eg += depth * 4;
    mg += margin * 12;
    eg += margin * 10;
    match piece.piece_type {
        PieceType::Bishop | PieceType::PromotedBishop | PieceType::Rook | PieceType::PromotedRook => {
            mg += depth * 4;
            eg += depth * 4;
        },
        _ => {},
    }
    match piece.piece_type {
        PieceType::PromotedPawn | PieceType::PromotedLance | PieceType::PromotedKnight => {
            mg += 6;
            eg += 4;
        },
        _ => {},
    }
    if home_steps_of(pos, piece.player) <= 1 {
        eg -= 4;
    }
    TaperedScore { mg, eg }
}

/// A score found by a scan of the board, with how many squares or pieces
/// were examined and how many of them counted.
#[derive(Debug, Clone, Copy, PartialEq, Eq, Structural)]
pub struct PatternTally {
    pub score: TaperedScore,
    pub examined: u32,
    pub found: u32,
}

/// Outpost score of square `i` for `player` (component `part`: 0 middlegame,
/// 1 endgame).
pub open spec fn outpost_term(b: Board, player: Player, cp: CapturedPieces, rules: PositionalRules, i: int, part: int) -> int {
    match b.squares@[i] {
        Some(pc) => if pc.player == player {
            match outpost_of(b, Position::at_index(i), pc, cp, rules) {
                Some(ctx) => {
                    let v = outpost_value(pc, Position::at_index(i), ctx.0, ctx.1);
                    if part == 0 { v.0 } else { v.1 }
                },
                None => 0,
            }
        } else {
            0
        },
        None => 0,
    }
}

pub open spec fn own_piece_term(b: Board, player: Player, i: int) -> int {
    match b.squares@[i] {
        Some(pc) => if pc.player == player { 1 } else { 0 },
        None => 0,
    }
}

pub open spec fn outpost_found_term(b: Board, player: Player, cp: CapturedPieces, rules: PositionalRules, i: int) -> int {
    match b.squares@[i] {
        Some(pc) => if pc.player == player && outpost_of(b, Position::at_index(i), pc, cp, rules).is_some() {
            1
        } else {
            0
        },
        None => 0,
    }
}

/// Outposts of `player`: the summed value of every outpost it holds, the
/// number of its pieces examined and the number of outposts found.
pub fn evaluate_outposts(
    rules: &PositionalRules,
    board: &Board,
    player: Player,
    cache: &mut ControlCache,
    captured_pieces: &CapturedPieces,
) -> (r: PatternTally)
    requires
        old(cache).wf(),
        old(cache).board_view() == *board,
    ensures
        final(cache).wf(),
        final(cache).board_view() == *board,
        r.score.mg == square_sum(|i: int| outpost_term(*board, player, *captured_pieces, *rules, i, 0), 81),
        r.score.eg == square_sum(|i: int| outpost_term(*board, player, *captured_pieces, *rules, i, 1), 81),
        r.examined == square_sum(|i: int| own_piece_term(*board, player, i), 81),
        r.found == square_sum(|i: int| outpost_found_term(*board, player, *captured_pieces, *rules, i), 81),
        r.score.mg >= 0,
        r.score.eg >= 0,
{
    let ghost fm = |i: int| outpost_term(*board, player, *captured_pieces, *rules, i, 0);
    let ghost fe = |i: int| outpost_term(*board, player, *captured_pieces, *rules, i, 1);
    let ghost fx = |i: int| own_piece_term(*board, player, i);
    let ghost ff = |i: int| outpost_found_term(*board, player, *captured_pieces, *rules, i);
    let mut mg: i32 = 0;
    let mut eg: i32 = 0;
    let mut examined: u32 = 0;
    let mut found: u32 = 0;
    let mut i: usize = 0;
    while i < 81
        invariant
            i <= 81,
            cache.wf(),
            cache.board_view() == *board,
            fm == (|i: int| outpost_term(*board, player, *captured_pieces, *rules, i, 0)),
            fe == (|i: int| outpost_term(*board, player, *captured_pieces, *rules, i, 1)),
            fx == (|i: int| own_piece_term(*board, player, i)),
            ff == (|i: int| outpost_found_term(*board, player, *captured_pieces, *rules, i)),
            mg == square_sum(fm, i as int),
            eg == square_sum(fe, i as int),
            examined == square_sum(fx, i as int),
            found == square_sum(ff, i as int),
            0 <= mg <= 1300 * i,
            0 <= eg <= 1300 * i,
            examined <= i,
            found <= i,
        decreases 81 - i,
    {
        let pos = Position::from_index(i);
        proof {
            assert(Position::at_index(i as int) == pos);
        }
        match board.squares[i] {
            Some(pc) => {
                if pc.player == player {
                    examined += 1;
                    match outpost_context(rules, board, cache, pos, &pc, captured_pieces) {
                        Some(ctx) => {
                            let v = get_outpost_value(&pc, pos, &ctx);
                            mg += v.mg;
                            eg += v.eg;
                            found += 1;
                        },
                        None => {},
                    }
                }
            },
            None => {},
        }
        i += 1;
    }
    PatternTally { score: TaperedScore { mg, eg }, examined, found }
}


// -------------------------------------------------------------------------
// Weak squares around the king
// -------------------------------------------------------------------------

/// The square at offset number `j` (of 25, row-major over -2..=2) from `k`.
pub open spec fn zone_square(k: Position, j: int) -> Position {
    Position { row: (k.row + j / 5 - 2) as u8, col: (k.col + j % 5 - 2) as u8 }
}

/// Offset number `j` is not `k` itself and stays on the board.
pub open spec fn zone_keep(k: Position, j: int) -> bool {
    let dr = j / 5 - 2;
    let dc = j % 5 - 2;
    !(dr == 0 && dc == 0) && 0 <= k.row + dr < 9 && 0 <= k.col + dc < 9
}

/// The kept squares among the first `n` offsets around `k`.
pub open spec fn zone_upto(k: Position, n: int) -> Seq<Position>
    decreases n,
{
    if n <= 0 {
        Seq::empty()
    } else if zone_keep(k, n - 1) {
        zone_upto(k, n - 1).push(zone_square(k, n - 1))
    } else {
        zone_upto(k, n - 1)
    }
}

/// The squares within two of `player`'s king, then the king's own square;
/// without a king, the three central files of `player`'s first three rows.
pub open spec fn king_zone(b: Board, player: Player) -> Seq<Position> {
    match king_square(b, player) {
        Some(k) => zone_upto(k, 25).push(k),
        None => Seq::new(
            9,
            |j: int| Position { row: ((if player == Player::Black { 6int } else { 0int }) + j / 3) as u8, col: (3 + j % 3) as u8 },
        ),
    }
}

/// The squares around `player`'s king that weak-square analysis examines.
pub fn get_king_zone(board: &Board, player: Player) -> (r: Vec<Position>)
    ensures
        r@ == king_zone(*board, player),
        r@.len() <= 26,
        forall|k: int| 0 <= k < r@.len() ==> (#[trigger] r@[k]).valid(),
{
    let mut squares: Vec<Position> = Vec::new();
    match board.find_king_position(player) {
        Some(k) => {
            let mut j: u8 = 0;
            while j < 25
                invariant
                    j <= 25,
                    k.valid(),
                    squares@ == zone_upto(k, j as int),
                    squares@.len() <= j,
                    forall|q: int| 0 <= q < squares@.len() ==> (#[trigger] squares@[q]).valid(),
                decreases 25 - j,
            {
                let dr: i8 = (j / 5) as i8 - 2;
                let dc: i8 = (j % 5) as i8 - 2;
                let row: i8 = k.row as i8 + dr;
                let col: i8 = k.col as i8 + dc;
                if !(dr == 0 && dc == 0) && row >= 0 && row < 9 && col >= 0 && col < 9 {
                    squares.push(Position::new(row as u8, col as u8));
                }
                j += 1;
            }
            squares.push(k);
        },
        None => {
            let base: u8 = if player == Player::Black { 6 } else { 0 };
            let mut j: u8 = 0;
            while j < 9
                invariant
                    j <= 9,
                    base == (if player == Player::Black { 6int } else { 0int }),
                    squares@.len() == j,
                    forall|q: int| 0 <= q < j ==> #[trigger] squares@[q] == (Position {
                        row: (base + q / 3) as u8,
                        col: (3 + q % 3) as u8,
                    }),
                    forall|q: int| 0 <= q < squares@.len() ==> (#[trigger] squares@[q]).valid(),
                decreases 9 - j,
            {
                squares.push(Position::new(base + j / 3, 3 + j % 3));
                j += 1;
            }
            assert(squares@ =~= king_zone(*board, player));
        },
    }
    squares
}

/// Value of a piece of kind `pt` as a defender of a square it stands on.
pub open spec fn occupant_guard(pt: PieceType) -> int {
    if pt == PieceType::King || pt == PieceType::Gold || pt == PieceType::Silver || promoted_minor(pt) {
        3
    } else if pt == PieceType::Pawn {
        1
    } else {
        2
    }
}

/// Value of a piece of kind `pt` guarding a neighbouring square.
pub open spec fn neighbour_guard(pt: PieceType) -> int {
    if pt == PieceType::King || pt == PieceType::Gold || promoted_minor(pt) {
        2
    } else {
        1
    }
}

pub open spec fn neighbour_term(b: Board, row: int, col: int, player: Player) -> int {
    match piece_at(b, row, col) {
        Some(pc) => if pc.player == player { neighbour_guard(pc.piece_type) } else { 0 },
        None => 0,
    }
}

/// Defensive presence on and around `pos`: the piece on it and the pieces on
/// the six squares a gold of `player` standing there would reach.
pub open spec fn guard_bonus(b: Board, pos: Position, player: Player) -> int {
    let r = pos.row as int;
    let c = pos.col as int;
    let f = forward(player);
    let own = match piece_at(b, r, c) {
        Some(pc) => if pc.player == player { occupant_guard(pc.piece_type) } else { 0 },
        None => 0,
    };
    own + neighbour_term(b, r + f, c - 1, player) + neighbour_term(b, r + f, c, player) + neighbour_term(
        b,
        r + f,
        c + 1,
        player,
    ) + neighbour_term(b, r, c - 1, player) + neighbour_term(b, r, c + 1, player) + neighbour_term(
        b,
        r - f,
        c,
        player,
    )
}

fn neighbour_guard_at(board: &Board, row: i8, col: i8, player: Player) -> (r: i32)
    ensures
        r == neighbour_term(*board, row as int, col as int, player),
        0 <= r <= 2,
{
    if row < 0 || row >= 9 || col < 0 || col >= 9 {
        return 0;
    }
    match board.get_piece(Position::new(row as u8, col as u8)) {
        Some(pc) => {
            if pc.player == player {
                match pc.piece_type {
                    PieceType::King | PieceType::Gold | PieceType::PromotedPawn | PieceType::PromotedLance
                    | PieceType::PromotedKnight | PieceType::PromotedSilver => 2,
                    _ => 1,
                }
            } else {
                0
            }
        },
        None => 0,
    }
}

/// Defensive presence on and around `pos` for `player`.
pub fn king_zone_guard_bonus(board: &Board, pos: Position, player: Player) -> (r: i32)
    requires
        pos.valid(),
    ensures
        r == guard_bonus(*board, pos, player),
        0 <= r <= 15,
{
    let mut score: i32 = 0;
    match board.get_piece(pos) {
        Some(pc) => {
            if pc.player == player {
                score += match pc.piece_type {
                    PieceType::King | PieceType::Gold | PieceType::Silver | PieceType::PromotedPawn
                    | PieceType::PromotedLance | PieceType::PromotedKnight | PieceType::PromotedSilver => 3,
                    PieceType::Pawn => 1,
                    _ => 2,
                };
            }
        },
        None => {},
    }
    let f = forward_step(player);
    let r = pos.row as i8;
    let c = pos.col as i8;
    score += neighbour_guard_at(board, r + f, c - 1, player);
    score += neighbour_guard_at(board, r + f, c, player);
    score += neighbour_guard_at(board, r + f, c + 1, player);
    score += neighbour_guard_at(board, r, c - 1, player);
    score += neighbour_guard_at(board, r, c + 1, player);
    score += neighbour_guard_at(board, r - f, c, player);
    score
}

pub open spec fn defense_term(b: Board, player: Player, cp: CapturedPieces, pos: Position, pt: PieceType, value: int) -> int {
    if cp.hand(pt, player) > 0 && drop_legal(b, pt, player, pos) {
        value
    } else {
        0
    }
}

/// Defence `player` could add on `pos` by a drop: a pawn or a knight counts
/// one, a silver two, a gold three (when hand context is on).
pub open spec fn drop_defense(b: Board, player: Player, cp: CapturedPieces, pos: Position, rules: PositionalRules) -> int {
    if !rules.enable_hand_context {
        0
    } else {
        defense_term(b, player, cp, pos, PieceType::Pawn, 1) + defense_term(b, player, cp, pos, PieceType::Silver, 2)
            + defense_term(b, player, cp, pos, PieceType::Gold, 3) + defense_term(
            b,
            player,
            cp,
            pos,
            PieceType::Knight,
            1,
        )
    }
}

fn defense_drop(board: &Board, player: Player, captured_pieces: &CapturedPieces, pos: Position, pt: PieceType, value: i32) -> (r: i32)
    requires
        pos.valid(),
        0 <= value <= 3,
    ensures
        r == defense_term(*board, player, *captured_pieces, pos, pt, value as int),
{
    if captured_pieces.count(pt, player) > 0 && drop_is_legal(board, pt, player, pos) {
        value
    } else {
        0
    }
}

/// Defence `player` could add on `pos` by dropping a piece from hand.
pub fn drop_defense_score(
    rules: &PositionalRules,
    board: &Board,
    player: Player,
    captured_pieces: &CapturedPieces,
    pos: Position,
) -> (r: i32)
    requires
        pos.valid(),
    ensures
        r == drop_defense(*board, player, *captured_pieces, pos, *rules),
        0 <= r <= 7,
{
    if !rules.enable_hand_context {
        return 0;
    }
    defense_drop(board, player, captured_pieces, pos, PieceType::Pawn, 1) + defense_drop(
        board,
        player,
        captured_pieces,
        pos,
        PieceType::Silver,
        2,
    ) + defense_drop(board, player, captured_pieces, pos, PieceType::Gold, 3) + defense_drop(
        board,
        player,
        captured_pieces,
        pos,
        PieceType::Knight,
        1,
    )
}

/// Extra penalty by what stands on a weak square.
pub open spec fn occupant_penalty(b: Board, pos: Position, player: Player) -> int {
    match piece_at(b, pos.row as int, pos.col as int) {
        Some(pc) => if pc.player == player {
            if pc.piece_type == PieceType::King {
                32
            } else if pc.piece_type == PieceType::Gold || pc.piece_type == PieceType::Silver || promoted_minor(
                pc.piece_type,
            ) {
                24
            } else if pc.piece_type == PieceType::Pawn {
                12
            } else {
                16
            }
        } else {
            10
        },
        None => 8,
    }
}

/// Weight of a weak square by its distance from the own back rank.
pub open spec fn weak_row_weight(h: int) -> int {
    if h <= 1 {
        7
    } else if h <= 6 {
        8 - h
    } else if h == 7 {
        2
    } else {
        1
    }
}

/// Penalty for a weak square under `net` more attackers than defenders.
pub open spec fn severity(b: Board, pos: Position, player: Player, net: int, rules: PositionalRules) -> (int, int) {
    if net <= 0 {
        (0, 0)
    } else {
        let rw = weak_row_weight(home_steps(pos, player));
        let base = rules.weak_square_penalty + occupant_penalty(b, pos, player);
        (trunc_div(base * net * rw, 4), trunc_div(trunc_div(base, 2) * net * rw, 5))
    }
}

/// Penalty for a weak square of `player` on `pos` under `net_pressure` more
/// attackers than defenders.
pub fn weak_square_severity(
    rules: &PositionalRules,
    board: &Board,
    pos: Position,
    player: Player,
    net_pressure: i32,
) -> (r: TaperedScore)
    requires
        rules.wf(),
        pos.valid(),
        net_pressure <= 81,
    ensures
        r.mg == severity(*board, pos, player, net_pressure as int, *rules).0,
        r.eg == severity(*board, pos, player, net_pressure as int, *rules).1,
        -15_000_000 <= r.mg <= 15_000_000,
        -15_000_000 <= r.eg <= 15_000_000,
{
    if net_pressure <= 0 {
        return TaperedScore { mg: 0, eg: 0 };
    }
    let occupant: i32 = match board.get_piece(pos) {
        Some(pc) => {
            if pc.player == player {
                match pc.piece_type {
                    PieceType::King => 32,
                    PieceType::Gold | PieceType::Silver | PieceType::PromotedPawn | PieceType::PromotedLance
                    | PieceType::PromotedKnight | PieceType::PromotedSilver => 24,
                    PieceType::Pawn => 12,
                    _ => 16,
                }
            } else {
                10
            }
        },
        None => 8,
    };
    let weights: [i32; 9] = [7, 7, 6, 5, 4, 3, 2, 2, 1];
    let h = home_steps_of(pos, player);
    let rw = weights[h as usize];
    assert(rw == weak_row_weight(h as int) && 1 <= rw <= 7);
    let base = rules.weak_square_penalty + occupant;
    let net = net_pressure;
    assert(-57_000_000 <= base * net * rw <= 57_000_000) by (nonlinear_arith)
        requires
            -100_000 <= base <= 100_032,
            1 <= net <= 81,
            1 <= rw <= 7,
    ;
    let half = div_trunc(base as i64, 2) as i32;
    assert(-57_000_000 <= half * net * rw <= 57_000_000) by (nonlinear_arith)
        requires
            -50_000 <= half <= 50_016,
            1 <= net <= 81,
            1 <= rw <= 7,
    ;
    assert(-8_200_000 <= base * net <= 8_200_000 && -8_200_000 <= half * net <= 8_200_000) by (nonlinear_arith)
        requires
            -100_000 <= base <= 100_032,
            -50_000 <= half <= 50_016,
            1 <= net <= 81,
    ;
    let mg = div_trunc((base as i64) * (net as i64) * (rw as i64), 4) as i32;
    let eg = div_trunc((half as i64) * (net as i64) * (rw as i64), 5) as i32;
    TaperedScore { mg, eg }
}

/// The weak square of `player` on `pos`, with its penalty, if it is one:
/// the opponent controls it with more pieces than `player` can defend it
/// with (controllers, guards around it, drops), and the penalty is not nil.
pub open spec fn weak_square_of(b: Board, pos: Position, player: Player, cp: CapturedPieces, rules: PositionalRules) -> Option<(int, int)> {
    let opp = player.other();
    let attackers = controller_count(b, opp, pos);
    let defenders = controller_count(b, player, pos) + guard_bonus(b, pos, player) + if rules.enable_hand_context {
        drop_defense(b, player, cp, pos, rules)
    } else {
        0
    };
    if !attacked_by(b, pos, opp) || attackers == 0 || defenders >= attackers {
        None
    } else {
        let sev = severity(b, pos, player, attackers - defenders, rules);
        if sev.0 == 0 && sev.1 == 0 {
            None
        } else {
            Some(sev)
        }
    }
}

pub open spec fn weak_part(b: Board, player: Player, cp: CapturedPieces, rules: PositionalRules, pos: Position, part: int) -> int {
    match weak_square_of(b, pos, player, cp, rules) {
        Some(sev) => if part == 0 { sev.0 } else { sev.1 },
        None => 0,
    }
}

pub open spec fn weak_found(b: Board, player: Player, cp: CapturedPieces, rules: PositionalRules, pos: Position) -> int {
    if weak_square_of(b, pos, player, cp, rules).is_some() { 1 } else { 0 }
}

/// Weak squares around `player`'s king: minus the summed penalties, the
/// number of zone squares examined and the number of weak squares found.
pub fn evaluate_weak_squares(
    rules: &PositionalRules,
    board: &Board,
    player: Player,
    cache: &mut ControlCache,
    captured_pieces: &CapturedPieces,
) -> (r: PatternTally)
    requires
        rules.wf(),
        old(cache).wf(),
        old(cache).board_view() == *board,
    ensures
        final(cache).wf(),
        final(cache).board_view() == *board,
        r.score.mg == -sum_over(king_zone(*board, player), |p: Position| weak_part(*board, player, *captured_pieces, *rules, p, 0)),
        r.score.eg == -sum_over(king_zone(*board, player), |p: Position| weak_part(*board, player, *captured_pieces, *rules, p, 1)),
        r.examined == king_zone(*board, player).len(),
        r.found == sum_over(king_zone(*board, player), |p: Position| weak_found(*board, player, *captured_pieces, *rules, p)),
{
    let opp = player.opposite();
    let zone = get_king_zone(board, player);
    let ghost fm = |p: Position| weak_part(*board, player, *captured_pieces, *rules, p, 0);
    let ghost fe = |p: Position| weak_part(*board, player, *captured_pieces, *rules, p, 1);
    let ghost ff = |p: Position| weak_found(*board, player, *captured_pieces, *rules, p);
    let mut mg: i32 = 0;
    let mut eg: i32 = 0;
    let mut found: u32 = 0;
    let mut k: usize = 0;
    while k < zone.len()
        invariant
            k <= zone@.len(),
            zone@ == king_zone(*board, player),
            zone@.len() <= 26,
            forall|q: int| 0 <= q < zone@.len() ==> (#[trigger] zone@[q]).valid(),
            rules.wf(),
            opp == player.other(),
            cache.wf(),
            cache.board_view() == *board,
            fm == (|p: Position| weak_part(*board, player, *captured_pieces, *rules, p, 0)),
            fe == (|p: Position| weak_part(*board, player, *captured_pieces, *rules, p, 1)),
            ff == (|p: Position| weak_found(*board, player, *captured_pieces, *rules, p)),
            mg == -sum_over(zone@.take(k as int), fm),
            eg == -sum_over(zone@.take(k as int), fe),
            found == sum_over(zone@.take(k as int), ff),
            -15_000_000 * k <= mg <= 15_000_000 * k,
            -15_000_000 * k <= eg <= 15_000_000 * k,
            found <= k,
        decreases zone@.len() - k,
    {
        let pos = zone[k];
        proof {
            lemma_sum_take(zone@, fm, k as int);
            lemma_sum_take(zone@, fe, k as int);
            lemma_sum_take(zone@, ff, k as int);
        }
        k += 1;
        if !cache.controlled_by(opp, pos) {
            continue;
        }
        let attackers = count_controllers(board, opp, pos);
        if attackers == 0 {
            continue;
        }
        let mut defenders = count_controllers(board, player, pos) as i32;
        defenders += king_zone_guard_bonus(board, pos, player);
        if rules.enable_hand_context {
            defenders += drop_defense_score(rules, board, player, captured_pieces, pos);
        }
        if defenders as u32 >= attackers {
            continue;
        }
        let net = attackers as i32 - defenders;
        let sev = weak_square_severity(rules, board, pos, player, net);
        if sev.mg == 0 && sev.eg == 0 {
            continue;
        }
        mg -= sev.mg;
        eg -= sev.eg;
        found += 1;
    }
    proof {
        lemma_take_all(zone@);
    }
    PatternTally { score: TaperedScore { mg, eg }, examined: zone.len() as u32, found }
}


// -------------------------------------------------------------------------
// Piece activity
// -------------------------------------------------------------------------

/// Activity of a piece of kind `pt` advanced `a` rows: the major pieces,
/// silvers and golds gain with advancement, the rest not at all.
pub open spec fn activity(pt: PieceType, a: int) -> (int, int) {
    if pt == PieceType::Rook || pt == PieceType::PromotedRook {
        (a * 3, a * 4)
    } else if pt == PieceType::Bishop || pt == PieceType::PromotedBishop {
        (a * 2, a * 3)
    } else if pt == PieceType::Silver {
        (a * 2, a * 2)
    } else if pt == PieceType::Gold {
        (a, a * 2)
    } else {
        (0, 0)
    }
}

/// Activity of a piece of kind `piece_type` of `player` on `pos`.
pub fn get_piece_activity_score(pos: Position, piece_type: PieceType, player: Player) -> (r: (i32, i32))
    requires
        pos.valid(),
    ensures
        r.0 == activity(piece_type, forward_steps(pos, player)).0,
        r.1 == activity(piece_type, forward_steps(pos, player)).1,
        0 <= r.0 <= 32,
        0 <= r.1 <= 32,
{
    let a = forward_steps_of(pos, player) as i32;
    match piece_type {
        PieceType::Rook | PieceType::PromotedRook => (a * 3, a * 4),
        PieceType::Bishop | PieceType::PromotedBishop => (a * 2, a * 3),
        PieceType::Silver => (a * 2, a * 2),
        PieceType::Gold => (a, a * 2),
        _ => (0, 0),
    }
}

pub open spec fn activity_term(b: Board, player: Player, i: int, part: int) -> int {
    match b.squares@[i] {
        Some(pc) => if pc.player == player {
            let v = activity(pc.piece_type, forward_steps(Position::at_index(i), player));
            if part == 0 { v.0 } else { v.1 }
        } else {
            0
        },
        None => 0,
    }
}

/// Summed activity of `player`'s pieces.
pub fn evaluate_piece_activity(board: &Board, player: Player) -> (r: TaperedScore)
    ensures
        r.mg == square_sum(|i: int| activity_term(*board, player, i, 0), 81),
        r.eg == square_sum(|i: int| activity_term(*board, player, i, 1), 81),
        r.mg >= 0,
        r.eg >= 0,
{
    let ghost fm = |i: int| activity_term(*board, player, i, 0);
    let ghost fe = |i: int| activity_term(*board, player, i, 1);
    let mut mg: i32 = 0;
    let mut eg: i32 = 0;
    let mut i: usize = 0;
    while i < 81
        invariant
            i <= 81,
            fm == (|i: int| activity_term(*board, player, i, 0)),
            fe == (|i: int| activity_term(*board, player, i, 1)),
            mg == square_sum(fm, i as int),
            eg == square_sum(fe, i as int),
            0 <= mg <= 32 * i,
            0 <= eg <= 32 * i,
        decreases 81 - i,
    {
        let pos = Position::from_index(i);
        proof {
            assert(Position::at_index(i as int) == pos);
        }
        match board.squares[i] {
            Some(pc) => {
                if pc.player == player {
                    let v = get_piece_activity_score(pos, pc.piece_type, player);
                    mg += v.0;
                    eg += v.1;
                }
            },
            None => {},
        }
        i += 1;
    }
    TaperedScore { mg, eg }
}

// -------------------------------------------------------------------------
// Space
// -------------------------------------------------------------------------

/// Bonus for a controlled square by what stands on it: a piece of the side
/// gains with depth, an enemy piece costs three.
pub open spec fn occupancy_bonus(b: Board, pos: Position, player: Player) -> int {
    match piece_at(b, pos.row as int, pos.col as int) {
        Some(pc) => if pc.player == player { forward_steps(pos, player) / 3 + 1 } else { -3 },
        None => 0,
    }
}

fn space_occupancy_bonus(board: &Board, pos: Position, player: Player) -> (r: i32)
    requires
        pos.valid(),
    ensures
        r == occupancy_bonus(*board, pos, player),
        -3 <= r <= 3,
{
    match board.get_piece(pos) {
        Some(pc) => {
            if pc.player == player {
                forward_steps_of(pos, player) as i32 / 3 + 1
            } else {
                -3
            }
        },
        None => 0,
    }
}

/// Territory value of square `i` for `side`: row weight plus occupancy, if
/// `side` controls it.
pub open spec fn territory_term(b: Board, side: Player, i: int) -> int {
    let pos = Position::at_index(i);
    if attacked_by(b, pos, side) {
        forward_steps(pos, side) + 1 + occupancy_bonus(b, pos, side)
    } else {
        0
    }
}

/// Frontier value of square `i` for `side`: half the row weight (at least
/// one), if `side` controls it and the other side does not.
pub open spec fn frontier_term(b: Board, side: Player, i: int) -> int {
    let pos = Position::at_index(i);
    if attacked_by(b, pos, side) && !attacked_by(b, pos, side.other()) {
        let half = (forward_steps(pos, side) + 1) / 2;
        if half >= 1 { half } else { 1 }
    } else {
        0
    }
}

pub open spec fn territory(b: Board, side: Player) -> int {
    square_sum(|i: int| territory_term(b, side, i), 81)
}

pub open spec fn frontier(b: Board, side: Player) -> int {
    square_sum(|i: int| frontier_term(b, side, i), 81)
}

/// Pressure of the pieces `player` holds in hand (when hand context is on).
pub open spec fn hand_pressure(cp: CapturedPieces, player: Player, rules: PositionalRules) -> int {
    if !rules.enable_hand_context {
        0
    } else {
        cp.hand(PieceType::Pawn, player) * 4 + cp.hand(PieceType::Lance, player) * 6 + cp.hand(PieceType::Knight, player)
            * 8 + cp.hand(PieceType::Silver, player) * 9 + cp.hand(PieceType::Gold, player) * 10
    }
}

/// Pressure of the pieces `player` holds in hand.
pub fn hand_space_pressure(rules: &PositionalRules, captured_pieces: &CapturedPieces, player: Player) -> (r: i32)
    requires
        captured_pieces.counts_at_most(HAND_LIMIT),
    ensures
        r == hand_pressure(*captured_pieces, player, *rules),
        0 <= r <= 370_000,
{
    if !rules.enable_hand_context {
        return 0;
    }
    let p: usize = if player == Player::Black { 0 } else { 1 };
    proof {
        assert(captured_pieces.counts@[(player.idx() * 14 + PieceType::Pawn.idx()) as int] <= HAND_LIMIT);
        assert(captured_pieces.counts@[(player.idx() * 14 + PieceType::Lance.idx()) as int] <= HAND_LIMIT);
        assert(captured_pieces.counts@[(player.idx() * 14 + PieceType::Knight.idx()) as int] <= HAND_LIMIT);
        assert(captured_pieces.counts@[(player.idx() * 14 + PieceType::Silver.idx()) as int] <= HAND_LIMIT);
        assert(captured_pieces.counts@[(player.idx() * 14 + PieceType::Gold.idx()) as int] <= HAND_LIMIT);
    }
    let pawns = captured_pieces.count(PieceType::Pawn, player) as i32;
    let lances = captured_pieces.count(PieceType::Lance, player) as i32;
    let knights = captured_pieces.count(PieceType::Knight, player) as i32;
    let silvers = captured_pieces.count(PieceType::Silver, player) as i32;
    let golds = captured_pieces.count(PieceType::Gold, player) as i32;
    pawns * 4 + lances * 6 + knights * 8 + silvers * 9 + golds * 10
}

/// Space balance for `player`: territory and frontier differences scaled by
/// the space bonus, plus the hand pressure difference.
pub open spec fn space_score(b: Board, player: Player, cp: CapturedPieces, rules: PositionalRules) -> (int, int) {
    let opp = player.other();
    let dt = territory(b, player) - territory(b, opp);
    let df = frontier(b, player) - frontier(b, opp);
    let bonus = rules.space_advantage_bonus as int;
    let hd = if rules.enable_hand_context {
        hand_pressure(cp, player, rules) - hand_pressure(cp, opp, rules)
    } else {
        0
    };
    (dt * bonus + df * (bonus * 2) + hd, dt * trunc_div(bonus, 2) + df * bonus + trunc_div(hd, 2))
}

/// Space advantage of `player` (territory and frontier it controls, and the
/// pressure of its hand) against its opponent.
pub fn evaluate_space_advantage(
    rules: &PositionalRules,
    board: &Board,
    player: Player,
    cache: &mut ControlCache,
    captured_pieces: &CapturedPieces,
) -> (r: TaperedScore)
    requires
        rules.wf(),
        captured_pieces.counts_at_most(HAND_LIMIT),
        old(cache).wf(),
        old(cache).board_view() == *board,
    ensures
        final(cache).wf(),
        final(cache).board_view() == *board,
        r.mg == space_score(*board, player, *captured_pieces, *rules).0,
        r.eg == space_score(*board, player, *captured_pieces, *rules).1,
{
    let opp = player.opposite();
    let ghost tp = |i: int| territory_term(*board, player, i);
    let ghost to = |i: int| territory_term(*board, opp, i);
    let ghost fp = |i: int| frontier_term(*board, player, i);
    let ghost fo = |i: int| frontier_term(*board, opp, i);
    let mut player_territory: i32 = 0;
    let mut opponent_territory: i32 = 0;
    let mut player_frontier: i32 = 0;
    let mut opponent_frontier: i32 = 0;
    let mut i: usize = 0;
    while i < 81
        invariant
            i <= 81,
            opp == player.other(),
            cache.wf(),
            cache.board_view() == *board,
            tp == (|i: int| territory_term(*board, player, i)),
            to == (|i: int| territory_term(*board, opp, i)),
            fp == (|i: int| frontier_term(*board, player, i)),
            fo == (|i: int| frontier_term(*board, opp, i)),
            player_territory == square_sum(tp, i as int),
            opponent_territory == square_sum(to, i as int),
            player_frontier == square_sum(fp, i as int),
            opponent_frontier == square_sum(fo, i as int),
            -2 * i <= player_territory <= 13 * i,
            -2 * i <= opponent_territory <= 13 * i,
            0 <= player_frontier <= 5 * i,
            0 <= opponent_frontier <= 5 * i,
        decreases 81 - i,
    {
        let pos = Position::from_index(i);
        proof {
            assert(Position::at_index(i as int) == pos);
        }
        let player_controls = cache.controlled_by(player, pos);
        let opponent_controls = cache.controlled_by(opp, pos);
        if player_controls {
            let weight = forward_steps_of(pos, player) as i32 + 1;
            player_territory += weight + space_occupancy_bonus(board, pos, player);
            if !opponent_controls {
                let half = weight / 2;
                player_frontier += if half >= 1 { half } else { 1 };
            }
        }
        if opponent_controls {
            let weight = forward_steps_of(pos, opp) as i32 + 1;
            opponent_territory += weight + space_occupancy_bonus(board, pos, opp);
            if !player_controls {
                let half = weight / 2;
                opponent_frontier += if half >= 1 { half } else { 1 };
            }
        }
        proof {
            assert(opp.other() == player);
        }
        i += 1;
    }
    let dt = player_territory - opponent_territory;
    let df = player_frontier - opponent_frontier;
    let bonus = rules.space_advantage_bonus;
    let half_bonus = div_trunc(bonus as i64, 2) as i32;
    assert(-130_000_000 <= dt * bonus <= 130_000_000) by (nonlinear_arith)
        requires
            -1_300 <= dt <= 1_300,
            -100_000 <= bonus <= 100_000,
    ;
    assert(-130_000_000 <= dt * half_bonus <= 130_000_000) by (nonlinear_arith)
        requires
            -1_300 <= dt <= 1_300,
            -100_000 <= half_bonus <= 100_000,
    ;
    assert(-90_000_000 <= df * (bonus * 2) <= 90_000_000) by (nonlinear_arith)
        requires
            -410 <= df <= 410,
            -100_000 <= bonus <= 100_000,
    ;
    assert(-45_000_000 <= df * bonus <= 45_000_000) by (nonlinear_arith)
        requires
            -410 <= df <= 410,
            -100_000 <= bonus <= 100_000,
    ;
    let mut mg = dt * bonus;
    let mut eg = dt * half_bonus;
    mg += df * (bonus * 2);
    eg += df * bonus;
    if rules.enable_hand_context {
        let hand_delta = hand_space_pressure(rules, captured_pieces, player) - hand_space_pressure(
            rules,
            captured_pieces,
            opp,
        );
        mg += hand_delta;
        eg += div_trunc(hand_delta as i64, 2) as i32;
    }
    TaperedScore { mg, eg }
}

// -------------------------------------------------------------------------
// Tempo
// -------------------------------------------------------------------------

/// Square `i` holds a rook, bishop, gold or silver of `player` off its
/// starting rank.
pub open spec fn developed_term(b: Board, player: Player, i: int) -> int {
    let start_row = if player == Player::Black { 8int } else { 0int };
    match b.squares@[i] {
        Some(pc) => if pc.player == player && (pc.piece_type == PieceType::Rook || pc.piece_type == PieceType::Bishop
            || pc.piece_type == PieceType::Gold || pc.piece_type == PieceType::Silver) && Position::at_index(i).row
            != start_row {
            1
        } else {
            0
        },
        None => 0,
    }
}

pub open spec fn developed(b: Board, player: Player) -> int {
    square_sum(|i: int| developed_term(b, player, i), 81)
}

/// Number of `player`'s rooks, bishops, golds and silvers off their
/// starting rank.
pub fn count_developed_pieces(board: &Board, player: Player) -> (r: i32)
    ensures
        r == developed(*board, player),
        0 <= r <= 81,
{
    let ghost f = |i: int| developed_term(*board, player, i);
    let start_row: u8 = if player == Player::Black { 8 } else { 0 };
    let mut count: i32 = 0;
    let mut i: usize = 0;
    while i < 81
        invariant
            i <= 81,
            start_row == (if player == Player::Black { 8int } else { 0int }),
            f == (|i: int| developed_term(*board, player, i)),
            count == square_sum(f, i as int),
            0 <= count <= i,
        decreases 81 - i,
    {
        let pos = Position::from_index(i);
        proof {
            assert(Position::at_index(i as int) == pos);
        }
        match board.squares[i] {
            Some(pc) => {
                if pc.player == player {
                    match pc.piece_type {
                        PieceType::Rook | PieceType::Bishop | PieceType::Gold | PieceType::Silver => {
                            if pos.row != start_row {
                                count += 1;
                            }
                        },
                        _ => {},
                    }
                }
            },
            None => {},
        }
        i += 1;
    }
    count
}

/// Tempo of `player`: its developed pieces beyond the opponent's, times the
/// tempo bonus, in the middlegame only.
pub fn evaluate_tempo(rules: &PositionalRules, board: &Board, player: Player) -> (r: TaperedScore)
    requires
        rules.wf(),
    ensures
        r.mg == (developed(*board, player) - developed(*board, player.other())) * rules.tempo_bonus,
        r.eg == 0,
{
    let mine = count_developed_pieces(board, player);
    let theirs = count_developed_pieces(board, player.opposite());
    let advantage = mine - theirs;
    assert(-8_100_000 <= advantage * rules.tempo_bonus <= 8_100_000) by (nonlinear_arith)
        requires
            -81 <= advantage <= 81,
            -100_000 <= rules.tempo_bonus <= 100_000,
    ;
    TaperedScore { mg: advantage * rules.tempo_bonus, eg: 0 }
}


// -------------------------------------------------------------------------
// Centre control
// -------------------------------------------------------------------------

/// The nine central squares, row by row.
pub open spec fn core_center() -> Seq<Position> {
    Seq::new(9, |j: int| Position { row: (3 + j / 3) as u8, col: (3 + j % 3) as u8 })
}

/// The sixteen squares ringing the central nine, row by row.
pub open spec fn extended_center() -> Seq<Position> {
    seq![
        Position { row: 2, col: 2 },
        Position { row: 2, col: 3 },
        Position { row: 2, col: 4 },
        Position { row: 2, col: 5 },
        Position { row: 2, col: 6 },
        Position { row: 3, col: 2 },
        Position { row: 3, col: 6 },
        Position { row: 4, col: 2 },
        Position { row: 4, col: 6 },
        Position { row: 5, col: 2 },
        Position { row: 5, col: 6 },
        Position { row: 6, col: 2 },
        Position { row: 6, col: 3 },
        Position { row: 6, col: 4 },
        Position { row: 6, col: 5 },
        Position { row: 6, col: 6 },
    ]
}

/// The nine central squares, row by row.
pub fn core_center_squares() -> (r: [Position; 9])
    ensures
        r@ == core_center(),
{
    let r = [
        Position { row: 3, col: 3 },
        Position { row: 3, col: 4 },
        Position { row: 3, col: 5 },
        Position { row: 4, col: 3 },
        Position { row: 4, col: 4 },
        Position { row: 4, col: 5 },
        Position { row: 5, col: 3 },
        Position { row: 5, col: 4 },
        Position { row: 5, col: 5 },
    ];
    assert(r@ =~= core_center());
    r
}

/// The sixteen squares ringing the central nine, row by row.
pub fn extended_center_squares() -> (r: [Position; 16])
    ensures
        r@ == extended_center(),
{
    let r = [
        Position { row: 2, col: 2 },
        Position { row: 2, col: 3 },
        Position { row: 2, col: 4 },
        Position { row: 2, col: 5 },
        Position { row: 2, col: 6 },
        Position { row: 3, col: 2 },
        Position { row: 3, col: 6 },
        Position { row: 4, col: 2 },
        Position { row: 4, col: 6 },
        Position { row: 5, col: 2 },
        Position { row: 5, col: 6 },
        Position { row: 6, col: 2 },
        Position { row: 6, col: 3 },
        Position { row: 6, col: 4 },
        Position { row: 6, col: 5 },
        Position { row: 6, col: 6 },
    ];
    assert(r@ =~= extended_center());
    r
}

/// Base value of a piece of kind `pt` standing in the centre.
pub open spec fn center_base(pt: PieceType) -> (int, int) {
    if pt == PieceType::Pawn {
        (14, 8)
    } else if pt == PieceType::Lance {
        (18, 12)
    } else if pt == PieceType::Knight {
        (26, 18)
    } else if pt == PieceType::Silver {
        (32, 22)
    } else if pt == PieceType::Gold {
        (36, 26)
    } else if pt == PieceType::Bishop {
        (44, 34)
    } else if pt == PieceType::Rook {
        (48, 36)
    } else if pt == PieceType::PromotedBishop {
        (52, 44)
    } else if pt == PieceType::PromotedRook {
        (56, 46)
    } else if pt == PieceType::King {
        (18, 32)
    } else {
        (34, 26)
    }
}

/// Value of `pc` standing on the central square `pos`: base by kind, an
/// advancement bonus, and a little more for promoted minors.
pub open spec fn presence(pc: Piece, pos: Position) -> (int, int) {
    let base = center_base(pc.piece_type);
    let adv = center_forward_bonus(forward_steps(pos, pc.player));
    let extra: (int, int) = if promoted_minor(pc.piece_type) { (6, 4) } else { (0, 0) };
    (base.0 + adv + extra.0, base.1 + adv / 2 + extra.1)
}

/// Value of a piece standing on a central square.
pub fn center_piece_presence_score(piece: &Piece, pos: Position) -> (r: TaperedScore)
    requires
        pos.valid(),
    ensures
        r.mg == presence(*piece, pos).0,
        r.eg == presence(*piece, pos).1,
        0 <= r.mg <= 80,
        0 <= r.eg <= 80,
{
    let (mut mg, mut eg): (i32, i32) = match piece.piece_type {
        PieceType::Pawn => (14, 8),
        PieceType::Lance => (18, 12),
        PieceType::Knight => (26, 18),
        PieceType::Silver => (32, 22),
        PieceType::Gold => (36, 26),
        PieceType::Bishop => (44, 34),
        PieceType::Rook => (48, 36),
        PieceType::PromotedBishop => (52, 44),
        PieceType::PromotedRook => (56, 46),
        PieceType::King => (18, 32),
        _ => (34, 26),
    };
    let adv = center_forward_bonus_of(forward_steps_of(pos, piece.player));
    mg += adv;
    eg += adv / 2;
    match piece.piece_type {
        PieceType::PromotedPawn | PieceType::PromotedLance | PieceType::PromotedKnight | PieceType::PromotedSilver => {
            mg += 6;
            eg += 4;
        },
        _ => {},
    }
    TaperedScore { mg, eg }
}

/// `pos` is empty or holds a piece of the other side than `side`.
pub open spec fn not_held_by(b: Board, pos: Position, side: Player) -> bool {
    match piece_at(b, pos.row as int, pos.col as int) {
        Some(pc) => pc.player != side,
        None => true,
    }
}

/// Presence on a central square: the value of the piece standing there, for
/// `player` or (negated) against it.
pub open spec fn occupancy_value(b: Board, pos: Position, player: Player) -> (int, int) {
    match piece_at(b, pos.row as int, pos.col as int) {
        Some(pc) => {
            let p = presence(pc, pos);
            if pc.player == player { p } else { (-p.0, -p.1) }
        },
        None => (0, 0),
    }
}

/// Control balance on a central square, scaled by the centre bonus and by
/// how far forward the controlling side reaches.
pub open spec fn control_value(pos: Position, player: Player, rules: PositionalRules, mine: bool, theirs: bool) -> (int, int) {
    let diff = (if mine { 1int } else { 0int }) - (if theirs { 1int } else { 0int });
    let idx = if diff >= 0 { forward_steps(pos, player) } else { forward_steps(pos, player.other()) };
    if diff != 0 {
        (
            diff * (rules.pawn_center_bonus + center_forward_bonus(idx) / 2),
            diff * (trunc_div(rules.pawn_center_bonus as int, 2) + center_forward_bonus(idx) / 4),
        )
    } else {
        (0, 0)
    }
}

/// Mobility on a central square: a bonus for each side that controls it
/// without standing on it, `player`'s counted for and the opponent's against.
pub open spec fn mobility_value(b: Board, pos: Position, player: Player, mine: bool, theirs: bool) -> (int, int) {
    let opp = player.other();
    let mb_mine = center_forward_bonus(forward_steps(pos, player)) / 2 + 4;
    let mb_theirs = center_forward_bonus(forward_steps(pos, opp)) / 2 + 4;
    let a: (int, int) = if mine && not_held_by(b, pos, player) { (mb_mine, mb_mine / 2) } else { (0, 0) };
    let c: (int, int) = if theirs && not_held_by(b, pos, opp) { (mb_theirs, mb_theirs / 2) } else { (0, 0) };
    (a.0 - c.0, a.1 - c.1)
}

/// Unweighted centre value of `pos` for `player`, given whether `player`
/// (`mine`) and its opponent (`theirs`) control the square.
pub open spec fn center_square_value_with(
    b: Board,
    pos: Position,
    player: Player,
    rules: PositionalRules,
    mine: bool,
    theirs: bool,
) -> (int, int) {
    let o = occupancy_value(b, pos, player);
    let c = control_value(pos, player, rules, mine, theirs);
    let m = mobility_value(b, pos, player, mine, theirs);
    (o.0 + c.0 + m.0, o.1 + c.1 + m.1)
}

/// Unweighted centre value of `pos` for `player`, with control as on the
/// board.
pub open spec fn center_square_value(b: Board, pos: Position, player: Player, rules: PositionalRules) -> (int, int) {
    center_square_value_with(b, pos, player, rules, attacked_by(b, pos, player), attacked_by(b, pos, player.other()))
}

fn occupancy_part(board: &Board, pos: Position, player: Player) -> (r: (i32, i32))
    requires
        pos.valid(),
    ensures
        r.0 == occupancy_value(*board, pos, player).0,
        r.1 == occupancy_value(*board, pos, player).1,
        -80 <= r.0 <= 80,
        -80 <= r.1 <= 80,
{
    match board.get_piece(pos) {
        Some(pc) => {
            let p = center_piece_presence_score(&pc, pos);
            if pc.player == player {
                (p.mg, p.eg)
            } else {
                (-p.mg, -p.eg)
            }
        },
        None => (0, 0),
    }
}

fn control_part(rules: &PositionalRules, pos: Position, player: Player, mine: bool, theirs: bool) -> (r: (i32, i32))
    requires
        rules.wf(),
        pos.valid(),
    ensures
        r.0 == control_value(pos, player, *rules, mine, theirs).0,
        r.1 == control_value(pos, player, *rules, mine, theirs).1,
        -100_010 <= r.0 <= 100_010,
        -100_010 <= r.1 <= 100_010,
{
    let diff: i32 = (if mine { 1 } else { 0 }) - (if theirs { 1 } else { 0 });
    if diff == 0 {
        return (0, 0);
    }
    let idx = if diff >= 0 { forward_steps_of(pos, player) } else { forward_steps_of(pos, player.opposite()) };
    let cfb = center_forward_bonus_of(idx);
    let scale_mg = rules.pawn_center_bonus + cfb / 2;
    let scale_eg = div_trunc(rules.pawn_center_bonus as i64, 2) as i32 + cfb / 4;
    if diff > 0 {
        assert(diff * scale_mg == scale_mg && diff * scale_eg == scale_eg) by (nonlinear_arith)
            requires
                diff == 1,
        ;
        (scale_mg, scale_eg)
    } else {
        assert(diff * scale_mg == -scale_mg && diff * scale_eg == -scale_eg) by (nonlinear_arith)
            requires
                diff == -1,
        ;
        (-scale_mg, -scale_eg)
    }
}

fn mobility_part(board: &Board, pos: Position, player: Player, mine: bool, theirs: bool) -> (r: (i32, i32))
    requires
        pos.valid(),
    ensures
        r.0 == mobility_value(*board, pos, player, mine, theirs).0,
        r.1 == mobility_value(*board, pos, player, mine, theirs).1,
        -20 <= r.0 <= 20,
        -20 <= r.1 <= 20,
{
    let opp = player.opposite();
    let occupant = board.get_piece(pos);
    let mine_free = match occupant {
        Some(pc) => pc.player != player,
        None => true,
    };
    let theirs_free = match occupant {
        Some(pc) => pc.player != opp,
        None => true,
    };
    let mut mg: i32 = 0;
    let mut eg: i32 = 0;
    if mine && mine_free {
        let mb = center_forward_bonus_of(forward_steps_of(pos, player)) / 2 + 4;
        mg += mb;
        eg += mb / 2;
    }
    if theirs && theirs_free {
        let mb = center_forward_bonus_of(forward_steps_of(pos, opp)) / 2 + 4;
        mg -= mb;
        eg -= mb / 2;
    }
    (mg, eg)
}

fn center_square_from(rules: &PositionalRules, board: &Board, pos: Position, player: Player, mine: bool, theirs: bool) -> (r: TaperedScore)
    requires
        rules.wf(),
        pos.valid(),
    ensures
        r.mg == center_square_value_with(*board, pos, player, *rules, mine, theirs).0,
        r.eg == center_square_value_with(*board, pos, player, *rules, mine, theirs).1,
        -200_000 <= r.mg <= 200_000,
        -200_000 <= r.eg <= 200_000,
{
    let o = occupancy_part(board, pos, player);
    let c = control_part(rules, pos, player, mine, theirs);
    let m = mobility_part(board, pos, player, mine, theirs);
    TaperedScore { mg: o.0 + c.0 + m.0, eg: o.1 + c.1 + m.1 }
}

/// Unweighted centre value of `pos` for `player`.
pub fn center_square_contribution(
    rules: &PositionalRules,
    board: &Board,
    cache: &mut ControlCache,
    player: Player,
    pos: Position,
) -> (r: TaperedScore)
    requires
        rules.wf(),
        pos.valid(),
        old(cache).wf(),
        old(cache).board_view() == *board,
    ensures
        final(cache).wf(),
        final(cache).board_view() == *board,
        r.mg == center_square_value(*board, pos, player, *rules).0,
        r.eg == center_square_value(*board, pos, player, *rules).1,
        -200_000 <= r.mg <= 200_000,
        -200_000 <= r.eg <= 200_000,
{
    let mine = cache.controlled_by(player, pos);
    let theirs = cache.controlled_by(player.opposite(), pos);
    center_square_from(rules, board, pos, player, mine, theirs)
}

/// Pressure from dropping up to `avail` pieces of kind `pt` on the legal
/// central squares from number `k` on, in order.
pub open spec fn drop_pressure_from(b: Board, player: Player, pt: PieceType, mgw: int, egw: int, k: int, avail: int) -> (int, int)
    decreases 9 - k,
{
    if k >= 9 || k < 0 || avail <= 0 {
        (0, 0)
    } else {
        let sq = core_center()[k];
        if drop_legal(b, pt, player, sq) {
            let pw = 4 + center_forward_bonus(forward_steps(sq, player)) / 2;
            let rest = drop_pressure_from(b, player, pt, mgw, egw, k + 1, avail - 1);
            (pw * mgw + rest.0, (pw / 2 + 1) * egw + rest.1)
        } else {
            drop_pressure_from(b, player, pt, mgw, egw, k + 1, avail)
        }
    }
}

/// Pressure `player` puts on the centre from hand: pawns, silvers, golds and
/// knights, each on as many legal central squares as it holds of the kind.
pub open spec fn center_drop(b: Board, player: Player, cp: CapturedPieces) -> (int, int) {
    let p = drop_pressure_from(b, player, PieceType::Pawn, 5, 3, 0, cp.hand(PieceType::Pawn, player) as int);
    let s = drop_pressure_from(b, player, PieceType::Silver, 8, 6, 0, cp.hand(PieceType::Silver, player) as int);
    let g = drop_pressure_from(b, player, PieceType::Gold, 10, 10, 0, cp.hand(PieceType::Gold, player) as int);
    let n = drop_pressure_from(b, player, PieceType::Knight, 7, 5, 0, cp.hand(PieceType::Knight, player) as int);
    (p.0 + s.0 + g.0 + n.0, p.1 + s.1 + g.1 + n.1)
}

proof fn lemma_drop_pressure_bounds(b: Board, player: Player, pt: PieceType, mgw: int, egw: int, k: int, avail: int)
    requires
        0 <= mgw <= 10,
        0 <= egw <= 10,
        0 <= k <= 9,
    ensures
        0 <= drop_pressure_from(b, player, pt, mgw, egw, k, avail).0 <= 110 * (9 - k),
        0 <= drop_pressure_from(b, player, pt, mgw, egw, k, avail).1 <= 60 * (9 - k),
    decreases 9 - k,
{
    if k < 9 && avail > 0 {
        let sq = core_center()[k];
        let pw = 4 + center_forward_bonus(forward_steps(sq, player)) / 2;
        assert(4 <= pw <= 11);
        assert(0 <= pw * mgw <= 110) by (nonlinear_arith)
            requires
                4 <= pw <= 11,
                0 <= mgw <= 10,
        ;
        assert(0 <= (pw / 2 + 1) * egw <= 60) by (nonlinear_arith)
            requires
                3 <= pw / 2 + 1 <= 6,
                0 <= egw <= 10,
        ;
        lemma_drop_pressure_bounds(b, player, pt, mgw, egw, k + 1, avail - 1);
        lemma_drop_pressure_bounds(b, player, pt, mgw, egw, k + 1, avail);
    }
}

fn drop_pressure_kind(board: &Board, player: Player, pt: PieceType, mgw: i32, egw: i32, available: usize) -> (r: (
    i32,
    i32,
))
    requires
        0 <= mgw <= 10,
        0 <= egw <= 10,
    ensures
        r.0 == drop_pressure_from(*board, player, pt, mgw as int, egw as int, 0, available as int).0,
        r.1 == drop_pressure_from(*board, player, pt, mgw as int, egw as int, 0, available as int).1,
        0 <= r.0 <= 990,
        0 <= r.1 <= 540,
{
    let ghost total = drop_pressure_from(*board, player, pt, mgw as int, egw as int, 0, available as int);
    proof {
        lemma_drop_pressure_bounds(*board, player, pt, mgw as int, egw as int, 0, available as int);
    }
    let squares = core_center_squares();
    let mut mg: i32 = 0;
    let mut eg: i32 = 0;
    let mut used: usize = 0;
    let mut k: usize = 0;
    while k < 9 && used < available
        invariant
            k <= 9,
            used <= available,
            0 <= mgw <= 10,
            0 <= egw <= 10,
            squares@ == core_center(),
            total == drop_pressure_from(*board, player, pt, mgw as int, egw as int, 0, available as int),
            mg + drop_pressure_from(*board, player, pt, mgw as int, egw as int, k as int, available - used).0 == total.0,
            eg + drop_pressure_from(*board, player, pt, mgw as int, egw as int, k as int, available - used).1 == total.1,
            0 <= mg <= 110 * k,
            0 <= eg <= 60 * k,
        decreases 9 - k,
    {
        let sq = squares[k];
        proof {
            lemma_drop_pressure_bounds(*board, player, pt, mgw as int, egw as int, k + 1, available - used - 1);
            lemma_drop_pressure_bounds(*board, player, pt, mgw as int, egw as int, k + 1, available - used);
        }
        if drop_is_legal(board, pt, player, sq) {
            let pw = 4 + center_forward_bonus_of(forward_steps_of(sq, player)) / 2;
            assert(0 <= pw * mgw <= 110) by (nonlinear_arith)
                requires
                    4 <= pw <= 11,
                    0 <= mgw <= 10,
            ;
            assert(0 <= (pw / 2 + 1) * egw <= 60) by (nonlinear_arith)
                requires
                    3 <= pw / 2 + 1 <= 6,
                    0 <= egw <= 10,
            ;
            mg += pw * mgw;
            eg += (pw / 2 + 1) * egw;
            used += 1;
        }
        k += 1;
    }
    (mg, eg)
}

/// Pressure `player` puts on the centre with the pieces it holds in hand.
pub fn center_drop_pressure(board: &Board, player: Player, captured_pieces: &CapturedPieces) -> (r: TaperedScore)
    ensures
        r.mg == center_drop(*board, player, *captured_pieces).0,
        r.eg == center_drop(*board, player, *captured_pieces).1,
        0 <= r.mg <= 3960,
        0 <= r.eg <= 2160,
{
    let p = drop_pressure_kind(board, player, PieceType::Pawn, 5, 3, captured_pieces.count(PieceType::Pawn, player));
    let s = drop_pressure_kind(board, player, PieceType::Silver, 8, 6, captured_pieces.count(PieceType::Silver, player));
    let g = drop_pressure_kind(board, player, PieceType::Gold, 10, 10, captured_pieces.count(PieceType::Gold, player));
    let n = drop_pressure_kind(board, player, PieceType::Knight, 7, 5, captured_pieces.count(PieceType::Knight, player));
    TaperedScore { mg: p.0 + s.0 + g.0 + n.0, eg: p.1 + s.1 + g.1 + n.1 }
}

/// Net drop pressure on the centre: `player`'s minus the opponent's, when
/// hand context is on.
pub open spec fn drop_balance(b: Board, player: Player, cp: CapturedPieces, rules: PositionalRules) -> (int, int) {
    if rules.enable_hand_context {
        let mine = center_drop(b, player, cp);
        let theirs = center_drop(b, player.other(), cp);
        (mine.0 - theirs.0, mine.1 - theirs.1)
    } else {
        (0, 0)
    }
}

/// Net drop pressure on the centre for `player`.
pub fn center_drop_balance(rules: &PositionalRules, board: &Board, player: Player, captured_pieces: &CapturedPieces) -> (r: TaperedScore)
    ensures
        r.mg == drop_balance(*board, player, *captured_pieces, *rules).0,
        r.eg == drop_balance(*board, player, *captured_pieces, *rules).1,
{
    if !rules.enable_hand_context {
        return TaperedScore { mg: 0, eg: 0 };
    }
    let mine = center_drop_pressure(board, player, captured_pieces);
    let theirs = center_drop_pressure(board, player.opposite(), captured_pieces);
    TaperedScore { mg: mine.mg - theirs.mg, eg: mine.eg - theirs.eg }
}


// -------------------------------------------------------------------------
// Laws
// -------------------------------------------------------------------------

/// A piece never controls a square held by a piece of its own side.
pub proof fn law_no_control_of_own_square(b: Board, pt: PieceType, player: Player, from: Position, target: Position)
    requires
        own_at(b, target, player),
    ensures
        !controls(b, pt, player, from, target),
{
}

proof fn lemma_trunc_div_neg(x: int)
    ensures
        trunc_div(-x, 2) == -trunc_div(x, 2),
{
}

/// Space is zero-sum: what one side gains the other loses, in both phases.
pub proof fn law_space_zero_sum(b: Board, player: Player, cp: CapturedPieces, rules: PositionalRules)
    ensures
        space_score(b, player.other(), cp, rules).0 == -space_score(b, player, cp, rules).0,
        space_score(b, player.other(), cp, rules).1 == -space_score(b, player, cp, rules).1,
{
    let opp = player.other();
    assert(opp.other() == player);
    let dt = territory(b, player) - territory(b, opp);
    let df = frontier(b, player) - frontier(b, opp);
    let bonus = rules.space_advantage_bonus as int;
    let hd = if rules.enable_hand_context {
        hand_pressure(cp, player, rules) - hand_pressure(cp, opp, rules)
    } else {
        0
    };
    lemma_trunc_div_neg(hd);
    assert((-dt) * bonus == -(dt * bonus)) by (nonlinear_arith);
    assert((-df) * (bonus * 2) == -(df * (bonus * 2))) by (nonlinear_arith);
    assert((-dt) * trunc_div(bonus, 2) == -(dt * trunc_div(bonus, 2))) by (nonlinear_arith);
    assert((-df) * bonus == -(df * bonus)) by (nonlinear_arith);
}

/// Tempo is zero-sum: the opponent's tempo score is the negation.
pub proof fn law_tempo_zero_sum(b: Board, player: Player, rules: PositionalRules)
    ensures
        (developed(b, player.other()) - developed(b, player)) * rules.tempo_bonus == -((developed(b, player)
            - developed(b, player.other())) * rules.tempo_bonus),
{
    let d = developed(b, player) - developed(b, player.other());
    assert((-d) * rules.tempo_bonus == -(d * rules.tempo_bonus)) by (nonlinear_arith);
}

/// The value of a central square is zero-sum: seen from the opponent it is
/// the negation, in both phases.
pub proof fn law_center_square_zero_sum(b: Board, pos: Position, player: Player, rules: PositionalRules)
    ensures
        center_square_value(b, pos, player.other(), rules).0 == -center_square_value(b, pos, player, rules).0,
        center_square_value(b, pos, player.other(), rules).1 == -center_square_value(b, pos, player, rules).1,
{
    let opp = player.other();
    assert(opp.other() == player);
    let mine = attacked_by(b, pos, player);
    let theirs = attacked_by(b, pos, opp);
    let diff = (if mine { 1int } else { 0int }) - (if theirs { 1int } else { 0int });
    if diff != 0 {
        let idx = if diff >= 0 { forward_steps(pos, player) } else { forward_steps(pos, opp) };
        let x = rules.pawn_center_bonus + center_forward_bonus(idx) / 2;
        let y = trunc_div(rules.pawn_center_bonus as int, 2) + center_forward_bonus(idx) / 4;
        assert((-diff) * x == -(diff * x)) by (nonlinear_arith);
        assert((-diff) * y == -(diff * y)) by (nonlinear_arith);
    }
}

/// The net drop pressure on the centre is zero-sum.
pub proof fn law_center_drop_zero_sum(b: Board, player: Player, cp: CapturedPieces, rules: PositionalRules)
    ensures
        drop_balance(b, player.other(), cp, rules).0 == -drop_balance(b, player, cp, rules).0,
        drop_balance(b, player.other(), cp, rules).1 == -drop_balance(b, player, cp, rules).1,
{
    assert(player.other().other() == player);
}

} // verus!
