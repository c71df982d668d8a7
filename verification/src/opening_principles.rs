//! Opening principles: development, centre control (occupation, attacks and
//! drop pressure), castle formation, tempo, opening penalties and piece
//! coordination, plus a check of book moves against these principles.

use vstd::prelude::*;
use crate::attacks::{attacks, attacks_square};
use crate::board::{Board, at_home, initial_square, is_home_square, is_kind, king_square, pieces_of, piece_at, sum_over, pair_sum, square_sum};
use crate::types::{CapturedPieces, Move, Piece, PieceType, Player, Position, TaperedScore, trunc_div};

verus! {

// ---------------------------------------------------------------------------
// Model
// ---------------------------------------------------------------------------

/// Largest number of pieces of one kind in one hand that the evaluation
/// accepts; the drop-pressure sums stay within `i32` below it. A legal
/// position holds at most 18 pieces of a kind, so every game position is
/// far inside this bound; it is chosen well below the point where the
/// weighted sums would leave `i32`, not at that point.
pub open spec fn hand_limit() -> u32 {
    1_000_000
}

/// Longest move history the evaluation accepts; the repeated-move penalty
/// stays within `i32` below it. The history is only read in the opening,
/// within the first few dozen moves, so real games stay far below it.
pub open spec fn history_limit() -> nat {
    10_000
}

/// Row on which `player`'s pieces start.
pub open spec fn home_row(player: Player) -> int {
    if player == Player::Black {
        8
    } else {
        0
    }
}

/// A square off `player`'s back rank.
pub open spec fn off_home(p: Position, player: Player) -> bool {
    p.row != home_row(player)
}

pub open spec fn bonus_if_off_home(p: Position, player: Player, bonus: int) -> int {
    if off_home(p, player) {
        bonus
    } else {
        0
    }
}

/// `bonus` for each square of `s` off `player`'s back rank.
pub open spec fn off_home_sum(s: Seq<Position>, player: Player, bonus: int) -> int {
    sum_over(s, |p: Position| bonus_if_off_home(p, player, bonus))
}

/// A piece of kind `pt` on `p` has left its starting square.
pub open spec fn left_start(p: Position, player: Player, pt: PieceType) -> bool {
    !(p.valid() && at_home(Piece { piece_type: pt, player }, p.index()))
}

/// `bonus` for a `pt` on `p` that stands off the back rank and not on its
/// starting square.
pub open spec fn bonus_if_left_start(p: Position, player: Player, pt: PieceType, bonus: int) -> int {
    if off_home(p, player) && left_start(p, player, pt) {
        bonus
    } else {
        0
    }
}

/// `bonus` for each square of `s` whose `pt` stands off the back rank and
/// not on its starting square.
pub open spec fn left_start_sum(s: Seq<Position>, player: Player, pt: PieceType, bonus: int) -> int {
    sum_over(s, |p: Position| bonus_if_left_start(p, player, pt, bonus))
}

/// A rook on its starting square counts nothing; one that left it counts
/// 35 off the back rank, 10 on it away from the corners.
pub open spec fn rook_development(p: Position, player: Player) -> int {
    if !left_start(p, player, PieceType::Rook) {
        0
    } else if off_home(p, player) {
        35
    } else if p.col != 0 && p.col != 8 {
        10
    } else {
        0
    }
}

/// Middlegame value of rook and bishop development.
pub open spec fn major_dev_mg(b: Board, player: Player) -> int {
    sum_over(pieces_of(b, player, PieceType::Rook), |p: Position| rook_development(p, player))
        + left_start_sum(pieces_of(b, player, PieceType::Bishop), player, PieceType::Bishop, 32)
}

/// Middlegame value of silver, gold and knight development.
pub open spec fn minor_dev_mg(b: Board, player: Player) -> int {
    left_start_sum(pieces_of(b, player, PieceType::Silver), player, PieceType::Silver, 22)
        + left_start_sum(pieces_of(b, player, PieceType::Gold), player, PieceType::Gold, 18)
        + left_start_sum(pieces_of(b, player, PieceType::Knight), player, PieceType::Knight, 20)
}

/// Number of rooks, bishops, silvers, golds and knights off the back rank,
/// not counting a rook or bishop still on its starting square.
pub open spec fn developed_count(b: Board, player: Player) -> int {
    left_start_sum(pieces_of(b, player, PieceType::Rook), player, PieceType::Rook, 1)
        + left_start_sum(pieces_of(b, player, PieceType::Bishop), player, PieceType::Bishop, 1)
        + left_start_sum(pieces_of(b, player, PieceType::Silver), player, PieceType::Silver, 1)
        + left_start_sum(pieces_of(b, player, PieceType::Gold), player, PieceType::Gold, 1)
        + left_start_sum(pieces_of(b, player, PieceType::Knight), player, PieceType::Knight, 1)
}

proof fn lemma_home_pieces_count_nothing(b: Board, player: Player, pt: PieceType, bonus: int)
    requires
        forall|i: int| 0 <= i < 81 ==> #[trigger] b.squares@[i] == initial_square(i),
    ensures
        left_start_sum(pieces_of(b, player, pt), player, pt, bonus) == 0,
        pt == PieceType::Rook ==> sum_over(pieces_of(b, player, pt), |p: Position| rook_development(p, player)) == 0,
{
    let s = pieces_of(b, player, pt);
    crate::board::lemma_pieces_upto(b, player, pt, 81);
    assert forall|k: int| 0 <= k < s.len() implies !left_start(#[trigger] s[k], player, pt) by {
        let p = s[k];
        assert(p.valid());
        assert(b.squares@[p.index()] == initial_square(p.index()));
    }
    lemma_sum_over_zero(s, |p: Position| bonus_if_left_start(p, player, pt, bonus), player, pt);
    if pt == PieceType::Rook {
        lemma_sum_over_zero(s, |p: Position| rook_development(p, player), player, pt);
    }
}

proof fn lemma_sum_over_zero(s: Seq<Position>, f: spec_fn(Position) -> int, player: Player, pt: PieceType)
    requires
        forall|k: int| 0 <= k < s.len() ==> !left_start(#[trigger] s[k], player, pt),
        forall|p: Position| !left_start(p, player, pt) ==> #[trigger] f(p) == 0,
    ensures
        sum_over(s, f) == 0,
    decreases s.len(),
{
    if s.len() > 0 {
        assert(!left_start(s[s.len() - 1], player, pt));
        lemma_sum_over_zero(s.drop_last(), f, player, pt);
    }
}

/// In the initial position no piece has left its starting square: nothing
/// counts as developed and major and minor development are zero.
pub proof fn law_initial_position_undeveloped(b: Board, player: Player)
    requires
        forall|i: int| 0 <= i < 81 ==> #[trigger] b.squares@[i] == initial_square(i),
    ensures
        developed_count(b, player) == 0,
        major_dev_mg(b, player) == 0,
        minor_dev_mg(b, player) == 0,
{
    lemma_home_pieces_count_nothing(b, player, PieceType::Rook, 1);
    lemma_home_pieces_count_nothing(b, player, PieceType::Bishop, 1);
    lemma_home_pieces_count_nothing(b, player, PieceType::Bishop, 32);
    lemma_home_pieces_count_nothing(b, player, PieceType::Silver, 1);
    lemma_home_pieces_count_nothing(b, player, PieceType::Silver, 22);
    lemma_home_pieces_count_nothing(b, player, PieceType::Gold, 1);
    lemma_home_pieces_count_nothing(b, player, PieceType::Gold, 18);
    lemma_home_pieces_count_nothing(b, player, PieceType::Knight, 1);
    lemma_home_pieces_count_nothing(b, player, PieceType::Knight, 20);
}

/// Development score: major and minor development, and while the game is
/// at most ten moves old 15 per developed piece (a third of it endgame).
#[verifier::opaque]
pub open spec fn development(b: Board, player: Player, move_count: u32) -> (int, int) {
    let major = major_dev_mg(b, player);
    let minor = minor_dev_mg(b, player);
    let tempo = if move_count <= 10 {
        developed_count(b, player) * 15
    } else {
        0
    };
    (major + minor + tempo, major / 4 + minor / 4 + tempo / 3)
}

/// Value of occupying a centre square with a piece of the kind.
pub open spec fn center_value(pt: PieceType) -> int {
    match pt {
        PieceType::Pawn => 20,
        PieceType::Knight => 35,
        PieceType::Silver => 30,
        PieceType::Gold => 28,
        PieceType::Bishop => 40,
        PieceType::Rook => 38,
        _ => 15,
    }
}

pub open spec fn core_center() -> Position {
    Position { row: 4, col: 4 }
}

/// The nine centre squares: the core first, then its four neighbours on
/// the file and rank, then the four diagonal ones.
pub open spec fn center_squares() -> Seq<Position> {
    seq![
        Position { row: 4, col: 4 },
        Position { row: 3, col: 4 },
        Position { row: 5, col: 4 },
        Position { row: 4, col: 3 },
        Position { row: 4, col: 5 },
        Position { row: 3, col: 3 },
        Position { row: 3, col: 5 },
        Position { row: 5, col: 3 },
        Position { row: 5, col: 5 },
    ]
}

/// Weight of a piece standing on a centre square: full on the core,
/// two thirds elsewhere.
pub open spec fn occupant_weight(c: Position, pt: PieceType) -> int {
    if c == core_center() {
        center_value(pt)
    } else {
        center_value(pt) * 2 / 3
    }
}

/// Signed occupation value of a centre square for `player`.
pub open spec fn occupation_mg(b: Board, player: Player, c: Position) -> int {
    match piece_at(b, c.row as int, c.col as int) {
        Some(pc) => if pc.player == player {
            occupant_weight(c, pc.piece_type)
        } else {
            -occupant_weight(c, pc.piece_type)
        },
        None => 0,
    }
}

pub open spec fn occupation_eg(b: Board, player: Player, c: Position) -> int {
    match piece_at(b, c.row as int, c.col as int) {
        Some(pc) => if pc.player == player {
            occupant_weight(c, pc.piece_type) / 3
        } else {
            -(occupant_weight(c, pc.piece_type) / 3)
        },
        None => 0,
    }
}

/// Kinds whose attacks on the centre are counted.
pub open spec fn center_attacker_kind(pt: PieceType) -> bool {
    pt == PieceType::Rook || pt == PieceType::Bishop || pt == PieceType::Silver || pt == PieceType::Gold
        || pt == PieceType::Knight || pt == PieceType::Lance
}

/// The square with index `i` holds a piece of `side` of a counted kind that
/// attacks `c`.
pub open spec fn attacks_center_from(b: Board, side: Player, i: int, c: Position) -> bool {
    match b.squares@[i] {
        Some(pc) => pc.player == side && center_attacker_kind(pc.piece_type) && attacks(
            b,
            Position::at_index(i),
            pc.piece_type,
            side,
            c,
        ),
        None => false,
    }
}

/// Number of counted pieces of `side` attacking `c`.
pub open spec fn attackers_of(b: Board, side: Player, c: Position) -> int {
    square_sum(|i: int| if attacks_center_from(b, side, i, c) { 1int } else { 0int }, 81)
}

pub open spec fn attack_value(b: Board, player: Player, c: Position) -> int {
    let diff = attackers_of(b, player, c) - attackers_of(b, player.other(), c);
    if c == core_center() {
        diff * 8
    } else {
        diff * 5
    }
}

/// Centre control from attacks on the nine centre squares.
#[verifier::opaque]
pub open spec fn attack_control(b: Board, player: Player) -> (int, int) {
    (
        sum_over(center_squares(), |c: Position| attack_value(b, player, c)),
        sum_over(center_squares(), |c: Position| trunc_div(attack_value(b, player, c), 4)),
    )
}

/// Centre control in the opening: occupation of the centre squares, plus
/// attacks on them when that part is enabled.
#[verifier::opaque]
pub open spec fn center_control(b: Board, player: Player, with_attacks: bool) -> (int, int) {
    let occ_mg = sum_over(center_squares(), |c: Position| occupation_mg(b, player, c));
    let occ_eg = sum_over(center_squares(), |c: Position| occupation_eg(b, player, c));
    if with_attacks {
        (occ_mg + attack_control(b, player).0, occ_eg + attack_control(b, player).1)
    } else {
        (occ_mg, occ_eg)
    }
}

/// Some square of `targets` is attacked by a `pt` of `side` standing on `from`.
pub open spec fn attacks_any(b: Board, from: Position, pt: PieceType, side: Player, targets: Seq<Position>) -> bool
    decreases targets.len(),
{
    if targets.len() == 0 {
        false
    } else {
        attacks_any(b, from, pt, side, targets.drop_last()) || attacks(b, from, pt, side, targets.last())
    }
}

pub open spec fn drop_term(b: Board, hand: CapturedPieces, side: Player, c: Position, pt: PieceType) -> int {
    if hand.hand(pt, side) > 0 && attacks_any(b, c, pt, side, center_squares()) {
        hand.hand(pt, side) as int
    } else {
        0
    }
}

pub open spec fn drop_pressure_of(b: Board, hand: CapturedPieces, side: Player, c: Position) -> int {
    drop_term(b, hand, side, c, PieceType::Bishop) + drop_term(b, hand, side, c, PieceType::Rook)
        + drop_term(b, hand, side, c, PieceType::Silver) + drop_term(b, hand, side, c, PieceType::Gold)
        + drop_term(b, hand, side, c, PieceType::Knight)
}

/// Pressure on an empty centre square from pieces each side could drop
/// there (a piece counts when, dropped on the square, it would attack some
/// centre square).
pub open spec fn drop_value(b: Board, hand: CapturedPieces, player: Player, c: Position) -> int {
    if piece_at(b, c.row as int, c.col as int).is_some() {
        0
    } else {
        let diff = drop_pressure_of(b, hand, player, c) - drop_pressure_of(b, hand, player.other(), c);
        if c == core_center() {
            diff * 6
        } else {
            diff * 4
        }
    }
}

#[verifier::opaque]
pub open spec fn drop_pressure(b: Board, hand: CapturedPieces, player: Player) -> (int, int) {
    (
        sum_over(center_squares(), |c: Position| drop_value(b, hand, player, c)),
        sum_over(center_squares(), |c: Position| trunc_div(drop_value(b, hand, player, c), 4)),
    )
}

/// Black castles in the two bottom corners, White in the two top ones.
pub open spec fn castle_square(p: Position, player: Player) -> bool {
    if player == Player::Black {
        p.row >= 7 && (p.col <= 2 || p.col >= 6)
    } else {
        p.row <= 1 && (p.col <= 2 || p.col >= 6)
    }
}

/// Castle squares are colour-symmetric and lie on the owner's side: a White
/// king on `(r, c)` is castled exactly when a Black king on `(8 - r, 8 - c)`
/// is, and a king is castled exactly when it stands within one rank of its
/// own back rank and within three files of an edge of the board.
pub proof fn law_castle_squares_symmetric(p: Position)
    requires
        p.valid(),
    ensures
        castle_square(p, Player::White) == castle_square(
            Position { row: (8 - p.row) as u8, col: (8 - p.col) as u8 },
            Player::Black,
        ),
        forall|player: Player|
            #[trigger] castle_square(p, player) <==> -1 <= p.row - home_row(player) <= 1 && (p.col < 3 || p.col > 5),
{
}

pub open spec fn abs_diff(a: int, b: int) -> int {
    if a >= b {
        a - b
    } else {
        b - a
    }
}

/// `p` lies within two files and two ranks of `k`.
pub open spec fn within_two(p: Position, k: Position) -> bool {
    abs_diff(p.row as int, k.row as int) <= 2 && abs_diff(p.col as int, k.col as int) <= 2
}

/// `p` is one of the three squares directly in front of `k`.
pub open spec fn shields(p: Position, k: Position, player: Player) -> bool {
    let dir = if player == Player::Black {
        -1int
    } else {
        1int
    };
    p.row == k.row + dir && abs_diff(p.col as int, k.col as int) <= 1
}

/// Number of squares of `s` within two files and ranks of `k`.
pub open spec fn near_count(s: Seq<Position>, k: Position) -> int {
    sum_over(s, |p: Position| if within_two(p, k) { 1int } else { 0int })
}

/// Number of squares of `s` directly in front of `k`.
pub open spec fn shield_count(s: Seq<Position>, k: Position, player: Player) -> int {
    sum_over(s, |p: Position| if shields(p, k, player) { 1int } else { 0int })
}

/// Castle formation: 40 for a castled king, 25 per gold and 22 per silver
/// near the king, 20 per pawn in front of it; nothing without a king.
#[verifier::opaque]
pub open spec fn castle_formation(b: Board, player: Player) -> (int, int) {
    match king_square(b, player) {
        Some(k) => {
            let mg = (if castle_square(k, player) { 40int } else { 0int })
                + 25 * near_count(pieces_of(b, player, PieceType::Gold), k)
                + 22 * near_count(pieces_of(b, player, PieceType::Silver), k)
                + 20 * shield_count(pieces_of(b, player, PieceType::Pawn), k, player);
            (mg, mg / 4)
        },
        None => (0, 0),
    }
}

/// A non-king piece of `player` on square `i` away from its back rank.
pub open spec fn active_at(b: Board, player: Player, i: int) -> bool {
    match b.squares@[i] {
        Some(pc) => pc.player == player && pc.piece_type != PieceType::King && (i / 9 != home_row(player)
            || (3 <= i / 9 <= 5)),
        None => false,
    }
}

pub open spec fn active_count(b: Board, player: Player) -> int {
    square_sum(|i: int| if active_at(b, player, i) { 1int } else { 0int }, 81)
}

/// Tempo: 10 for the move, 20 per developed piece of lead while the game is
/// at most fifteen moves old, 12 per active piece of lead.
#[verifier::opaque]
pub open spec fn tempo(b: Board, player: Player, move_count: u32) -> (int, int) {
    let ours = developed_count(b, player);
    let theirs = developed_count(b, player.other());
    let lead = if move_count <= 15 && ours > theirs {
        (ours - theirs) * 20
    } else {
        0
    };
    let act_ours = active_count(b, player);
    let act_theirs = active_count(b, player.other());
    let activity = if act_ours > act_theirs {
        (act_ours - act_theirs) * 12
    } else {
        0
    };
    let mg = 10 + lead + activity;
    (mg, mg / 5)
}

/// Earlier moves of `player` in `h[0..j]` that moved the same piece kind
/// from the same square as `m`.
pub open spec fn earlier_same_piece(h: Seq<Move>, j: int, m: Move) -> int
    decreases j,
{
    if j <= 0 {
        0
    } else {
        earlier_same_piece(h, j - 1, m) + if h[j - 1].player == m.player && h[j - 1].from == m.from
            && h[j - 1].piece_type == m.piece_type {
            1int
        } else {
            0int
        }
    }
}

/// Penalty over the first `j` moves: each move of `player` costs 15 for
/// every earlier move of the same piece.
pub open spec fn repeat_penalty_upto(h: Seq<Move>, player: Player, j: int) -> int
    decreases j,
{
    if j <= 0 {
        0
    } else {
        repeat_penalty_upto(h, player, j - 1) + if h[j - 1].player == player {
            15 * earlier_same_piece(h, j - 1, h[j - 1])
        } else {
            0
        }
    }
}

pub open spec fn repeat_penalty(h: Seq<Move>, player: Player) -> int {
    repeat_penalty_upto(h, player, h.len() as int)
}

/// Opening penalties (as a positive amount) while the game is at most ten
/// moves old: repeated moves of one piece, no developed rook from move 8,
/// no developed bishop from move 6, a king off its back rank outside a
/// castle.
pub open spec fn penalty_amount(b: Board, player: Player, move_count: u32, history: Option<Seq<Move>>) -> int {
    if move_count > 10 {
        0
    } else {
        let repeated = match history {
            Some(h) => repeat_penalty(h, player),
            None => 0,
        };
        let rooks = off_home_sum(pieces_of(b, player, PieceType::Rook), player, 1);
        let bishops = off_home_sum(pieces_of(b, player, PieceType::Bishop), player, 1);
        let rook_pen = if rooks == 0 && move_count >= 8 {
            30int
        } else {
            0int
        };
        let bishop_pen = if bishops == 0 && move_count >= 6 {
            25int
        } else {
            0int
        };
        let king_pen = match king_square(b, player) {
            Some(k) => if off_home(k, player) && !castle_square(k, player) {
                40int
            } else {
                0int
            },
            None => 0int,
        };
        repeated + rook_pen + bishop_pen + king_pen
    }
}

#[verifier::opaque]
pub open spec fn penalties(b: Board, player: Player, move_count: u32, history: Option<Seq<Move>>) -> (int, int) {
    let p = penalty_amount(b, player, move_count, history);
    (-p, -(p / 5))
}

/// Two squares share a diagonal (in either direction).
pub open spec fn same_diagonal(a: Position, c: Position) -> bool {
    abs_diff(a.row as int, c.row as int) == abs_diff(a.col as int, c.col as int) || a.row + a.col == c.row
        + c.col
}

/// Manhattan distance between two squares.
pub open spec fn manhattan(a: Position, c: Position) -> int {
    abs_diff(a.row as int, c.row as int) + abs_diff(a.col as int, c.col as int)
}

pub open spec fn central_file(p: Position) -> bool {
    2 <= p.col <= 6
}

pub open spec fn rook_lance(r: Position, l: Position, player: Player) -> int {
    if r.col == l.col && off_home(r, player) && off_home(l, player) {
        25
    } else {
        0
    }
}

pub open spec fn bishop_lance(bp: Position, l: Position, player: Player) -> int {
    if same_diagonal(bp, l) && off_home(bp, player) && off_home(l, player) {
        20
    } else {
        0
    }
}

pub open spec fn gold_silver(g: Position, s: Position, k: Position) -> int {
    if manhattan(g, k) <= 2 && manhattan(s, k) <= 2 && manhattan(g, s) <= 2 {
        15
    } else {
        0
    }
}

pub open spec fn rook_bishop(r: Position, bp: Position, player: Player) -> int {
    if off_home(r, player) && off_home(bp, player) && (central_file(r) || central_file(bp)) {
        18
    } else {
        0
    }
}

pub open spec fn rook_support(r: Position, p: Position, player: Player, bonus: int) -> int {
    if off_home(r, player) && off_home(p, player) && p.col == r.col {
        bonus
    } else {
        0
    }
}

/// Piece coordination: rook-lance batteries, bishop-lance diagonals,
/// gold-silver pairs by the king, developed rook-bishop pairs and a
/// developed rook behind developed silvers and golds on its file.
pub open spec fn coordination_mg(b: Board, player: Player) -> int {
    let rooks = pieces_of(b, player, PieceType::Rook);
    let lances = pieces_of(b, player, PieceType::Lance);
    let bishops = pieces_of(b, player, PieceType::Bishop);
    let golds = pieces_of(b, player, PieceType::Gold);
    let silvers = pieces_of(b, player, PieceType::Silver);
    let pairs = match king_square(b, player) {
        Some(k) => pair_sum(golds, silvers, |g: Position, s: Position| gold_silver(g, s, k)),
        None => 0,
    };
    pair_sum(rooks, lances, |r: Position, l: Position| rook_lance(r, l, player)) + pair_sum(
        bishops,
        lances,
        |bp: Position, l: Position| bishop_lance(bp, l, player),
    ) + pairs + pair_sum(rooks, bishops, |r: Position, bp: Position| rook_bishop(r, bp, player))
        + pair_sum(rooks, silvers, |r: Position, s: Position| rook_support(r, s, player, 12)) + pair_sum(
        rooks,
        golds,
        |r: Position, g: Position| rook_support(r, g, player, 10),
    )
}

#[verifier::opaque]
pub open spec fn coordination(b: Board, player: Player) -> (int, int) {
    let mg = coordination_mg(b, player);
    (mg, mg / 4)
}

} // verus!

verus! {

fn home_row_of(player: Player) -> (r: u8)
    ensures
        r == home_row(player),
{
    match player {
        Player::Black => 8,
        Player::White => 0,
    }
}

/// `bonus` for each square of `v` off `player`'s back rank.
fn off_home_total(v: &Vec<Position>, player: Player, bonus: i32) -> (r: i32)
    requires
        v.len() <= 81,
        0 <= bonus <= 100,
    ensures
        r == off_home_sum(v@, player, bonus as int),
        0 <= r <= 100 * v.len(),
{
    let home = home_row_of(player);
    let mut acc: i32 = 0;
    let mut k: usize = 0;
    while k < v.len()
        invariant
            k <= v.len(),
            v.len() <= 81,
            0 <= bonus <= 100,
            home == home_row(player),
            acc == off_home_sum(v@.take(k as int), player, bonus as int),
            0 <= acc <= 100 * k,
        decreases v.len() - k,
    {
        proof {
            crate::board::lemma_sum_take(v@, |p: Position| bonus_if_off_home(p, player, bonus as int), k as int);
        }
        if v[k].row != home {
            acc += bonus;
        }
        k += 1;
    }
    proof {
        crate::board::lemma_take_all(v@);
    }
    acc
}

fn has_left_start(p: Position, player: Player, pt: PieceType) -> (r: bool)
    ensures
        r == left_start(p, player, pt),
{
    if p.row < 9 && p.col < 9 {
        !is_home_square(Piece::new(pt, player), (p.row as usize) * 9 + p.col as usize)
    } else {
        true
    }
}

/// `bonus` for each square of `v` whose `pt` stands off the back rank and
/// not on its starting square.
fn left_start_total(v: &Vec<Position>, player: Player, pt: PieceType, bonus: i32) -> (r: i32)
    requires
        v.len() <= 81,
        0 <= bonus <= 100,
    ensures
        r == left_start_sum(v@, player, pt, bonus as int),
        0 <= r <= 100 * v.len(),
{
    let home = home_row_of(player);
    let mut acc: i32 = 0;
    let mut k: usize = 0;
    while k < v.len()
        invariant
            k <= v.len(),
            v.len() <= 81,
            0 <= bonus <= 100,
            home == home_row(player),
            acc == left_start_sum(v@.take(k as int), player, pt, bonus as int),
            0 <= acc <= 100 * k,
        decreases v.len() - k,
    {
        proof {
            crate::board::lemma_sum_take(v@, |p: Position| bonus_if_left_start(p, player, pt, bonus as int), k as int);
        }
        if v[k].row != home && has_left_start(v[k], player, pt) {
            acc += bonus;
        }
        k += 1;
    }
    proof {
        crate::board::lemma_take_all(v@);
    }
    acc
}

} // verus!

verus! {

/// Switches for the parts of the opening evaluation.
#[derive(Clone, Copy, Debug, PartialEq, Eq, Structural)]
pub struct OpeningPrincipleConfig {
    pub enable_development: bool,
    pub enable_center_control: bool,
    pub enable_castle_formation: bool,
    pub enable_tempo: bool,
    pub enable_opening_penalties: bool,
    /// Rook-lance batteries, bishop-lance diagonals and similar pairs.
    pub enable_piece_coordination: bool,
    /// Count attacks on the centre, not only pieces standing there.
    pub enable_attack_based_center_control: bool,
    /// Count pressure on the centre from pieces in hand.
    pub enable_drop_pressure_evaluation: bool,
}

impl OpeningPrincipleConfig {
    pub open spec fn all_enabled() -> Self {
        OpeningPrincipleConfig {
            enable_development: true,
            enable_center_control: true,
            enable_castle_formation: true,
            enable_tempo: true,
            enable_opening_penalties: true,
            enable_piece_coordination: true,
            enable_attack_based_center_control: true,
            enable_drop_pressure_evaluation: true,
        }
    }
}

impl Default for OpeningPrincipleConfig {
    /// Every part enabled.
    fn default() -> (r: Self)
        ensures
            r == OpeningPrincipleConfig::all_enabled(),
    {
        OpeningPrincipleConfig {
            enable_development: true,
            enable_center_control: true,
            enable_castle_formation: true,
            enable_tempo: true,
            enable_opening_penalties: true,
            enable_piece_coordination: true,
            enable_attack_based_center_control: true,
            enable_drop_pressure_evaluation: true,
        }
    }
}

/// Counters and running sums of the opening evaluation.
#[derive(Clone, Copy, Debug)]
pub struct OpeningPrincipleStats {
    pub evaluations: u64,
    pub book_moves_evaluated: u64,
    pub book_moves_prioritized: u64,
    pub book_moves_validated: u64,
    /// Sum of the book move quality scores.
    pub book_move_quality_scores: i64,
    pub development_score: i64,
    pub center_control_score: i64,
    pub castle_formation_score: i64,
    pub tempo_score: i64,
    pub penalties_score: i64,
    pub piece_coordination_score: i64,
    pub development_evaluations: u64,
    pub center_control_evaluations: u64,
    pub castle_formation_evaluations: u64,
    pub tempo_evaluations: u64,
    pub penalties_evaluations: u64,
    pub piece_coordination_evaluations: u64,
    pub opening_principles_influenced_move: u64,
    pub moves_influenced_by_development: u64,
    pub moves_influenced_by_center_control: u64,
    pub moves_influenced_by_castle_formation: u64,
    pub moves_influenced_by_tempo: u64,
    pub moves_influenced_by_penalties: u64,
    pub moves_influenced_by_piece_coordination: u64,
}

impl OpeningPrincipleStats {
    pub open spec fn zeroed() -> Self {
        OpeningPrincipleStats {
            evaluations: 0,
            book_moves_evaluated: 0,
            book_moves_prioritized: 0,
            book_moves_validated: 0,
            book_move_quality_scores: 0,
            development_score: 0,
            center_control_score: 0,
            castle_formation_score: 0,
            tempo_score: 0,
            penalties_score: 0,
            piece_coordination_score: 0,
            development_evaluations: 0,
            center_control_evaluations: 0,
            castle_formation_evaluations: 0,
            tempo_evaluations: 0,
            penalties_evaluations: 0,
            piece_coordination_evaluations: 0,
            opening_principles_influenced_move: 0,
            moves_influenced_by_development: 0,
            moves_influenced_by_center_control: 0,
            moves_influenced_by_castle_formation: 0,
            moves_influenced_by_tempo: 0,
            moves_influenced_by_penalties: 0,
            moves_influenced_by_piece_coordination: 0,
        }
    }
}

impl Default for OpeningPrincipleStats {
    /// All counters and sums at zero.
    fn default() -> (r: Self)
        ensures
            r == OpeningPrincipleStats::zeroed(),
    {
        OpeningPrincipleStats {
            evaluations: 0,
            book_moves_evaluated: 0,
            book_moves_prioritized: 0,
            book_moves_validated: 0,
            book_move_quality_scores: 0,
            development_score: 0,
            center_control_score: 0,
            castle_formation_score: 0,
            tempo_score: 0,
            penalties_score: 0,
            piece_coordination_score: 0,
            development_evaluations: 0,
            center_control_evaluations: 0,
            castle_formation_evaluations: 0,
            tempo_evaluations: 0,
            penalties_evaluations: 0,
            piece_coordination_evaluations: 0,
            opening_principles_influenced_move: 0,
            moves_influenced_by_development: 0,
            moves_influenced_by_center_control: 0,
            moves_influenced_by_castle_formation: 0,
            moves_influenced_by_tempo: 0,
            moves_influenced_by_penalties: 0,
            moves_influenced_by_piece_coordination: 0,
        }
    }
}

/// Evaluates how well a position follows opening principles.
pub struct OpeningPrincipleEvaluator {
    pub config: OpeningPrincipleConfig,
    pub stats: OpeningPrincipleStats,
}

/// Sum of the rook development values over `v`.
fn rook_dev_total(v: &Vec<Position>, player: Player) -> (r: i32)
    requires
        v.len() <= 81,
    ensures
        r == sum_over(v@, |p: Position| rook_development(p, player)),
        0 <= r <= 35 * v.len(),
{
    let home = home_row_of(player);
    let mut acc: i32 = 0;
    let mut k: usize = 0;
    while k < v.len()
        invariant
            k <= v.len(),
            v.len() <= 81,
            home == home_row(player),
            acc == sum_over(v@.take(k as int), |p: Position| rook_development(p, player)),
            0 <= acc <= 35 * k,
        decreases v.len() - k,
    {
        proof {
            crate::board::lemma_sum_take(v@, |p: Position| rook_development(p, player), k as int);
        }
        let p = v[k];
        if !has_left_start(p, player, PieceType::Rook) {
        } else if p.row != home {
            acc += 35;
        } else if p.col != 0 && p.col != 8 {
            acc += 10;
        }
        k += 1;
    }
    proof {
        crate::board::lemma_take_all(v@);
    }
    acc
}

impl OpeningPrincipleEvaluator {
    /// An evaluator with every part enabled and zeroed statistics.
    pub fn new() -> (r: Self)
        ensures
            r.config == OpeningPrincipleConfig::all_enabled(),
            r.stats == OpeningPrincipleStats::zeroed(),
    {
        OpeningPrincipleEvaluator { config: OpeningPrincipleConfig::default(), stats: OpeningPrincipleStats::default() }
    }

    /// An evaluator with the given switches and zeroed statistics.
    pub fn with_config(config: OpeningPrincipleConfig) -> (r: Self)
        ensures
            r.config == config,
            r.stats == OpeningPrincipleStats::zeroed(),
    {
        OpeningPrincipleEvaluator { config, stats: OpeningPrincipleStats::default() }
    }

    /// Rook and bishop development, not counting a piece still on its
    /// starting square: 35 per rook off the back rank (10 for one on it away
    /// from the corners), 32 per bishop off it; a quarter of that in the
    /// endgame.
    pub fn evaluate_major_piece_development(&self, board: &Board, player: Player) -> (r: TaperedScore)
        ensures
            r.mg == major_dev_mg(*board, player),
            r.eg == major_dev_mg(*board, player) / 4,
            0 <= r.mg <= 200 * 81,
    {
        let rooks = board.find_pieces(player, PieceType::Rook);
        let bishops = board.find_pieces(player, PieceType::Bishop);
        let mg = rook_dev_total(&rooks, player) + left_start_total(&bishops, player, PieceType::Bishop, 32);
        TaperedScore::new_tapered(mg, mg / 4)
    }

    /// Silver (22), gold (18) and knight (20) development for each off the
    /// back rank; a quarter of it in the endgame.
    pub fn evaluate_minor_piece_development(&self, board: &Board, player: Player) -> (r: TaperedScore)
        ensures
            r.mg == minor_dev_mg(*board, player),
            r.eg == minor_dev_mg(*board, player) / 4,
            0 <= r.mg <= 300 * 81,
    {
        let silvers = board.find_pieces(player, PieceType::Silver);
        let golds = board.find_pieces(player, PieceType::Gold);
        let knights = board.find_pieces(player, PieceType::Knight);
        let mg = left_start_total(&silvers, player, PieceType::Silver, 22) + left_start_total(
            &golds,
            player,
            PieceType::Gold,
            18,
        ) + left_start_total(&knights, player, PieceType::Knight, 20);
        TaperedScore::new_tapered(mg, mg / 4)
    }

    /// Number of rooks, bishops, silvers, golds and knights off the back
    /// rank, not counting a rook or bishop still on its starting square.
    pub fn count_developed_pieces(&self, board: &Board, player: Player) -> (r: i32)
        ensures
            r == developed_count(*board, player),
            0 <= r <= 500 * 81,
    {
        let rooks = board.find_pieces(player, PieceType::Rook);
        let bishops = board.find_pieces(player, PieceType::Bishop);
        let silvers = board.find_pieces(player, PieceType::Silver);
        let golds = board.find_pieces(player, PieceType::Gold);
        let knights = board.find_pieces(player, PieceType::Knight);
        let a = left_start_total(&rooks, player, PieceType::Rook, 1);
        let b = left_start_total(&bishops, player, PieceType::Bishop, 1);
        let c = left_start_total(&silvers, player, PieceType::Silver, 1);
        let d = left_start_total(&golds, player, PieceType::Gold, 1);
        let e = left_start_total(&knights, player, PieceType::Knight, 1);
        a + b + c + d + e
    }

    /// Development: major and minor development plus, while the game is at
    /// most ten moves old, 15 per developed piece (a third in the endgame).
    pub fn evaluate_development(&self, board: &Board, player: Player, move_count: u32) -> (r: TaperedScore)
        ensures
            r.mg == development(*board, player, move_count).0,
            r.eg == development(*board, player, move_count).1,
            0 <= r.mg <= 1_000_000,
            0 <= r.eg <= 1_000_000,
    {
        proof {
            reveal(development);
        }
        let major = self.evaluate_major_piece_development(board, player);
        let minor = self.evaluate_minor_piece_development(board, player);
        let mut mg = major.mg + minor.mg;
        let mut eg = major.eg + minor.eg;
        if move_count <= 10 {
            let developed = self.count_developed_pieces(board, player);
            let bonus = developed * 15;
            mg += bonus;
            eg += bonus / 3;
        }
        TaperedScore::new_tapered(mg, eg)
    }
}

} // verus!

verus! {

/// The nine centre squares, in the order of `center_squares`.
pub fn center_positions() -> (r: [Position; 9])
    ensures
        r@ == center_squares(),
{
    let r = [
        Position::new(4, 4),
        Position::new(3, 4),
        Position::new(5, 4),
        Position::new(4, 3),
        Position::new(4, 5),
        Position::new(3, 3),
        Position::new(3, 5),
        Position::new(5, 3),
        Position::new(5, 5),
    ];
    assert(r@ =~= center_squares());
    r
}

fn is_center_attacker(pt: PieceType) -> (r: bool)
    ensures
        r == center_attacker_kind(pt),
{
    match pt {
        PieceType::Rook | PieceType::Bishop | PieceType::Silver | PieceType::Gold | PieceType::Knight
        | PieceType::Lance => true,
        _ => false,
    }
}

/// Number of counted pieces of `side` attacking `c`.
fn count_center_attackers(board: &Board, side: Player, c: Position) -> (r: i32)
    requires
        c.valid(),
    ensures
        r == attackers_of(*board, side, c),
        0 <= r <= 81,
{
    let ghost f = |i: int| if attacks_center_from(*board, side, i, c) { 1int } else { 0int };
    let mut acc: i32 = 0;
    let mut i: usize = 0;
    while i < 81
        invariant
            i <= 81,
            c.valid(),
            f == (|i: int| if attacks_center_from(*board, side, i, c) { 1int } else { 0int }),
            acc == square_sum(f, i as int),
            0 <= acc <= i,
        decreases 81 - i,
    {
        match board.squares[i] {
            Some(pc) => {
                if pc.player == side && is_center_attacker(pc.piece_type) && attacks_square(
                    board,
                    Position::from_index(i),
                    pc.piece_type,
                    side,
                    c,
                ) {
                    acc += 1;
                }
            },
            None => {},
        }
        i += 1;
    }
    acc
}

/// `v / 4` rounded toward zero.
fn quarter(v: i32) -> (r: i32)
    ensures
        r == trunc_div(v as int, 4),
        v >= 0 ==> 0 <= r <= v,
        v < 0 ==> v <= r <= 0,
{
    crate::types::div_trunc(v as i64, 4) as i32
}

/// A `pt` of `side` dropped on `from` would attack some centre square.
fn attacks_some_center(board: &Board, from: Position, pt: PieceType, side: Player) -> (r: bool)
    requires
        from.valid(),
    ensures
        r == attacks_any(*board, from, pt, side, center_squares()),
{
    let centers = center_positions();
    let mut found = false;
    let mut k: usize = 0;
    while k < 9
        invariant
            k <= 9,
            from.valid(),
            centers@ == center_squares(),
            found == attacks_any(*board, from, pt, side, center_squares().take(k as int)),
        decreases 9 - k,
    {
        assert(center_squares().take(k as int + 1).drop_last() =~= center_squares().take(k as int));
        let hit = attacks_square(board, from, pt, side, centers[k]);
        found = found || hit;
        k += 1;
    }
    assert(center_squares().take(9) =~= center_squares());
    found
}

/// Pieces of one kind in `side`'s hand that would press on the centre if
/// dropped on `c`.
fn drop_count(board: &Board, captured: &CapturedPieces, side: Player, c: Position, pt: PieceType) -> (r: i32)
    requires
        c.valid(),
        captured.counts_at_most(hand_limit()),
    ensures
        r == drop_term(*board, *captured, side, c, pt),
        0 <= r <= 1_000_000,
{
    let count = captured.count(pt, side);
    if count > 0 && attacks_some_center(board, c, pt, side) {
        count as i32
    } else {
        0
    }
}

fn drop_pressure_at(board: &Board, captured: &CapturedPieces, side: Player, c: Position) -> (r: i32)
    requires
        c.valid(),
        captured.counts_at_most(hand_limit()),
    ensures
        r == drop_pressure_of(*board, *captured, side, c),
        0 <= r <= 5_000_000,
{
    drop_count(board, captured, side, c, PieceType::Bishop) + drop_count(board, captured, side, c, PieceType::Rook)
        + drop_count(board, captured, side, c, PieceType::Silver) + drop_count(
        board,
        captured,
        side,
        c,
        PieceType::Gold,
    ) + drop_count(board, captured, side, c, PieceType::Knight)
}

impl OpeningPrincipleEvaluator {
    /// Value of a piece kind standing in the centre.
    pub fn get_opening_center_value(&self, piece_type: PieceType) -> (r: i32)
        ensures
            r == center_value(piece_type),
    {
        match piece_type {
            PieceType::Pawn => 20,
            PieceType::Knight => 35,
            PieceType::Silver => 30,
            PieceType::Gold => 28,
            PieceType::Bishop => 40,
            PieceType::Rook => 38,
            _ => 15,
        }
    }

    /// Centre control from attacks: for each centre square, 8 (core) or 5
    /// per counted attacker of `player` minus those of the opponent; a
    /// quarter of each square's value in the endgame.
    pub fn evaluate_center_control_via_attacks(&self, board: &Board, player: Player) -> (r: TaperedScore)
        ensures
            r.mg == attack_control(*board, player).0,
            r.eg == attack_control(*board, player).1,
            -6000 <= r.mg <= 6000,
            -6000 <= r.eg <= 6000,
    {
        proof {
            reveal(attack_control);
        }
        let centers = center_positions();
        let opponent = player.opposite();
        let mut mg: i32 = 0;
        let mut eg: i32 = 0;
        let mut k: usize = 0;
        while k < 9
            invariant
                k <= 9,
                centers@ == center_squares(),
                opponent == player.other(),
                mg == sum_over(center_squares().take(k as int), |c: Position| attack_value(*board, player, c)),
                eg == sum_over(
                    center_squares().take(k as int),
                    |c: Position| trunc_div(attack_value(*board, player, c), 4),
                ),
                -648 * k <= mg <= 648 * k,
                -648 * k <= eg <= 648 * k,
            decreases 9 - k,
        {
            proof {
                crate::board::lemma_sum_take(center_squares(), |c: Position| attack_value(*board, player, c), k as int);
                crate::board::lemma_sum_take(
                    center_squares(),
                    |c: Position| trunc_div(attack_value(*board, player, c), 4),
                    k as int,
                );
            }
            let c = centers[k];
            let ours = count_center_attackers(board, player, c);
            let theirs = count_center_attackers(board, opponent, c);
            let diff = ours - theirs;
            let value = if c.row == 4 && c.col == 4 {
                diff * 8
            } else {
                diff * 5
            };
            mg += value;
            eg += quarter(value);
            k += 1;
        }
        proof {
            assert(center_squares().take(9) =~= center_squares());
        }
        TaperedScore::new_tapered(mg, eg)
    }

    /// Centre control in the opening: pieces standing on the nine centre
    /// squares (full centre value on the core, two thirds elsewhere, a third
    /// of that in the endgame), plus attack-based control when enabled.
    pub fn evaluate_center_control_opening(&self, board: &Board, player: Player) -> (r: TaperedScore)
        ensures
            r.mg == center_control(*board, player, self.config.enable_attack_based_center_control).0,
            r.eg == center_control(*board, player, self.config.enable_attack_based_center_control).1,
            -10_000 <= r.mg <= 10_000,
            -10_000 <= r.eg <= 10_000,
    {
        proof {
            reveal(center_control);
            reveal(attack_control);
        }
        let centers = center_positions();
        let mut mg: i32 = 0;
        let mut eg: i32 = 0;
        let mut k: usize = 0;
        while k < 9
            invariant
                k <= 9,
                centers@ == center_squares(),
                mg == sum_over(center_squares().take(k as int), |c: Position| occupation_mg(*board, player, c)),
                eg == sum_over(center_squares().take(k as int), |c: Position| occupation_eg(*board, player, c)),
                -40 * k <= mg <= 40 * k,
                -40 * k <= eg <= 40 * k,
            decreases 9 - k,
        {
            proof {
                crate::board::lemma_sum_take(center_squares(), |c: Position| occupation_mg(*board, player, c), k as int);
                crate::board::lemma_sum_take(center_squares(), |c: Position| occupation_eg(*board, player, c), k as int);
            }
            let c = centers[k];
            match board.get_piece(c) {
                Some(piece) => {
                    let base = self.get_opening_center_value(piece.piece_type);
                    let value = if c.row == 4 && c.col == 4 {
                        base
                    } else {
                        base * 2 / 3
                    };
                    if piece.player == player {
                        mg += value;
                        eg += value / 3;
                    } else {
                        mg -= value;
                        eg -= value / 3;
                    }
                },
                None => {},
            }
            k += 1;
        }
        proof {
            assert(center_squares().take(9) =~= center_squares());
        }
        if self.config.enable_attack_based_center_control {
            let attack = self.evaluate_center_control_via_attacks(board, player);
            mg += attack.mg;
            eg += attack.eg;
        }
        TaperedScore::new_tapered(mg, eg)
    }

    /// Pressure on the empty centre squares from pieces in hand: per square,
    /// 6 (core) or 4 per droppable bishop, rook, silver, gold or knight of
    /// `player` that would attack the centre from there, minus the
    /// opponent's; a quarter of each square's value in the endgame.
    pub fn evaluate_drop_pressure_on_center(&self, board: &Board, player: Player, captured_pieces: &CapturedPieces) -> (r: TaperedScore)
        requires
            captured_pieces.counts_at_most(hand_limit()),
        ensures
            r.mg == drop_pressure(*board, *captured_pieces, player).0,
            r.eg == drop_pressure(*board, *captured_pieces, player).1,
            -300_000_000 <= r.mg <= 300_000_000,
            -300_000_000 <= r.eg <= 300_000_000,
    {
        proof {
            reveal(drop_pressure);
        }
        let centers = center_positions();
        let opponent = player.opposite();
        let mut mg: i32 = 0;
        let mut eg: i32 = 0;
        let mut k: usize = 0;
        while k < 9
            invariant
                k <= 9,
                centers@ == center_squares(),
                opponent == player.other(),
                captured_pieces.counts_at_most(hand_limit()),
                mg == sum_over(
                    center_squares().take(k as int),
                    |c: Position| drop_value(*board, *captured_pieces, player, c),
                ),
                eg == sum_over(
                    center_squares().take(k as int),
                    |c: Position| trunc_div(drop_value(*board, *captured_pieces, player, c), 4),
                ),
                -30_000_000 * k <= mg <= 30_000_000 * k,
                -30_000_000 * k <= eg <= 30_000_000 * k,
            decreases 9 - k,
        {
            proof {
                crate::board::lemma_sum_take(
                    center_squares(),
                    |c: Position| drop_value(*board, *captured_pieces, player, c),
                    k as int,
                );
                crate::board::lemma_sum_take(
                    center_squares(),
                    |c: Position| trunc_div(drop_value(*board, *captured_pieces, player, c), 4),
                    k as int,
                );
            }
            let c = centers[k];
            let mut value: i32 = 0;
            if !board.is_square_occupied(c) {
                let ours = drop_pressure_at(board, captured_pieces, player, c);
                let theirs = drop_pressure_at(board, captured_pieces, opponent, c);
                let diff = ours - theirs;
                value = if c.row == 4 && c.col == 4 {
                    diff * 6
                } else {
                    diff * 4
                };
            }
            mg += value;
            eg += quarter(value);
            k += 1;
        }
        proof {
            assert(center_squares().take(9) =~= center_squares());
        }
        TaperedScore::new_tapered(mg, eg)
    }
}

} // verus!

verus! {

fn abs_diff_u8(a: u8, b: u8) -> (r: u8)
    ensures
        r == abs_diff(a as int, b as int),
{
    if a >= b {
        a - b
    } else {
        b - a
    }
}

fn within_two_of(p: Position, k: Position) -> (r: bool)
    ensures
        r == within_two(p, k),
{
    abs_diff_u8(p.row, k.row) <= 2 && abs_diff_u8(p.col, k.col) <= 2
}

fn shields_king(p: Position, k: Position, player: Player) -> (r: bool)
    ensures
        r == shields(p, k, player),
{
    let in_front = match player {
        Player::Black => k.row >= 1 && p.row == k.row - 1,
        Player::White => p.row as u16 == k.row as u16 + 1,
    };
    in_front && abs_diff_u8(p.col, k.col) <= 1
}

impl OpeningPrincipleEvaluator {
    /// Black's castles are the bottom corners (rows 7-8, files 0-2 or
    /// 6-8); White's the top ones.
    pub fn is_castle_position(&self, king_pos: Position, player: Player) -> (r: bool)
        ensures
            r == castle_square(king_pos, player),
    {
        match player {
            Player::Black => king_pos.row >= 7 && (king_pos.col <= 2 || king_pos.col >= 6),
            Player::White => king_pos.row <= 1 && (king_pos.col <= 2 || king_pos.col >= 6),
        }
    }

    /// Pieces of a kind within two files and ranks of the king.
    pub fn count_pieces_near_king(&self, board: &Board, king_pos: Position, player: Player, piece_type: PieceType) -> (r: i32)
        ensures
            r == near_count(pieces_of(*board, player, piece_type), king_pos),
            0 <= r <= 81,
    {
        let v = board.find_pieces(player, piece_type);
        let mut acc: i32 = 0;
        let mut k: usize = 0;
        while k < v.len()
            invariant
                k <= v.len(),
                v.len() <= 81,
                v@ == pieces_of(*board, player, piece_type),
                acc == near_count(v@.take(k as int), king_pos),
                0 <= acc <= k,
            decreases v.len() - k,
        {
            proof {
                crate::board::lemma_sum_take(v@, |p: Position| if within_two(p, king_pos) { 1int } else { 0int }, k as int);
            }
            if within_two_of(v[k], king_pos) {
                acc += 1;
            }
            k += 1;
        }
        proof {
            crate::board::lemma_take_all(v@);
        }
        acc
    }

    /// Own pawns on the three squares directly in front of the king.
    pub fn count_pawn_shield(&self, board: &Board, king_pos: Position, player: Player) -> (r: i32)
        ensures
            r == shield_count(pieces_of(*board, player, PieceType::Pawn), king_pos, player),
            0 <= r <= 81,
    {
        let v = board.find_pieces(player, PieceType::Pawn);
        let mut acc: i32 = 0;
        let mut k: usize = 0;
        while k < v.len()
            invariant
                k <= v.len(),
                v.len() <= 81,
                acc == shield_count(v@.take(k as int), king_pos, player),
                0 <= acc <= k,
            decreases v.len() - k,
        {
            proof {
                crate::board::lemma_sum_take(
                    v@,
                    |p: Position| if shields(p, king_pos, player) { 1int } else { 0int },
                    k as int,
                );
            }
            if shields_king(v[k], king_pos, player) {
                acc += 1;
            }
            k += 1;
        }
        proof {
            crate::board::lemma_take_all(v@);
        }
        acc
    }

    /// Castle formation: 40 for a castled king, 25 per gold and 22 per
    /// silver within two squares of it, 20 per pawn in front of it; a
    /// quarter in the endgame; zero without a king.
    pub fn evaluate_castle_formation(&self, board: &Board, player: Player) -> (r: TaperedScore)
        ensures
            r.mg == castle_formation(*board, player).0,
            r.eg == castle_formation(*board, player).1,
            0 <= r.mg <= 10_000,
            0 <= r.eg <= 10_000,
    {
        proof {
            reveal(castle_formation);
        }
        let king_pos = match board.find_king_position(player) {
            Some(pos) => pos,
            None => return TaperedScore::default(),
        };
        let mut mg: i32 = 0;
        if self.is_castle_position(king_pos, player) {
            mg += 40;
        }
        let golds = self.count_pieces_near_king(board, king_pos, player, PieceType::Gold);
        let silvers = self.count_pieces_near_king(board, king_pos, player, PieceType::Silver);
        mg += golds * 25;
        mg += silvers * 22;
        let shield = self.count_pawn_shield(board, king_pos, player);
        mg += shield * 20;
        TaperedScore::new_tapered(mg, mg / 4)
    }

    /// Non-king pieces of `player` away from the back rank.
    pub fn count_active_pieces(&self, board: &Board, player: Player) -> (r: i32)
        ensures
            r == active_count(*board, player),
            0 <= r <= 81,
    {
        let home = home_row_of(player);
        let ghost f = |i: int| if active_at(*board, player, i) { 1int } else { 0int };
        let mut acc: i32 = 0;
        let mut i: usize = 0;
        while i < 81
            invariant
                i <= 81,
                home == home_row(player),
                f == (|i: int| if active_at(*board, player, i) { 1int } else { 0int }),
                acc == square_sum(f, i as int),
                0 <= acc <= i,
            decreases 81 - i,
        {
            match board.squares[i] {
                Some(pc) => {
                    let row = (i / 9) as u8;
                    if pc.player == player && pc.piece_type != PieceType::King && (row != home || (row >= 3
                        && row <= 5)) {
                        acc += 1;
                    }
                },
                None => {},
            }
            i += 1;
        }
        acc
    }

    /// Tempo: 10 for the move, 20 per developed piece of lead while the game
    /// is at most fifteen moves old, 12 per active piece of lead; a fifth in
    /// the endgame.
    pub fn evaluate_tempo(&self, board: &Board, player: Player, move_count: u32) -> (r: TaperedScore)
        ensures
            r.mg == tempo(*board, player, move_count).0,
            r.eg == tempo(*board, player, move_count).1,
            10 <= r.mg <= 1_000_000,
            0 <= r.eg <= 1_000_000,
    {
        proof {
            reveal(tempo);
        }
        let mut mg: i32 = 10;
        if move_count <= 15 {
            let ours = self.count_developed_pieces(board, player);
            let theirs = self.count_developed_pieces(board, player.opposite());
            if ours > theirs {
                mg += (ours - theirs) * 20;
            }
        }
        let act_ours = self.count_active_pieces(board, player);
        let act_theirs = self.count_active_pieces(board, player.opposite());
        if act_ours > act_theirs {
            mg += (act_ours - act_theirs) * 12;
        }
        TaperedScore::new_tapered(mg, mg / 5)
    }
}

} // verus!

verus! {

/// The move history as a sequence, when there is one.
pub open spec fn history_view(h: Option<&[Move]>) -> Option<Seq<Move>> {
    match h {
        Some(s) => Some(s@),
        None => None,
    }
}

fn same_origin(a: Option<Position>, b: Option<Position>) -> (r: bool)
    ensures
        r == (a == b),
{
    match (a, b) {
        (Some(x), Some(y)) => x.row == y.row && x.col == y.col,
        (None, None) => true,
        _ => false,
    }
}

/// Earlier moves in `h[0..j]` of the same player, kind and origin as `m`.
fn count_earlier(h: &[Move], j: usize, m: Move) -> (r: usize)
    requires
        j <= h.len(),
    ensures
        r == earlier_same_piece(h@, j as int, m),
        r <= j,
{
    let mut c: usize = 0;
    let mut i: usize = 0;
    while i < j
        invariant
            i <= j,
            j <= h.len(),
            c == earlier_same_piece(h@, i as int, m),
            c <= i,
        decreases j - i,
    {
        let x = h[i];
        if x.player == m.player && same_origin(x.from, m.from) && x.piece_type == m.piece_type {
            c += 1;
        }
        i += 1;
    }
    c
}

/// Sum of `g` over all pairs of `a` and `b`, for a `g` between 0 and 25.
fn pair_total<F: Fn(Position, Position, Player, Position) -> i32>(
    a: &Vec<Position>,
    b: &Vec<Position>,
    f: F,
    player: Player,
    king: Position,
    Ghost(g): Ghost<spec_fn(Position, Position) -> int>,
) -> (r: i32)
    requires
        a.len() <= 81,
        b.len() <= 81,
        forall|p: Position, q: Position| f.requires((p, q, player, king)),
        forall|p: Position, q: Position, v: i32| f.ensures((p, q, player, king), v) ==> v == g(p, q) && 0 <= v <= 25,
    ensures
        r == pair_sum(a@, b@, g),
        0 <= r <= 164_025,
{
    let mut acc: i32 = 0;
    let mut i: usize = 0;
    while i < a.len()
        invariant
            i <= a.len(),
            a.len() <= 81,
            b.len() <= 81,
            forall|p: Position, q: Position| f.requires((p, q, player, king)),
            forall|p: Position, q: Position, v: i32| f.ensures((p, q, player, king), v) ==> v == g(p, q) && 0 <= v <= 25,
            acc == sum_over(a@.take(i as int), |p: Position| sum_over(b@, |q: Position| g(p, q))),
            0 <= acc <= 2025 * i,
        decreases a.len() - i,
    {
        proof {
            crate::board::lemma_sum_take(a@, |p: Position| sum_over(b@, |q: Position| g(p, q)), i as int);
        }
        let p = a[i];
        let mut inner: i32 = 0;
        let mut j: usize = 0;
        while j < b.len()
            invariant
                j <= b.len(),
                b.len() <= 81,
                forall|p: Position, q: Position| f.requires((p, q, player, king)),
                forall|p: Position, q: Position, v: i32| f.ensures((p, q, player, king), v) ==> v == g(p, q) && 0 <= v <= 25,
                inner == sum_over(b@.take(j as int), |q: Position| g(p, q)),
                0 <= inner <= 25 * j,
                i < a.len(),
                a.len() <= 81,
                p == a@[i as int],
                acc == sum_over(a@.take(i as int), |p: Position| sum_over(b@, |q: Position| g(p, q))),
                0 <= acc <= 2025 * i,
            decreases b.len() - j,
        {
            proof {
                crate::board::lemma_sum_take(b@, |q: Position| g(p, q), j as int);
            }
            let v = f(p, b[j], player, king);
            inner += v;
            j += 1;
        }
        proof {
            crate::board::lemma_take_all(b@);
        }
        acc += inner;
        i += 1;
    }
    proof {
        crate::board::lemma_take_all(a@);
    }
    acc
}

fn diagonal_mates(a: Position, c: Position) -> (r: bool)
    ensures
        r == same_diagonal(a, c),
{
    abs_diff_u8(a.row, c.row) == abs_diff_u8(a.col, c.col) || a.row as u16 + a.col as u16 == c.row as u16
        + c.col as u16
}

fn manhattan_of(a: Position, c: Position) -> (r: u16)
    ensures
        r == manhattan(a, c),
{
    abs_diff_u8(a.row, c.row) as u16 + abs_diff_u8(a.col, c.col) as u16
}

fn rook_lance_value(r: Position, l: Position, player: Player, _king: Position) -> (v: i32)
    ensures
        v == rook_lance(r, l, player),
{
    let home = home_row_of(player);
    if r.col == l.col && r.row != home && l.row != home {
        25
    } else {
        0
    }
}

fn bishop_lance_value(bp: Position, l: Position, player: Player, _king: Position) -> (v: i32)
    ensures
        v == bishop_lance(bp, l, player),
{
    let home = home_row_of(player);
    if diagonal_mates(bp, l) && bp.row != home && l.row != home {
        20
    } else {
        0
    }
}

fn gold_silver_value(g: Position, s: Position, _player: Player, king: Position) -> (v: i32)
    ensures
        v == gold_silver(g, s, king),
{
    if manhattan_of(g, king) <= 2 && manhattan_of(s, king) <= 2 && manhattan_of(g, s) <= 2 {
        15
    } else {
        0
    }
}

fn rook_bishop_value(r: Position, bp: Position, player: Player, _king: Position) -> (v: i32)
    ensures
        v == rook_bishop(r, bp, player),
{
    let home = home_row_of(player);
    if r.row != home && bp.row != home && ((r.col >= 2 && r.col <= 6) || (bp.col >= 2 && bp.col <= 6)) {
        18
    } else {
        0
    }
}

fn rook_silver_value(r: Position, s: Position, player: Player, _king: Position) -> (v: i32)
    ensures
        v == rook_support(r, s, player, 12),
{
    let home = home_row_of(player);
    if r.row != home && s.row != home && s.col == r.col {
        12
    } else {
        0
    }
}

fn rook_gold_value(r: Position, g: Position, player: Player, _king: Position) -> (v: i32)
    ensures
        v == rook_support(r, g, player, 10),
{
    let home = home_row_of(player);
    if r.row != home && g.row != home && g.col == r.col {
        10
    } else {
        0
    }
}

impl OpeningPrincipleEvaluator {
    /// Penalty for moving the same piece again: each move of `player` costs
    /// 15 for every earlier move of the same kind from the same square.
    pub fn detect_repeated_piece_moves(&self, move_history: &[Move], player: Player) -> (r: i32)
        requires
            move_history.len() <= history_limit(),
        ensures
            r == repeat_penalty(move_history@, player),
            0 <= r <= 1_500_000_000,
    {
        let n = move_history.len();
        let mut penalty: i32 = 0;
        let mut j: usize = 0;
        while j < n
            invariant
                j <= n,
                n == move_history.len(),
                n <= 10_000,
                penalty == repeat_penalty_upto(move_history@, player, j as int),
                0 <= penalty <= 150_000 * j,
            decreases n - j,
        {
            let m = move_history[j];
            if m.player == player {
                let c = count_earlier(move_history, j, m);
                penalty += 15 * (c as i32);
            }
            j += 1;
        }
        penalty
    }

    /// Opening penalties while the game is at most ten moves old: repeated
    /// moves of one piece (when a history is given), 30 without a developed
    /// rook from move 8, 25 without a developed bishop from move 6, 40 for a
    /// king off its back rank outside a castle; a fifth in the endgame.
    pub fn evaluate_opening_penalties(&self, board: &Board, player: Player, move_count: u32, move_history: Option<&[Move]>) -> (r: TaperedScore)
        requires
            move_history.is_some() ==> move_history.unwrap().len() <= history_limit(),
        ensures
            r.mg == penalties(*board, player, move_count, history_view(move_history)).0,
            r.eg == penalties(*board, player, move_count, history_view(move_history)).1,
            -1_500_001_000 <= r.mg <= 0,
            -1_500_001_000 <= r.eg <= 0,
    {
        proof {
            reveal(penalties);
        }
        let mut penalty: i32 = 0;
        if move_count <= 10 {
            match move_history {
                Some(history) => {
                    penalty += self.detect_repeated_piece_moves(history, player);
                },
                None => {},
            }
            let rooks = board.find_pieces(player, PieceType::Rook);
            let bishops = board.find_pieces(player, PieceType::Bishop);
            let rooks_developed = off_home_total(&rooks, player, 1);
            let bishops_developed = off_home_total(&bishops, player, 1);
            if rooks_developed == 0 && move_count >= 8 {
                penalty += 30;
            }
            if bishops_developed == 0 && move_count >= 6 {
                penalty += 25;
            }
            match board.find_king_position(player) {
                Some(king_pos) => {
                    let home = home_row_of(player);
                    if king_pos.row != home && !self.is_castle_position(king_pos, player) {
                        penalty += 40;
                    }
                },
                None => {},
            }
        }
        TaperedScore::new_tapered(-penalty, -(penalty / 5))
    }

    /// Piece coordination: 25 per developed rook-lance pair on a file, 20 per
    /// developed bishop-lance pair on a diagonal, 15 per gold-silver pair
    /// close to each other and to the king, 18 per developed rook-bishop
    /// pair with one of them on the central files, 12 and 10 per developed
    /// silver and gold on a developed rook's file; a quarter in the endgame.
    pub fn evaluate_piece_coordination(&self, board: &Board, player: Player) -> (r: TaperedScore)
        ensures
            r.mg == coordination(*board, player).0,
            r.eg == coordination(*board, player).1,
            0 <= r.mg <= 1_000_000,
            0 <= r.eg <= 1_000_000,
    {
        proof {
            reveal(coordination);
        }
        let rooks = board.find_pieces(player, PieceType::Rook);
        let lances = board.find_pieces(player, PieceType::Lance);
        let bishops = board.find_pieces(player, PieceType::Bishop);
        let golds = board.find_pieces(player, PieceType::Gold);
        let silvers = board.find_pieces(player, PieceType::Silver);
        let king = board.find_king_position(player);
        let anchor = match king {
            Some(k) => k,
            None => Position::new(0, 0),
        };
        let rook_lance_total = pair_total(
            &rooks,
            &lances,
            rook_lance_value,
            player,
            anchor,
            Ghost(|r: Position, l: Position| rook_lance(r, l, player)),
        );
        let bishop_lance_total = pair_total(
            &bishops,
            &lances,
            bishop_lance_value,
            player,
            anchor,
            Ghost(|bp: Position, l: Position| bishop_lance(bp, l, player)),
        );
        let gold_silver_total = match king {
            Some(k) => pair_total(
                &golds,
                &silvers,
                gold_silver_value,
                player,
                k,
                Ghost(|g: Position, s: Position| gold_silver(g, s, k)),
            ),
            None => 0,
        };
        let rook_bishop_total = pair_total(
            &rooks,
            &bishops,
            rook_bishop_value,
            player,
            anchor,
            Ghost(|r: Position, bp: Position| rook_bishop(r, bp, player)),
        );
        let silver_support = pair_total(
            &rooks,
            &silvers,
            rook_silver_value,
            player,
            anchor,
            Ghost(|r: Position, s: Position| rook_support(r, s, player, 12)),
        );
        let gold_support = pair_total(
            &rooks,
            &golds,
            rook_gold_value,
            player,
            anchor,
            Ghost(|r: Position, g: Position| rook_support(r, g, player, 10)),
        );
        let mg = rook_lance_total + bishop_lance_total + gold_silver_total + rook_bishop_total + silver_support
            + gold_support;
        TaperedScore::new_tapered(mg, mg / 4)
    }
}

} // verus!

verus! {

/// The hand, when one is given.
pub open spec fn captured_view(c: Option<&CapturedPieces>) -> Option<CapturedPieces> {
    match c {
        Some(x) => Some(*x),
        None => None,
    }
}

/// Centre control including drop pressure when it is enabled and a hand is
/// given.
pub open spec fn center_part(cfg: OpeningPrincipleConfig, b: Board, player: Player, captured: Option<CapturedPieces>) -> (int, int) {
    let base = center_control(b, player, cfg.enable_attack_based_center_control);
    if cfg.enable_drop_pressure_evaluation && captured.is_some() {
        let d = drop_pressure(b, captured.unwrap(), player);
        (base.0 + d.0, base.1 + d.1)
    } else {
        base
    }
}

pub open spec fn part_or_zero(on: bool, v: (int, int)) -> (int, int) {
    if on {
        v
    } else {
        (0, 0)
    }
}

/// The opening evaluation: the sum of the enabled parts.
pub open spec fn opening_score(
    cfg: OpeningPrincipleConfig,
    b: Board,
    player: Player,
    move_count: u32,
    captured: Option<CapturedPieces>,
    history: Option<Seq<Move>>,
) -> (int, int) {
    let d = part_or_zero(cfg.enable_development, development(b, player, move_count));
    let c = part_or_zero(cfg.enable_center_control, center_part(cfg, b, player, captured));
    let k = part_or_zero(cfg.enable_castle_formation, castle_formation(b, player));
    let t = part_or_zero(cfg.enable_tempo, tempo(b, player, move_count));
    let p = part_or_zero(cfg.enable_opening_penalties, penalties(b, player, move_count, history));
    let o = part_or_zero(cfg.enable_piece_coordination, coordination(b, player));
    (d.0 + c.0 + k.0 + t.0 + p.0 + o.0, d.1 + c.1 + k.1 + t.1 + p.1 + o.1)
}

/// A running sum gains `v` when the part is enabled.
pub open spec fn add_if(on: bool, sum: i64, v: int) -> i64 {
    if on {
        sum.wrapping_add(v as i64)
    } else {
        sum
    }
}

/// A counter counts one more evaluation when the part is enabled.
pub open spec fn count_if(on: bool, n: u64) -> u64 {
    if on {
        n.wrapping_add(1)
    } else {
        n
    }
}

/// Statistics after one opening evaluation: one more evaluation, and for
/// each enabled part one more part evaluation and its middlegame value
/// added to the part's sum.
pub open spec fn stats_after(
    s: OpeningPrincipleStats,
    cfg: OpeningPrincipleConfig,
    b: Board,
    player: Player,
    move_count: u32,
    captured: Option<CapturedPieces>,
    history: Option<Seq<Move>>,
) -> OpeningPrincipleStats {
    OpeningPrincipleStats {
        evaluations: s.evaluations.wrapping_add(1),
        development_score: add_if(cfg.enable_development, s.development_score, development(b, player, move_count).0),
        development_evaluations: count_if(cfg.enable_development, s.development_evaluations),
        center_control_score: add_if(
            cfg.enable_center_control,
            s.center_control_score,
            center_part(cfg, b, player, captured).0,
        ),
        center_control_evaluations: count_if(cfg.enable_center_control, s.center_control_evaluations),
        castle_formation_score: add_if(cfg.enable_castle_formation, s.castle_formation_score, castle_formation(b, player).0),
        castle_formation_evaluations: count_if(cfg.enable_castle_formation, s.castle_formation_evaluations),
        tempo_score: add_if(cfg.enable_tempo, s.tempo_score, tempo(b, player, move_count).0),
        tempo_evaluations: count_if(cfg.enable_tempo, s.tempo_evaluations),
        penalties_score: add_if(
            cfg.enable_opening_penalties,
            s.penalties_score,
            penalties(b, player, move_count, history).0,
        ),
        penalties_evaluations: count_if(cfg.enable_opening_penalties, s.penalties_evaluations),
        piece_coordination_score: add_if(cfg.enable_piece_coordination, s.piece_coordination_score, coordination(b, player).0),
        piece_coordination_evaluations: count_if(cfg.enable_piece_coordination, s.piece_coordination_evaluations),
        ..s
    }
}

/// At the opening end of the phase scale a tapered score is its
/// middlegame part.
pub proof fn lemma_opening_phase(s: TaperedScore)
    ensures
        s.interpolated(256) == s.mg,
{
    let x = s.mg * 256 + s.eg * (256 - 256);
    assert(x == s.mg * 256);
    if s.mg >= 0 {
        assert((s.mg * 256) / 256 == s.mg) by (nonlinear_arith);
    } else {
        assert(((-(s.mg * 256)) / 256) == -s.mg) by (nonlinear_arith);
    }
}

impl OpeningPrincipleEvaluator {
    fn development_part(&self, board: &Board, player: Player, move_count: u32) -> (r: TaperedScore)
        ensures
            (r.mg as int, r.eg as int) == part_or_zero(self.config.enable_development, development(*board, player, move_count)),
            0 <= r.mg <= 1_000_000,
            0 <= r.eg <= 1_000_000,
    {
        if self.config.enable_development {
            self.evaluate_development(board, player, move_count)
        } else {
            TaperedScore::default()
        }
    }

    fn center_part_of(&self, board: &Board, player: Player, captured_pieces: Option<&CapturedPieces>) -> (r: TaperedScore)
        requires
            captured_pieces.is_some() ==> captured_pieces.unwrap().counts_at_most(hand_limit()),
        ensures
            (r.mg as int, r.eg as int) == part_or_zero(
                self.config.enable_center_control,
                center_part(self.config, *board, player, captured_view(captured_pieces)),
            ),
            -300_010_000 <= r.mg <= 300_010_000,
            -300_010_000 <= r.eg <= 300_010_000,
    {
        if self.config.enable_center_control {
            let base = self.evaluate_center_control_opening(board, player);
            let mut c_mg = base.mg;
            let mut c_eg = base.eg;
            if self.config.enable_drop_pressure_evaluation {
                match captured_pieces {
                    Some(captured) => {
                        let drop = self.evaluate_drop_pressure_on_center(board, player, captured);
                        c_mg += drop.mg;
                        c_eg += drop.eg;
                    },
                    None => {},
                }
            }
            TaperedScore::new_tapered(c_mg, c_eg)
        } else {
            TaperedScore::default()
        }
    }

    fn castle_part(&self, board: &Board, player: Player) -> (r: TaperedScore)
        ensures
            (r.mg as int, r.eg as int) == part_or_zero(self.config.enable_castle_formation, castle_formation(*board, player)),
            0 <= r.mg <= 10_000,
            0 <= r.eg <= 10_000,
    {
        if self.config.enable_castle_formation {
            self.evaluate_castle_formation(board, player)
        } else {
            TaperedScore::default()
        }
    }

    fn tempo_part(&self, board: &Board, player: Player, move_count: u32) -> (r: TaperedScore)
        ensures
            (r.mg as int, r.eg as int) == part_or_zero(self.config.enable_tempo, tempo(*board, player, move_count)),
            0 <= r.mg <= 1_000_000,
            0 <= r.eg <= 1_000_000,
    {
        if self.config.enable_tempo {
            self.evaluate_tempo(board, player, move_count)
        } else {
            TaperedScore::default()
        }
    }

    fn penalty_part(&self, board: &Board, player: Player, move_count: u32, move_history: Option<&[Move]>) -> (r: TaperedScore)
        requires
            move_history.is_some() ==> move_history.unwrap().len() <= history_limit(),
        ensures
            (r.mg as int, r.eg as int) == part_or_zero(
                self.config.enable_opening_penalties,
                penalties(*board, player, move_count, history_view(move_history)),
            ),
            -1_500_001_000 <= r.mg <= 0,
            -1_500_001_000 <= r.eg <= 0,
    {
        if self.config.enable_opening_penalties {
            self.evaluate_opening_penalties(board, player, move_count, move_history)
        } else {
            TaperedScore::default()
        }
    }

    fn coordination_part(&self, board: &Board, player: Player) -> (r: TaperedScore)
        ensures
            (r.mg as int, r.eg as int) == part_or_zero(self.config.enable_piece_coordination, coordination(*board, player)),
            0 <= r.mg <= 1_000_000,
            0 <= r.eg <= 1_000_000,
    {
        if self.config.enable_piece_coordination {
            self.evaluate_piece_coordination(board, player)
        } else {
            TaperedScore::default()
        }
    }
}

/// Adds the opening-phase value of a part to its running sum when the part
/// is enabled.
fn part_sum(on: bool, sum: i64, part: TaperedScore) -> (r: i64)
    ensures
        r == add_if(on, sum, part.mg as int),
{
    if on {
        proof {
            lemma_opening_phase(part);
        }
        sum.wrapping_add(part.interpolate(256) as i64)
    } else {
        sum
    }
}

fn part_count(on: bool, n: u64) -> (r: u64)
    ensures
        r == count_if(on, n),
{
    if on {
        n.wrapping_add(1)
    } else {
        n
    }
}

impl OpeningPrincipleEvaluator {
    /// Opening evaluation of the position for `player` after `move_count`
    /// moves: the sum of the enabled parts (development, centre control
    /// with drop pressure when a hand is given, castle formation, tempo,
    /// penalties with repeated moves when a history is given, piece
    /// coordination); the statistics count the evaluation and each part.
    pub fn evaluate_opening(
        &mut self,
        board: &Board,
        player: Player,
        move_count: u32,
        captured_pieces: Option<&CapturedPieces>,
        move_history: Option<&[Move]>,
    ) -> (r: TaperedScore)
        requires
            captured_pieces.is_some() ==> captured_pieces.unwrap().counts_at_most(hand_limit()),
            move_history.is_some() ==> move_history.unwrap().len() <= history_limit(),
        ensures
            r.mg == opening_score(
                old(self).config,
                *board,
                player,
                move_count,
                captured_view(captured_pieces),
                history_view(move_history),
            ).0,
            r.eg == opening_score(
                old(self).config,
                *board,
                player,
                move_count,
                captured_view(captured_pieces),
                history_view(move_history),
            ).1,
            final(self).config == old(self).config,
            final(self).stats == stats_after(
                old(self).stats,
                old(self).config,
                *board,
                player,
                move_count,
                captured_view(captured_pieces),
                history_view(move_history),
            ),
    {
        let cfg = self.config;
        let dev = self.development_part(board, player, move_count);
        let center = self.center_part_of(board, player, captured_pieces);
        let castle = self.castle_part(board, player);
        let t = self.tempo_part(board, player, move_count);
        let pen = self.penalty_part(board, player, move_count, move_history);
        let coord = self.coordination_part(board, player);
        let old_stats = self.stats;
        self.stats = OpeningPrincipleStats {
            evaluations: old_stats.evaluations.wrapping_add(1),
            development_score: part_sum(cfg.enable_development, old_stats.development_score, dev),
            development_evaluations: part_count(cfg.enable_development, old_stats.development_evaluations),
            center_control_score: part_sum(cfg.enable_center_control, old_stats.center_control_score, center),
            center_control_evaluations: part_count(cfg.enable_center_control, old_stats.center_control_evaluations),
            castle_formation_score: part_sum(cfg.enable_castle_formation, old_stats.castle_formation_score, castle),
            castle_formation_evaluations: part_count(
                cfg.enable_castle_formation,
                old_stats.castle_formation_evaluations,
            ),
            tempo_score: part_sum(cfg.enable_tempo, old_stats.tempo_score, t),
            tempo_evaluations: part_count(cfg.enable_tempo, old_stats.tempo_evaluations),
            penalties_score: part_sum(cfg.enable_opening_penalties, old_stats.penalties_score, pen),
            penalties_evaluations: part_count(cfg.enable_opening_penalties, old_stats.penalties_evaluations),
            piece_coordination_score: part_sum(cfg.enable_piece_coordination, old_stats.piece_coordination_score, coord),
            piece_coordination_evaluations: part_count(
                cfg.enable_piece_coordination,
                old_stats.piece_coordination_evaluations,
            ),
            ..old_stats
        };
        let mg = dev.mg + center.mg + castle.mg + t.mg + pen.mg + coord.mg;
        let eg = dev.eg + center.eg + castle.eg + t.eg + pen.eg + coord.eg;
        TaperedScore::new_tapered(mg, eg)
    }
}

} // verus!

verus! {

/// `after` is `before` with one more piece of the captured kind in
/// `player`'s hand, or `before` itself when nothing was captured.
pub open spec fn hand_after_capture(before: CapturedPieces, after: CapturedPieces, captured: Option<Piece>, player: Player) -> bool {
    match captured {
        Some(pc) => {
            &&& after.hand(pc.piece_type, player) == before.hand(pc.piece_type, player) + 1
            &&& forall|pt: PieceType, pl: Player|
                !(pt == pc.piece_type && pl == player) ==> #[trigger] after.hand(pt, pl) == before.hand(pt, pl)
        },
        None => after == before,
    }
}

/// Moving `player`'s king off its back rank to a non-castle square.
pub open spec fn early_king_move(b: Board, player: Player, m: Move) -> bool {
    match m.from {
        Some(f) => is_kind(piece_at(b, f.row as int, f.col as int), player, PieceType::King) && f.row == home_row(
            player,
        ) && !castle_square(m.to, player),
        None => false,
    }
}

proof fn lemma_hand_bound(before: CapturedPieces, after: CapturedPieces, captured: Option<Piece>, player: Player)
    requires
        before.counts_at_most(999_999),
        hand_after_capture(before, after, captured, player),
    ensures
        after.counts_at_most(hand_limit()),
{
    assert forall|i: int| 0 <= i < 28 implies #[trigger] after.counts@[i] <= hand_limit() by {
        let pt = PieceType::from_idx(i % 14);
        let pl = if i < 14 {
            Player::Black
        } else {
            Player::White
        };
        assert(pl.idx() * 14 + pt.idx() == i);
        assert(before.counts@[i] <= 999_999);
        if captured.is_some() && pt == captured.unwrap().piece_type && pl == player {
            assert(after.hand(pt, pl) == before.hand(pt, pl) + 1);
        } else if captured.is_some() {
            assert(after.hand(pt, pl) == before.hand(pt, pl));
        }
    }
}

impl OpeningPrincipleEvaluator {
    /// How well a book move follows the opening principles: the opening
    /// evaluation (middlegame value) of the position after the move, with a
    /// captured piece added to `player`'s hand, one move later. The quality
    /// is added to the statistics.
    pub fn evaluate_book_move_quality(
        &mut self,
        board: &Board,
        player: Player,
        move_: &Move,
        captured_pieces: &CapturedPieces,
        move_count: u32,
    ) -> (r: i32)
        requires
            move_.to.valid(),
            move_.from.is_some() ==> move_.from.unwrap().valid(),
            captured_pieces.counts_at_most(999_999),
            move_count < u32::MAX,
        ensures
            final(self).config == old(self).config,
            exists|after: Board, hand: CapturedPieces|
                {
                    &&& after.squares@ == crate::board::after_move(*board, *move_)
                    &&& hand_after_capture(*captured_pieces, hand, board.squares@[move_.to.index()], player)
                    &&& r == opening_score(old(self).config, after, player, (move_count + 1) as u32, Some(hand), None).0
                    &&& final(self).stats == ({
                        let mid = stats_after(
                            OpeningPrincipleStats {
                                book_moves_evaluated: old(self).stats.book_moves_evaluated.wrapping_add(1),
                                ..old(self).stats
                            },
                            old(self).config,
                            after,
                            player,
                            (move_count + 1) as u32,
                            Some(hand),
                            None,
                        );
                        OpeningPrincipleStats {
                            book_move_quality_scores: mid.book_move_quality_scores.wrapping_add(r as i64),
                            ..mid
                        }
                    })
                },
    {
        let ghost old_stats = self.stats;
        self.stats.book_moves_evaluated = self.stats.book_moves_evaluated.wrapping_add(1);
        let ghost counted = self.stats;
        let mut temp_board = *board;
        let mut temp_captured = *captured_pieces;
        match temp_board.make_move(move_) {
            Some(captured) => {
                assert(captured_pieces.counts@[(player.idx() * 14 + captured.piece_type.idx()) as int] <= 999_999);
                temp_captured.add_piece(captured.piece_type, player);
            },
            None => {},
        }
        proof {
            lemma_hand_bound(*captured_pieces, temp_captured, board.squares@[move_.to.index()], player);
        }
        let score = self.evaluate_opening(&temp_board, player, move_count + 1, Some(&temp_captured), None);
        proof {
            lemma_opening_phase(score);
        }
        let quality = score.interpolate(256);
        let ghost mid = self.stats;
        self.stats.book_move_quality_scores = self.stats.book_move_quality_scores.wrapping_add(quality as i64);
        proof {
            assert(counted == (OpeningPrincipleStats {
                book_moves_evaluated: old_stats.book_moves_evaluated.wrapping_add(1),
                ..old_stats
            }));
            assert(self.stats == (OpeningPrincipleStats {
                book_move_quality_scores: mid.book_move_quality_scores.wrapping_add(quality as i64),
                ..mid
            }));
            assert(hand_after_capture(*captured_pieces, temp_captured, board.squares@[move_.to.index()], player));
        }
        quality
    }

    /// A book move breaks the opening principles when, within the first ten
    /// moves, it takes `player`'s king off its back rank to a square that is
    /// not a castle. The check is counted in the statistics.
    pub fn validate_book_move(&mut self, board: &Board, player: Player, move_: &Move, move_count: u32) -> (r: bool)
        requires
            move_.from.is_some() ==> move_.from.unwrap().valid(),
        ensures
            r == !(move_count <= 10 && early_king_move(*board, player, *move_)),
            final(self).config == old(self).config,
            final(self).stats == (OpeningPrincipleStats {
                book_moves_validated: old(self).stats.book_moves_validated.wrapping_add(1),
                ..old(self).stats
            }),
    {
        self.stats.book_moves_validated = self.stats.book_moves_validated.wrapping_add(1);
        if move_count <= 10 {
            match move_.from {
                Some(from) => {
                    match board.get_piece(from) {
                        Some(piece) => {
                            if piece.piece_type == PieceType::King && piece.player == player {
                                if from.row == home_row_of(player) && !self.is_castle_position(move_.to, player) {
                                    return false;
                                }
                            }
                        },
                        None => {},
                    }
                },
                None => {},
            }
        }
        true
    }

    /// The statistics.
    pub fn stats(&self) -> (r: &OpeningPrincipleStats)
        ensures
            *r == self.stats,
    {
        &self.stats
    }

    /// Mutable access to the statistics.
    pub fn stats_mut(&mut self) -> (r: &mut OpeningPrincipleStats)
        ensures
            *r == old(self).stats,
            final(self).stats == *final(r),
            final(self).config == old(self).config,
    {
        &mut self.stats
    }

    /// Zeroes the statistics.
    pub fn reset_stats(&mut self)
        ensures
            final(self).stats == OpeningPrincipleStats::zeroed(),
            final(self).config == old(self).config,
    {
        self.stats = OpeningPrincipleStats::default();
    }
}

impl Default for OpeningPrincipleEvaluator {
    fn default() -> (r: Self)
        ensures
            r.config == OpeningPrincipleConfig::all_enabled(),
            r.stats == OpeningPrincipleStats::zeroed(),
    {
        OpeningPrincipleEvaluator::new()
    }
}

} // verus!
