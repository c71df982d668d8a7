//! Pawn structure for the position-feature evaluator: chains, chains the
//! hand could complete, advancement, isolated, passed and doubled pawns.
//!
//! The scorers accept hands of up to a million pieces of each kind. A legal
//! position holds at most 18 of a kind, so every game lies far inside that
//! bound, which is chosen well below where the weighted sums would leave `i32`.

use vstd::prelude::*;
use crate::board::{Board, piece_at, sum_over};
use crate::king_safety::{
    abs_int, column_has_pawn, column_has_unpromoted_pawn, gold_equivalent, illegal_knight_drop_rank,
    illegal_pawn_drop_rank, is_gold_equivalent, is_promoted_major, occupied, oriented_col, oriented_row,
    oriented_square, oriented_offset_to_actual, promoted_major,
};
use crate::types::{CapturedPieces, Piece, PieceType, Player, Position, TaperedScore};

verus! {

/// Every pawn square is on the board and there are at most 81 of them.
pub open spec fn pawn_list(s: Seq<Position>) -> bool {
    s.len() <= 81 && forall|k: int| 0 <= k < s.len() ==> (#[trigger] s[k]).valid()
}

// ---------------------------------------------------------------------------
// Chains
// ---------------------------------------------------------------------------

/// Chain value of two pawns, `a` listed before `b`, in `player`'s
/// orientation: side by side, one file apart on a rank, supporting
/// diagonals, one behind the other.
pub open spec fn chain_term(a: Position, b: Position, player: Player, part: int) -> int {
    let dr = oriented_row(a, player) - oriented_row(b, player);
    let dc = oriented_col(a, player) - oriented_col(b, player);
    let t1 = if dr == 0 && abs_int(dc) == 1 {
        if part == 0 { 18int } else { 12int }
    } else if dr == 0 && abs_int(dc) == 2 {
        if part == 0 { 10int } else { 8int }
    } else {
        0int
    };
    let t2 = if dr == 1 && abs_int(dc) <= 1 {
        if part == 0 { 24int } else { 18int }
    } else if dr == -1 && abs_int(dc) <= 1 {
        if part == 0 { 16int } else { 12int }
    } else {
        0int
    };
    let t3 = if abs_int(dr) == 1 && dc == 0 {
        if part == 0 { 14int } else { 10int }
    } else {
        0int
    };
    let t4 = if abs_int(dr) == 1 && abs_int(dc) == 1 {
        if dr == 1 {
            if part == 0 { 22int } else { 16int }
        } else {
            if part == 0 { 14int } else { 10int }
        }
    } else {
        0int
    };
    t1 + t2 + t3 + t4
}

/// Chain values of pawn `j` with every pawn listed before it.
pub open spec fn chain_with_earlier(s: Seq<Position>, player: Player, j: int, i: int, part: int) -> int
    decreases i,
{
    if i <= 0 {
        0
    } else {
        chain_with_earlier(s, player, j, i - 1, part) + chain_term(s[i - 1], s[j], player, part)
    }
}

pub open spec fn chains_upto(s: Seq<Position>, player: Player, n: int, part: int) -> int
    decreases n,
{
    if n <= 0 {
        0
    } else {
        chains_upto(s, player, n - 1, part) + chain_with_earlier(s, player, n - 1, n - 1, part)
    }
}

/// Chain value of every pair of pawns.
pub open spec fn pawn_chains(s: Seq<Position>, player: Player) -> (int, int) {
    if s.len() < 2 {
        (0, 0)
    } else {
        (chains_upto(s, player, s.len() as int, 0), chains_upto(s, player, s.len() as int, 1))
    }
}

fn oriented_i8(pos: Position, player: Player) -> (r: (i8, i8))
    requires
        pos.valid(),
    ensures
        r.0 as int == oriented_row(pos, player),
        r.1 as int == oriented_col(pos, player),
        0 <= r.0 < 9,
        0 <= r.1 < 9,
{
    match player {
        Player::Black => (pos.row as i8, pos.col as i8),
        Player::White => ((8 - pos.row) as i8, (8 - pos.col) as i8),
    }
}

fn abs_i8(x: i8) -> (r: i8)
    requires
        x > -100,
    ensures
        r == abs_int(x as int),
{
    if x < 0 {
        -x
    } else {
        x
    }
}

fn chain_term_exec(a: Position, b: Position, player: Player) -> (r: (i32, i32))
    requires
        a.valid(),
        b.valid(),
    ensures
        r.0 == chain_term(a, b, player, 0),
        r.1 == chain_term(a, b, player, 1),
        0 <= r.0 <= 82,
        0 <= r.1 <= 58,
{
    let (r1, c1) = oriented_i8(a, player);
    let (r2, c2) = oriented_i8(b, player);
    let dr = r1 - r2;
    let dc = c1 - c2;
    let adr = abs_i8(dr);
    let adc = abs_i8(dc);
    let mut mg: i32 = 0;
    let mut eg: i32 = 0;
    if dr == 0 && adc == 1 {
        mg += 18;
        eg += 12;
    } else if dr == 0 && adc == 2 {
        mg += 10;
        eg += 8;
    }
    if dr == 1 && adc <= 1 {
        mg += 24;
        eg += 18;
    } else if dr == -1 && adc <= 1 {
        mg += 16;
        eg += 12;
    }
    if adr == 1 && dc == 0 {
        mg += 14;
        eg += 10;
    }
    if adr == 1 && adc == 1 {
        if dr == 1 {
            mg += 22;
            eg += 16;
        } else {
            mg += 14;
            eg += 10;
        }
    }
    (mg, eg)
}

/// Chain value of every pair of pawns.
pub fn evaluate_pawn_chains(pawns: &Vec<Position>, player: Player) -> (r: TaperedScore)
    requires
        pawn_list(pawns@),
    ensures
        (r.mg as int, r.eg as int) == pawn_chains(pawns@, player),
        0 <= r.mg <= 538_002,
        0 <= r.eg <= 380_538,
{
    if pawns.len() < 2 {
        return TaperedScore::default();
    }
    let n = pawns.len();
    let mut mg: i32 = 0;
    let mut eg: i32 = 0;
    let mut j: usize = 0;
    while j < n
        invariant
            j <= n,
            n == pawns.len(),
            pawn_list(pawns@),
            mg == chains_upto(pawns@, player, j as int, 0),
            eg == chains_upto(pawns@, player, j as int, 1),
            0 <= mg <= 6642 * j,
            0 <= eg <= 4698 * j,
        decreases n - j,
    {
        let mut i: usize = 0;
        let mut inner_mg: i32 = 0;
        let mut inner_eg: i32 = 0;
        while i < j
            invariant
                i <= j,
                j < n,
                n == pawns.len(),
                pawn_list(pawns@),
                inner_mg == chain_with_earlier(pawns@, player, j as int, i as int, 0),
                inner_eg == chain_with_earlier(pawns@, player, j as int, i as int, 1),
                0 <= inner_mg <= 82 * i,
                0 <= inner_eg <= 58 * i,
            decreases j - i,
        {
            let t = chain_term_exec(pawns[i], pawns[j], player);
            inner_mg += t.0;
            inner_eg += t.1;
            i += 1;
        }
        mg += inner_mg;
        eg += inner_eg;
        j += 1;
    }
    TaperedScore::new_tapered(mg, eg)
}

// ---------------------------------------------------------------------------
// Advancement, isolation, doubled pawns
// ---------------------------------------------------------------------------

pub open spec fn advance_mg(row: int) -> int {
    if row == 0 { 60 } else if row == 1 { 52 } else if row == 2 { 44 } else if row == 3 { 34 } else if row == 4 { 24 }
    else if row == 5 { 16 } else if row == 6 { 8 } else if row == 7 { 2 } else { 0 }
}

pub open spec fn advance_eg(row: int) -> int {
    if row == 0 { 92 } else if row == 1 { 78 } else if row == 2 { 62 } else if row == 3 { 46 } else if row == 4 { 32 }
    else if row == 5 { 20 } else if row == 6 { 10 } else if row == 7 { 3 } else { 0 }
}

/// Advancement bonus by the pawn's row from `player`'s side.
pub open spec fn pawn_advancement(s: Seq<Position>, player: Player) -> (int, int) {
    (
        sum_over(s, |p: Position| advance_mg(oriented_row(p, player))),
        sum_over(s, |p: Position| advance_eg(oriented_row(p, player))),
    )
}

fn advance_values(row: i8) -> (r: (i32, i32))
    requires
        0 <= row < 9,
    ensures
        r.0 == advance_mg(row as int),
        r.1 == advance_eg(row as int),
        0 <= r.0 <= 60,
        0 <= r.1 <= 92,
{
    if row == 0 { (60, 92) } else if row == 1 { (52, 78) } else if row == 2 { (44, 62) } else if row == 3 { (34, 46) }
    else if row == 4 { (24, 32) } else if row == 5 { (16, 20) } else if row == 6 { (8, 10) } else if row == 7 { (2, 3) }
    else { (0, 0) }
}

/// Advancement bonus of the pawns.
pub fn evaluate_pawn_advancement(pawns: &Vec<Position>, player: Player) -> (r: TaperedScore)
    requires
        pawn_list(pawns@),
    ensures
        (r.mg as int, r.eg as int) == pawn_advancement(pawns@, player),
        0 <= r.mg <= 60 * 81,
        0 <= r.eg <= 92 * 81,
{
    let mut mg: i32 = 0;
    let mut eg: i32 = 0;
    let mut k: usize = 0;
    while k < pawns.len()
        invariant
            k <= pawns.len(),
            pawn_list(pawns@),
            mg == sum_over(pawns@.take(k as int), |p: Position| advance_mg(oriented_row(p, player))),
            eg == sum_over(pawns@.take(k as int), |p: Position| advance_eg(oriented_row(p, player))),
            0 <= mg <= 60 * k,
            0 <= eg <= 92 * k,
        decreases pawns.len() - k,
    {
        proof {
            crate::board::lemma_sum_take(pawns@, |p: Position| advance_mg(oriented_row(p, player)), k as int);
            crate::board::lemma_sum_take(pawns@, |p: Position| advance_eg(oriented_row(p, player)), k as int);
        }
        let (row, _col) = oriented_i8(pawns[k], player);
        let v = advance_values(row);
        mg += v.0;
        eg += v.1;
        k += 1;
    }
    proof {
        crate::board::lemma_take_all(pawns@);
    }
    TaperedScore::new_tapered(mg, eg)
}

/// An own pawn stands at a plain offset from `pos`.
pub open spec fn own_pawn_near(b: Board, pos: Position, player: Player, dr: int, dc: int) -> bool {
    crate::board::is_kind(piece_at(b, pos.row + dr, pos.col + dc), player, PieceType::Pawn)
}

/// No own pawn on the eight surrounding squares.
pub open spec fn isolated(b: Board, pos: Position, player: Player) -> bool {
    !own_pawn_near(b, pos, player, -1, -1) && !own_pawn_near(b, pos, player, -1, 0) && !own_pawn_near(
        b,
        pos,
        player,
        -1,
        1,
    ) && !own_pawn_near(b, pos, player, 0, -1) && !own_pawn_near(b, pos, player, 0, 1) && !own_pawn_near(
        b,
        pos,
        player,
        1,
        -1,
    ) && !own_pawn_near(b, pos, player, 1, 0) && !own_pawn_near(b, pos, player, 1, 1)
}

/// Isolation reads only the player's own pawns: two boards that hold the
/// player's pawns on the same squares agree on whether a pawn is isolated,
/// whatever else (an opposing pawn next to it, say) stands around it; and a
/// pawn is isolated exactly when none of the eight squares around it holds
/// a pawn of the player.
pub proof fn law_isolation_reads_own_pawns_only(b1: Board, b2: Board, pos: Position, player: Player)
    requires
        pos.valid(),
    ensures
        isolated(b1, pos, player) <==> (forall|dr: int, dc: int|
            -1 <= dr <= 1 && -1 <= dc <= 1 && !(dr == 0 && dc == 0) ==> !(#[trigger] piece_at(b1, pos.row + dr, pos.col + dc)
                == Some(Piece { piece_type: PieceType::Pawn, player }))),
        (forall|r: int, c: int|
            0 <= r < 9 && 0 <= c < 9 ==> (#[trigger] piece_at(b1, r, c) == Some(Piece { piece_type: PieceType::Pawn, player }))
                == (piece_at(b2, r, c) == Some(Piece { piece_type: PieceType::Pawn, player })))
            ==> isolated(b1, pos, player) == isolated(b2, pos, player),
{
    let own = Piece { piece_type: PieceType::Pawn, player };
    assert forall|dr: int, dc: int| -1 <= dr <= 1 && -1 <= dc <= 1 implies own_pawn_near(b1, pos, player, dr, dc)
        == (#[trigger] piece_at(b1, pos.row + dr, pos.col + dc) == Some(own)) by {
        match piece_at(b1, pos.row + dr, pos.col + dc) {
            Some(pc) => {},
            None => {},
        }
    }
    if isolated(b1, pos, player) {
        assert forall|dr: int, dc: int|
            -1 <= dr <= 1 && -1 <= dc <= 1 && !(dr == 0 && dc == 0) implies !(#[trigger] piece_at(b1, pos.row + dr, pos.col + dc)
                == Some(own)) by {
            assert(!own_pawn_near(b1, pos, player, dr, dc));
        }
    } else {
        if forall|dr: int, dc: int|
            -1 <= dr <= 1 && -1 <= dc <= 1 && !(dr == 0 && dc == 0) ==> !(#[trigger] piece_at(b1, pos.row + dr, pos.col + dc)
                == Some(own)) {
            assert(!(piece_at(b1, pos.row + -1, pos.col + -1) == Some(own)));
            assert(!(piece_at(b1, pos.row + -1, pos.col + 0) == Some(own)));
            assert(!(piece_at(b1, pos.row + -1, pos.col + 1) == Some(own)));
            assert(!(piece_at(b1, pos.row + 0, pos.col + -1) == Some(own)));
            assert(!(piece_at(b1, pos.row + 0, pos.col + 1) == Some(own)));
            assert(!(piece_at(b1, pos.row + 1, pos.col + -1) == Some(own)));
            assert(!(piece_at(b1, pos.row + 1, pos.col + 0) == Some(own)));
            assert(!(piece_at(b1, pos.row + 1, pos.col + 1) == Some(own)));
            assert(false);
        }
    }
    if forall|r: int, c: int|
        0 <= r < 9 && 0 <= c < 9 ==> (#[trigger] piece_at(b1, r, c) == Some(own)) == (piece_at(b2, r, c) == Some(own)) {
        assert forall|dr: int, dc: int| -1 <= dr <= 1 && -1 <= dc <= 1 implies own_pawn_near(b1, pos, player, dr, dc)
            == #[trigger] own_pawn_near(b2, pos, player, dr, dc) by {
            let r = pos.row + dr;
            let c = pos.col + dc;
            if 0 <= r < 9 && 0 <= c < 9 {
                assert((piece_at(b1, r, c) == Some(own)) == (piece_at(b2, r, c) == Some(own)));
                match piece_at(b1, r, c) {
                    Some(pc) => {},
                    None => {},
                }
                match piece_at(b2, r, c) {
                    Some(pc) => {},
                    None => {},
                }
            }
        }
        assert(own_pawn_near(b1, pos, player, -1, -1) == own_pawn_near(b2, pos, player, -1, -1));
        assert(own_pawn_near(b1, pos, player, -1, 0) == own_pawn_near(b2, pos, player, -1, 0));
        assert(own_pawn_near(b1, pos, player, -1, 1) == own_pawn_near(b2, pos, player, -1, 1));
        assert(own_pawn_near(b1, pos, player, 0, -1) == own_pawn_near(b2, pos, player, 0, -1));
        assert(own_pawn_near(b1, pos, player, 0, 1) == own_pawn_near(b2, pos, player, 0, 1));
        assert(own_pawn_near(b1, pos, player, 1, -1) == own_pawn_near(b2, pos, player, 1, -1));
        assert(own_pawn_near(b1, pos, player, 1, 0) == own_pawn_near(b2, pos, player, 1, 0));
        assert(own_pawn_near(b1, pos, player, 1, 1) == own_pawn_near(b2, pos, player, 1, 1));
    }
}

fn own_pawn_at_offset(board: &Board, pos: Position, player: Player, dr: i8, dc: i8) -> (r: bool)
    requires
        pos.valid(),
        -1 <= dr <= 1,
        -1 <= dc <= 1,
    ensures
        r == own_pawn_near(*board, pos, player, dr as int, dc as int),
{
    let r = pos.row as i8 + dr;
    let c = pos.col as i8 + dc;
    if r < 0 || r >= 9 || c < 0 || c >= 9 {
        return false;
    }
    match board.get_piece(Position::new(r as u8, c as u8)) {
        Some(piece) => piece.player == player && piece.piece_type == PieceType::Pawn,
        None => false,
    }
}

/// No own pawn on the eight squares around the pawn.
pub fn is_pawn_isolated(board: &Board, pawn_pos: Position, player: Player) -> (r: bool)
    requires
        pawn_pos.valid(),
    ensures
        r == isolated(*board, pawn_pos, player),
{
    !own_pawn_at_offset(board, pawn_pos, player, -1, -1) && !own_pawn_at_offset(board, pawn_pos, player, -1, 0)
        && !own_pawn_at_offset(board, pawn_pos, player, -1, 1) && !own_pawn_at_offset(board, pawn_pos, player, 0, -1)
        && !own_pawn_at_offset(board, pawn_pos, player, 0, 1) && !own_pawn_at_offset(board, pawn_pos, player, 1, -1)
        && !own_pawn_at_offset(board, pawn_pos, player, 1, 0) && !own_pawn_at_offset(board, pawn_pos, player, 1, 1)
}

/// Isolated pawns beyond those the hand's pawns and golds could support:
/// 18 (30) each.
pub open spec fn pawn_isolation(b: Board, s: Seq<Position>, player: Player, cp: CapturedPieces) -> (int, int) {
    let count = sum_over(s, |p: Position| if isolated(b, p, player) { 1int } else { 0int });
    let mitigation = cp.hand(PieceType::Pawn, player) + cp.hand(PieceType::Gold, player);
    let effective = if count - mitigation > 0 { count - mitigation } else { 0 };
    (-(effective * 18), -(effective * 30))
}

pub fn evaluate_pawn_isolation(board: &Board, pawns: &Vec<Position>, player: Player, captured_pieces: &CapturedPieces) -> (r: TaperedScore)
    requires
        pawn_list(pawns@),
        captured_pieces.counts_at_most(1_000_000),
    ensures
        (r.mg as int, r.eg as int) == pawn_isolation(*board, pawns@, player, *captured_pieces),
        -18 * 81 <= r.mg <= 0,
        -30 * 81 <= r.eg <= 0,
{
    let mut count: i32 = 0;
    let mut k: usize = 0;
    while k < pawns.len()
        invariant
            k <= pawns.len(),
            pawn_list(pawns@),
            count == sum_over(pawns@.take(k as int), |p: Position| if isolated(*board, p, player) { 1int } else { 0int }),
            0 <= count <= k,
        decreases pawns.len() - k,
    {
        proof {
            crate::board::lemma_sum_take(pawns@, |p: Position| if isolated(*board, p, player) { 1int } else { 0int }, k as int);
        }
        if is_pawn_isolated(board, pawns[k], player) {
            count += 1;
        }
        k += 1;
    }
    proof {
        crate::board::lemma_take_all(pawns@);
    }
    assert(captured_pieces.counts@[(player.idx() * 14 + PieceType::Pawn.idx()) as int] <= 1_000_000);
    assert(captured_pieces.counts@[(player.idx() * 14 + PieceType::Gold.idx()) as int] <= 1_000_000);
    let mitigation = (captured_pieces.count(PieceType::Pawn, player) + captured_pieces.count(PieceType::Gold, player)) as i32;
    let effective = if count - mitigation > 0 {
        count - mitigation
    } else {
        0
    };
    TaperedScore::new_tapered(-(effective * 18), -(effective * 30))
}

/// Number of pawns on a column.
pub open spec fn file_count(s: Seq<Position>, col: int) -> int {
    sum_over(s, |p: Position| if p.col == col { 1int } else { 0int })
}

pub open spec fn extra_on_file(s: Seq<Position>, col: int) -> int {
    if file_count(s, col) >= 2 {
        file_count(s, col) - 1
    } else {
        0
    }
}

/// Pawns beyond the first on each file.
pub open spec fn doubled_count(s: Seq<Position>) -> int {
    extra_on_file(s, 0) + extra_on_file(s, 1) + extra_on_file(s, 2) + extra_on_file(s, 3) + extra_on_file(s, 4)
        + extra_on_file(s, 5) + extra_on_file(s, 6) + extra_on_file(s, 7) + extra_on_file(s, 8)
}

/// Doubled pawns count every pawn beyond the first on its file: a list with
/// no pawns has none, and adding a pawn raises the count by one exactly
/// when its file already holds a pawn of the list.
pub proof fn law_doubled_counts_extra_pawns(s: Seq<Position>, p: Position)
    requires
        p.col < 9,
    ensures
        doubled_count(Seq::<Position>::empty()) == 0,
        doubled_count(s.push(p)) == doubled_count(s) + if file_count(s, p.col as int) >= 1 { 1int } else { 0int },
{
    let e = Seq::<Position>::empty();
    assert forall|c: int| 0 <= c < 9 implies #[trigger] file_count(e, c) == 0 by {
    }
    let t = s.push(p);
    assert(t.drop_last() =~= s);
    assert forall|c: int| 0 <= c < 9 implies #[trigger] file_count(t, c) == file_count(s, c) + if p.col == c { 1int } else { 0int } by {
        assert(t.last() == p);
    }
    assert(file_count(e, 0) == 0);
    assert(file_count(e, 1) == 0);
    assert(file_count(e, 2) == 0);
    assert(file_count(e, 3) == 0);
    assert(file_count(e, 4) == 0);
    assert(file_count(e, 5) == 0);
    assert(file_count(e, 6) == 0);
    assert(file_count(e, 7) == 0);
    assert(file_count(e, 8) == 0);
    assert(file_count(t, 0) == file_count(s, 0) + if p.col == 0 { 1int } else { 0int });
    assert(file_count(t, 1) == file_count(s, 1) + if p.col == 1 { 1int } else { 0int });
    assert(file_count(t, 2) == file_count(s, 2) + if p.col == 2 { 1int } else { 0int });
    assert(file_count(t, 3) == file_count(s, 3) + if p.col == 3 { 1int } else { 0int });
    assert(file_count(t, 4) == file_count(s, 4) + if p.col == 4 { 1int } else { 0int });
    assert(file_count(t, 5) == file_count(s, 5) + if p.col == 5 { 1int } else { 0int });
    assert(file_count(t, 6) == file_count(s, 6) + if p.col == 6 { 1int } else { 0int });
    assert(file_count(t, 7) == file_count(s, 7) + if p.col == 7 { 1int } else { 0int });
    assert(file_count(t, 8) == file_count(s, 8) + if p.col == 8 { 1int } else { 0int });
    lemma_file_count_nonneg(s, p.col as int);
}

proof fn lemma_file_count_nonneg(s: Seq<Position>, c: int)
    ensures
        file_count(s, c) >= 0,
    decreases s.len(),
{
    if s.len() > 0 {
        lemma_file_count_nonneg(s.drop_last(), c);
    }
}

/// 72 (78) per doubled pawn.
pub open spec fn doubled_pawns(s: Seq<Position>) -> (int, int) {
    let d = doubled_count(s);
    (-(d * 12) - d * 60, -(d * 18) - d * 60)
}

pub fn evaluate_doubled_pawns(pawns: &Vec<Position>) -> (r: TaperedScore)
    requires
        pawn_list(pawns@),
    ensures
        (r.mg as int, r.eg as int) == doubled_pawns(pawns@),
        -52_488 <= r.mg <= 0,
        -56_862 <= r.eg <= 0,
{
    let mut counts: [i32; 9] = [0; 9];
    let mut k: usize = 0;
    while k < pawns.len()
        invariant
            k <= pawns.len(),
            pawn_list(pawns@),
            forall|c: int| 0 <= c < 9 ==> #[trigger] counts@[c] == file_count(pawns@.take(k as int), c),
            forall|c: int| 0 <= c < 9 ==> 0 <= #[trigger] counts@[c] <= k,
        decreases pawns.len() - k,
    {
        let col = pawns[k].col as usize;
        proof {
            assert forall|c: int| 0 <= c < 9 implies file_count(pawns@.take(k as int + 1), c) == file_count(
                pawns@.take(k as int),
                c,
            ) + (if pawns@[k as int].col == c { 1int } else { 0int }) by {
                crate::board::lemma_sum_take(pawns@, |p: Position| if p.col == c { 1int } else { 0int }, k as int);
            }
        }
        counts[col] = counts[col] + 1;
        k += 1;
    }
    proof {
        crate::board::lemma_take_all(pawns@);
        assert forall|c: int| 0 <= c < 9 implies file_count(pawns@, c) <= 81 by {
            assert(counts@[c] <= pawns.len());
        }
    }
    let mut doubled: i32 = 0;
    let mut c: usize = 0;
    while c < 9
        invariant
            c <= 9,
            pawn_list(pawns@),
            forall|c: int| 0 <= c < 9 ==> #[trigger] counts@[c] == file_count(pawns@, c),
            forall|c: int| 0 <= c < 9 ==> 0 <= #[trigger] counts@[c] <= 81,
            doubled == (if c > 0 { extra_on_file(pawns@, 0) } else { 0 }) + (if c > 1 { extra_on_file(pawns@, 1) } else { 0 })
                + (if c > 2 { extra_on_file(pawns@, 2) } else { 0 }) + (if c > 3 { extra_on_file(pawns@, 3) } else { 0 })
                + (if c > 4 { extra_on_file(pawns@, 4) } else { 0 }) + (if c > 5 { extra_on_file(pawns@, 5) } else { 0 })
                + (if c > 6 { extra_on_file(pawns@, 6) } else { 0 }) + (if c > 7 { extra_on_file(pawns@, 7) } else { 0 })
                + (if c > 8 { extra_on_file(pawns@, 8) } else { 0 }),
            0 <= doubled <= 81 * c,
        decreases 9 - c,
    {
        let count = counts[c];
        if count >= 2 {
            doubled += count - 1;
        }
        c += 1;
    }
    TaperedScore::new_tapered(-(doubled * 12) - doubled * 60, -(doubled * 18) - doubled * 60)
}

} // verus!

verus! {

// ---------------------------------------------------------------------------
// Passed pawns
// ---------------------------------------------------------------------------

/// Row step toward the enemy camp.
pub open spec fn dir_of(player: Player) -> int {
    if player == Player::Black {
        -1
    } else {
        1
    }
}

/// Row `r` lies ahead of `pos` for `player`.
pub open spec fn ahead(pos: Position, player: Player, r: int) -> bool {
    if player == Player::Black {
        r < pos.row
    } else {
        r > pos.row
    }
}

/// A piece on `(r, cc)` stops the pawn from being passed: anything on its
/// own file, an enemy pawn or gold-like piece on a neighbouring file.
pub open spec fn blocks_passed(b: Board, pos: Position, player: Player, r: int, cc: int) -> bool {
    match piece_at(b, r, cc) {
        Some(pc) => cc == pos.col || (pc.player != player && (pc.piece_type == PieceType::Pawn || gold_equivalent(
            pc.piece_type,
        ))),
        None => false,
    }
}

pub open spec fn lane_clear(b: Board, pos: Position, player: Player, cc: int) -> bool {
    forall|r: int| 0 <= r < 9 && ahead(pos, player, r) ==> !#[trigger] blocks_passed(b, pos, player, r, cc)
}

/// Nothing ahead on the pawn's file, no enemy pawn or gold-like piece
/// ahead on the neighbouring files.
pub open spec fn passed(b: Board, pos: Position, player: Player) -> bool {
    (pos.col == 0 || lane_clear(b, pos, player, pos.col - 1)) && lane_clear(b, pos, player, pos.col as int) && (
    pos.col == 8 || lane_clear(b, pos, player, pos.col + 1))
}

/// A square on a file within one of the pawn's, strictly ahead of it in
/// the player's forward direction.
pub open spec fn in_front_zone(pos: Position, player: Player, r: int, c: int) -> bool {
    &&& 0 <= r < 9
    &&& 0 <= c < 9
    &&& -1 <= c - pos.col <= 1
    &&& (player == Player::Black ==> r < pos.row)
    &&& (player == Player::White ==> r > pos.row)
}

proof fn lemma_lane_clear_same(b1: Board, b2: Board, pos: Position, player: Player, cc: int)
    requires
        forall|r: int| 0 <= r < 9 && ahead(pos, player, r) ==> #[trigger] blocks_passed(b1, pos, player, r, cc)
            == blocks_passed(b2, pos, player, r, cc),
    ensures
        lane_clear(b1, pos, player, cc) == lane_clear(b2, pos, player, cc),
{
    if lane_clear(b1, pos, player, cc) {
        assert forall|r: int| 0 <= r < 9 && ahead(pos, player, r) implies !#[trigger] blocks_passed(b2, pos, player, r, cc) by {
            assert(!blocks_passed(b1, pos, player, r, cc));
        }
    }
    if lane_clear(b2, pos, player, cc) {
        assert forall|r: int| 0 <= r < 9 && ahead(pos, player, r) implies !#[trigger] blocks_passed(b1, pos, player, r, cc) by {
            assert(!blocks_passed(b2, pos, player, r, cc));
        }
    }
}

/// Whether a pawn is passed is decided by the squares ahead of it in the
/// player's forward direction, on its own file and the two next to it:
/// boards that agree there agree on it, whatever stands behind it or
/// elsewhere. With all those squares empty the pawn is passed; with an
/// opposing pawn anywhere ahead on its own file or a neighbouring file it
/// is not; an own piece on a neighbouring file ahead does not stop it.
pub proof fn law_passed_reads_squares_ahead(b1: Board, b2: Board, pos: Position, player: Player)
    requires
        pos.valid(),
    ensures
        (forall|r: int, c: int| #[trigger] in_front_zone(pos, player, r, c) ==> piece_at(b1, r, c) == piece_at(b2, r, c))
            ==> passed(b1, pos, player) == passed(b2, pos, player),
        (forall|r: int, c: int| #[trigger] in_front_zone(pos, player, r, c) ==> piece_at(b1, r, c).is_none())
            ==> passed(b1, pos, player),
        (exists|r: int, c: int|
            #[trigger] in_front_zone(pos, player, r, c) && piece_at(b1, r, c) == Some(
                Piece { piece_type: PieceType::Pawn, player: player.other() },
            )) ==> !passed(b1, pos, player),
        (forall|r: int, c: int|
            #[trigger] in_front_zone(pos, player, r, c) && c != pos.col ==> piece_at(b1, r, c) == piece_at(b2, r, c)
                || (piece_at(b1, r, c).is_none() && piece_at(b2, r, c).is_some() && piece_at(b2, r, c).unwrap().player == player))
            && (forall|r: int| #[trigger] in_front_zone(pos, player, r, pos.col as int) ==> piece_at(b1, r, pos.col as int) == piece_at(b2, r, pos.col as int))
            ==> passed(b1, pos, player) == passed(b2, pos, player),
{
    if forall|r: int, c: int| #[trigger] in_front_zone(pos, player, r, c) ==> piece_at(b1, r, c) == piece_at(b2, r, c) {
        assert forall|cc: int, r: int| -1 <= cc - pos.col <= 1 && 0 <= cc < 9 && 0 <= r < 9 && ahead(pos, player, r)
            implies #[trigger] blocks_passed(b1, pos, player, r, cc) == blocks_passed(b2, pos, player, r, cc) by {
            assert(in_front_zone(pos, player, r, cc));
        }
        if pos.col > 0 {
            lemma_lane_clear_same(b1, b2, pos, player, pos.col - 1);
        }
        lemma_lane_clear_same(b1, b2, pos, player, pos.col as int);
        if pos.col < 8 {
            lemma_lane_clear_same(b1, b2, pos, player, pos.col + 1);
        }
    }
    if forall|r: int, c: int| #[trigger] in_front_zone(pos, player, r, c) ==> piece_at(b1, r, c).is_none() {
        assert forall|cc: int, r: int| -1 <= cc - pos.col <= 1 && 0 <= cc < 9 && 0 <= r < 9 && ahead(pos, player, r)
            implies !#[trigger] blocks_passed(b1, pos, player, r, cc) by {
            assert(in_front_zone(pos, player, r, cc));
        }
    }
    if exists|r: int, c: int|
        #[trigger] in_front_zone(pos, player, r, c) && piece_at(b1, r, c) == Some(
            Piece { piece_type: PieceType::Pawn, player: player.other() },
        ) {
        let (r, c) = choose|r: int, c: int|
            #[trigger] in_front_zone(pos, player, r, c) && piece_at(b1, r, c) == Some(
                Piece { piece_type: PieceType::Pawn, player: player.other() },
            );
        assert(ahead(pos, player, r));
        assert(blocks_passed(b1, pos, player, r, c));
        assert(!lane_clear(b1, pos, player, c));
    }
    if (forall|r: int, c: int|
        #[trigger] in_front_zone(pos, player, r, c) && c != pos.col ==> piece_at(b1, r, c) == piece_at(b2, r, c)
            || (piece_at(b1, r, c).is_none() && piece_at(b2, r, c).is_some() && piece_at(b2, r, c).unwrap().player == player))
        && (forall|r: int| #[trigger] in_front_zone(pos, player, r, pos.col as int) ==> piece_at(b1, r, pos.col as int) == piece_at(b2, r, pos.col as int)) {
        assert forall|cc: int, r: int| -1 <= cc - pos.col <= 1 && 0 <= cc < 9 && 0 <= r < 9 && ahead(pos, player, r)
            implies #[trigger] blocks_passed(b1, pos, player, r, cc) == blocks_passed(b2, pos, player, r, cc) by {
            assert(in_front_zone(pos, player, r, cc));
        }
        if pos.col > 0 {
            lemma_lane_clear_same(b1, b2, pos, player, pos.col - 1);
        }
        lemma_lane_clear_same(b1, b2, pos, player, pos.col as int);
        if pos.col < 8 {
            lemma_lane_clear_same(b1, b2, pos, player, pos.col + 1);
        }
    }
}

fn lane_is_clear(board: &Board, pos: Position, player: Player, cc: u8) -> (r: bool)
    requires
        pos.valid(),
        cc < 9,
    ensures
        r == lane_clear(*board, pos, player, cc as int),
{
    let mut row: i8 = match player {
        Player::Black => pos.row as i8 - 1,
        Player::White => pos.row as i8 + 1,
    };
    while row >= 0 && row < 9
        invariant
            pos.valid(),
            cc < 9,
            -1 <= row <= 9,
            player == Player::Black ==> row < pos.row,
            player == Player::White ==> row > pos.row,
            forall|r: int|
                0 <= r < 9 && ahead(pos, player, r) && (if player == Player::Black { r > row } else { r < row })
                    ==> !#[trigger] blocks_passed(*board, pos, player, r, cc as int),
        decreases (if player == Player::Black { row + 1 } else { 9 - row }),
    {
        match board.get_piece(Position::new(row as u8, cc)) {
            Some(piece) => {
                if cc == pos.col {
                    assert(blocks_passed(*board, pos, player, row as int, cc as int));
                    return false;
                } else if piece.player != player && (piece.piece_type == PieceType::Pawn || is_gold_equivalent(
                    piece.piece_type,
                )) {
                    assert(blocks_passed(*board, pos, player, row as int, cc as int));
                    return false;
                }
            },
            None => {},
        }
        row = match player {
            Player::Black => row - 1,
            Player::White => row + 1,
        };
    }
    true
}

/// The pawn is passed.
pub fn is_passed_pawn(board: &Board, pawn_pos: Position, player: Player) -> (r: bool)
    requires
        pawn_pos.valid(),
    ensures
        r == passed(*board, pawn_pos, player),
{
    let left = pawn_pos.col == 0 || lane_is_clear(board, pawn_pos, player, pawn_pos.col - 1);
    if !left {
        return false;
    }
    if !lane_is_clear(board, pawn_pos, player, pawn_pos.col) {
        return false;
    }
    pawn_pos.col == 8 || lane_is_clear(board, pawn_pos, player, pawn_pos.col + 1)
}

/// The enemy can drop a pawn right in front of the pawn.
pub open spec fn enemy_pawn_blocker(b: Board, pos: Position, player: Player, cp: CapturedPieces) -> bool {
    let opp = player.other();
    let front = pos.row + dir_of(player);
    cp.hand(PieceType::Pawn, opp) > 0 && !column_has_pawn(b, opp, pos.col as int) && 0 <= front < 9
        && !illegal_pawn_drop_rank(opp, front) && piece_at(b, front, pos.col as int).is_none()
}

/// Scanning the file ahead from row `r`, the first enemy piece is gold-like
/// or a promoted rook or bishop.
pub open spec fn promoted_ahead(b: Board, col: int, r: int, dir: int, opp: Player, fuel: nat) -> bool
    decreases fuel,
{
    if fuel == 0 || !(0 <= r < 9) {
        false
    } else {
        match piece_at(b, r, col) {
            Some(pc) => if pc.player == opp {
                gold_equivalent(pc.piece_type) || promoted_major(pc.piece_type)
            } else {
                promoted_ahead(b, col, r + dir, dir, opp, (fuel - 1) as nat)
            },
            None => promoted_ahead(b, col, r + dir, dir, opp, (fuel - 1) as nat),
        }
    }
}

pub open spec fn enemy_promoted_block(b: Board, pos: Position, player: Player) -> bool {
    promoted_ahead(b, pos.col as int, pos.row + dir_of(player), dir_of(player), player.other(), 9)
}

/// Dropping a lance from `r` onward (toward the enemy camp of the pawn's
/// owner) on the first empty square before a piece, on a legal rank.
pub open spec fn lance_lane(b: Board, col: int, r: int, dir: int, opp: Player, fuel: nat) -> bool
    decreases fuel,
{
    if fuel == 0 || !(0 <= r < 9) {
        false
    } else if piece_at(b, r, col).is_some() {
        false
    } else if !illegal_pawn_drop_rank(opp, r) {
        true
    } else {
        lance_lane(b, col, r + dir, dir, opp, (fuel - 1) as nat)
    }
}

pub open spec fn wall_square_ok(b: Board, pos: Position, opp: Player, cp: CapturedPieces, dr: int, dc: int) -> bool {
    match oriented_square(pos, opp, dr, dc) {
        Some(q) => !occupied(b, q) && (cp.hand(PieceType::Gold, opp) > 0 || cp.hand(PieceType::Silver, opp) > 0 || (
        cp.hand(PieceType::Lance, opp) > 0 && !illegal_pawn_drop_rank(opp, q.row as int)) || (cp.hand(
            PieceType::Knight,
            opp,
        ) > 0 && !illegal_knight_drop_rank(opp, q.row as int))),
        None => false,
    }
}

/// The enemy can build a wall of hand pieces in front of the pawn.
pub open spec fn enemy_gold_wall(b: Board, pos: Position, player: Player, cp: CapturedPieces) -> bool {
    let opp = player.other();
    let total = cp.hand(PieceType::Gold, opp) + cp.hand(PieceType::Silver, opp) + cp.hand(PieceType::Lance, opp)
        + cp.hand(PieceType::Knight, opp);
    if total == 0 {
        false
    } else if wall_square_ok(b, pos, opp, cp, -1, 0) || wall_square_ok(b, pos, opp, cp, -1, -1) || wall_square_ok(
        b,
        pos,
        opp,
        cp,
        -1,
        1,
    ) {
        true
    } else if cp.hand(PieceType::Lance, opp) > 0 {
        lance_lane(b, pos.col as int, pos.row + dir_of(player), dir_of(player), opp, 9)
    } else {
        false
    }
}

/// The passed-pawn bonus for an advancement, reduced by the blocking
/// possibilities and the enemy golds in hand.
pub open spec fn scaled_bonus(adv: int, blocker: bool, promoted: bool, wall: bool, g: int) -> (int, int) {
    let m0 = adv * adv * 5;
    let e0 = adv * adv * 12;
    let m1 = if blocker { m0 * 2 / 3 } else { m0 };
    let e1 = if blocker { e0 * 2 / 3 } else { e0 };
    let m2 = if promoted { m1 * 3 / 4 } else { m1 };
    let e2 = if promoted { e1 * 3 / 4 } else { e1 };
    let m3 = if wall { m2 * 2 / 3 } else { m2 };
    let e3 = if wall { e2 * 2 / 3 } else { e2 };
    let red = if g > 0 {
        (if g < 2 { g } else { 2 }) * 6
    } else {
        0
    };
    let m4 = m3 - red;
    let e4 = e3 - red * 2;
    (if m4 > 0 { m4 } else { 0 }, if e4 > 0 { e4 } else { 0 })
}

pub open spec fn passed_bonus(b: Board, pos: Position, player: Player, cp: CapturedPieces) -> (int, int) {
    let adv: int = if player == Player::Black {
        8 - pos.row
    } else {
        pos.row as int
    };
    scaled_bonus(
        adv,
        enemy_pawn_blocker(b, pos, player, cp),
        enemy_promoted_block(b, pos, player),
        enemy_gold_wall(b, pos, player, cp),
        cp.hand(PieceType::Gold, player.other()) as int,
    )
}

/// Bonus of the passed pawns: 5 (12) times the square of the advancement,
/// reduced when the enemy can block with a pawn drop, a promoted piece or
/// a wall of hand pieces, and by enemy golds in hand.
pub open spec fn passed_pawns(b: Board, s: Seq<Position>, player: Player, cp: CapturedPieces) -> (int, int) {
    (
        sum_over(s, |p: Position| if passed(b, p, player) { passed_bonus(b, p, player, cp).0 } else { 0 }),
        sum_over(s, |p: Position| if passed(b, p, player) { passed_bonus(b, p, player, cp).1 } else { 0 }),
    )
}

fn enemy_can_drop_pawn_blocker(board: &Board, pawn_pos: Position, player: Player, captured_pieces: &CapturedPieces) -> (r: bool)
    requires
        pawn_pos.valid(),
    ensures
        r == enemy_pawn_blocker(*board, pawn_pos, player, *captured_pieces),
{
    let opponent = player.opposite();
    if captured_pieces.count(PieceType::Pawn, opponent) == 0 {
        return false;
    }
    if column_has_unpromoted_pawn(board, opponent, pawn_pos.col) {
        return false;
    }
    let front_row: i8 = match player {
        Player::Black => pawn_pos.row as i8 - 1,
        Player::White => pawn_pos.row as i8 + 1,
    };
    if front_row < 0 || front_row >= 9 {
        return false;
    }
    let illegal = match opponent {
        Player::Black => front_row == 0,
        Player::White => front_row == 8,
    };
    if illegal {
        return false;
    }
    !board.is_square_occupied(Position::new(front_row as u8, pawn_pos.col))
}

fn enemy_promoted_blocker(board: &Board, pawn_pos: Position, player: Player) -> (r: bool)
    requires
        pawn_pos.valid(),
    ensures
        r == enemy_promoted_block(*board, pawn_pos, player),
{
    let opponent = player.opposite();
    let dir: i8 = match player {
        Player::Black => -1,
        Player::White => 1,
    };
    let mut row: i8 = pawn_pos.row as i8 + dir;
    let mut fuel: u8 = 9;
    while fuel > 0
        invariant
            pawn_pos.valid(),
            opponent == player.other(),
            dir == dir_of(player),
            -1 <= row <= 9,
            fuel <= 9,
            enemy_promoted_block(*board, pawn_pos, player) == promoted_ahead(*board, pawn_pos.col as int, row as int, dir as int, opponent, fuel as nat),
        decreases fuel,
    {
        if row < 0 || row >= 9 {
            return false;
        }
        match board.get_piece(Position::new(row as u8, pawn_pos.col)) {
            Some(piece) => {
                if piece.player == opponent {
                    return is_gold_equivalent(piece.piece_type) || is_promoted_major(piece.piece_type);
                }
            },
            None => {},
        }
        row = row + dir;
        fuel -= 1;
    }
    false
}

fn wall_square_free(board: &Board, pawn_pos: Position, opponent: Player, gold: usize, silver: usize, lance: usize, knight: usize, dr: i8, dc: i8) -> (r: bool)
    requires
        pawn_pos.valid(),
        -1 <= dr <= 1,
        -1 <= dc <= 1,
    ensures
        r == (match oriented_square(pawn_pos, opponent, dr as int, dc as int) {
            Some(q) => !occupied(*board, q) && (gold > 0 || silver > 0 || (lance > 0 && !illegal_pawn_drop_rank(opponent, q.row as int)) || (knight > 0 && !illegal_knight_drop_rank(opponent, q.row as int))),
            None => false,
        }),
{
    match oriented_offset_to_actual(pawn_pos, opponent, dr, dc) {
        Some(q) => {
            if board.is_square_occupied(q) {
                return false;
            }
            let lance_ok = match opponent {
                Player::Black => q.row != 0,
                Player::White => q.row != 8,
            };
            let knight_ok = match opponent {
                Player::Black => q.row > 1,
                Player::White => q.row < 7,
            };
            gold > 0 || silver > 0 || (lance > 0 && lance_ok) || (knight > 0 && knight_ok)
        },
        None => false,
    }
}

fn enemy_can_drop_gold_wall(board: &Board, pawn_pos: Position, player: Player, captured_pieces: &CapturedPieces) -> (r: bool)
    requires
        pawn_pos.valid(),
        captured_pieces.counts_at_most(1_000_000),
    ensures
        r == enemy_gold_wall(*board, pawn_pos, player, *captured_pieces),
{
    let opponent = player.opposite();
    let gold = captured_pieces.count(PieceType::Gold, opponent);
    let silver = captured_pieces.count(PieceType::Silver, opponent);
    let lance = captured_pieces.count(PieceType::Lance, opponent);
    let knight = captured_pieces.count(PieceType::Knight, opponent);
    assert(captured_pieces.counts@[(opponent.idx() * 14 + PieceType::Gold.idx()) as int] <= 1_000_000);
    assert(captured_pieces.counts@[(opponent.idx() * 14 + PieceType::Silver.idx()) as int] <= 1_000_000);
    assert(captured_pieces.counts@[(opponent.idx() * 14 + PieceType::Lance.idx()) as int] <= 1_000_000);
    assert(captured_pieces.counts@[(opponent.idx() * 14 + PieceType::Knight.idx()) as int] <= 1_000_000);
    if gold + silver + lance + knight == 0 {
        return false;
    }
    if wall_square_free(board, pawn_pos, opponent, gold, silver, lance, knight, -1, 0) || wall_square_free(
        board,
        pawn_pos,
        opponent,
        gold,
        silver,
        lance,
        knight,
        -1,
        -1,
    ) || wall_square_free(board, pawn_pos, opponent, gold, silver, lance, knight, -1, 1) {
        return true;
    }
    if lance > 0 {
        let dir: i8 = match player {
            Player::Black => -1,
            Player::White => 1,
        };
        let mut row: i8 = pawn_pos.row as i8 + dir;
        let mut fuel: u8 = 9;
        while fuel > 0
            invariant
                pawn_pos.valid(),
                opponent == player.other(),
                dir == dir_of(player),
                -1 <= row <= 9,
                fuel <= 9,
                enemy_gold_wall(*board, pawn_pos, player, *captured_pieces) == lance_lane(
                    *board,
                    pawn_pos.col as int,
                    row as int,
                    dir as int,
                    opponent,
                    fuel as nat,
                ),
            decreases fuel,
        {
            if row < 0 || row >= 9 {
                return false;
            }
            if board.is_square_occupied(Position::new(row as u8, pawn_pos.col)) {
                return false;
            }
            let legal = match opponent {
                Player::Black => row != 0,
                Player::White => row != 8,
            };
            if legal {
                return true;
            }
            row = row + dir;
            fuel -= 1;
        }
        return false;
    }
    false
}

fn scaled_bonus_exec(adv: i32, blocker: bool, promoted: bool, wall: bool, g: i32) -> (r: (i32, i32))
    requires
        0 <= adv <= 8,
        0 <= g <= 1_000_000,
    ensures
        (r.0 as int, r.1 as int) == scaled_bonus(adv as int, blocker, promoted, wall, g as int),
        0 <= r.0 <= 320,
        0 <= r.1 <= 768,
{
    assert(0 <= adv * adv <= 64) by (nonlinear_arith)
        requires
            0 <= adv <= 8,
    ;
    let mut m = adv * adv * 5;
    let mut e = adv * adv * 12;
    if blocker {
        m = (m * 2) / 3;
        e = (e * 2) / 3;
    }
    if promoted {
        m = (m * 3) / 4;
        e = (e * 3) / 4;
    }
    if wall {
        m = (m * 2) / 3;
        e = (e * 2) / 3;
    }
    if g > 0 {
        let reduction = (if g < 2 { g } else { 2 }) * 6;
        m -= reduction;
        e -= reduction * 2;
    }
    (if m > 0 { m } else { 0 }, if e > 0 { e } else { 0 })
}

fn passed_bonus_exec(board: &Board, pawn_pos: Position, player: Player, captured_pieces: &CapturedPieces) -> (r: (i32, i32))
    requires
        pawn_pos.valid(),
        captured_pieces.counts_at_most(1_000_000),
    ensures
        (r.0 as int, r.1 as int) == passed_bonus(*board, pawn_pos, player, *captured_pieces),
        0 <= r.0 <= 320,
        0 <= r.1 <= 768,
{
    let adv: i32 = match player {
        Player::Black => 8 - pawn_pos.row as i32,
        Player::White => pawn_pos.row as i32,
    };
    let blocker = enemy_can_drop_pawn_blocker(board, pawn_pos, player, captured_pieces);
    let promoted = enemy_promoted_blocker(board, pawn_pos, player);
    let wall = enemy_can_drop_gold_wall(board, pawn_pos, player, captured_pieces);
    let opponent = player.opposite();
    assert(captured_pieces.counts@[(opponent.idx() * 14 + PieceType::Gold.idx()) as int] <= 1_000_000);
    let enemy_gold = captured_pieces.count(PieceType::Gold, opponent) as i32;
    scaled_bonus_exec(adv, blocker, promoted, wall, enemy_gold)
}

/// Bonus of the passed pawns.
pub fn evaluate_passed_pawns(board: &Board, pawns: &Vec<Position>, player: Player, captured_pieces: &CapturedPieces) -> (r: TaperedScore)
    requires
        pawn_list(pawns@),
        captured_pieces.counts_at_most(1_000_000),
    ensures
        (r.mg as int, r.eg as int) == passed_pawns(*board, pawns@, player, *captured_pieces),
        0 <= r.mg <= 320 * 81,
        0 <= r.eg <= 768 * 81,
{
    let ghost fm = |p: Position| if passed(*board, p, player) { passed_bonus(*board, p, player, *captured_pieces).0 } else { 0 };
    let ghost fe = |p: Position| if passed(*board, p, player) { passed_bonus(*board, p, player, *captured_pieces).1 } else { 0 };
    let mut mg: i32 = 0;
    let mut eg: i32 = 0;
    let mut k: usize = 0;
    while k < pawns.len()
        invariant
            k <= pawns.len(),
            pawn_list(pawns@),
            captured_pieces.counts_at_most(1_000_000),
            fm == (|p: Position| if passed(*board, p, player) { passed_bonus(*board, p, player, *captured_pieces).0 } else { 0 }),
            fe == (|p: Position| if passed(*board, p, player) { passed_bonus(*board, p, player, *captured_pieces).1 } else { 0 }),
            mg == sum_over(pawns@.take(k as int), fm),
            eg == sum_over(pawns@.take(k as int), fe),
            0 <= mg <= 320 * k,
            0 <= eg <= 768 * k,
        decreases pawns.len() - k,
    {
        proof {
            crate::board::lemma_sum_take(pawns@, fm, k as int);
            crate::board::lemma_sum_take(pawns@, fe, k as int);
        }
        let pawn = pawns[k];
        if is_passed_pawn(board, pawn, player) {
            let b = passed_bonus_exec(board, pawn, player, captured_pieces);
            mg += b.0;
            eg += b.1;
        }
        k += 1;
    }
    proof {
        crate::board::lemma_take_all(pawns@);
    }
    TaperedScore::new_tapered(mg, eg)
}

} // verus!

verus! {

// ---------------------------------------------------------------------------
// Chains the hand could complete
// ---------------------------------------------------------------------------

/// The eight neighbour offsets, in the order they are tried.
pub open spec fn chain_offset(k: int) -> (int, int) {
    if k == 0 { (0, -1) } else if k == 1 { (0, 1) } else if k == 2 { (-1, 0) } else if k == 3 { (1, 0) }
    else if k == 4 { (-1, -1) } else if k == 5 { (-1, 1) } else if k == 6 { (1, -1) } else { (1, 1) }
}

/// A pawn at oriented coordinates `dro` would chain with pawn `p`.
pub open spec fn chains_with(p: Position, player: Player, dro: (int, int)) -> bool {
    let dr = oriented_row(p, player) - dro.0;
    let dc = oriented_col(p, player) - dro.1;
    (dr == 0 && abs_int(dc) == 1) || (abs_int(dr) == 1 && dc == 0) || (dr == 1 && abs_int(dc) <= 1) || (dr == 0
        && abs_int(dc) == 2)
}

pub open spec fn drop_creates_chain(s: Seq<Position>, player: Player, dro: (int, int)) -> bool {
    exists|j: int| 0 <= j < s.len() && #[trigger] chains_with(s[j], player, dro)
}

/// Candidate `t` is neighbour `t % 8` of pawn `t / 8`: its square, and the
/// drop point in oriented coordinates (the pawn's oriented coordinates plus
/// the plain offset).
pub open spec fn candidate_square(s: Seq<Position>, t: int) -> Option<Position> {
    let p = s[t / 8];
    let off = chain_offset(t % 8);
    let r = p.row + off.0;
    let c = p.col + off.1;
    if 0 <= r < 9 && 0 <= c < 9 {
        Some(Position { row: r as u8, col: c as u8 })
    } else {
        None
    }
}

pub open spec fn candidate_oriented(s: Seq<Position>, player: Player, t: int) -> (int, int) {
    let p = s[t / 8];
    let off = chain_offset(t % 8);
    (oriented_row(p, player) + off.0, oriented_col(p, player) + off.1)
}

/// Candidate `t` is a square where a pawn from hand would complete a chain.
pub open spec fn pawn_hit(b: Board, s: Seq<Position>, player: Player, cp: CapturedPieces, t: int, i: int) -> bool {
    let sq = candidate_square(s, t);
    cp.hand(PieceType::Pawn, player) > 0 && sq.is_some() && crate::king_safety::pawn_drop_allowed(b, player, sq.unwrap())
        && drop_creates_chain(s, player, candidate_oriented(s, player, t)) && sq.unwrap().index() == i
}

/// Candidate `t` is a square where a gold from hand would complete a chain.
pub open spec fn gold_hit(b: Board, s: Seq<Position>, player: Player, cp: CapturedPieces, t: int, i: int) -> bool {
    let sq = candidate_square(s, t);
    cp.hand(PieceType::Gold, player) > 0 && sq.is_some() && !occupied(b, sq.unwrap()) && drop_creates_chain(
        s,
        player,
        candidate_oriented(s, player, t),
    ) && sq.unwrap().index() == i
}

pub open spec fn pawn_target(b: Board, s: Seq<Position>, player: Player, cp: CapturedPieces, i: int) -> bool {
    exists|t: int| 0 <= t < s.len() * 8 && #[trigger] pawn_hit(b, s, player, cp, t, i)
}

pub open spec fn gold_target(b: Board, s: Seq<Position>, player: Player, cp: CapturedPieces, i: int) -> bool {
    exists|t: int| 0 <= t < s.len() * 8 && #[trigger] gold_hit(b, s, player, cp, t, i)
}

pub open spec fn clamp_usable(unique: int, available: int) -> int {
    let m = if unique < available { unique } else { available };
    if m > 0 { m } else { 0 }
}

/// Squares next to the pawns where a pawn (12, 8 each) or gold (9, 6) from
/// hand would complete a chain, each square counted once, at most as many
/// as are in hand.
pub open spec fn hand_supported_chains(b: Board, s: Seq<Position>, player: Player, cp: CapturedPieces) -> (int, int) {
    let pawns = cp.hand(PieceType::Pawn, player) as int;
    let golds = cp.hand(PieceType::Gold, player) as int;
    if pawns == 0 && golds == 0 {
        (0, 0)
    } else {
        let pu = clamp_usable(
            crate::board::square_sum(|i: int| if pawn_target(b, s, player, cp, i) { 1int } else { 0int }, 81),
            pawns,
        );
        let gu = clamp_usable(
            crate::board::square_sum(|i: int| if gold_target(b, s, player, cp, i) { 1int } else { 0int }, 81),
            golds,
        );
        (pu * 12 + gu * 9, pu * 8 + gu * 6)
    }
}

fn chain_offset_exec(k: usize) -> (r: (i8, i8))
    requires
        k < 8,
    ensures
        (r.0 as int, r.1 as int) == chain_offset(k as int),
{
    if k == 0 { (0, -1) } else if k == 1 { (0, 1) } else if k == 2 { (-1, 0) } else if k == 3 { (1, 0) }
    else if k == 4 { (-1, -1) } else if k == 5 { (-1, 1) } else if k == 6 { (1, -1) } else { (1, 1) }
}

fn drop_creates_chain_oriented(pawns: &Vec<Position>, player: Player, dro_r: i8, dro_c: i8) -> (r: bool)
    requires
        pawn_list(pawns@),
        -2 <= dro_r <= 10,
        -2 <= dro_c <= 10,
    ensures
        r == drop_creates_chain(pawns@, player, (dro_r as int, dro_c as int)),
{
    let mut j: usize = 0;
    while j < pawns.len()
        invariant
            j <= pawns.len(),
            pawn_list(pawns@),
            -2 <= dro_r <= 10,
            -2 <= dro_c <= 10,
            forall|j2: int| 0 <= j2 < j ==> !#[trigger] chains_with(pawns@[j2], player, (dro_r as int, dro_c as int)),
        decreases pawns.len() - j,
    {
        let (pr, pc) = oriented_i8(pawns[j], player);
        let dr = pr - dro_r;
        let dc = pc - dro_c;
        let adr = abs_i8(dr);
        let adc = abs_i8(dc);
        if (dr == 0 && adc == 1) || (adr == 1 && dc == 0) || (dr == 1 && adc <= 1) || (dr == 0 && adc == 2) {
            assert(chains_with(pawns@[j as int], player, (dro_r as int, dro_c as int)));
            return true;
        }
        j += 1;
    }
    false
}

/// Squares next to the pawns where a pawn or gold from hand would complete
/// a chain.
pub fn evaluate_hand_supported_chains(board: &Board, pawns: &Vec<Position>, player: Player, captured_pieces: &CapturedPieces) -> (r: TaperedScore)
    requires
        pawn_list(pawns@),
        captured_pieces.counts_at_most(1_000_000),
    ensures
        (r.mg as int, r.eg as int) == hand_supported_chains(*board, pawns@, player, *captured_pieces),
        0 <= r.mg <= 21 * 648,
        0 <= r.eg <= 14 * 648,
{
    assert(captured_pieces.counts@[(player.idx() * 14 + PieceType::Pawn.idx()) as int] <= 1_000_000);
    assert(captured_pieces.counts@[(player.idx() * 14 + PieceType::Gold.idx()) as int] <= 1_000_000);
    let pawn_available = captured_pieces.count(PieceType::Pawn, player) as i32;
    let gold_available = captured_pieces.count(PieceType::Gold, player) as i32;
    if pawn_available == 0 && gold_available == 0 {
        return TaperedScore::default();
    }
    let ghost s = pawns@;
    let ghost cp = *captured_pieces;
    let mut pawn_marks: [bool; 81] = [false; 81];
    let mut gold_marks: [bool; 81] = [false; 81];
    let mut pawn_unique: i32 = 0;
    let mut gold_unique: i32 = 0;
    let total = pawns.len() * 8;
    let mut t: usize = 0;
    proof {
        crate::board::lemma_square_sum_zero(|i: int| if pawn_marks@[i] { 1int } else { 0int }, 81);
        crate::board::lemma_square_sum_zero(|i: int| if gold_marks@[i] { 1int } else { 0int }, 81);
    }
    while t < total
        invariant
            t <= total,
            total == pawns.len() * 8,
            s == pawns@,
            cp == *captured_pieces,
            pawn_list(pawns@),
            pawn_available == cp.hand(PieceType::Pawn, player),
            gold_available == cp.hand(PieceType::Gold, player),
            forall|i: int| 0 <= i < 81 ==> #[trigger] pawn_marks@[i] == (exists|t2: int| 0 <= t2 < t && #[trigger] pawn_hit(*board, s, player, cp, t2, i)),
            forall|i: int| 0 <= i < 81 ==> #[trigger] gold_marks@[i] == (exists|t2: int| 0 <= t2 < t && #[trigger] gold_hit(*board, s, player, cp, t2, i)),
            pawn_unique == crate::board::square_sum(|i: int| if pawn_marks@[i] { 1int } else { 0int }, 81),
            gold_unique == crate::board::square_sum(|i: int| if gold_marks@[i] { 1int } else { 0int }, 81),
            0 <= pawn_unique <= t,
            0 <= gold_unique <= t,
        decreases total - t,
    {
        let j = t / 8;
        let k = t % 8;
        let pawn = pawns[j];
        let (dr, dc) = chain_offset_exec(k);
        let nr = pawn.row as i8 + dr;
        let nc = pawn.col as i8 + dc;
        let ghost before_p = pawn_marks@;
        let ghost before_g = gold_marks@;
        if nr >= 0 && nr < 9 && nc >= 0 && nc < 9 {
            let pos = Position::new(nr as u8, nc as u8);
            let idx = (nr as usize) * 9 + nc as usize;
            let (or, oc) = oriented_i8(pawn, player);
            let dro_r = or + dr;
            let dro_c = oc + dc;
            assert(candidate_square(s, t as int) == Some(pos));
            assert(candidate_oriented(s, player, t as int) == (dro_r as int, dro_c as int));
            let pawn_ok = pawn_available > 0 && crate::king_safety::can_drop_pawn_at(board, player, pos)
                && drop_creates_chain_oriented(pawns, player, dro_r, dro_c);
            let gold_ok = gold_available > 0 && !board.is_square_occupied(pos) && drop_creates_chain_oriented(
                pawns,
                player,
                dro_r,
                dro_c,
            );
            proof {
                assert forall|i: int| 0 <= i < 81 && i != idx implies !#[trigger] pawn_hit(*board, s, player, cp, t as int, i) by {}
                assert forall|i: int| 0 <= i < 81 && i != idx implies !#[trigger] gold_hit(*board, s, player, cp, t as int, i) by {}
                assert(pawn_hit(*board, s, player, cp, t as int, idx as int) == pawn_ok);
                assert(gold_hit(*board, s, player, cp, t as int, idx as int) == gold_ok);
            }
            if pawn_ok && !pawn_marks[idx] {
                pawn_marks[idx] = true;
                proof {
                    crate::board::lemma_square_sum_update(
                        |i: int| if before_p[i] { 1int } else { 0int },
                        |i: int| if pawn_marks@[i] { 1int } else { 0int },
                        81,
                        idx as int,
                    );
                }
                pawn_unique += 1;
            }
            if gold_ok && !gold_marks[idx] {
                gold_marks[idx] = true;
                proof {
                    crate::board::lemma_square_sum_update(
                        |i: int| if before_g[i] { 1int } else { 0int },
                        |i: int| if gold_marks@[i] { 1int } else { 0int },
                        81,
                        idx as int,
                    );
                }
                gold_unique += 1;
            }
            proof {
                assert forall|i: int| 0 <= i < 81 implies #[trigger] pawn_marks@[i] == (exists|t2: int| 0 <= t2 < t + 1 && #[trigger] pawn_hit(*board, s, player, cp, t2, i)) by {
                    if pawn_hit(*board, s, player, cp, t as int, i) {
                        assert(i == idx);
                    }
                    if pawn_marks@[i] && !before_p[i] {
                        assert(pawn_hit(*board, s, player, cp, t as int, i));
                    }
                }
                assert forall|i: int| 0 <= i < 81 implies #[trigger] gold_marks@[i] == (exists|t2: int| 0 <= t2 < t + 1 && #[trigger] gold_hit(*board, s, player, cp, t2, i)) by {
                    if gold_hit(*board, s, player, cp, t as int, i) {
                        assert(i == idx);
                    }
                    if gold_marks@[i] && !before_g[i] {
                        assert(gold_hit(*board, s, player, cp, t as int, i));
                    }
                }
            }
        } else {
            proof {
                assert(candidate_square(s, t as int).is_none());
                assert forall|i: int| 0 <= i < 81 implies #[trigger] pawn_marks@[i] == (exists|t2: int| 0 <= t2 < t + 1 && #[trigger] pawn_hit(*board, s, player, cp, t2, i)) by {
                    assert(!pawn_hit(*board, s, player, cp, t as int, i));
                }
                assert forall|i: int| 0 <= i < 81 implies #[trigger] gold_marks@[i] == (exists|t2: int| 0 <= t2 < t + 1 && #[trigger] gold_hit(*board, s, player, cp, t2, i)) by {
                    assert(!gold_hit(*board, s, player, cp, t as int, i));
                }
            }
        }
        t += 1;
    }
    proof {
        assert forall|i: int| 0 <= i < 81 implies #[trigger] pawn_marks@[i] == pawn_target(*board, s, player, cp, i) by {}
        assert forall|i: int| 0 <= i < 81 implies #[trigger] gold_marks@[i] == gold_target(*board, s, player, cp, i) by {}
        crate::board::lemma_square_sum_same(
            |i: int| if pawn_marks@[i] { 1int } else { 0int },
            |i: int| if pawn_target(*board, s, player, cp, i) { 1int } else { 0int },
            81,
        );
        crate::board::lemma_square_sum_same(
            |i: int| if gold_marks@[i] { 1int } else { 0int },
            |i: int| if gold_target(*board, s, player, cp, i) { 1int } else { 0int },
            81,
        );
        assert(pawn_unique <= 648);
    }
    let pawn_usable = if pawn_unique < pawn_available {
        pawn_unique
    } else {
        pawn_available
    };
    let pawn_usable = if pawn_usable > 0 {
        pawn_usable
    } else {
        0
    };
    let gold_usable = if gold_unique < gold_available {
        gold_unique
    } else {
        gold_available
    };
    let gold_usable = if gold_usable > 0 {
        gold_usable
    } else {
        0
    };
    TaperedScore::new_tapered(pawn_usable * 12 + gold_usable * 9, pawn_usable * 8 + gold_usable * 6)
}

} // verus!
