//! Batch tactical pattern matching: forks, pins, skewers and discovered
//! attacks for lists of pieces, and target counts over square sets.
//!
//! Results come in the order of the pieces given and, per piece, in the
//! order of its scan directions.

use vstd::prelude::*;
use crate::attacks::{attacks, attacks_square, dir_hit, ray_hits, slides};
use crate::bitboards::{AlignedBitboardArray, SimdBitboard, popcount};
use crate::board::{Board, piece_at, square_sum};
use crate::types::{PieceType, Player, Position};

verus! {

/// Square `i` holds a piece of `player`'s opponent.
pub open spec fn enemy_at(b: Board, player: Player, i: int) -> bool {
    match b.squares@[i] {
        Some(pc) => pc.player != player,
        None => false,
    }
}

pub open spec fn target_term(b: Board, from: Position, pt: PieceType, player: Player, i: int) -> int {
    if attacks(b, from, pt, player, Position::at_index(i)) && enemy_at(b, player, i) { 1 } else { 0 }
}

/// Number of opposing pieces a piece of `pt` on `from` attacks.
pub open spec fn target_count(b: Board, from: Position, pt: PieceType, player: Player) -> int {
    square_sum(|i: int| target_term(b, from, pt, player, i), 81)
}

/// All squares of a list are on the board.
pub open spec fn all_valid(pieces: Seq<(Position, PieceType)>) -> bool {
    forall|i: int| 0 <= i < pieces.len() ==> (#[trigger] pieces[i]).0.valid()
}

/// Forks among the first `n` pieces: each piece attacking two or more
/// opposing pieces, with that number.
pub open spec fn forks_upto(b: Board, pieces: Seq<(Position, PieceType)>, player: Player, n: int) -> Seq<(Position, PieceType, u32)>
    decreases n,
{
    if n <= 0 {
        Seq::empty()
    } else {
        let prev = forks_upto(b, pieces, player, n - 1);
        let (pos, pt) = pieces[n - 1];
        let c = target_count(b, pos, pt, player);
        if c >= 2 { prev.push((pos, pt, c as u32)) } else { prev }
    }
}

/// Every reported fork attacks at least two opposing pieces.
proof fn lemma_forks_at_least_two(b: Board, pieces: Seq<(Position, PieceType)>, player: Player, n: int)
    ensures
        forall|i: int| 0 <= i < forks_upto(b, pieces, player, n).len() ==> (#[trigger] forks_upto(b, pieces, player, n)[i]).2 >= 2,
    decreases n,
{
    if n > 0 {
        lemma_forks_at_least_two(b, pieces, player, n - 1);
        let (pos, pt) = pieces[n - 1];
        let c = target_count(b, pos, pt, player);
        lemma_target_count_bounds(b, pos, pt, player, 81);
        assert(0 <= c <= 81);
        let prev = forks_upto(b, pieces, player, n - 1);
        let cur = forks_upto(b, pieces, player, n);
        assert forall|i: int| 0 <= i < cur.len() implies (#[trigger] cur[i]).2 >= 2 by {
            if i < prev.len() {
                assert(cur[i] == prev[i]);
            } else {
                assert(c >= 2);
                assert(cur[i] == (pos, pt, c as u32));
            }
        }
    }
}

proof fn lemma_target_count_bounds(b: Board, from: Position, pt: PieceType, player: Player, n: int)
    requires
        0 <= n <= 81,
    ensures
        0 <= square_sum(|i: int| target_term(b, from, pt, player, i), n) <= n,
    decreases n,
{
    if n > 0 {
        lemma_target_count_bounds(b, from, pt, player, n - 1);
    }
}

/// Line directions scanned for pins by a piece kind.
pub open spec fn pin_directions(pt: PieceType, player: Player) -> Seq<(int, int)> {
    if pt == PieceType::Rook || pt == PieceType::PromotedRook {
        seq![(1, 0), (-1, 0), (0, 1), (0, -1)]
    } else if pt == PieceType::Bishop || pt == PieceType::PromotedBishop {
        seq![(1, 1), (-1, 1), (1, -1), (-1, -1)]
    } else if pt == PieceType::Lance {
        if player == Player::Black { seq![(-1, 0)] } else { seq![(1, 0)] }
    } else {
        Seq::empty()
    }
}

/// Line directions scanned for skewers: those of rooks and bishops.
pub open spec fn skewer_directions(pt: PieceType) -> Seq<(int, int)> {
    if pt == PieceType::Rook || pt == PieceType::PromotedRook {
        seq![(1, 0), (-1, 0), (0, 1), (0, -1)]
    } else if pt == PieceType::Bishop || pt == PieceType::PromotedBishop {
        seq![(1, 1), (-1, 1), (1, -1), (-1, -1)]
    } else {
        Seq::empty()
    }
}

/// Walking from `(r, c)` along `(dr, dc)`: an own piece ends the scan; the
/// first opposing piece is remembered; a second opposing piece that is the
/// king makes the remembered piece pinned, any other ends the scan.
pub open spec fn pin_scan(b: Board, r: int, c: int, dr: int, dc: int, player: Player, first: Option<Position>, fuel: nat) -> Option<Position>
    decreases fuel,
{
    let nr = r + dr;
    let nc = c + dc;
    if fuel == 0 || !(0 <= nr < 9 && 0 <= nc < 9) {
        None
    } else {
        match piece_at(b, nr, nc) {
            None => pin_scan(b, nr, nc, dr, dc, player, first, (fuel - 1) as nat),
            Some(pc) => if pc.player == player {
                None
            } else if first.is_none() {
                pin_scan(b, nr, nc, dr, dc, player, Some(Position { row: nr as u8, col: nc as u8 }), (fuel - 1) as nat)
            } else if pc.piece_type == PieceType::King {
                first
            } else {
                None
            },
        }
    }
}

/// Pins found along the first `k` of the given directions.
pub open spec fn pins_along(b: Board, pos: Position, pt: PieceType, player: Player, dirs: Seq<(int, int)>, k: int) -> Seq<(Position, PieceType, Position)>
    decreases k,
{
    if k <= 0 {
        Seq::empty()
    } else {
        let prev = pins_along(b, pos, pt, player, dirs, k - 1);
        match pin_scan(b, pos.row as int, pos.col as int, dirs[k - 1].0, dirs[k - 1].1, player, None, 8) {
            Some(pinned) => prev.push((pos, pt, pinned)),
            None => prev,
        }
    }
}

pub open spec fn piece_pins(b: Board, pos: Position, pt: PieceType, player: Player) -> Seq<(Position, PieceType, Position)> {
    let dirs = pin_directions(pt, player);
    pins_along(b, pos, pt, player, dirs, dirs.len() as int)
}

/// Pins made by the first `n` pieces.
pub open spec fn pins_upto(b: Board, pieces: Seq<(Position, PieceType)>, player: Player, n: int) -> Seq<(Position, PieceType, Position)>
    decreases n,
{
    if n <= 0 {
        Seq::empty()
    } else {
        pins_upto(b, pieces, player, n - 1) + piece_pins(b, pieces[n - 1].0, pieces[n - 1].1, player)
    }
}

/// Walking from `(r, c)` along `(dr, dc)`: the first own piece is the
/// front; a later own piece of higher value than the front completes a
/// skewer; an opposing piece ends the scan.
pub open spec fn skewer_scan(b: Board, r: int, c: int, dr: int, dc: int, player: Player, front: Option<(Position, PieceType)>, fuel: nat) -> Option<(Position, Position)>
    decreases fuel,
{
    let nr = r + dr;
    let nc = c + dc;
    if fuel == 0 || !(0 <= nr < 9 && 0 <= nc < 9) {
        None
    } else {
        match piece_at(b, nr, nc) {
            None => skewer_scan(b, nr, nc, dr, dc, player, front, (fuel - 1) as nat),
            Some(pc) => if pc.player == player {
                match front {
                    Some(f) => if pc.piece_type.value() > f.1.value() {
                        Some((f.0, Position { row: nr as u8, col: nc as u8 }))
                    } else {
                        skewer_scan(b, nr, nc, dr, dc, player, front, (fuel - 1) as nat)
                    },
                    None => skewer_scan(b, nr, nc, dr, dc, player, Some((Position { row: nr as u8, col: nc as u8 }, pc.piece_type)), (fuel - 1) as nat),
                }
            } else {
                None
            },
        }
    }
}

pub open spec fn skewers_along(b: Board, pos: Position, pt: PieceType, player: Player, dirs: Seq<(int, int)>, k: int) -> Seq<(Position, PieceType, Position, Position)>
    decreases k,
{
    if k <= 0 {
        Seq::empty()
    } else {
        let prev = skewers_along(b, pos, pt, player, dirs, k - 1);
        match skewer_scan(b, pos.row as int, pos.col as int, dirs[k - 1].0, dirs[k - 1].1, player, None, 8) {
            Some((front, back)) => prev.push((pos, pt, front, back)),
            None => prev,
        }
    }
}

pub open spec fn piece_skewers(b: Board, pos: Position, pt: PieceType, player: Player) -> Seq<(Position, PieceType, Position, Position)> {
    let dirs = skewer_directions(pt);
    skewers_along(b, pos, pt, player, dirs, dirs.len() as int)
}

/// Skewers made by the first `n` pieces.
pub open spec fn skewers_upto(b: Board, pieces: Seq<(Position, PieceType)>, player: Player, n: int) -> Seq<(Position, PieceType, Position, Position)>
    decreases n,
{
    if n <= 0 {
        Seq::empty()
    } else {
        skewers_upto(b, pieces, player, n - 1) + piece_skewers(b, pieces[n - 1].0, pieces[n - 1].1, player)
    }
}

/// Unit step from `from` toward `to` along a rank, file or diagonal; `None`
/// for the same square or no common line.
pub open spec fn direction_towards(from: Position, to: Position) -> Option<(int, int)> {
    let dr = to.row - from.row;
    let dc = to.col - from.col;
    let sr = if dr > 0 { 1int } else if dr < 0 { -1int } else { 0int };
    let sc = if dc > 0 { 1int } else if dc < 0 { -1int } else { 0int };
    if dr == 0 && dc == 0 {
        None
    } else if dr == 0 || dc == 0 {
        Some((sr, sc))
    } else if dr == dc || dr == -dc {
        Some((sr, sc))
    } else {
        None
    }
}

/// A piece kind that attacks along the line direction `(dr, dc)`: rooks
/// and lances along ranks and files, bishops along diagonals.
pub open spec fn pins_along_line(pt: PieceType, dr: int, dc: int) -> bool {
    if pt == PieceType::Rook || pt == PieceType::PromotedRook || pt == PieceType::Lance {
        dr == 0 || dc == 0
    } else if pt == PieceType::Bishop || pt == PieceType::PromotedBishop {
        dr == dc || dr == -dc
    } else {
        false
    }
}

/// Walking from `(r, c)` along `(dr, dc)` reaches `(tr, tc)` over empty
/// squares only.
pub open spec fn clear_path(b: Board, r: int, c: int, dr: int, dc: int, tr: int, tc: int, fuel: nat) -> bool
    decreases fuel,
{
    let nr = r + dr;
    let nc = c + dc;
    if fuel == 0 || !(0 <= nr < 9 && 0 <= nc < 9) {
        false
    } else if nr == tr && nc == tc {
        true
    } else if piece_at(b, nr, nc).is_some() {
        false
    } else {
        clear_path(b, nr, nc, dr, dc, tr, tc, (fuel - 1) as nat)
    }
}

/// The first piece met walking from `(r, c)` along `(dr, dc)`.
pub open spec fn first_piece(b: Board, r: int, c: int, dr: int, dc: int, fuel: nat) -> Option<crate::types::Piece>
    decreases fuel,
{
    let nr = r + dr;
    let nc = c + dc;
    if fuel == 0 || !(0 <= nr < 9 && 0 <= nc < 9) {
        None
    } else {
        match piece_at(b, nr, nc) {
            Some(pc) => Some(pc),
            None => first_piece(b, nr, nc, dr, dc, (fuel - 1) as nat),
        }
    }
}

/// Moving the piece on `pos` would open a line from a friendly slider
/// behind it to `target`: the squares up to the target are empty and the
/// first piece behind is an own piece attacking along that line.
pub open spec fn discovers(b: Board, pos: Position, target: Position, player: Player) -> bool {
    match direction_towards(pos, target) {
        None => false,
        Some((dr, dc)) => {
            &&& clear_path(b, pos.row as int, pos.col as int, dr, dc, target.row as int, target.col as int, 8)
            &&& match first_piece(b, pos.row as int, pos.col as int, -dr, -dc, 8) {
                Some(pc) => pc.player == player && pins_along_line(pc.piece_type, dr, dc),
                None => false,
            }
        },
    }
}

/// The first `n` pieces that could discover an attack on `target`.
pub open spec fn discovered_upto(b: Board, pieces: Seq<(Position, PieceType)>, player: Player, target: Position, n: int) -> Seq<(Position, PieceType)>
    decreases n,
{
    if n <= 0 {
        Seq::empty()
    } else {
        let prev = discovered_upto(b, pieces, player, target, n - 1);
        if discovers(b, pieces[n - 1].0, target, player) { prev.push(pieces[n - 1]) } else { prev }
    }
}

proof fn lemma_pin_scan_after_first(b: Board, r: int, c: int, dr: int, dc: int, player: Player, f: Position, fuel: nat)
    ensures
        pin_scan(b, r, c, dr, dc, player, Some(f), fuel) is None || pin_scan(b, r, c, dr, dc, player, Some(f), fuel)
            == Some(f),
    decreases fuel,
{
    if fuel > 0 {
        lemma_pin_scan_after_first(b, r + dr, c + dc, dr, dc, player, f, (fuel - 1) as nat);
    }
}

/// The piece a scan reports as pinned is the first piece met along the
/// line: an opposing piece with nothing between it and the start.
proof fn lemma_pin_scan_first_piece(b: Board, r: int, c: int, dr: int, dc: int, player: Player, fuel: nat)
    requires
        pin_scan(b, r, c, dr, dc, player, None, fuel) is Some,
    ensures
        ({
            let q = pin_scan(b, r, c, dr, dc, player, None, fuel).unwrap();
            &&& q.valid()
            &&& ray_hits(b, r, c, dr, dc, q.row as int, q.col as int, fuel)
            &&& piece_at(b, q.row as int, q.col as int) is Some
            &&& piece_at(b, q.row as int, q.col as int).unwrap().player != player
        }),
    decreases fuel,
{
    let nr = r + dr;
    let nc = c + dc;
    match piece_at(b, nr, nc) {
        None => {
            lemma_pin_scan_first_piece(b, nr, nc, dr, dc, player, (fuel - 1) as nat);
        },
        Some(pc) => {
            let f = Position { row: nr as u8, col: nc as u8 };
            lemma_pin_scan_after_first(b, nr, nc, dr, dc, player, f, (fuel - 1) as nat);
        },
    }
}

/// Scanning from `pos` along `d` reports `q` as pinned.
pub open spec fn pin_reported_along(b: Board, pos: Position, player: Player, d: (int, int), q: Position) -> bool {
    pin_scan(b, pos.row as int, pos.col as int, d.0, d.1, player, None, 8) == Some(q)
}

/// Pins found along the first `k` directions: each direction whose scan
/// reports a piece contributes that piece, and nothing else is reported.
proof fn lemma_pins_along_members(b: Board, pos: Position, pt: PieceType, player: Player, dirs: Seq<(int, int)>, k: int)
    requires
        0 <= k <= dirs.len(),
    ensures
        forall|j: int, q: Position|
            0 <= j < k && #[trigger] pin_reported_along(b, pos, player, dirs[j], q)
                ==> pins_along(b, pos, pt, player, dirs, k).contains((pos, pt, q)),
        forall|i: int|
            0 <= i < pins_along(b, pos, pt, player, dirs, k).len() ==> {
                let x = #[trigger] pins_along(b, pos, pt, player, dirs, k)[i];
                &&& x.0 == pos
                &&& x.1 == pt
                &&& exists|j: int| 0 <= j < k && #[trigger] pin_reported_along(b, pos, player, dirs[j], x.2)
            },
    decreases k,
{
    if k > 0 {
        lemma_pins_along_members(b, pos, pt, player, dirs, k - 1);
        let prev = pins_along(b, pos, pt, player, dirs, k - 1);
        let cur = pins_along(b, pos, pt, player, dirs, k);
        let sc = pin_scan(b, pos.row as int, pos.col as int, dirs[k - 1].0, dirs[k - 1].1, player, None, 8);
        assert forall|j: int, q: Position|
            0 <= j < k && #[trigger] pin_reported_along(b, pos, player, dirs[j], q) implies cur.contains((pos, pt, q)) by {
            if j < k - 1 {
                assert(prev.contains((pos, pt, q)));
                let t = choose|t: int| 0 <= t < prev.len() && prev[t] == (pos, pt, q);
                assert(cur[t] == (pos, pt, q));
            } else {
                assert(cur[cur.len() - 1] == (pos, pt, q));
            }
        }
        assert forall|i: int| 0 <= i < cur.len() implies {
            let x = #[trigger] cur[i];
            &&& x.0 == pos
            &&& x.1 == pt
            &&& exists|j: int| 0 <= j < k && #[trigger] pin_reported_along(b, pos, player, dirs[j], x.2)
        } by {
            if i < prev.len() {
                assert(cur[i] == prev[i]);
                let x = prev[i];
                let j = choose|j: int| 0 <= j < k - 1 && #[trigger] pin_reported_along(b, pos, player, dirs[j], x.2);
                assert(pin_reported_along(b, pos, player, dirs[j], cur[i].2));
            } else {
                assert(cur[i] == (pos, pt, sc.unwrap()));
                assert(pin_reported_along(b, pos, player, dirs[k - 1], cur[i].2));
            }
        }
    } else {
        assert(pins_along(b, pos, pt, player, dirs, k).len() == 0);
    }
}

/// Pins are found along the piece's own lines of movement: for every
/// direction in which the piece slides, a pin found by scanning that line
/// (the first opposing piece, with the opposing king behind it) is
/// reported; every pin reported lies on such a line; and the pinned piece is
/// an opposing piece that the pinning piece attacks.
pub proof fn law_pins_follow_lines_of_movement(b: Board, pos: Position, pt: PieceType, player: Player)
    requires
        pos.valid(),
    ensures
        forall|dr: int, dc: int, q: Position|
            slides(pt, player, dr, dc) && #[trigger] pin_reported_along(b, pos, player, (dr, dc), q)
                ==> piece_pins(b, pos, pt, player).contains((pos, pt, q)),
        forall|i: int|
            0 <= i < piece_pins(b, pos, pt, player).len() ==> {
                let x = #[trigger] piece_pins(b, pos, pt, player)[i];
                &&& x.0 == pos
                &&& x.1 == pt
                &&& exists|dr: int, dc: int| slides(pt, player, dr, dc) && #[trigger] pin_reported_along(b, pos, player, (dr, dc), x.2)
                &&& piece_at(b, x.2.row as int, x.2.col as int) is Some
                &&& piece_at(b, x.2.row as int, x.2.col as int).unwrap().player != player
                &&& attacks(b, pos, pt, player, x.2)
            },
{
    let dirs = pin_directions(pt, player);
    let n = dirs.len() as int;
    lemma_pins_along_members(b, pos, pt, player, dirs, n);
    assert forall|j: int| 0 <= j < n implies slides(pt, player, (#[trigger] dirs[j]).0, dirs[j].1)
        && -1 <= dirs[j].0 <= 1 && -1 <= dirs[j].1 <= 1 by {
    }
    assert forall|dr: int, dc: int, q: Position|
        slides(pt, player, dr, dc) && #[trigger] pin_reported_along(b, pos, player, (dr, dc), q)
            implies piece_pins(b, pos, pt, player).contains((pos, pt, q)) by {
        let j = if pt == PieceType::Lance {
            0int
        } else if dr == 1 && dc == 0 || dr == 1 && dc == 1 {
            0int
        } else if dr == -1 && dc == 0 || dr == -1 && dc == 1 {
            1int
        } else if dr == 0 && dc == 1 || dr == 1 && dc == -1 {
            2int
        } else {
            3int
        };
        assert(dirs[j] == (dr, dc));
        assert(pin_reported_along(b, pos, player, dirs[j], q));
    }
    assert forall|i: int| 0 <= i < piece_pins(b, pos, pt, player).len() implies {
        let x = #[trigger] piece_pins(b, pos, pt, player)[i];
        &&& x.0 == pos
        &&& x.1 == pt
        &&& exists|dr: int, dc: int| slides(pt, player, dr, dc) && #[trigger] pin_reported_along(b, pos, player, (dr, dc), x.2)
        &&& piece_at(b, x.2.row as int, x.2.col as int) is Some
        &&& piece_at(b, x.2.row as int, x.2.col as int).unwrap().player != player
        &&& attacks(b, pos, pt, player, x.2)
    } by {
        let x = piece_pins(b, pos, pt, player)[i];
        assert(x == pins_along(b, pos, pt, player, dirs, n)[i]);
        let j = choose|j: int| 0 <= j < n && #[trigger] pin_reported_along(b, pos, player, dirs[j], x.2);
        let (dr, dc) = dirs[j];
        assert(slides(pt, player, dr, dc));
        assert(pin_reported_along(b, pos, player, (dr, dc), x.2));
        lemma_pin_scan_first_piece(b, pos.row as int, pos.col as int, dr, dc, player, 8);
        assert(dir_hit(b, pos, pt, player, dr, dc, x.2));
    }
}

/// Scanning from `pos` along `d` reports the skewer `(front, back)`.
pub open spec fn skewer_reported_along(b: Board, pos: Position, player: Player, d: (int, int), fb: (Position, Position)) -> bool {
    skewer_scan(b, pos.row as int, pos.col as int, d.0, d.1, player, None, 8) == Some(fb)
}

proof fn lemma_skewers_along_members(b: Board, pos: Position, pt: PieceType, player: Player, dirs: Seq<(int, int)>, k: int)
    requires
        0 <= k <= dirs.len(),
    ensures
        forall|j: int, fb: (Position, Position)|
            0 <= j < k && #[trigger] skewer_reported_along(b, pos, player, dirs[j], fb)
                ==> skewers_along(b, pos, pt, player, dirs, k).contains((pos, pt, fb.0, fb.1)),
        forall|i: int|
            0 <= i < skewers_along(b, pos, pt, player, dirs, k).len() ==> {
                let x = #[trigger] skewers_along(b, pos, pt, player, dirs, k)[i];
                &&& x.0 == pos
                &&& x.1 == pt
                &&& exists|j: int| 0 <= j < k && #[trigger] skewer_reported_along(b, pos, player, dirs[j], (x.2, x.3))
            },
    decreases k,
{
    if k > 0 {
        lemma_skewers_along_members(b, pos, pt, player, dirs, k - 1);
        let prev = skewers_along(b, pos, pt, player, dirs, k - 1);
        let cur = skewers_along(b, pos, pt, player, dirs, k);
        let sc = skewer_scan(b, pos.row as int, pos.col as int, dirs[k - 1].0, dirs[k - 1].1, player, None, 8);
        assert forall|j: int, fb: (Position, Position)|
            0 <= j < k && #[trigger] skewer_reported_along(b, pos, player, dirs[j], fb) implies cur.contains((pos, pt, fb.0, fb.1)) by {
            if j < k - 1 {
                assert(prev.contains((pos, pt, fb.0, fb.1)));
                let t = choose|t: int| 0 <= t < prev.len() && prev[t] == (pos, pt, fb.0, fb.1);
                assert(cur[t] == (pos, pt, fb.0, fb.1));
            } else {
                assert(cur[cur.len() - 1] == (pos, pt, fb.0, fb.1));
            }
        }
        assert forall|i: int| 0 <= i < cur.len() implies {
            let x = #[trigger] cur[i];
            &&& x.0 == pos
            &&& x.1 == pt
            &&& exists|j: int| 0 <= j < k && #[trigger] skewer_reported_along(b, pos, player, dirs[j], (x.2, x.3))
        } by {
            if i < prev.len() {
                assert(cur[i] == prev[i]);
                let x = prev[i];
                let j = choose|j: int| 0 <= j < k - 1 && #[trigger] skewer_reported_along(b, pos, player, dirs[j], (x.2, x.3));
                assert(skewer_reported_along(b, pos, player, dirs[j], (cur[i].2, cur[i].3)));
            } else {
                assert(cur[i] == (pos, pt, sc.unwrap().0, sc.unwrap().1));
                assert(skewer_reported_along(b, pos, player, dirs[k - 1], (cur[i].2, cur[i].3)));
            }
        }
    } else {
        assert(skewers_along(b, pos, pt, player, dirs, k).len() == 0);
    }
}

/// Skewers are looked for along the lines of rooks and bishops (and their
/// promotions) alone: for such a piece, every line along which it slides
/// that shows a skewer is reported, and every skewer reported lies on such
/// a line; other pieces report none.
pub proof fn law_skewers_follow_lines_of_movement(b: Board, pos: Position, pt: PieceType, player: Player)
    requires
        pos.valid(),
    ensures
        pt == PieceType::Rook || pt == PieceType::PromotedRook || pt == PieceType::Bishop || pt == PieceType::PromotedBishop
            ==> forall|dr: int, dc: int, fb: (Position, Position)|
            slides(pt, player, dr, dc) && #[trigger] skewer_reported_along(b, pos, player, (dr, dc), fb)
                ==> piece_skewers(b, pos, pt, player).contains((pos, pt, fb.0, fb.1)),
        forall|i: int|
            0 <= i < piece_skewers(b, pos, pt, player).len() ==> {
                let x = #[trigger] piece_skewers(b, pos, pt, player)[i];
                &&& x.0 == pos
                &&& x.1 == pt
                &&& pt != PieceType::Lance
                &&& exists|dr: int, dc: int| slides(pt, player, dr, dc) && #[trigger] skewer_reported_along(b, pos, player, (dr, dc), (x.2, x.3))
            },
{
    let dirs = skewer_directions(pt);
    let n = dirs.len() as int;
    lemma_skewers_along_members(b, pos, pt, player, dirs, n);
    assert forall|j: int| 0 <= j < n implies slides(pt, player, (#[trigger] dirs[j]).0, dirs[j].1) && pt != PieceType::Lance by {
    }
    if pt == PieceType::Rook || pt == PieceType::PromotedRook || pt == PieceType::Bishop || pt == PieceType::PromotedBishop {
        assert forall|dr: int, dc: int, fb: (Position, Position)|
            slides(pt, player, dr, dc) && #[trigger] skewer_reported_along(b, pos, player, (dr, dc), fb)
                implies piece_skewers(b, pos, pt, player).contains((pos, pt, fb.0, fb.1)) by {
            let j = if dr == 1 && dc == 0 || dr == 1 && dc == 1 {
                0int
            } else if dr == -1 && dc == 0 || dr == -1 && dc == 1 {
                1int
            } else if dr == 0 && dc == 1 || dr == 1 && dc == -1 {
                2int
            } else {
                3int
            };
            assert(dirs[j] == (dr, dc));
            assert(skewer_reported_along(b, pos, player, dirs[j], fb));
        }
    }
    assert forall|i: int| 0 <= i < piece_skewers(b, pos, pt, player).len() implies {
        let x = #[trigger] piece_skewers(b, pos, pt, player)[i];
        &&& x.0 == pos
        &&& x.1 == pt
        &&& pt != PieceType::Lance
        &&& exists|dr: int, dc: int| slides(pt, player, dr, dc) && #[trigger] skewer_reported_along(b, pos, player, (dr, dc), (x.2, x.3))
    } by {
        let x = piece_skewers(b, pos, pt, player)[i];
        assert(x == skewers_along(b, pos, pt, player, dirs, n)[i]);
        let j = choose|j: int| 0 <= j < n && #[trigger] skewer_reported_along(b, pos, player, dirs[j], (x.2, x.3));
        let (dr, dc) = dirs[j];
        assert(slides(pt, player, dr, dc));
        assert(skewer_reported_along(b, pos, player, (dr, dc), (x.2, x.3)));
    }
}

/// Batch matcher for tactical patterns.
pub struct SimdPatternMatcher {}

fn count_targets(board: &Board, from: Position, piece_type: PieceType, player: Player) -> (r: u32)
    requires
        from.valid(),
    ensures
        r == target_count(*board, from, piece_type, player),
        r <= 81,
{
    let ghost f = |i: int| target_term(*board, from, piece_type, player, i);
    let mut count: u32 = 0;
    let mut i: usize = 0;
    while i < 81
        invariant
            i <= 81,
            from.valid(),
            f == (|i: int| target_term(*board, from, piece_type, player, i)),
            count == square_sum(f, i as int),
            count <= i,
        decreases 81 - i,
    {
        match board.squares[i] {
            Some(piece) => {
                if piece.player != player && attacks_square(board, from, piece_type, player, Position::from_index(i)) {
                    count += 1;
                }
            },
            None => {},
        }
        i += 1;
    }
    count
}

fn pin_dirs(piece_type: PieceType, player: Player) -> (r: Vec<(i8, i8)>)
    ensures
        r@.len() == pin_directions(piece_type, player).len(),
        forall|k: int| 0 <= k < r@.len() ==> (#[trigger] r@[k]).0 as int == pin_directions(piece_type, player)[k].0
            && r@[k].1 as int == pin_directions(piece_type, player)[k].1,
        forall|k: int| 0 <= k < r@.len() ==> -1 <= (#[trigger] r@[k]).0 <= 1 && -1 <= r@[k].1 <= 1,
{
    match piece_type {
        PieceType::Rook | PieceType::PromotedRook => vec![(1, 0), (-1, 0), (0, 1), (0, -1)],
        PieceType::Bishop | PieceType::PromotedBishop => vec![(1, 1), (-1, 1), (1, -1), (-1, -1)],
        PieceType::Lance => if player == Player::Black { vec![(-1, 0)] } else { vec![(1, 0)] },
        _ => Vec::new(),
    }
}

fn skewer_dirs(piece_type: PieceType) -> (r: Vec<(i8, i8)>)
    ensures
        r@.len() == skewer_directions(piece_type).len(),
        forall|k: int| 0 <= k < r@.len() ==> (#[trigger] r@[k]).0 as int == skewer_directions(piece_type)[k].0
            && r@[k].1 as int == skewer_directions(piece_type)[k].1,
        forall|k: int| 0 <= k < r@.len() ==> -1 <= (#[trigger] r@[k]).0 <= 1 && -1 <= r@[k].1 <= 1,
{
    match piece_type {
        PieceType::Rook | PieceType::PromotedRook => vec![(1, 0), (-1, 0), (0, 1), (0, -1)],
        PieceType::Bishop | PieceType::PromotedBishop => vec![(1, 1), (-1, 1), (1, -1), (-1, -1)],
        _ => Vec::new(),
    }
}

impl SimdPatternMatcher {
    pub fn new() -> (r: Self) {
        SimdPatternMatcher {}
    }

    /// Pieces attacking two or more opposing pieces, with the number
    /// attacked, in the order given.
    pub fn detect_forks_batch(&self, board: &Board, pieces: &[(Position, PieceType)], player: Player) -> (r: Vec<(Position, PieceType, u32)>)
        requires
            all_valid(pieces@),
        ensures
            r@ == forks_upto(*board, pieces@, player, pieces@.len() as int),
            forall|i: int| 0 <= i < r@.len() ==> (#[trigger] r@[i]).2 >= 2,
    {
        proof {
            lemma_forks_at_least_two(*board, pieces@, player, pieces@.len() as int);
        }
        let mut forks: Vec<(Position, PieceType, u32)> = Vec::new();
        let mut i: usize = 0;
        while i < pieces.len()
            invariant
                i <= pieces@.len(),
                all_valid(pieces@),
                forks@ == forks_upto(*board, pieces@, player, i as int),
            decreases pieces@.len() - i,
        {
            let (pos, piece_type) = pieces[i];
            assert(pieces@[i as int].0.valid());
            let count = count_targets(board, pos, piece_type, player);
            if count >= 2 {
                forks.push((pos, piece_type, count));
            }
            i += 1;
        }
        forks
    }

    /// Pins made by the sliding pieces (rooks, bishops, their promotions and
    /// lances) along their lines, in the order given.
    pub fn detect_pins_batch(&self, board: &Board, pieces: &[(Position, PieceType)], player: Player) -> (r: Vec<(Position, PieceType, Position)>)
        requires
            all_valid(pieces@),
        ensures
            r@ == pins_upto(*board, pieces@, player, pieces@.len() as int),
    {
        let mut pins: Vec<(Position, PieceType, Position)> = Vec::new();
        let mut i: usize = 0;
        while i < pieces.len()
            invariant
                i <= pieces@.len(),
                all_valid(pieces@),
                pins@ == pins_upto(*board, pieces@, player, i as int),
            decreases pieces@.len() - i,
        {
            let (pos, piece_type) = pieces[i];
            assert(pieces@[i as int].0.valid());
            let dirs = pin_dirs(piece_type, player);
            let ghost sd = pin_directions(piece_type, player);
            let ghost before = pins@;
            let mut k: usize = 0;
            while k < dirs.len()
                invariant
                    k <= dirs@.len(),
                    pos.valid(),
                    dirs@.len() == sd.len(),
                    sd == pin_directions(piece_type, player),
                    forall|j: int| 0 <= j < dirs@.len() ==> (#[trigger] dirs@[j]).0 as int == sd[j].0 && dirs@[j].1 as int
                        == sd[j].1,
                    forall|j: int| 0 <= j < dirs@.len() ==> -1 <= (#[trigger] dirs@[j]).0 <= 1 && -1 <= dirs@[j].1 <= 1,
                    pins@ == before + pins_along(*board, pos, piece_type, player, sd, k as int),
                decreases dirs@.len() - k,
            {
                let (dr, dc) = dirs[k];
                match check_pin_direction(board, pos, player, dr, dc) {
                    Some(pinned) => {
                        pins.push((pos, piece_type, pinned));
                    },
                    None => {},
                }
                proof {
                    assert(before + pins_along(*board, pos, piece_type, player, sd, k as int + 1) =~= pins@);
                }
                k += 1;
            }
            proof {
                assert(pins_upto(*board, pieces@, player, i as int + 1) =~= pins@);
            }
            i += 1;
        }
        pins
    }

    /// Number of squares in both sets.
    pub fn count_attack_targets(&self, attack_pattern: SimdBitboard, target_mask: SimdBitboard) -> (r: u32)
        ensures
            r == popcount(attack_pattern.bits & target_mask.bits),
    {
        let targets = attack_pattern.and(&target_mask);
        targets.count_ones()
    }

    /// Number of squares each of four sets shares with a mask.
    pub fn count_attack_targets_batch(&self, attack_patterns: &AlignedBitboardArray, target_mask: SimdBitboard) -> (r: [u32; 4])
        ensures
            forall|i: int| 0 <= i < 4 ==> #[trigger] r@[i] == popcount(attack_patterns.boards@[i].bits & target_mask.bits),
    {
        let masks = AlignedBitboardArray { boards: [target_mask, target_mask, target_mask, target_mask] };
        let intersections = attack_patterns.batch_and(&masks);
        let r = [
            intersections.get(0).count_ones(),
            intersections.get(1).count_ones(),
            intersections.get(2).count_ones(),
            intersections.get(3).count_ones(),
        ];
        assert(forall|i: int| 0 <= i < 4 ==> masks.boards@[i] == target_mask);
        r
    }

    /// For each square, the number of opposing pieces a piece of
    /// `piece_type` standing there would attack.
    pub fn detect_patterns_batch(&self, board: &Board, positions: &[Position], piece_type: PieceType, player: Player) -> (r: Vec<(Position, u32)>)
        requires
            forall|i: int| 0 <= i < positions@.len() ==> (#[trigger] positions@[i]).valid(),
        ensures
            r@.len() == positions@.len(),
            forall|i: int| 0 <= i < positions@.len() ==> (#[trigger] r@[i]).0 == positions@[i] && r@[i].1 == target_count(
                *board,
                positions@[i],
                piece_type,
                player,
            ),
    {
        let mut results: Vec<(Position, u32)> = Vec::new();
        let mut i: usize = 0;
        while i < positions.len()
            invariant
                i <= positions@.len(),
                forall|j: int| 0 <= j < positions@.len() ==> (#[trigger] positions@[j]).valid(),
                results@.len() == i,
                forall|j: int| 0 <= j < i ==> (#[trigger] results@[j]).0 == positions@[j] && results@[j].1 == target_count(
                    *board,
                    positions@[j],
                    piece_type,
                    player,
                ),
            decreases positions@.len() - i,
        {
            let pos = positions[i];
            let count = count_targets(board, pos, piece_type, player);
            results.push((pos, count));
            i += 1;
        }
        results
    }

    /// Skewers along the lines of rooks, bishops and their promotions, in
    /// the order given.
    pub fn detect_skewers_batch(&self, board: &Board, pieces: &[(Position, PieceType)], player: Player) -> (r: Vec<(Position, PieceType, Position, Position)>)
        requires
            all_valid(pieces@),
        ensures
            r@ == skewers_upto(*board, pieces@, player, pieces@.len() as int),
    {
        let mut skewers: Vec<(Position, PieceType, Position, Position)> = Vec::new();
        let mut i: usize = 0;
        while i < pieces.len()
            invariant
                i <= pieces@.len(),
                all_valid(pieces@),
                skewers@ == skewers_upto(*board, pieces@, player, i as int),
            decreases pieces@.len() - i,
        {
            let (pos, piece_type) = pieces[i];
            assert(pieces@[i as int].0.valid());
            let dirs = skewer_dirs(piece_type);
            let ghost sd = skewer_directions(piece_type);
            let ghost before = skewers@;
            let mut k: usize = 0;
            while k < dirs.len()
                invariant
                    k <= dirs@.len(),
                    pos.valid(),
                    dirs@.len() == sd.len(),
                    sd == skewer_directions(piece_type),
                    forall|j: int| 0 <= j < dirs@.len() ==> (#[trigger] dirs@[j]).0 as int == sd[j].0 && dirs@[j].1 as int
                        == sd[j].1,
                    forall|j: int| 0 <= j < dirs@.len() ==> -1 <= (#[trigger] dirs@[j]).0 <= 1 && -1 <= dirs@[j].1 <= 1,
                    skewers@ == before + skewers_along(*board, pos, piece_type, player, sd, k as int),
                decreases dirs@.len() - k,
            {
                let (dr, dc) = dirs[k];
                match check_skewer_direction(board, pos, player, dr, dc) {
                    Some((front, back)) => {
                        skewers.push((pos, piece_type, front, back));
                    },
                    None => {},
                }
                proof {
                    assert(before + skewers_along(*board, pos, piece_type, player, sd, k as int + 1) =~= skewers@);
                }
                k += 1;
            }
            proof {
                assert(skewers_upto(*board, pieces@, player, i as int + 1) =~= skewers@);
            }
            i += 1;
        }
        skewers
    }

    /// Pieces whose move would open a line from a friendly slider behind
    /// them to `target_pos`, in the order given.
    pub fn detect_discovered_attacks_batch(
        &self,
        board: &Board,
        pieces: &[(Position, PieceType)],
        player: Player,
        target_pos: Position,
    ) -> (r: Vec<(Position, PieceType)>)
        requires
            all_valid(pieces@),
            target_pos.valid(),
        ensures
            r@ == discovered_upto(*board, pieces@, player, target_pos, pieces@.len() as int),
    {
        let mut discovered: Vec<(Position, PieceType)> = Vec::new();
        let mut i: usize = 0;
        while i < pieces.len()
            invariant
                i <= pieces@.len(),
                all_valid(pieces@),
                target_pos.valid(),
                discovered@ == discovered_upto(*board, pieces@, player, target_pos, i as int),
            decreases pieces@.len() - i,
        {
            let (pos, piece_type) = pieces[i];
            assert(pieces@[i as int].0.valid());
            if can_create_discovered_attack(board, pos, target_pos, player) {
                discovered.push((pos, piece_type));
            }
            i += 1;
        }
        discovered
    }
}

impl Default for SimdPatternMatcher {
    fn default() -> (r: Self) {
        SimdPatternMatcher::new()
    }
}

fn check_pin_direction(board: &Board, from: Position, player: Player, dr: i8, dc: i8) -> (r: Option<Position>)
    requires
        from.valid(),
        -1 <= dr <= 1,
        -1 <= dc <= 1,
    ensures
        r == pin_scan(*board, from.row as int, from.col as int, dr as int, dc as int, player, None, 8),
{
    let mut r: i8 = from.row as i8;
    let mut c: i8 = from.col as i8;
    let mut first: Option<Position> = None;
    let mut fuel: u8 = 8;
    while fuel > 0
        invariant
            0 <= r < 9,
            0 <= c < 9,
            fuel <= 8,
            -1 <= dr <= 1,
            -1 <= dc <= 1,
            pin_scan(*board, from.row as int, from.col as int, dr as int, dc as int, player, None, 8) == pin_scan(
                *board,
                r as int,
                c as int,
                dr as int,
                dc as int,
                player,
                first,
                fuel as nat,
            ),
        decreases fuel,
    {
        let nr = r + dr;
        let nc = c + dc;
        if nr < 0 || nr >= 9 || nc < 0 || nc >= 9 {
            return None;
        }
        let pos = Position::new(nr as u8, nc as u8);
        match board.get_piece(pos) {
            Some(piece) => {
                if piece.player == player {
                    return None;
                }
                if first.is_none() {
                    first = Some(pos);
                } else {
                    if piece.piece_type == PieceType::King {
                        return first;
                    }
                    return None;
                }
            },
            None => {},
        }
        r = nr;
        c = nc;
        fuel -= 1;
    }
    None
}

fn check_skewer_direction(board: &Board, from: Position, player: Player, dr: i8, dc: i8) -> (r: Option<(Position, Position)>)
    requires
        from.valid(),
        -1 <= dr <= 1,
        -1 <= dc <= 1,
    ensures
        r == skewer_scan(*board, from.row as int, from.col as int, dr as int, dc as int, player, None, 8),
{
    let mut r: i8 = from.row as i8;
    let mut c: i8 = from.col as i8;
    let mut front: Option<(Position, PieceType)> = None;
    let mut fuel: u8 = 8;
    while fuel > 0
        invariant
            0 <= r < 9,
            0 <= c < 9,
            fuel <= 8,
            -1 <= dr <= 1,
            -1 <= dc <= 1,
            skewer_scan(*board, from.row as int, from.col as int, dr as int, dc as int, player, None, 8)
                == skewer_scan(*board, r as int, c as int, dr as int, dc as int, player, front, fuel as nat),
        decreases fuel,
    {
        let nr = r + dr;
        let nc = c + dc;
        if nr < 0 || nr >= 9 || nc < 0 || nc >= 9 {
            return None;
        }
        let pos = Position::new(nr as u8, nc as u8);
        match board.get_piece(pos) {
            Some(piece) => {
                if piece.player == player {
                    match front {
                        Some((front_pos, front_type)) => {
                            if piece.piece_type.base_value() > front_type.base_value() {
                                return Some((front_pos, pos));
                            }
                        },
                        None => {
                            front = Some((pos, piece.piece_type));
                        },
                    }
                } else {
                    return None;
                }
            },
            None => {},
        }
        r = nr;
        c = nc;
        fuel -= 1;
    }
    None
}

fn step_sign(d: i8) -> (r: i8)
    ensures
        r == (if d > 0 { 1int } else if d < 0 { -1int } else { 0int }),
{
    if d > 0 {
        1
    } else if d < 0 {
        -1
    } else {
        0
    }
}

fn direction_between(from: Position, to: Position) -> (r: Option<(i8, i8)>)
    requires
        from.valid(),
        to.valid(),
    ensures
        match direction_towards(from, to) {
            Some((a, b)) => match r {
                Some((x, y)) => x as int == a && y as int == b && -1 <= x <= 1 && -1 <= y <= 1,
                None => false,
            },
            None => r is None,
        },
{
    let dr = to.row as i8 - from.row as i8;
    let dc = to.col as i8 - from.col as i8;
    let sr = step_sign(dr);
    let sc = step_sign(dc);
    if dr == 0 && dc == 0 {
        None
    } else if dr == 0 || dc == 0 {
        Some((sr, sc))
    } else if dr == dc || dr == -dc {
        Some((sr, sc))
    } else {
        None
    }
}

fn clear_path_to(board: &Board, from: Position, dr: i8, dc: i8, target: Position) -> (r: bool)
    requires
        from.valid(),
        -1 <= dr <= 1,
        -1 <= dc <= 1,
    ensures
        r == clear_path(*board, from.row as int, from.col as int, dr as int, dc as int, target.row as int, target.col as int, 8),
{
    let mut r: i8 = from.row as i8;
    let mut c: i8 = from.col as i8;
    let mut fuel: u8 = 8;
    while fuel > 0
        invariant
            0 <= r < 9,
            0 <= c < 9,
            fuel <= 8,
            -1 <= dr <= 1,
            -1 <= dc <= 1,
            clear_path(*board, from.row as int, from.col as int, dr as int, dc as int, target.row as int, target.col as int, 8)
                == clear_path(*board, r as int, c as int, dr as int, dc as int, target.row as int, target.col as int, fuel as nat),
        decreases fuel,
    {
        let nr = r + dr;
        let nc = c + dc;
        if nr < 0 || nr >= 9 || nc < 0 || nc >= 9 {
            return false;
        }
        if nr as u8 == target.row && nc as u8 == target.col {
            return true;
        }
        if board.get_piece(Position::new(nr as u8, nc as u8)).is_some() {
            return false;
        }
        r = nr;
        c = nc;
        fuel -= 1;
    }
    false
}

fn first_piece_along(board: &Board, from: Position, dr: i8, dc: i8) -> (r: Option<crate::types::Piece>)
    requires
        from.valid(),
        -1 <= dr <= 1,
        -1 <= dc <= 1,
    ensures
        r == first_piece(*board, from.row as int, from.col as int, dr as int, dc as int, 8),
{
    let mut r: i8 = from.row as i8;
    let mut c: i8 = from.col as i8;
    let mut fuel: u8 = 8;
    while fuel > 0
        invariant
            0 <= r < 9,
            0 <= c < 9,
            fuel <= 8,
            -1 <= dr <= 1,
            -1 <= dc <= 1,
            first_piece(*board, from.row as int, from.col as int, dr as int, dc as int, 8) == first_piece(
                *board,
                r as int,
                c as int,
                dr as int,
                dc as int,
                fuel as nat,
            ),
        decreases fuel,
    {
        let nr = r + dr;
        let nc = c + dc;
        if nr < 0 || nr >= 9 || nc < 0 || nc >= 9 {
            return None;
        }
        match board.get_piece(Position::new(nr as u8, nc as u8)) {
            Some(piece) => {
                return Some(piece);
            },
            None => {},
        }
        r = nr;
        c = nc;
        fuel -= 1;
    }
    None
}

fn can_pin_along_line(piece_type: PieceType, dr: i8, dc: i8) -> (r: bool)
    ensures
        r == pins_along_line(piece_type, dr as int, dc as int),
{
    match piece_type {
        PieceType::Rook | PieceType::PromotedRook | PieceType::Lance => dr == 0 || dc == 0,
        PieceType::Bishop | PieceType::PromotedBishop => dr == dc || dr as i16 == -(dc as i16),
        _ => false,
    }
}

fn can_create_discovered_attack(board: &Board, piece_pos: Position, target_pos: Position, player: Player) -> (r: bool)
    requires
        piece_pos.valid(),
        target_pos.valid(),
    ensures
        r == discovers(*board, piece_pos, target_pos, player),
{
    match direction_between(piece_pos, target_pos) {
        None => false,
        Some((dr, dc)) => {
            if !clear_path_to(board, piece_pos, dr, dc, target_pos) {
                return false;
            }
            match first_piece_along(board, piece_pos, -dr, -dc) {
                Some(piece) => piece.player == player && can_pin_along_line(piece.piece_type, dr, dc),
                None => false,
            }
        },
    }
}

} // verus!
