//! Pawn-storm state per file: how deep the opponent's pawns have come,
//! whether the file is the opponent's, and how the storm developed since
//! the previous analysis.

use vstd::prelude::*;
use crate::board::{Board, piece_at};
use crate::types::{PieceType, Player};

verus! {

/// Storm state of a single file.
#[derive(Debug, Clone, Copy, Default, PartialEq, Eq, Structural)]
pub struct FileStormState {
    /// Consecutive pawn pushes on this file by the opponent.
    pub consecutive_pushes: u8,
    /// How far the storming pawn has advanced.
    pub deepest_penetration: u8,
    /// The opponent controls this file.
    pub opponent_owns_file: bool,
    /// Plies since the last defensive response on this file.
    pub plies_since_response: u8,
    /// An edge file or a central file.
    pub is_critical_file: bool,
}

impl FileStormState {
    /// A storm is active once the opponent has pushed on the file and a
    /// pawn has penetrated at least one rank.
    pub fn is_active(&self) -> (r: bool)
        ensures
            r == (self.consecutive_pushes > 0 && self.deepest_penetration >= 1),
    {
        self.consecutive_pushes > 0 && self.deepest_penetration >= 1
    }
}

/// Ranks an opponent pawn on `row` has advanced into `player`'s half, if
/// any: below row 5 for Black, above row 3 for White.
pub open spec fn penetration(player: Player, row: int) -> Option<int> {
    match player {
        Player::Black => if row < 5 { Some(5 - row) } else { None },
        Player::White => if row > 3 { Some(row - 3) } else { None },
    }
}

/// Scan of the first `n` rows of a file: deepest penetration of an
/// opponent pawn, whether an opponent pawn stands there, and whether one of
/// `player`'s pawns, golds or silvers does.
pub open spec fn file_scan(b: Board, player: Player, col: int, n: int) -> (int, bool, bool)
    decreases n,
{
    if n <= 0 {
        (0, false, false)
    } else {
        let (deep, opp, block) = file_scan(b, player, col, n - 1);
        let row = n - 1;
        match piece_at(b, row, col) {
            Some(pc) => if pc.piece_type == PieceType::Pawn {
                if pc.player != player {
                    match penetration(player, row) {
                        Some(p) => (if p > deep { p } else { deep }, true, block),
                        None => (deep, true, block),
                    }
                } else {
                    (deep, opp, true)
                }
            } else if pc.player == player && (pc.piece_type == PieceType::Gold || pc.piece_type == PieceType::Silver) {
                (deep, opp, true)
            } else {
                (deep, opp, block)
            },
            None => (deep, opp, block),
        }
    }
}

/// Edge files and the three central files.
pub open spec fn critical_file(col: int) -> bool {
    col == 0 || col == 8 || (3 <= col <= 5)
}

/// State of a file after an analysis, given the file's state at the
/// previous analysis, if there was one: a deeper pawn extends the run of
/// pushes and resets the response clock; an unchanged non-zero depth keeps
/// the run and ages the clock; anything else ends the storm. Without a
/// previous state any penetration counts as one push.
pub open spec fn analyzed_file(b: Board, player: Player, col: int, previous: Option<FileStormState>) -> FileStormState {
    let (deep, opp, block) = file_scan(b, player, col, 9);
    let d = deep as u8;
    let (pushes, plies) = match previous {
        Some(prev) => if d > prev.deepest_penetration {
            ((prev.consecutive_pushes + 1) as u8, 0u8)
        } else if d == prev.deepest_penetration && d > 0 {
            (prev.consecutive_pushes, (prev.plies_since_response + 1) as u8)
        } else {
            (0u8, 0u8)
        },
        None => if d > 0 { (1u8, 0u8) } else { (0u8, 0u8) },
    };
    FileStormState {
        consecutive_pushes: pushes,
        deepest_penetration: d,
        opponent_owns_file: opp && !block,
        plies_since_response: plies,
        is_critical_file: critical_file(col),
    }
}

/// The counters of a previous state can grow by one more push or ply.
pub open spec fn counters_below_max(s: FileStormState) -> bool {
    s.consecutive_pushes < u8::MAX && s.plies_since_response < u8::MAX
}

/// Storm state of file `col` for `player` (see [`analyzed_file`]).
pub fn analyze_file(board: &Board, player: Player, col: u8, previous: Option<FileStormState>) -> (r: FileStormState)
    requires
        col < 9,
        previous matches Some(p) ==> counters_below_max(p),
    ensures
        r == analyzed_file(*board, player, col as int, previous),
        r.deepest_penetration <= 5,
{
    let mut deepest: u8 = 0;
    let mut has_opponent_pawn = false;
    let mut has_friendly_blocker = false;
    let mut row: u8 = 0;
    while row < 9
        invariant
            row <= 9,
            col < 9,
            (deepest as int, has_opponent_pawn, has_friendly_blocker) == file_scan(*board, player, col as int, row as int),
            deepest <= 5,
        decreases 9 - row,
    {
        match board.get_piece(crate::types::Position::new(row, col)) {
            Some(piece) => {
                if piece.piece_type == PieceType::Pawn {
                    if piece.player != player {
                        has_opponent_pawn = true;
                        let pen: Option<u8> = match player {
                            Player::Black => if row < 5 { Some(5 - row) } else { None },
                            Player::White => if row > 3 { Some(row - 3) } else { None },
                        };
                        match pen {
                            Some(p) => {
                                if p > deepest {
                                    deepest = p;
                                }
                            },
                            None => {},
                        }
                    } else {
                        has_friendly_blocker = true;
                    }
                } else if piece.player == player && (piece.piece_type == PieceType::Gold || piece.piece_type
                    == PieceType::Silver) {
                    has_friendly_blocker = true;
                }
            },
            None => {},
        }
        row += 1;
    }
    let (pushes, plies): (u8, u8) = match previous {
        Some(prev) => {
            if deepest > prev.deepest_penetration {
                (prev.consecutive_pushes + 1, 0)
            } else if deepest == prev.deepest_penetration && deepest > 0 {
                (prev.consecutive_pushes, prev.plies_since_response + 1)
            } else {
                (0, 0)
            }
        },
        None => if deepest > 0 { (1, 0) } else { (0, 0) },
    };
    FileStormState {
        consecutive_pushes: pushes,
        deepest_penetration: deepest,
        opponent_owns_file: has_opponent_pawn && !has_friendly_blocker,
        plies_since_response: plies,
        is_critical_file: col == 0 || col == 8 || (col >= 3 && col <= 5),
    }
}

/// Storm states of all nine files for `player`, each following its state
/// in `previous` when given.
pub fn analyze_files(board: &Board, player: Player, previous: Option<&[FileStormState; 9]>) -> (r: [FileStormState; 9])
    requires
        previous matches Some(p) ==> forall|c: int| 0 <= c < 9 ==> counters_below_max(#[trigger] p@[c]),
    ensures
        forall|c: int| 0 <= c < 9 ==> #[trigger] r@[c] == analyzed_file(*board, player, c, match previous {
            Some(p) => Some(p@[c]),
            None => None,
        }),
{
    let mut states = [FileStormState {
        consecutive_pushes: 0,
        deepest_penetration: 0,
        opponent_owns_file: false,
        plies_since_response: 0,
        is_critical_file: false,
    }; 9];
    let mut col: usize = 0;
    while col < 9
        invariant
            col <= 9,
            previous matches Some(p) ==> forall|c: int| 0 <= c < 9 ==> counters_below_max(#[trigger] p@[c]),
            forall|c: int| 0 <= c < col ==> #[trigger] states@[c] == analyzed_file(*board, player, c, match previous {
                Some(p) => Some(p@[c]),
                None => None,
            }),
        decreases 9 - col,
    {
        let prev = match previous {
            Some(p) => Some(p[col]),
            None => None,
        };
        states[col] = analyze_file(board, player, col as u8, prev);
        col += 1;
    }
    states
}

/// Number of active files, and whether a central (3..=5) or an edge file
/// is among them.
pub open spec fn active_summary(states: Seq<FileStormState>, n: int) -> (int, bool, bool)
    decreases n,
{
    if n <= 0 {
        (0, false, false)
    } else {
        let (count, center, edge) = active_summary(states, n - 1);
        let s = states[n - 1];
        if s.consecutive_pushes > 0 && s.deepest_penetration >= 1 {
            (count + 1, center || (3 <= n - 1 <= 5), edge || n - 1 == 0 || n - 1 == 8)
        } else {
            (count, center, edge)
        }
    }
}

/// How many files have an active storm, and whether the centre or an edge
/// is under pressure.
pub fn storm_pressure(states: &[FileStormState; 9]) -> (r: (u8, bool, bool))
    ensures
        (r.0 as int, r.1, r.2) == active_summary(states@, 9),
{
    let mut count: u8 = 0;
    let mut center = false;
    let mut edge = false;
    let mut col: usize = 0;
    while col < 9
        invariant
            col <= 9,
            (count as int, center, edge) == active_summary(states@, col as int),
            count <= col,
        decreases 9 - col,
    {
        if states[col].is_active() {
            count += 1;
            if col >= 3 && col <= 5 {
                center = true;
            }
            if col == 0 || col == 8 {
                edge = true;
            }
        }
        col += 1;
    }
    (count, center, edge)
}

} // verus!
