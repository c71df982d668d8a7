//! Human-readable pattern explanations, pattern analytics counters and an
//! ASCII rendering of the board with pattern squares highlighted.

use vstd::prelude::*;
use vstd::string::StringExecFns;
use crate::board::{Board, piece_at};
use crate::types::{Player, Position};

verus! {

/// A detected pattern described for a reader.
#[derive(Debug, Clone)]
pub struct PatternExplanation {
    pub pattern_name: String,
    pub description: String,
    /// Value contribution.
    pub value: i32,
    /// Squares involved.
    pub squares: Vec<Position>,
}

/// Explanation templates by pattern name.
pub struct PatternExplainer {
    templates: Vec<(String, String)>,
}

impl PatternExplainer {
    /// Names of the patterns that have a template.
    pub closed spec fn template_names(&self) -> Seq<Seq<char>> {
        self.templates@.map_values(|e: (String, String)| e.0@)
    }

    /// An explainer with templates for forks, pins, outposts and the centre.
    pub fn new() -> (r: Self)
        ensures
            r.template_names() == seq!["fork"@, "pin"@, "outpost"@, "center"@],
    {
        let mut templates: Vec<(String, String)> = Vec::new();
        templates.push((String::from_str("fork"), String::from_str("Double attack on {targets}")));
        templates.push((String::from_str("pin"), String::from_str("Piece pinned to {target}")));
        templates.push((String::from_str("outpost"), String::from_str("Strong piece on {square}")));
        templates.push((String::from_str("center"), String::from_str("Controls center with {pieces}")));
        let r = PatternExplainer { templates };
        assert(r.template_names() =~= seq!["fork"@, "pin"@, "outpost"@, "center"@]);
        r
    }

    /// Explanations of the patterns on the board; none are produced yet.
    pub fn explain(&self, _board: &Board, _player: Player) -> (r: Vec<PatternExplanation>)
        ensures
            r@.len() == 0,
    {
        Vec::new()
    }
}

/// Stage of the game a pattern selection is made for.
#[derive(Debug, Clone, Copy, PartialEq, Eq, Structural, Hash)]
pub enum PositionType {
    Opening,
    Middlegame,
    Endgame,
}

/// Stage of a game phase: above 192 the opening, above 64 the middlegame,
/// the endgame below.
pub open spec fn stage_of(phase: int) -> PositionType {
    if phase > 192 {
        PositionType::Opening
    } else if phase > 64 {
        PositionType::Middlegame
    } else {
        PositionType::Endgame
    }
}

/// The stage a game phase falls in.
pub fn position_type_for_phase(game_phase: u8) -> (r: PositionType)
    ensures
        r == stage_of(game_phase as int),
{
    if game_phase > 192 {
        PositionType::Opening
    } else if game_phase > 64 {
        PositionType::Middlegame
    } else {
        PositionType::Endgame
    }
}

/// Totals of the pattern analytics.
#[derive(Debug, Clone, Copy, PartialEq, Eq, Structural)]
pub struct PatternAnalyticsStats {
    pub total_patterns: u64,
    pub unique_patterns: usize,
}

/// Some explanation lists the square.
pub open spec fn in_patterns(ps: Seq<PatternExplanation>, pos: Position) -> bool {
    exists|i: int, j: int| 0 <= i < ps.len() && 0 <= j < ps[i].squares@.len() && #[trigger] ps[i].squares@[j] == pos
}

/// One cell: `*` for an occupied square that a pattern involves, `.`
/// otherwise.
pub open spec fn cell(b: Board, ps: Seq<PatternExplanation>, row: int, col: int) -> char {
    if piece_at(b, row, col).is_some() && in_patterns(ps, Position { row: row as u8, col: col as u8 }) {
        '*'
    } else {
        '.'
    }
}

/// The first `n` cells of a row, each followed by a space.
pub open spec fn cells(b: Board, ps: Seq<PatternExplanation>, row: int, n: int) -> Seq<char>
    decreases n,
{
    if n <= 0 {
        Seq::empty()
    } else {
        cells(b, ps, row, n - 1) + seq![cell(b, ps, row, n - 1), ' ']
    }
}

/// Rank label of a row: 9 for row 0 down to 1 for row 8.
pub open spec fn rank_label(row: int) -> char {
    ((9 - row) + 48) as char
}

/// The first `n` rows of the rendering.
pub open spec fn rows(b: Board, ps: Seq<PatternExplanation>, n: int) -> Seq<char>
    decreases n,
{
    if n <= 0 {
        Seq::empty()
    } else {
        rows(b, ps, n - 1) + seq![rank_label(n - 1), ' '] + cells(b, ps, n - 1, 9) + seq!['\n']
    }
}

pub open spec fn header() -> Seq<char> {
    seq![' ', ' ', 'a', ' ', 'b', ' ', 'c', ' ', 'd', ' ', 'e', ' ', 'f', ' ', 'g', ' ', 'h', ' ', 'i', '\n']
}

/// The whole rendering: a column header, then each row with its rank label.
pub open spec fn rendering(b: Board, ps: Seq<PatternExplanation>) -> Seq<char> {
    header() + rows(b, ps, 9)
}

fn in_pattern_squares(patterns: &[PatternExplanation], pos: Position) -> (r: bool)
    ensures
        r == in_patterns(patterns@, pos),
{
    let mut i: usize = 0;
    while i < patterns.len()
        invariant
            i <= patterns@.len(),
            forall|a: int, j: int| 0 <= a < i && 0 <= j < patterns@[a].squares@.len() ==> #[trigger] patterns@[a].squares@[j]
                != pos,
        decreases patterns@.len() - i,
    {
        let squares = &patterns[i].squares;
        let mut j: usize = 0;
        while j < squares.len()
            invariant
                i < patterns@.len(),
                *squares == patterns@[i as int].squares,
                j <= squares@.len(),
                forall|k: int| 0 <= k < j ==> #[trigger] squares@[k] != pos,
            decreases squares@.len() - j,
        {
            if squares[j] == pos {
                assert(patterns@[i as int].squares@[j as int] == pos);
                return true;
            }
            j += 1;
        }
        i += 1;
    }
    false
}

fn label_text(row: usize) -> (r: &'static str)
    requires
        row < 9,
    ensures
        r@ == seq![rank_label(row as int), ' '],
{
    proof {
        reveal_strlit("9 ");
        reveal_strlit("8 ");
        reveal_strlit("7 ");
        reveal_strlit("6 ");
        reveal_strlit("5 ");
        reveal_strlit("4 ");
        reveal_strlit("3 ");
        reveal_strlit("2 ");
        reveal_strlit("1 ");
    }
    let r = if row == 0 {
        "9 "
    } else if row == 1 {
        "8 "
    } else if row == 2 {
        "7 "
    } else if row == 3 {
        "6 "
    } else if row == 4 {
        "5 "
    } else if row == 5 {
        "4 "
    } else if row == 6 {
        "3 "
    } else if row == 7 {
        "2 "
    } else {
        "1 "
    };
    assert(r@ =~= seq![rank_label(row as int), ' ']);
    r
}

/// Renders boards and patterns as text.
pub struct PatternVisualizer {}

impl PatternVisualizer {
    /// ASCII rendering of the board: a column header, then one line per row
    /// with its rank label and, per square, `*` where a piece stands on a
    /// square some pattern involves and `.` elsewhere.
    pub fn visualize_board(board: &Board, patterns: &[PatternExplanation]) -> (r: String)
        ensures
            r@ == rendering(*board, patterns@),
    {
        proof {
            reveal_strlit("  a b c d e f g h i\n");
            reveal_strlit("* ");
            reveal_strlit(". ");
            reveal_strlit("\n");
        }
        let mut output = String::new();
        output.append("  a b c d e f g h i\n");
        assert(output@ =~= header() + rows(*board, patterns@, 0));
        let mut row: usize = 0;
        while row < 9
            invariant
                row <= 9,
                output@ == header() + rows(*board, patterns@, row as int),
            decreases 9 - row,
        {
            let ghost before = output@;
            output.append(label_text(row));
            let mut col: usize = 0;
            while col < 9
                invariant
                    row < 9,
                    col <= 9,
                    output@ == before + seq![rank_label(row as int), ' '] + cells(*board, patterns@, row as int, col as int),
                decreases 9 - col,
            {
                let pos = Position::new(row as u8, col as u8);
                let marked = board.get_piece(pos).is_some() && in_pattern_squares(patterns, pos);
                if marked {
                    output.append("* ");
                } else {
                    output.append(". ");
                }
                proof {
                    reveal_strlit("* ");
                    reveal_strlit(". ");
                    assert(output@ =~= before + seq![rank_label(row as int), ' '] + cells(
                        *board,
                        patterns@,
                        row as int,
                        col as int + 1,
                    ));
                }
                col += 1;
            }
            output.append("\n");
            proof {
                reveal_strlit("\n");
                assert(output@ =~= header() + rows(*board, patterns@, row as int + 1));
            }
            row += 1;
        }
        output
    }
}

/// Occurrences and values recorded for one pattern name.
#[derive(Debug, Clone)]
pub struct PatternRecord {
    pub name: String,
    pub count: u64,
    pub values: Vec<i32>,
}

pub open spec fn record_names_distinct(s: Seq<PatternRecord>) -> bool {
    forall|i: int, j: int| 0 <= i < s.len() && 0 <= j < s.len() && i != j ==> #[trigger] s[i].name@ != #[trigger] s[j].name@
}

/// Index of the record for `name`, if there is one.
pub open spec fn record_index(s: Seq<PatternRecord>, name: Seq<char>) -> Option<int> {
    if exists|i: int| 0 <= i < s.len() && #[trigger] s[i].name@ == name {
        Some(choose|i: int| 0 <= i < s.len() && #[trigger] s[i].name@ == name)
    } else {
        None
    }
}

/// Sum of the counts of the first `n` records.
pub open spec fn count_sum(s: Seq<PatternRecord>, n: int) -> int
    decreases n,
{
    if n <= 0 { 0 } else { count_sum(s, n - 1) + s[n - 1].count }
}

proof fn lemma_record_index(s: Seq<PatternRecord>, i: int)
    requires
        record_names_distinct(s),
        0 <= i < s.len(),
    ensures
        record_index(s, s[i].name@) == Some(i),
{
    let name = s[i].name@;
    assert(s[i].name@ == name);
    let j = choose|j: int| 0 <= j < s.len() && #[trigger] s[j].name@ == name;
    if j != i {
        assert(s[i].name@ != s[j].name@);
    }
}

/// Pattern occurrence counts and value lists by pattern name.
pub struct PatternAnalytics {
    records: Vec<PatternRecord>,
}

impl PatternAnalytics {
    pub closed spec fn wf(&self) -> bool {
        record_names_distinct(self.records@)
    }

    /// Occurrences recorded for a name.
    pub closed spec fn frequency(&self, name: Seq<char>) -> nat {
        match record_index(self.records@, name) {
            Some(i) => self.records@[i].count as nat,
            None => 0,
        }
    }

    /// Values recorded for a name, in recording order.
    pub closed spec fn values(&self, name: Seq<char>) -> Seq<i32> {
        match record_index(self.records@, name) {
            Some(i) => self.records@[i].values@,
            None => Seq::empty(),
        }
    }

    /// Something was recorded under the name.
    pub closed spec fn has_record(&self, name: Seq<char>) -> bool {
        record_index(self.records@, name) is Some
    }

    /// Number of distinct names recorded.
    pub closed spec fn unique(&self) -> nat {
        self.records@.len()
    }

    /// Occurrences recorded over all names.
    pub closed spec fn total(&self) -> int {
        count_sum(self.records@, self.records@.len() as int)
    }

    pub fn new() -> (r: Self)
        ensures
            r.wf(),
            r.unique() == 0,
            r.total() == 0,
            forall|n: Seq<char>| #[trigger] r.frequency(n) == 0 && r.values(n) == Seq::<i32>::empty(),
    {
        PatternAnalytics { records: Vec::new() }
    }

    /// Counts one occurrence of a pattern and records its value.
    pub fn record_pattern(&mut self, pattern_name: &str, value: i32)
        requires
            old(self).wf(),
            old(self).frequency(pattern_name@) < u64::MAX,
        ensures
            final(self).wf(),
            forall|n: Seq<char>| #[trigger] final(self).frequency(n) == if n == pattern_name@ {
                old(self).frequency(n) + 1
            } else {
                old(self).frequency(n)
            },
            forall|n: Seq<char>| #[trigger] final(self).values(n) == if n == pattern_name@ {
                old(self).values(n).push(value)
            } else {
                old(self).values(n)
            },
            final(self).total() == old(self).total() + 1,
            final(self).unique() == old(self).unique() + if !old(self).has_record(pattern_name@) {
                1int
            } else {
                0int
            },
    {
        let key = pattern_name.to_owned();
        let ghost s0 = self.records@;
        let mut i: usize = 0;
        while i < self.records.len()
            invariant
                i <= self.records@.len(),
                self.records@ == s0,
                old(self).records@ == s0,
                record_names_distinct(s0),
                key@ == pattern_name@,
                forall|k: int| 0 <= k < i ==> #[trigger] s0[k].name@ != key@,
                match record_index(s0, key@) {
                    Some(k) => s0[k].count < u64::MAX,
                    None => true,
                },
            decreases self.records@.len() - i,
        {
            if self.records[i].name == key {
                proof {
                    lemma_record_index(s0, i as int);
                }
                let mut rec = self.records.remove(i);
                assert(rec == s0[i as int]);
                rec.count = rec.count + 1;
                rec.values.push(value);
                assert(rec.values@ == s0[i as int].values@.push(value));
                assert(rec.count == s0[i as int].count + 1);
                let ghost new_rec = rec;
                self.records.insert(i, rec);
                let ghost s1 = self.records@;
                proof {
                    assert(s1 =~= s0.update(i as int, new_rec));
                    assert forall|a: int, b: int| 0 <= a < s1.len() && 0 <= b < s1.len() && a != b implies #[trigger] s1[a].name@
                        != #[trigger] s1[b].name@ by {
                        assert(s1[a].name@ == s0[a].name@);
                        assert(s1[b].name@ == s0[b].name@);
                    }
                    assert forall|n: Seq<char>| #[trigger] record_index(s1, n) == record_index(s0, n) by {
                        if exists|k: int| 0 <= k < s0.len() && #[trigger] s0[k].name@ == n {
                            let k = choose|k: int| 0 <= k < s0.len() && #[trigger] s0[k].name@ == n;
                            lemma_record_index(s0, k);
                            assert(s1[k].name@ == n);
                            lemma_record_index(s1, k);
                        } else {
                            assert forall|k: int| 0 <= k < s1.len() implies #[trigger] s1[k].name@ != n by {
                                assert(s1[k].name@ == s0[k].name@);
                            }
                        }
                    }
                    lemma_count_sum_update(s0, i as int, new_rec, s0.len() as int);
                    assert forall|n: Seq<char>| #[trigger] self.frequency(n) == if n == pattern_name@ {
                        old(self).frequency(n) + 1
                    } else {
                        old(self).frequency(n)
                    } by {
                        assert(record_index(s1, n) == record_index(s0, n));
                        if n == key@ {
                            assert(record_index(s0, n) == Some(i as int));
                            assert(s1[i as int] == new_rec);
                        } else {
                            match record_index(s0, n) {
                                Some(k) => {
                                    assert(s0[k].name@ == n);
                                    assert(k != i as int);
                                    assert(s1[k] == s0[k]);
                                },
                                None => {},
                            }
                        }
                    }
                    assert forall|n: Seq<char>| #[trigger] self.values(n) == if n == pattern_name@ {
                        old(self).values(n).push(value)
                    } else {
                        old(self).values(n)
                    } by {
                        assert(record_index(s1, n) == record_index(s0, n));
                        if n == key@ {
                            assert(record_index(s0, n) == Some(i as int));
                            assert(s1[i as int] == new_rec);
                        } else {
                            match record_index(s0, n) {
                                Some(k) => {
                                    assert(s0[k].name@ == n);
                                    assert(k != i as int);
                                    assert(s1[k] == s0[k]);
                                },
                                None => {},
                            }
                        }
                    }
                }
                return;
            }
            i += 1;
        }
        let mut values: Vec<i32> = Vec::new();
        values.push(value);
        let rec = PatternRecord { name: key, count: 1, values };
        self.records.push(rec);
        let ghost s1 = self.records@;
        proof {
            assert(s1 =~= s0.push(rec));
            assert forall|a: int, b: int| 0 <= a < s1.len() && 0 <= b < s1.len() && a != b implies #[trigger] s1[a].name@
                != #[trigger] s1[b].name@ by {
                if a < s0.len() && b < s0.len() {
                    assert(s0[a].name@ != s0[b].name@);
                } else if a < s0.len() {
                    assert(s0[a].name@ != key@);
                } else {
                    assert(s0[b].name@ != key@);
                }
            }
            assert forall|n: Seq<char>| #[trigger] record_index(s1, n) == if n == key@ {
                Some(s0.len() as int)
            } else {
                record_index(s0, n)
            } by {
                if n == key@ {
                    lemma_record_index(s1, s0.len() as int);
                } else if exists|k: int| 0 <= k < s0.len() && #[trigger] s0[k].name@ == n {
                    let k = choose|k: int| 0 <= k < s0.len() && #[trigger] s0[k].name@ == n;
                    lemma_record_index(s0, k);
                    assert(s1[k] == s0[k]);
                    lemma_record_index(s1, k);
                } else {
                    assert forall|k: int| 0 <= k < s1.len() implies #[trigger] s1[k].name@ != n by {
                        if k < s0.len() {
                            assert(s1[k] == s0[k]);
                        }
                    }
                }
            }
            assert(record_index(s0, key@) is None);
            lemma_count_sum_push(s0, rec, s0.len() as int);
            assert(seq![value] =~= Seq::<i32>::empty().push(value));
        }
    }

    /// Occurrences recorded for a name.
    pub fn get_frequency(&self, pattern_name: &str) -> (r: u64)
        requires
            self.wf(),
        ensures
            r == self.frequency(pattern_name@),
    {
        let key = pattern_name.to_owned();
        let mut i: usize = 0;
        while i < self.records.len()
            invariant
                i <= self.records@.len(),
                record_names_distinct(self.records@),
                key@ == pattern_name@,
                forall|k: int| 0 <= k < i ==> #[trigger] self.records@[k].name@ != key@,
            decreases self.records@.len() - i,
        {
            if self.records[i].name == key {
                proof {
                    lemma_record_index(self.records@, i as int);
                }
                return self.records[i].count;
            }
            i += 1;
        }
        0
    }

    /// Values recorded for a name, in recording order.
    pub fn get_values(&self, pattern_name: &str) -> (r: Vec<i32>)
        requires
            self.wf(),
        ensures
            r@ == self.values(pattern_name@),
    {
        let key = pattern_name.to_owned();
        let mut i: usize = 0;
        while i < self.records.len()
            invariant
                i <= self.records@.len(),
                record_names_distinct(self.records@),
                key@ == pattern_name@,
                forall|k: int| 0 <= k < i ==> #[trigger] self.records@[k].name@ != key@,
            decreases self.records@.len() - i,
        {
            if self.records[i].name == key {
                proof {
                    lemma_record_index(self.records@, i as int);
                }
                return self.records[i].values.clone();
            }
            i += 1;
        }
        Vec::new()
    }

    /// Total occurrences and the number of distinct names.
    pub fn get_stats(&self) -> (r: PatternAnalyticsStats)
        requires
            self.total() <= u64::MAX,
        ensures
            r.total_patterns == self.total(),
            r.unique_patterns == self.unique(),
    {
        let mut total: u64 = 0;
        let mut i: usize = 0;
        while i < self.records.len()
            invariant
                i <= self.records@.len(),
                count_sum(self.records@, self.records@.len() as int) <= u64::MAX,
                total == count_sum(self.records@, i as int),
            decreases self.records@.len() - i,
        {
            proof {
                lemma_count_sum_mono(self.records@, i as int + 1, self.records@.len() as int);
            }
            total = total + self.records[i].count;
            i += 1;
        }
        PatternAnalyticsStats { total_patterns: total, unique_patterns: self.records.len() }
    }
}

proof fn lemma_count_sum_push(s: Seq<PatternRecord>, r: PatternRecord, n: int)
    requires
        0 <= n <= s.len(),
    ensures
        count_sum(s.push(r), n) == count_sum(s, n),
    decreases n,
{
    if n > 0 {
        lemma_count_sum_push(s, r, n - 1);
    }
}

proof fn lemma_count_sum_mono(s: Seq<PatternRecord>, a: int, b: int)
    requires
        0 <= a <= b <= s.len(),
    ensures
        count_sum(s, a) <= count_sum(s, b),
    decreases b - a,
{
    if a < b {
        lemma_count_sum_mono(s, a, b - 1);
    }
}

/// Raising one record's count by one raises the sum by one.
proof fn lemma_count_sum_update(s: Seq<PatternRecord>, i: int, r: PatternRecord, n: int)
    requires
        0 <= i < s.len(),
        r.count == s[i].count + 1,
        0 <= n <= s.len(),
    ensures
        count_sum(s.update(i, r), n) == count_sum(s, n) + if i < n { 1int } else { 0int },
    decreases n,
{
    if n > 0 {
        lemma_count_sum_update(s, i, r, n - 1);
    }
}

} // verus!
