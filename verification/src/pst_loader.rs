//! Choosing and assembling piece-square tables: which source a
//! configuration selects, piece names in table documents, and the checks a
//! parsed document passes before it becomes a set of tables.
//!
//! Reading files and decoding JSON happen outside the library; a decoded
//! document reaches [`PieceSquareTableLoader::from_serialized`] as a list of
//! named per-kind tables.

use vstd::prelude::*;
use vstd::string::StrSliceExecFns;
use crate::piece_square_tables::{
    PiecePhaseTables, PieceSquareTableError, PieceSquareTables, PieceSquareTableStorage, import_result, is_zero_table,
    table_is_zero,
};
use crate::types::PieceType;

verus! {

#[verifier::external_type_specification]
#[verifier::external_body]
pub struct ExIoError(std::io::Error);

#[verifier::external_type_specification]
#[verifier::external_body]
pub struct ExJsonError(serde_json::Error);

/// Table file read for the default preset.
pub const DEFAULT_PRESET_PATH: &'static str = "config/pst/default.json";

/// ASCII lower-casing of one character; other characters are unchanged.
pub open spec fn ascii_lower(c: char) -> char {
    if 'A' <= c <= 'Z' {
        ((c as u8) + 32) as char
    } else {
        c
    }
}

/// Unicode `White_Space` characters.
pub open spec fn is_white_space(c: char) -> bool {
    ||| '\u{9}' <= c <= '\u{d}'
    ||| c == ' '
    ||| c == '\u{85}'
    ||| c == '\u{a0}'
    ||| c == '\u{1680}'
    ||| '\u{2000}' <= c <= '\u{200a}'
    ||| c == '\u{2028}'
    ||| c == '\u{2029}'
    ||| c == '\u{202f}'
    ||| c == '\u{205f}'
    ||| c == '\u{3000}'
}

/// A text that is empty once white space is trimmed from both ends.
pub open spec fn is_blank(s: Seq<char>) -> bool {
    forall|i: int| 0 <= i < s.len() ==> is_white_space(#[trigger] s[i])
}

/// Name of a piece kind in table documents.
pub open spec fn piece_name(pt: PieceType) -> Seq<char> {
    match pt {
        PieceType::Pawn => seq!['p', 'a', 'w', 'n'],
        PieceType::Lance => seq!['l', 'a', 'n', 'c', 'e'],
        PieceType::Knight => seq!['k', 'n', 'i', 'g', 'h', 't'],
        PieceType::Silver => seq!['s', 'i', 'l', 'v', 'e', 'r'],
        PieceType::Gold => seq!['g', 'o', 'l', 'd'],
        PieceType::Bishop => seq!['b', 'i', 's', 'h', 'o', 'p'],
        PieceType::Rook => seq!['r', 'o', 'o', 'k'],
        PieceType::King => seq!['k', 'i', 'n', 'g'],
        PieceType::PromotedPawn => seq!['p', 'r', 'o', 'm', 'o', 't', 'e', 'd', '_', 'p', 'a', 'w', 'n'],
        PieceType::PromotedLance => seq!['p', 'r', 'o', 'm', 'o', 't', 'e', 'd', '_', 'l', 'a', 'n', 'c', 'e'],
        PieceType::PromotedKnight => seq!['p', 'r', 'o', 'm', 'o', 't', 'e', 'd', '_', 'k', 'n', 'i', 'g', 'h', 't'],
        PieceType::PromotedSilver => seq!['p', 'r', 'o', 'm', 'o', 't', 'e', 'd', '_', 's', 'i', 'l', 'v', 'e', 'r'],
        PieceType::PromotedBishop => seq!['p', 'r', 'o', 'm', 'o', 't', 'e', 'd', '_', 'b', 'i', 's', 'h', 'o', 'p'],
        PieceType::PromotedRook => seq!['p', 'r', 'o', 'm', 'o', 't', 'e', 'd', '_', 'r', 'o', 'o', 'k'],
    }
}

/// `s` equals `name` after ASCII lower-casing.
pub open spec fn names_match(s: Seq<char>, name: Seq<char>) -> bool {
    &&& s.len() == name.len()
    &&& forall|i: int| 0 <= i < s.len() ==> ascii_lower(#[trigger] s[i]) == name[i]
}

/// The first piece kind, from index `k` on, whose name `s` matches.
pub open spec fn parse_from(s: Seq<char>, k: int) -> Option<PieceType>
    decreases 14 - k,
{
    if k >= 14 || k < 0 {
        None
    } else if names_match(s, piece_name(PieceType::from_idx(k))) {
        Some(PieceType::from_idx(k))
    } else {
        parse_from(s, k + 1)
    }
}

/// The piece kind a document names, ignoring ASCII case.
pub open spec fn parse_name(s: Seq<char>) -> Option<PieceType> {
    parse_from(s, 0)
}

/// Where a configuration takes its tables from.
#[derive(Clone, Copy, Debug, PartialEq, Eq, Structural)]
pub enum PieceSquareTablePreset {
    Builtin,
    Default,
    Custom,
}

impl Default for PieceSquareTablePreset {
    fn default() -> (r: Self)
        ensures
            r == PieceSquareTablePreset::Builtin,
    {
        PieceSquareTablePreset::Builtin
    }
}

/// A preset and an optional table file that overrides it.
#[derive(Clone, Debug)]
pub struct PieceSquareTableConfig {
    pub preset: PieceSquareTablePreset,
    pub values_path: Option<String>,
}

impl Default for PieceSquareTableConfig {
    fn default() -> (r: Self)
        ensures
            r.preset == PieceSquareTablePreset::Builtin,
            r.values_path is None,
    {
        PieceSquareTableConfig { preset: PieceSquareTablePreset::Builtin, values_path: None }
    }
}

/// Tables decoded from a document, with its version and description.
#[derive(Debug)]
pub struct PieceSquareTableLoadResult {
    pub tables: PieceSquareTables,
    pub version: Option<String>,
    pub description: Option<String>,
}

/// A decoded table document: version, description and the tables by name,
/// in document order.
#[derive(Debug)]
pub struct SerializedPieceSquareTables {
    pub version: Option<String>,
    pub description: Option<String>,
    pub tables: Vec<(String, PiecePhaseTables)>,
}

/// Why tables could not be loaded.
#[derive(Debug)]
pub enum PieceSquareTableLoadError {
    Io(std::io::Error),
    Parse(serde_json::Error),
    UnknownPiece(String),
    DuplicatePiece(PieceType),
    MissingPiece(PieceType),
    NonZeroKingTables,
    MissingCustomPath,
}

/// The tables a configuration selects, or the file holding them.
#[derive(Debug)]
pub enum PieceSquareTableSource {
    Tables(PieceSquareTables),
    File(String),
}

/// Per-kind tables of the first `n` entries of a document (indexed by
/// kind), or the index of the entry that has an unknown or repeated name.
pub open spec fn collect_upto(entries: Seq<(String, PiecePhaseTables)>, n: int) -> Result<Seq<Option<PiecePhaseTables>>, int>
    decreases n,
{
    if n <= 0 {
        Ok(Seq::new(14, |i: int| None))
    } else {
        match collect_upto(entries, n - 1) {
            Err(i) => Err(i),
            Ok(t) => match parse_name(entries[n - 1].0@) {
                None => Err(n - 1),
                Some(pt) => if t[pt.idx() as int].is_some() {
                    Err(n - 1)
                } else {
                    Ok(t.update(pt.idx() as int, Some(entries[n - 1].1)))
                },
            },
        }
    }
}

/// Once an entry is refused, later entries do not change the outcome.
proof fn lemma_collect_err(entries: Seq<(String, PiecePhaseTables)>, n: int, m: int)
    requires
        0 <= n <= m,
        collect_upto(entries, n) is Err,
    ensures
        collect_upto(entries, m) == collect_upto(entries, n),
    decreases m - n,
{
    if m > n {
        lemma_collect_err(entries, n, m - 1);
    }
}

/// Storage assembled from per-kind tables: king tables must be present
/// and zero, then every other kind must be present.
pub open spec fn build_result(t: Seq<Option<PiecePhaseTables>>) -> Result<PieceSquareTableStorage, PieceSquareTableLoadError> {
    if t[7].is_none() {
        Err(PieceSquareTableLoadError::MissingPiece(PieceType::King))
    } else if !(table_is_zero(t[7].unwrap().mg) && table_is_zero(t[7].unwrap().eg)) {
        Err(PieceSquareTableLoadError::NonZeroKingTables)
    } else {
        match import_result(t) {
            Ok(s) => Ok(s),
            Err(PieceSquareTableError::MissingPiece(p)) => Err(PieceSquareTableLoadError::MissingPiece(p)),
            Err(PieceSquareTableError::UnsupportedKingValues) => Err(PieceSquareTableLoadError::NonZeroKingTables),
        }
    }
}

/// Outcome of loading a decoded document.
pub open spec fn document_outcome(doc: SerializedPieceSquareTables, r: Result<PieceSquareTableLoadResult, PieceSquareTableLoadError>) -> bool {
    match collect_upto(doc.tables@, doc.tables@.len() as int) {
        Err(i) => match parse_name(doc.tables@[i].0@) {
            None => r matches Err(PieceSquareTableLoadError::UnknownPiece(s)) && s@ == doc.tables@[i].0@,
            Some(pt) => r matches Err(PieceSquareTableLoadError::DuplicatePiece(p)) && p == pt,
        },
        Ok(t) => match build_result(t) {
            Err(e) => match e {
                PieceSquareTableLoadError::MissingPiece(p) => r matches Err(
                    PieceSquareTableLoadError::MissingPiece(q),
                ) && q == p,
                _ => r matches Err(PieceSquareTableLoadError::NonZeroKingTables),
            },
            Ok(s) => r matches Ok(res) && res.tables.inner == s && res.version == doc.version && res.description
                == doc.description,
        },
    }
}

fn name_chars(pt: PieceType) -> (r: Vec<char>)
    ensures
        r@ == piece_name(pt),
{
    match pt {
        PieceType::Pawn => vec!['p', 'a', 'w', 'n'],
        PieceType::Lance => vec!['l', 'a', 'n', 'c', 'e'],
        PieceType::Knight => vec!['k', 'n', 'i', 'g', 'h', 't'],
        PieceType::Silver => vec!['s', 'i', 'l', 'v', 'e', 'r'],
        PieceType::Gold => vec!['g', 'o', 'l', 'd'],
        PieceType::Bishop => vec!['b', 'i', 's', 'h', 'o', 'p'],
        PieceType::Rook => vec!['r', 'o', 'o', 'k'],
        PieceType::King => vec!['k', 'i', 'n', 'g'],
        PieceType::PromotedPawn => vec!['p', 'r', 'o', 'm', 'o', 't', 'e', 'd', '_', 'p', 'a', 'w', 'n'],
        PieceType::PromotedLance => vec!['p', 'r', 'o', 'm', 'o', 't', 'e', 'd', '_', 'l', 'a', 'n', 'c', 'e'],
        PieceType::PromotedKnight => vec!['p', 'r', 'o', 'm', 'o', 't', 'e', 'd', '_', 'k', 'n', 'i', 'g', 'h', 't'],
        PieceType::PromotedSilver => vec!['p', 'r', 'o', 'm', 'o', 't', 'e', 'd', '_', 's', 'i', 'l', 'v', 'e', 'r'],
        PieceType::PromotedBishop => vec!['p', 'r', 'o', 'm', 'o', 't', 'e', 'd', '_', 'b', 'i', 's', 'h', 'o', 'p'],
        PieceType::PromotedRook => vec!['p', 'r', 'o', 'm', 'o', 't', 'e', 'd', '_', 'r', 'o', 'o', 'k'],
    }
}

fn lower_char(c: char) -> (r: char)
    ensures
        r == ascii_lower(c),
{
    if 'A' <= c && c <= 'Z' {
        ((c as u8) + 32) as char
    } else {
        c
    }
}

fn matches_name(name: &str, expected: &Vec<char>) -> (r: bool)
    ensures
        r == names_match(name@, expected@),
{
    let n = name.unicode_len();
    if n != expected.len() {
        return false;
    }
    let mut i: usize = 0;
    while i < n
        invariant
            n == name@.len(),
            n == expected@.len(),
            i <= n,
            forall|j: int| 0 <= j < i ==> ascii_lower(#[trigger] name@[j]) == expected@[j],
        decreases n - i,
    {
        if lower_char(name.get_char(i)) != expected[i] {
            return false;
        }
        i += 1;
    }
    true
}

/// The piece kind a document names (`"pawn"` .. `"promoted_rook"`), ignoring
/// ASCII case.
pub fn parse_piece_type(name: &str) -> (r: Option<PieceType>)
    ensures
        r == parse_name(name@),
{
    let mut k: usize = 0;
    while k < 14
        invariant
            k <= 14,
            parse_name(name@) == parse_from(name@, k as int),
        decreases 14 - k,
    {
        let pt = PieceType::from_index(k);
        if matches_name(name, &name_chars(pt)) {
            return Some(pt);
        }
        k += 1;
    }
    None
}

fn blank(s: &str) -> (r: bool)
    ensures
        r == is_blank(s@),
{
    let n = s.unicode_len();
    let mut i: usize = 0;
    while i < n
        invariant
            n == s@.len(),
            i <= n,
            forall|j: int| 0 <= j < i ==> is_white_space(#[trigger] s@[j]),
        decreases n - i,
    {
        let c = s.get_char(i);
        let ws = ('\u{9}' <= c && c <= '\u{d}') || c == ' ' || c == '\u{85}' || c == '\u{a0}' || c == '\u{1680}'
            || ('\u{2000}' <= c && c <= '\u{200a}') || c == '\u{2028}' || c == '\u{2029}' || c == '\u{202f}'
            || c == '\u{205f}' || c == '\u{3000}';
        if !ws {
            return false;
        }
        i += 1;
    }
    true
}

/// Loads and checks piece-square tables.
pub struct PieceSquareTableLoader {}

impl PieceSquareTableLoader {
    /// Tables from a decoded document. Entries are taken in document order:
    /// an unknown name or a kind named twice is refused at the first such
    /// entry; then king tables must be present and zero, and every other
    /// kind present, in kind order.
    pub fn from_serialized(serialized: SerializedPieceSquareTables) -> (r: Result<PieceSquareTableLoadResult, PieceSquareTableLoadError>)
        ensures
            document_outcome(serialized, r),
    {
        let ghost doc = serialized;
        let mut t: [Option<PiecePhaseTables>; 14] = [None; 14];
        assert(t@ =~= Seq::new(14, |i: int| None::<PiecePhaseTables>));
        let mut i: usize = 0;
        while i < serialized.tables.len()
            invariant
                i <= serialized.tables@.len(),
                serialized == doc,
                collect_upto(doc.tables@, i as int) == Ok::<Seq<Option<PiecePhaseTables>>, int>(t@),
            decreases serialized.tables@.len() - i,
        {
            let pt_opt = parse_piece_type(serialized.tables[i].0.as_str());
            match pt_opt {
                None => {
                    let name = serialized.tables[i].0.clone();
                    proof {
                        lemma_collect_err(doc.tables@, i as int + 1, doc.tables@.len() as int);
                    }
                    return Err(PieceSquareTableLoadError::UnknownPiece(name));
                },
                Some(pt) => {
                    let k = pt.as_index();
                    if t[k].is_some() {
                        proof {
                            lemma_collect_err(doc.tables@, i as int + 1, doc.tables@.len() as int);
                        }
                        return Err(PieceSquareTableLoadError::DuplicatePiece(pt));
                    }
                    t[k] = Some(serialized.tables[i].1);
                    assert(t@ =~= collect_upto(doc.tables@, i as int)->Ok_0.update(
                        k as int,
                        Some(doc.tables@[i as int].1),
                    ));
                },
            }
            i += 1;
        }
        let king = match t[7] {
            None => {
                return Err(PieceSquareTableLoadError::MissingPiece(PieceType::King));
            },
            Some(k) => k,
        };
        if !is_zero_table(&king.mg) || !is_zero_table(&king.eg) {
            return Err(PieceSquareTableLoadError::NonZeroKingTables);
        }
        match PieceSquareTables::from_phase_tables(&t) {
            Ok(tables) => Ok(
                PieceSquareTableLoadResult {
                    tables,
                    version: serialized.version,
                    description: serialized.description,
                },
            ),
            Err(PieceSquareTableError::MissingPiece(p)) => Err(PieceSquareTableLoadError::MissingPiece(p)),
            Err(PieceSquareTableError::UnsupportedKingValues) => Err(PieceSquareTableLoadError::NonZeroKingTables),
        }
    }

    /// The source a configuration selects: a table file given by a
    /// non-blank path first; otherwise the built-in tables, the default
    /// preset's file, or, for the custom preset without a file, an error.
    pub fn load(config: &PieceSquareTableConfig) -> (r: Result<PieceSquareTableSource, PieceSquareTableLoadError>)
        ensures
            match config.values_path {
                Some(p) if !is_blank(p@) => r matches Ok(PieceSquareTableSource::File(f)) && f@ == p@,
                _ => match config.preset {
                    PieceSquareTablePreset::Builtin => r matches Ok(PieceSquareTableSource::Tables(t))
                        && t.inner == crate::piece_square_tables::builtin_storage(),
                    PieceSquareTablePreset::Default => r matches Ok(PieceSquareTableSource::File(f)) && f@
                        == DEFAULT_PRESET_PATH@,
                    PieceSquareTablePreset::Custom => r matches Err(PieceSquareTableLoadError::MissingCustomPath),
                },
            },
    {
        match &config.values_path {
            Some(p) => {
                if !blank(p.as_str()) {
                    return Ok(PieceSquareTableSource::File(p.clone()));
                }
            },
            None => {},
        }
        match config.preset {
            PieceSquareTablePreset::Builtin => Ok(PieceSquareTableSource::Tables(PieceSquareTables::new())),
            PieceSquareTablePreset::Default => Ok(PieceSquareTableSource::File(DEFAULT_PRESET_PATH.to_owned())),
            PieceSquareTablePreset::Custom => Err(PieceSquareTableLoadError::MissingCustomPath),
        }
    }
}

} // verus!

verus! {

/// Every piece kind's document name parses back to that kind.
pub proof fn law_piece_name_round_trip(pt: PieceType)
    ensures
        parse_name(piece_name(pt)) == Some(pt),
{
    let s = piece_name(pt);
    assert(names_match(s, s));
    reveal_with_fuel(parse_from, 15);
    let k = pt.idx() as int;
    assert forall|j: int| 0 <= j < k implies !names_match(s, piece_name(#[trigger] PieceType::from_idx(j))) by {
        let other = piece_name(PieceType::from_idx(j));
        if s.len() == other.len() {
            assert(ascii_lower(s[0]) != other[0] || ascii_lower(s[1]) != other[1] || ascii_lower(s[2]) != other[2]
                || ascii_lower(s[3]) != other[3] || ascii_lower(s[9]) != other[9] || ascii_lower(s[10]) != other[10]);
        }
    }
}

} // verus!
