//! Which pattern families are enabled, and the advanced options of the
//! pattern system with their validation.

use vstd::prelude::*;
use vstd::string::StringExecFns;

verus! {

/// Enable flags for each pattern family.
#[derive(Debug, Clone, Copy, PartialEq, Eq, Structural)]
pub struct PatternTypes {
    pub piece_square_tables: bool,
    pub pawn_structure: bool,
    pub king_safety: bool,
    pub piece_coordination: bool,
    pub mobility: bool,
    /// Forks, pins, skewers.
    pub tactical_patterns: bool,
    /// Outposts, weak squares.
    pub positional_patterns: bool,
    pub endgame_patterns: bool,
}

pub open spec fn bit(b: bool) -> nat {
    if b {
        1
    } else {
        0
    }
}

fn flag_value(b: bool) -> (r: usize)
    ensures
        r == bit(b),
{
    if b {
        1
    } else {
        0
    }
}

impl PatternTypes {
    pub open spec fn all(on: bool) -> Self {
        PatternTypes {
            piece_square_tables: on,
            pawn_structure: on,
            king_safety: on,
            piece_coordination: on,
            mobility: on,
            tactical_patterns: on,
            positional_patterns: on,
            endgame_patterns: on,
        }
    }

    pub open spec fn enabled_count(self) -> nat {
        bit(self.piece_square_tables) + bit(self.pawn_structure) + bit(self.king_safety) + bit(
            self.piece_coordination,
        ) + bit(self.mobility) + bit(self.tactical_patterns) + bit(self.positional_patterns) + bit(
            self.endgame_patterns,
        )
    }

    /// Enables every family.
    pub fn enable_all(&mut self)
        ensures
            *final(self) == PatternTypes::all(true),
    {
        self.piece_square_tables = true;
        self.pawn_structure = true;
        self.king_safety = true;
        self.piece_coordination = true;
        self.mobility = true;
        self.tactical_patterns = true;
        self.positional_patterns = true;
        self.endgame_patterns = true;
    }

    /// Disables every family.
    pub fn disable_all(&mut self)
        ensures
            *final(self) == PatternTypes::all(false),
    {
        self.piece_square_tables = false;
        self.pawn_structure = false;
        self.king_safety = false;
        self.piece_coordination = false;
        self.mobility = false;
        self.tactical_patterns = false;
        self.positional_patterns = false;
        self.endgame_patterns = false;
    }

    pub open spec fn any_on(self) -> bool {
        self.piece_square_tables || self.pawn_structure || self.king_safety || self.piece_coordination
            || self.mobility || self.tactical_patterns || self.positional_patterns || self.endgame_patterns
    }

    /// Some family is enabled.
    pub fn any_enabled(&self) -> (r: bool)
        ensures
            r == self.any_on(),
    {
        self.piece_square_tables || self.pawn_structure || self.king_safety || self.piece_coordination
            || self.mobility || self.tactical_patterns || self.positional_patterns || self.endgame_patterns
    }

    /// Number of enabled families.
    pub fn count_enabled(&self) -> (r: usize)
        ensures
            r == self.enabled_count(),
            r <= 8,
    {
        flag_value(self.piece_square_tables) + flag_value(self.pawn_structure) + flag_value(self.king_safety)
            + flag_value(self.piece_coordination) + flag_value(self.mobility) + flag_value(self.tactical_patterns)
            + flag_value(self.positional_patterns) + flag_value(self.endgame_patterns)
    }
}

impl Default for PatternTypes {
    /// The core families on, the tactical, positional and endgame ones off.
    fn default() -> (r: Self)
        ensures
            r == (PatternTypes {
                piece_square_tables: true,
                pawn_structure: true,
                king_safety: true,
                piece_coordination: true,
                mobility: true,
                tactical_patterns: false,
                positional_patterns: false,
                endgame_patterns: false,
            }),
    {
        PatternTypes {
            piece_square_tables: true,
            pawn_structure: true,
            king_safety: true,
            piece_coordination: true,
            mobility: true,
            tactical_patterns: false,
            positional_patterns: false,
            endgame_patterns: false,
        }
    }
}

/// Caching, incremental updates, statistics and the depth window in which
/// patterns apply.
#[derive(Debug, Clone, Copy, PartialEq, Eq, Structural)]
pub struct AdvancedPatternConfig {
    pub enable_caching: bool,
    /// Largest number of cache entries.
    pub cache_size: usize,
    pub incremental_updates: bool,
    pub collect_statistics: bool,
    pub min_depth: u8,
    pub max_depth: u8,
}

/// Some family is enabled exactly when the count of enabled families is
/// positive.
pub proof fn law_any_enabled_iff_count(t: PatternTypes)
    ensures
        t.any_on() == (t.enabled_count() > 0),
{
}

/// The decimal digit `d` as a character.
pub open spec fn digit_char(d: nat) -> char {
    (d + 48) as char
}

/// The decimal representation of `n`, as `Display` writes an integer.
pub open spec fn decimal(n: nat) -> Seq<char>
    decreases n,
{
    if n < 10 {
        seq![digit_char(n)]
    } else {
        decimal(n / 10).push(digit_char(n % 10))
    }
}

/// The message for a depth window whose minimum exceeds its maximum.
pub open spec fn depth_range_message(min_depth: u8, max_depth: u8) -> Seq<char> {
    "min_depth ("@ + decimal(min_depth as nat) + ") cannot be greater than max_depth ("@ + decimal(
        max_depth as nat,
    ) + ")"@
}

/// The message for a cache size above the limit.
pub open spec fn cache_size_message(cache_size: usize) -> Seq<char> {
    "cache_size is too large (max 10M): "@ + decimal(cache_size as nat)
}

fn digit_str(d: u64) -> (r: &'static str)
    requires
        d < 10,
    ensures
        r@ == seq![digit_char(d as nat)],
{
    proof {
        reveal_strlit("0");
        reveal_strlit("1");
        reveal_strlit("2");
        reveal_strlit("3");
        reveal_strlit("4");
        reveal_strlit("5");
        reveal_strlit("6");
        reveal_strlit("7");
        reveal_strlit("8");
        reveal_strlit("9");
    }
    match d {
        0 => "0",
        1 => "1",
        2 => "2",
        3 => "3",
        4 => "4",
        5 => "5",
        6 => "6",
        7 => "7",
        8 => "8",
        _ => "9",
    }
}

/// The decimal representation of `n`.
fn decimal_string(n: u64) -> (r: String)
    ensures
        r@ == decimal(n as nat),
    decreases n,
{
    if n < 10 {
        String::from_str(digit_str(n))
    } else {
        let mut s = decimal_string(n / 10);
        s.append(digit_str(n % 10));
        s
    }
}

/// "min_depth ({min}) cannot be greater than max_depth ({max})".
fn format_depth_range(min_depth: u8, max_depth: u8) -> (r: String)
    ensures
        r@ == depth_range_message(min_depth, max_depth),
{
    let mut s = String::from_str("min_depth (");
    s.append(decimal_string(min_depth as u64).as_str());
    s.append(") cannot be greater than max_depth (");
    s.append(decimal_string(max_depth as u64).as_str());
    s.append(")");
    s
}

/// "cache_size is too large (max 10M): {size}".
fn format_cache_size(cache_size: usize) -> (r: String)
    ensures
        r@ == cache_size_message(cache_size),
{
    let mut s = String::from_str("cache_size is too large (max 10M): ");
    s.append(decimal_string(cache_size as u64).as_str());
    s
}

pub open spec fn zero_cache_message() -> Seq<char> {
    "cache_size must be positive when caching is enabled"@
}

impl AdvancedPatternConfig {
    /// The options are valid when the depth window is not inverted, caching
    /// has room for an entry, and the cache holds at most ten million
    /// entries; the error names the first rule broken.
    pub fn validate(&self) -> (r: Result<(), String>)
        ensures
            r.is_ok() == (self.min_depth <= self.max_depth && !(self.cache_size == 0 && self.enable_caching)
                && self.cache_size <= 10_000_000),
            self.min_depth > self.max_depth ==> r.is_err() && r->Err_0@ == depth_range_message(
                self.min_depth,
                self.max_depth,
            ),
            self.min_depth <= self.max_depth && self.cache_size == 0 && self.enable_caching ==> r.is_err()
                && r->Err_0@ == zero_cache_message(),
            self.min_depth <= self.max_depth && !(self.cache_size == 0 && self.enable_caching)
                && self.cache_size > 10_000_000 ==> r.is_err() && r->Err_0@ == cache_size_message(
                self.cache_size,
            ),
    {
        if self.min_depth > self.max_depth {
            return Err(format_depth_range(self.min_depth, self.max_depth));
        }
        if self.cache_size == 0 && self.enable_caching {
            return Err("cache_size must be positive when caching is enabled".to_owned());
        }
        if self.cache_size > 10_000_000 {
            return Err(format_cache_size(self.cache_size));
        }
        Ok(())
    }
}

impl Default for AdvancedPatternConfig {
    /// Caching with room for 100 000 entries, incremental updates on,
    /// statistics off, depths 0 to 100.
    fn default() -> (r: Self)
        ensures
            r == (AdvancedPatternConfig {
                enable_caching: true,
                cache_size: 100_000,
                incremental_updates: true,
                collect_statistics: false,
                min_depth: 0,
                max_depth: 100,
            }),
    {
        AdvancedPatternConfig {
            enable_caching: true,
            cache_size: 100_000,
            incremental_updates: true,
            collect_statistics: false,
            min_depth: 0,
            max_depth: 100,
        }
    }
}

} // verus!
