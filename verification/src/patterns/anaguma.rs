//! The anaguma (bear-in-the-hole) castle: the king in the corner behind a
//! gold, a silver and a pawn wall, on either wing, with the silver at home
//! or advanced.

use vstd::prelude::*;
use crate::castles::{
    CastleFamily, CastlePattern, CastlePieceClass, CastlePieceDescriptor, CastlePieceRole, CastleVariant,
    RelativeOffset, mirror_all, mirror_descriptors, mirrorable, required_count,
};
use crate::types::TaperedScore;

verus! {

pub open spec fn base_shell_spec() -> Seq<CastlePieceDescriptor> {
    seq![
        CastlePieceDescriptor::make(CastlePieceClass::AnyOf(CastleFamily::Gold), -1i8, 0i8, true, 10u8, CastlePieceRole::PrimaryDefender),
        CastlePieceDescriptor::make(CastlePieceClass::AnyOf(CastleFamily::Silver), -2i8, 0i8, true, 9u8, CastlePieceRole::PrimaryDefender),
        CastlePieceDescriptor::make(CastlePieceClass::AnyOf(CastleFamily::PawnWall), -2i8, -1i8, false, 7u8, CastlePieceRole::PawnShield),
        CastlePieceDescriptor::make(CastlePieceClass::AnyOf(CastleFamily::PawnWall), -2i8, 1i8, false, 7u8, CastlePieceRole::PawnShield),
        CastlePieceDescriptor::make(CastlePieceClass::AnyOf(CastleFamily::PawnWall), -1i8, -1i8, false, 6u8, CastlePieceRole::PawnShield),
        CastlePieceDescriptor::make(CastlePieceClass::AnyOf(CastleFamily::PawnWall), -1i8, 1i8, false, 6u8, CastlePieceRole::PawnShield),
    ]
}

/// The squares of the shape, with their families, flags and weights.
pub fn base_shell() -> (r: Vec<CastlePieceDescriptor>)
    ensures
        r@ == base_shell_spec(),
{
    let mut v: Vec<CastlePieceDescriptor> = Vec::new();
    v.push(CastlePieceDescriptor::new(
        CastlePieceClass::AnyOf(CastleFamily::Gold),
        RelativeOffset::new(-1, 0),
        true,
        10,
        CastlePieceRole::PrimaryDefender,
    ));
    v.push(CastlePieceDescriptor::new(
        CastlePieceClass::AnyOf(CastleFamily::Silver),
        RelativeOffset::new(-2, 0),
        true,
        9,
        CastlePieceRole::PrimaryDefender,
    ));
    v.push(CastlePieceDescriptor::new(
        CastlePieceClass::AnyOf(CastleFamily::PawnWall),
        RelativeOffset::new(-2, -1),
        false,
        7,
        CastlePieceRole::PawnShield,
    ));
    v.push(CastlePieceDescriptor::new(
        CastlePieceClass::AnyOf(CastleFamily::PawnWall),
        RelativeOffset::new(-2, 1),
        false,
        7,
        CastlePieceRole::PawnShield,
    ));
    v.push(CastlePieceDescriptor::new(
        CastlePieceClass::AnyOf(CastleFamily::PawnWall),
        RelativeOffset::new(-1, -1),
        false,
        6,
        CastlePieceRole::PawnShield,
    ));
    v.push(CastlePieceDescriptor::new(
        CastlePieceClass::AnyOf(CastleFamily::PawnWall),
        RelativeOffset::new(-1, 1),
        false,
        6,
        CastlePieceRole::PawnShield,
    ));
    assert(v@ =~= base_shell_spec());
    v
}

pub open spec fn advanced_silver_shell_spec() -> Seq<CastlePieceDescriptor> {
    seq![
        CastlePieceDescriptor::make(CastlePieceClass::AnyOf(CastleFamily::Gold), -1i8, 0i8, true, 10u8, CastlePieceRole::PrimaryDefender),
        CastlePieceDescriptor::make(CastlePieceClass::AnyOf(CastleFamily::Silver), -1i8, -1i8, true, 9u8, CastlePieceRole::PrimaryDefender),
        CastlePieceDescriptor::make(CastlePieceClass::AnyOf(CastleFamily::PawnWall), -2i8, -1i8, false, 7u8, CastlePieceRole::PawnShield),
        CastlePieceDescriptor::make(CastlePieceClass::AnyOf(CastleFamily::PawnWall), -2i8, 0i8, false, 6u8, CastlePieceRole::PawnShield),
        CastlePieceDescriptor::make(CastlePieceClass::AnyOf(CastleFamily::PawnWall), -2i8, 1i8, false, 7u8, CastlePieceRole::PawnShield),
        CastlePieceDescriptor::make(CastlePieceClass::AnyOf(CastleFamily::PawnWall), -1i8, 1i8, false, 6u8, CastlePieceRole::PawnShield),
    ]
}

/// The squares of the shape, with their families, flags and weights.
pub fn advanced_silver_shell() -> (r: Vec<CastlePieceDescriptor>)
    ensures
        r@ == advanced_silver_shell_spec(),
{
    let mut v: Vec<CastlePieceDescriptor> = Vec::new();
    v.push(CastlePieceDescriptor::new(
        CastlePieceClass::AnyOf(CastleFamily::Gold),
        RelativeOffset::new(-1, 0),
        true,
        10,
        CastlePieceRole::PrimaryDefender,
    ));
    v.push(CastlePieceDescriptor::new(
        CastlePieceClass::AnyOf(CastleFamily::Silver),
        RelativeOffset::new(-1, -1),
        true,
        9,
        CastlePieceRole::PrimaryDefender,
    ));
    v.push(CastlePieceDescriptor::new(
        CastlePieceClass::AnyOf(CastleFamily::PawnWall),
        RelativeOffset::new(-2, -1),
        false,
        7,
        CastlePieceRole::PawnShield,
    ));
    v.push(CastlePieceDescriptor::new(
        CastlePieceClass::AnyOf(CastleFamily::PawnWall),
        RelativeOffset::new(-2, 0),
        false,
        6,
        CastlePieceRole::PawnShield,
    ));
    v.push(CastlePieceDescriptor::new(
        CastlePieceClass::AnyOf(CastleFamily::PawnWall),
        RelativeOffset::new(-2, 1),
        false,
        7,
        CastlePieceRole::PawnShield,
    ));
    v.push(CastlePieceDescriptor::new(
        CastlePieceClass::AnyOf(CastleFamily::PawnWall),
        RelativeOffset::new(-1, 1),
        false,
        6,
        CastlePieceRole::PawnShield,
    ));
    assert(v@ =~= advanced_silver_shell_spec());
    v
}

/// The Anaguma castle: four variants (each shape on both wings), its score
/// and flexibility.
pub fn get_anaguma_castle() -> (r: CastlePattern)
    ensures
        r.name@ == "Anaguma"@,
        r.variants@.len() == 4,
        r.variants@[0].name@ == "right-base"@,
        r.variants@[0].pieces@ == base_shell_spec(),
        r.variants@[1].name@ == "left-base"@,
        r.variants@[1].pieces@ == mirror_all(base_shell_spec()),
        r.variants@[2].name@ == "right-silver-forward"@,
        r.variants@[2].pieces@ == advanced_silver_shell_spec(),
        r.variants@[3].name@ == "left-silver-forward"@,
        r.variants@[3].pieces@ == mirror_all(advanced_silver_shell_spec()),
        r.score == (TaperedScore { mg: 220, eg: 40 }),
        r.flexibility == 3,
{
    let first = base_shell();
    let second = advanced_silver_shell();
    proof {
        assert(mirrorable(first@));
        assert(mirrorable(second@));
    }
    let mut variants: Vec<CastleVariant> = Vec::new();
    variants.push(CastleVariant::from_descriptors("right-base", &first));
    variants.push(CastleVariant::from_descriptors("left-base", &mirror_descriptors(&first)));
    variants.push(CastleVariant::from_descriptors("right-silver-forward", &second));
    variants.push(CastleVariant::from_descriptors("left-silver-forward", &mirror_descriptors(&second)));
    proof {
        reveal_strlit("right-base");
        reveal_strlit("left-base");
        reveal_strlit("right-silver-forward");
        reveal_strlit("left-silver-forward");
        reveal_strlit("Anaguma");
    }
    CastlePattern { name: "Anaguma", variants, score: TaperedScore::new_tapered(220, 40), flexibility: 3 }
}

/// Every variant of the Anaguma castle has at least 2 required squares.
pub proof fn law_anaguma_required_squares()
    ensures
        required_count(base_shell_spec()) >= 2,
        required_count(mirror_all(base_shell_spec())) >= 2,
        required_count(advanced_silver_shell_spec()) >= 2,
        required_count(mirror_all(advanced_silver_shell_spec())) >= 2,
{
    reveal_with_fuel(required_count, 7);
    assert(mirror_all(base_shell_spec()) =~= seq![
        CastlePieceDescriptor::make(CastlePieceClass::AnyOf(CastleFamily::Gold), -1i8, 0i8, true, 10u8, CastlePieceRole::PrimaryDefender),
        CastlePieceDescriptor::make(CastlePieceClass::AnyOf(CastleFamily::Silver), -2i8, 0i8, true, 9u8, CastlePieceRole::PrimaryDefender),
        CastlePieceDescriptor::make(CastlePieceClass::AnyOf(CastleFamily::PawnWall), -2i8, 1i8, false, 7u8, CastlePieceRole::PawnShield),
        CastlePieceDescriptor::make(CastlePieceClass::AnyOf(CastleFamily::PawnWall), -2i8, -1i8, false, 7u8, CastlePieceRole::PawnShield),
        CastlePieceDescriptor::make(CastlePieceClass::AnyOf(CastleFamily::PawnWall), -1i8, 1i8, false, 6u8, CastlePieceRole::PawnShield),
        CastlePieceDescriptor::make(CastlePieceClass::AnyOf(CastleFamily::PawnWall), -1i8, -1i8, false, 6u8, CastlePieceRole::PawnShield),
    ]);
    reveal_with_fuel(required_count, 7);
    assert(mirror_all(advanced_silver_shell_spec()) =~= seq![
        CastlePieceDescriptor::make(CastlePieceClass::AnyOf(CastleFamily::Gold), -1i8, 0i8, true, 10u8, CastlePieceRole::PrimaryDefender),
        CastlePieceDescriptor::make(CastlePieceClass::AnyOf(CastleFamily::Silver), -1i8, 1i8, true, 9u8, CastlePieceRole::PrimaryDefender),
        CastlePieceDescriptor::make(CastlePieceClass::AnyOf(CastleFamily::PawnWall), -2i8, 1i8, false, 7u8, CastlePieceRole::PawnShield),
        CastlePieceDescriptor::make(CastlePieceClass::AnyOf(CastleFamily::PawnWall), -2i8, 0i8, false, 6u8, CastlePieceRole::PawnShield),
        CastlePieceDescriptor::make(CastlePieceClass::AnyOf(CastleFamily::PawnWall), -2i8, -1i8, false, 7u8, CastlePieceRole::PawnShield),
        CastlePieceDescriptor::make(CastlePieceClass::AnyOf(CastleFamily::PawnWall), -1i8, -1i8, false, 6u8, CastlePieceRole::PawnShield),
    ]);
}

} // verus!
