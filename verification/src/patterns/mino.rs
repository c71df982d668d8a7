//! The mino castle: gold and silver diagonally beside the king behind a
//! pawn wall, on either wing, low or high.

use vstd::prelude::*;
use crate::castles::{
    CastleFamily, CastlePattern, CastlePieceClass, CastlePieceDescriptor, CastlePieceRole, CastleVariant,
    RelativeOffset, mirror_all, mirror_descriptors, mirrorable, required_count,
};
use crate::types::TaperedScore;

verus! {

pub open spec fn base_shell_spec() -> Seq<CastlePieceDescriptor> {
    seq![
        CastlePieceDescriptor::make(CastlePieceClass::AnyOf(CastleFamily::Gold), -1i8, -1i8, true, 10u8, CastlePieceRole::PrimaryDefender),
        CastlePieceDescriptor::make(CastlePieceClass::AnyOf(CastleFamily::Silver), -2i8, -1i8, true, 9u8, CastlePieceRole::PrimaryDefender),
        CastlePieceDescriptor::make(CastlePieceClass::AnyOf(CastleFamily::PawnWall), -2i8, -2i8, false, 6u8, CastlePieceRole::PawnShield),
        CastlePieceDescriptor::make(CastlePieceClass::AnyOf(CastleFamily::PawnWall), -1i8, -2i8, false, 6u8, CastlePieceRole::PawnShield),
        CastlePieceDescriptor::make(CastlePieceClass::AnyOf(CastleFamily::PawnWall), 0i8, -2i8, false, 6u8, CastlePieceRole::PawnShield),
    ]
}

/// The squares of the shape, with their families, flags and weights.
pub fn base_shell() -> (r: Vec<CastlePieceDescriptor>)
    ensures
        r@ == base_shell_spec(),
{
    let mut v: Vec<CastlePieceDescriptor> = Vec::new();
    v.push(CastlePieceDescriptor::new(
        CastlePieceClass::AnyOf(CastleFamily::Gold),
        RelativeOffset::new(-1, -1),
        true,
        10,
        CastlePieceRole::PrimaryDefender,
    ));
    v.push(CastlePieceDescriptor::new(
        CastlePieceClass::AnyOf(CastleFamily::Silver),
        RelativeOffset::new(-2, -1),
        true,
        9,
        CastlePieceRole::PrimaryDefender,
    ));
    v.push(CastlePieceDescriptor::new(
        CastlePieceClass::AnyOf(CastleFamily::PawnWall),
        RelativeOffset::new(-2, -2),
        false,
        6,
        CastlePieceRole::PawnShield,
    ));
    v.push(CastlePieceDescriptor::new(
        CastlePieceClass::AnyOf(CastleFamily::PawnWall),
        RelativeOffset::new(-1, -2),
        false,
        6,
        CastlePieceRole::PawnShield,
    ));
    v.push(CastlePieceDescriptor::new(
        CastlePieceClass::AnyOf(CastleFamily::PawnWall),
        RelativeOffset::new(0, -2),
        false,
        6,
        CastlePieceRole::PawnShield,
    ));
    assert(v@ =~= base_shell_spec());
    v
}

pub open spec fn high_mino_shell_spec() -> Seq<CastlePieceDescriptor> {
    seq![
        CastlePieceDescriptor::make(CastlePieceClass::AnyOf(CastleFamily::Gold), 0i8, -1i8, true, 10u8, CastlePieceRole::PrimaryDefender),
        CastlePieceDescriptor::make(CastlePieceClass::AnyOf(CastleFamily::Silver), -1i8, -2i8, true, 9u8, CastlePieceRole::PrimaryDefender),
        CastlePieceDescriptor::make(CastlePieceClass::AnyOf(CastleFamily::PawnWall), -2i8, -2i8, false, 6u8, CastlePieceRole::PawnShield),
        CastlePieceDescriptor::make(CastlePieceClass::AnyOf(CastleFamily::PawnWall), -1i8, -1i8, false, 6u8, CastlePieceRole::PawnShield),
        CastlePieceDescriptor::make(CastlePieceClass::AnyOf(CastleFamily::PawnWall), 0i8, -2i8, false, 6u8, CastlePieceRole::PawnShield),
    ]
}

/// The squares of the shape, with their families, flags and weights.
pub fn high_mino_shell() -> (r: Vec<CastlePieceDescriptor>)
    ensures
        r@ == high_mino_shell_spec(),
{
    let mut v: Vec<CastlePieceDescriptor> = Vec::new();
    v.push(CastlePieceDescriptor::new(
        CastlePieceClass::AnyOf(CastleFamily::Gold),
        RelativeOffset::new(0, -1),
        true,
        10,
        CastlePieceRole::PrimaryDefender,
    ));
    v.push(CastlePieceDescriptor::new(
        CastlePieceClass::AnyOf(CastleFamily::Silver),
        RelativeOffset::new(-1, -2),
        true,
        9,
        CastlePieceRole::PrimaryDefender,
    ));
    v.push(CastlePieceDescriptor::new(
        CastlePieceClass::AnyOf(CastleFamily::PawnWall),
        RelativeOffset::new(-2, -2),
        false,
        6,
        CastlePieceRole::PawnShield,
    ));
    v.push(CastlePieceDescriptor::new(
        CastlePieceClass::AnyOf(CastleFamily::PawnWall),
        RelativeOffset::new(-1, -1),
        false,
        6,
        CastlePieceRole::PawnShield,
    ));
    v.push(CastlePieceDescriptor::new(
        CastlePieceClass::AnyOf(CastleFamily::PawnWall),
        RelativeOffset::new(0, -2),
        false,
        6,
        CastlePieceRole::PawnShield,
    ));
    assert(v@ =~= high_mino_shell_spec());
    v
}

/// The Mino castle: four variants (each shape on both wings), its score
/// and flexibility.
pub fn get_mino_castle() -> (r: CastlePattern)
    ensures
        r.name@ == "Mino"@,
        r.variants@.len() == 4,
        r.variants@[0].name@ == "right-base"@,
        r.variants@[0].pieces@ == base_shell_spec(),
        r.variants@[1].name@ == "left-base"@,
        r.variants@[1].pieces@ == mirror_all(base_shell_spec()),
        r.variants@[2].name@ == "right-high"@,
        r.variants@[2].pieces@ == high_mino_shell_spec(),
        r.variants@[3].name@ == "left-high"@,
        r.variants@[3].pieces@ == mirror_all(high_mino_shell_spec()),
        r.score == (TaperedScore { mg: 180, eg: 60 }),
        r.flexibility == 2,
{
    let first = base_shell();
    let second = high_mino_shell();
    proof {
        assert(mirrorable(first@));
        assert(mirrorable(second@));
    }
    let mut variants: Vec<CastleVariant> = Vec::new();
    variants.push(CastleVariant::from_descriptors("right-base", &first));
    variants.push(CastleVariant::from_descriptors("left-base", &mirror_descriptors(&first)));
    variants.push(CastleVariant::from_descriptors("right-high", &second));
    variants.push(CastleVariant::from_descriptors("left-high", &mirror_descriptors(&second)));
    proof {
        reveal_strlit("right-base");
        reveal_strlit("left-base");
        reveal_strlit("right-high");
        reveal_strlit("left-high");
        reveal_strlit("Mino");
    }
    CastlePattern { name: "Mino", variants, score: TaperedScore::new_tapered(180, 60), flexibility: 2 }
}

/// Every variant of the Mino castle has at least 2 required squares.
pub proof fn law_mino_required_squares()
    ensures
        required_count(base_shell_spec()) >= 2,
        required_count(mirror_all(base_shell_spec())) >= 2,
        required_count(high_mino_shell_spec()) >= 2,
        required_count(mirror_all(high_mino_shell_spec())) >= 2,
{
    reveal_with_fuel(required_count, 6);
    assert(mirror_all(base_shell_spec()) =~= seq![
        CastlePieceDescriptor::make(CastlePieceClass::AnyOf(CastleFamily::Gold), -1i8, 1i8, true, 10u8, CastlePieceRole::PrimaryDefender),
        CastlePieceDescriptor::make(CastlePieceClass::AnyOf(CastleFamily::Silver), -2i8, 1i8, true, 9u8, CastlePieceRole::PrimaryDefender),
        CastlePieceDescriptor::make(CastlePieceClass::AnyOf(CastleFamily::PawnWall), -2i8, 2i8, false, 6u8, CastlePieceRole::PawnShield),
        CastlePieceDescriptor::make(CastlePieceClass::AnyOf(CastleFamily::PawnWall), -1i8, 2i8, false, 6u8, CastlePieceRole::PawnShield),
        CastlePieceDescriptor::make(CastlePieceClass::AnyOf(CastleFamily::PawnWall), 0i8, 2i8, false, 6u8, CastlePieceRole::PawnShield),
    ]);
    reveal_with_fuel(required_count, 6);
    assert(mirror_all(high_mino_shell_spec()) =~= seq![
        CastlePieceDescriptor::make(CastlePieceClass::AnyOf(CastleFamily::Gold), 0i8, 1i8, true, 10u8, CastlePieceRole::PrimaryDefender),
        CastlePieceDescriptor::make(CastlePieceClass::AnyOf(CastleFamily::Silver), -1i8, 2i8, true, 9u8, CastlePieceRole::PrimaryDefender),
        CastlePieceDescriptor::make(CastlePieceClass::AnyOf(CastleFamily::PawnWall), -2i8, 2i8, false, 6u8, CastlePieceRole::PawnShield),
        CastlePieceDescriptor::make(CastlePieceClass::AnyOf(CastleFamily::PawnWall), -1i8, 1i8, false, 6u8, CastlePieceRole::PawnShield),
        CastlePieceDescriptor::make(CastlePieceClass::AnyOf(CastleFamily::PawnWall), 0i8, 2i8, false, 6u8, CastlePieceRole::PawnShield),
    ]);
}

} // verus!
