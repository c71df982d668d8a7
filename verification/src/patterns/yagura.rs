//! The yagura castle: gold, silver and pawns in front of the king with
//! knight and lance behind, on either wing, at home or advanced.

use vstd::prelude::*;
use crate::castles::{
    CastleFamily, CastlePattern, CastlePieceClass, CastlePieceDescriptor, CastlePieceRole, CastleVariant,
    RelativeOffset, mirror_all, mirror_descriptors, mirrorable, required_count,
};
use crate::types::TaperedScore;

verus! {

pub open spec fn base_shell_spec() -> Seq<CastlePieceDescriptor> {
    seq![
        CastlePieceDescriptor::make(CastlePieceClass::AnyOf(CastleFamily::Gold), -1i8, -1i8, true, 10u8, CastlePieceRole::PrimaryDefender),
        CastlePieceDescriptor::make(CastlePieceClass::AnyOf(CastleFamily::Silver), -2i8, -1i8, true, 9u8, CastlePieceRole::PrimaryDefender),
        CastlePieceDescriptor::make(CastlePieceClass::AnyOf(CastleFamily::PawnWall), -2i8, -2i8, true, 7u8, CastlePieceRole::PawnShield),
        CastlePieceDescriptor::make(CastlePieceClass::AnyOf(CastleFamily::PawnWall), -1i8, -2i8, false, 6u8, CastlePieceRole::PawnShield),
        CastlePieceDescriptor::make(CastlePieceClass::AnyOf(CastleFamily::Knight), -2i8, -3i8, false, 6u8, CastlePieceRole::SecondaryDefender),
        CastlePieceDescriptor::make(CastlePieceClass::AnyOf(CastleFamily::Lance), 0i8, -3i8, false, 5u8, CastlePieceRole::SecondaryDefender),
    ]
}

/// The squares of the shape, with their families, flags and weights.
pub fn base_shell() -> (r: Vec<CastlePieceDescriptor>)
    ensures
        r@ == base_shell_spec(),
{
    let mut v: Vec<CastlePieceDescriptor> = Vec::new();
    v.push(CastlePieceDescriptor::new(
        CastlePieceClass::AnyOf(CastleFamily::Gold),
        RelativeOffset::new(-1, -1),
        true,
        10,
        CastlePieceRole::PrimaryDefender,
    ));
    v.push(CastlePieceDescriptor::new(
        CastlePieceClass::AnyOf(CastleFamily::Silver),
        RelativeOffset::new(-2, -1),
        true,
        9,
        CastlePieceRole::PrimaryDefender,
    ));
    v.push(CastlePieceDescriptor::new(
        CastlePieceClass::AnyOf(CastleFamily::PawnWall),
        RelativeOffset::new(-2, -2),
        true,
        7,
        CastlePieceRole::PawnShield,
    ));
    v.push(CastlePieceDescriptor::new(
        CastlePieceClass::AnyOf(CastleFamily::PawnWall),
        RelativeOffset::new(-1, -2),
        false,
        6,
        CastlePieceRole::PawnShield,
    ));
    v.push(CastlePieceDescriptor::new(
        CastlePieceClass::AnyOf(CastleFamily::Knight),
        RelativeOffset::new(-2, -3),
        false,
        6,
        CastlePieceRole::SecondaryDefender,
    ));
    v.push(CastlePieceDescriptor::new(
        CastlePieceClass::AnyOf(CastleFamily::Lance),
        RelativeOffset::new(0, -3),
        false,
        5,
        CastlePieceRole::SecondaryDefender,
    ));
    assert(v@ =~= base_shell_spec());
    v
}

pub open spec fn advanced_shell_spec() -> Seq<CastlePieceDescriptor> {
    seq![
        CastlePieceDescriptor::make(CastlePieceClass::AnyOf(CastleFamily::Gold), -1i8, -1i8, true, 10u8, CastlePieceRole::PrimaryDefender),
        CastlePieceDescriptor::make(CastlePieceClass::AnyOf(CastleFamily::Silver), -1i8, -2i8, true, 9u8, CastlePieceRole::PrimaryDefender),
        CastlePieceDescriptor::make(CastlePieceClass::AnyOf(CastleFamily::PawnWall), -2i8, -2i8, true, 7u8, CastlePieceRole::PawnShield),
        CastlePieceDescriptor::make(CastlePieceClass::AnyOf(CastleFamily::PawnWall), -3i8, -2i8, false, 6u8, CastlePieceRole::PawnShield),
        CastlePieceDescriptor::make(CastlePieceClass::AnyOf(CastleFamily::Knight), -1i8, -3i8, false, 6u8, CastlePieceRole::SecondaryDefender),
        CastlePieceDescriptor::make(CastlePieceClass::AnyOf(CastleFamily::Lance), 0i8, -2i8, false, 5u8, CastlePieceRole::SecondaryDefender),
    ]
}

/// The squares of the shape, with their families, flags and weights.
pub fn advanced_shell() -> (r: Vec<CastlePieceDescriptor>)
    ensures
        r@ == advanced_shell_spec(),
{
    let mut v: Vec<CastlePieceDescriptor> = Vec::new();
    v.push(CastlePieceDescriptor::new(
        CastlePieceClass::AnyOf(CastleFamily::Gold),
        RelativeOffset::new(-1, -1),
        true,
        10,
        CastlePieceRole::PrimaryDefender,
    ));
    v.push(CastlePieceDescriptor::new(
        CastlePieceClass::AnyOf(CastleFamily::Silver),
        RelativeOffset::new(-1, -2),
        true,
        9,
        CastlePieceRole::PrimaryDefender,
    ));
    v.push(CastlePieceDescriptor::new(
        CastlePieceClass::AnyOf(CastleFamily::PawnWall),
        RelativeOffset::new(-2, -2),
        true,
        7,
        CastlePieceRole::PawnShield,
    ));
    v.push(CastlePieceDescriptor::new(
        CastlePieceClass::AnyOf(CastleFamily::PawnWall),
        RelativeOffset::new(-3, -2),
        false,
        6,
        CastlePieceRole::PawnShield,
    ));
    v.push(CastlePieceDescriptor::new(
        CastlePieceClass::AnyOf(CastleFamily::Knight),
        RelativeOffset::new(-1, -3),
        false,
        6,
        CastlePieceRole::SecondaryDefender,
    ));
    v.push(CastlePieceDescriptor::new(
        CastlePieceClass::AnyOf(CastleFamily::Lance),
        RelativeOffset::new(0, -2),
        false,
        5,
        CastlePieceRole::SecondaryDefender,
    ));
    assert(v@ =~= advanced_shell_spec());
    v
}

/// The Yagura castle: four variants (each shape on both wings), its score
/// and flexibility.
pub fn get_yagura_castle() -> (r: CastlePattern)
    ensures
        r.name@ == "Yagura"@,
        r.variants@.len() == 4,
        r.variants@[0].name@ == "left-base"@,
        r.variants@[0].pieces@ == base_shell_spec(),
        r.variants@[1].name@ == "right-base"@,
        r.variants@[1].pieces@ == mirror_all(base_shell_spec()),
        r.variants@[2].name@ == "left-advanced"@,
        r.variants@[2].pieces@ == advanced_shell_spec(),
        r.variants@[3].name@ == "right-advanced"@,
        r.variants@[3].pieces@ == mirror_all(advanced_shell_spec()),
        r.score == (TaperedScore { mg: 160, eg: 80 }),
        r.flexibility == 2,
{
    let first = base_shell();
    let second = advanced_shell();
    proof {
        assert(mirrorable(first@));
        assert(mirrorable(second@));
    }
    let mut variants: Vec<CastleVariant> = Vec::new();
    variants.push(CastleVariant::from_descriptors("left-base", &first));
    variants.push(CastleVariant::from_descriptors("right-base", &mirror_descriptors(&first)));
    variants.push(CastleVariant::from_descriptors("left-advanced", &second));
    variants.push(CastleVariant::from_descriptors("right-advanced", &mirror_descriptors(&second)));
    proof {
        reveal_strlit("left-base");
        reveal_strlit("right-base");
        reveal_strlit("left-advanced");
        reveal_strlit("right-advanced");
        reveal_strlit("Yagura");
    }
    CastlePattern { name: "Yagura", variants, score: TaperedScore::new_tapered(160, 80), flexibility: 2 }
}

/// Every variant of the Yagura castle has at least 3 required squares.
pub proof fn law_yagura_required_squares()
    ensures
        required_count(base_shell_spec()) >= 3,
        required_count(mirror_all(base_shell_spec())) >= 3,
        required_count(advanced_shell_spec()) >= 3,
        required_count(mirror_all(advanced_shell_spec())) >= 3,
{
    reveal_with_fuel(required_count, 7);
    assert(mirror_all(base_shell_spec()) =~= seq![
        CastlePieceDescriptor::make(CastlePieceClass::AnyOf(CastleFamily::Gold), -1i8, 1i8, true, 10u8, CastlePieceRole::PrimaryDefender),
        CastlePieceDescriptor::make(CastlePieceClass::AnyOf(CastleFamily::Silver), -2i8, 1i8, true, 9u8, CastlePieceRole::PrimaryDefender),
        CastlePieceDescriptor::make(CastlePieceClass::AnyOf(CastleFamily::PawnWall), -2i8, 2i8, true, 7u8, CastlePieceRole::PawnShield),
        CastlePieceDescriptor::make(CastlePieceClass::AnyOf(CastleFamily::PawnWall), -1i8, 2i8, false, 6u8, CastlePieceRole::PawnShield),
        CastlePieceDescriptor::make(CastlePieceClass::AnyOf(CastleFamily::Knight), -2i8, 3i8, false, 6u8, CastlePieceRole::SecondaryDefender),
        CastlePieceDescriptor::make(CastlePieceClass::AnyOf(CastleFamily::Lance), 0i8, 3i8, false, 5u8, CastlePieceRole::SecondaryDefender),
    ]);
    reveal_with_fuel(required_count, 7);
    assert(mirror_all(advanced_shell_spec()) =~= seq![
        CastlePieceDescriptor::make(CastlePieceClass::AnyOf(CastleFamily::Gold), -1i8, 1i8, true, 10u8, CastlePieceRole::PrimaryDefender),
        CastlePieceDescriptor::make(CastlePieceClass::AnyOf(CastleFamily::Silver), -1i8, 2i8, true, 9u8, CastlePieceRole::PrimaryDefender),
        CastlePieceDescriptor::make(CastlePieceClass::AnyOf(CastleFamily::PawnWall), -2i8, 2i8, true, 7u8, CastlePieceRole::PawnShield),
        CastlePieceDescriptor::make(CastlePieceClass::AnyOf(CastleFamily::PawnWall), -3i8, 2i8, false, 6u8, CastlePieceRole::PawnShield),
        CastlePieceDescriptor::make(CastlePieceClass::AnyOf(CastleFamily::Knight), -1i8, 3i8, false, 6u8, CastlePieceRole::SecondaryDefender),
        CastlePieceDescriptor::make(CastlePieceClass::AnyOf(CastleFamily::Lance), 0i8, 2i8, false, 5u8, CastlePieceRole::SecondaryDefender),
    ]);
}

} // verus!
