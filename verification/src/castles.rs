//! Castle shapes: pieces of given families at offsets from the king, each
//! required or optional with a weight, grouped into named variants.

use vstd::prelude::*;
use crate::types::{PieceType, TaperedScore};

verus! {

/// Families of pieces that can fill a castle square.
#[derive(Debug, Clone, Copy, PartialEq, Eq, Structural)]
pub enum CastleFamily {
    /// Gold and the pieces that move like gold.
    Gold,
    /// Silver, promoted or not.
    Silver,
    /// Pawns and pawn-like wall pieces.
    PawnWall,
    /// Knight, promoted or not.
    Knight,
    /// Lance, promoted or not.
    Lance,
}

/// The kinds of a family.
pub open spec fn in_family(f: CastleFamily, pt: PieceType) -> bool {
    match f {
        CastleFamily::Gold => pt == PieceType::Gold || pt == PieceType::PromotedPawn || pt
            == PieceType::PromotedLance || pt == PieceType::PromotedKnight || pt == PieceType::PromotedSilver,
        CastleFamily::Silver => pt == PieceType::Silver || pt == PieceType::PromotedSilver,
        CastleFamily::PawnWall => pt == PieceType::Pawn || pt == PieceType::PromotedPawn || pt == PieceType::Silver
            || pt == PieceType::Gold,
        CastleFamily::Knight => pt == PieceType::Knight || pt == PieceType::PromotedKnight,
        CastleFamily::Lance => pt == PieceType::Lance || pt == PieceType::PromotedLance,
    }
}

/// Whether a kind belongs to a family.
pub fn family_contains(f: CastleFamily, pt: PieceType) -> (r: bool)
    ensures
        r == in_family(f, pt),
{
    match f {
        CastleFamily::Gold => match pt {
            PieceType::Gold | PieceType::PromotedPawn | PieceType::PromotedLance | PieceType::PromotedKnight
            | PieceType::PromotedSilver => true,
            _ => false,
        },
        CastleFamily::Silver => match pt {
            PieceType::Silver | PieceType::PromotedSilver => true,
            _ => false,
        },
        CastleFamily::PawnWall => match pt {
            PieceType::Pawn | PieceType::PromotedPawn | PieceType::Silver | PieceType::Gold => true,
            _ => false,
        },
        CastleFamily::Knight => match pt {
            PieceType::Knight | PieceType::PromotedKnight => true,
            _ => false,
        },
        CastleFamily::Lance => match pt {
            PieceType::Lance | PieceType::PromotedLance => true,
            _ => false,
        },
    }
}

/// Which pieces may stand on a castle square.
#[derive(Debug, Clone, Copy, PartialEq, Eq, Structural)]
pub enum CastlePieceClass {
    AnyOf(CastleFamily),
}

/// What a castle square contributes.
#[derive(Debug, Clone, Copy, PartialEq, Eq, Structural)]
pub enum CastlePieceRole {
    PrimaryDefender,
    SecondaryDefender,
    PawnShield,
}

/// Offset from the king, in ranks toward the enemy (negative) and files.
#[derive(Debug, Clone, Copy, PartialEq, Eq, Structural)]
pub struct RelativeOffset {
    pub rank: i8,
    pub file: i8,
}

impl RelativeOffset {
    pub fn new(rank: i8, file: i8) -> (r: Self)
        ensures
            r.rank == rank,
            r.file == file,
    {
        RelativeOffset { rank, file }
    }
}

/// One square of a castle shape.
#[derive(Debug, Clone, Copy, PartialEq, Eq, Structural)]
pub struct CastlePieceDescriptor {
    pub class: CastlePieceClass,
    pub offset: RelativeOffset,
    pub required: bool,
    pub weight: u8,
    pub role: CastlePieceRole,
}

impl CastlePieceDescriptor {
    pub open spec fn make(class: CastlePieceClass, rank: i8, file: i8, required: bool, weight: u8, role: CastlePieceRole) -> Self {
        CastlePieceDescriptor { class, offset: RelativeOffset { rank, file }, required, weight, role }
    }

    pub fn new(class: CastlePieceClass, offset: RelativeOffset, required: bool, weight: u8, role: CastlePieceRole) -> (r: Self)
        ensures
            r == (CastlePieceDescriptor { class, offset, required, weight, role }),
    {
        CastlePieceDescriptor { class, offset, required, weight, role }
    }

    /// The same square seen on the other wing: the file offset negated.
    pub open spec fn mirrored(self) -> Self
        recommends
            self.offset.file > i8::MIN,
    {
        CastlePieceDescriptor { offset: RelativeOffset { rank: self.offset.rank, file: (-self.offset.file) as i8 }, ..self }
    }
}

/// The shape for the other wing.
pub open spec fn mirror_all(d: Seq<CastlePieceDescriptor>) -> Seq<CastlePieceDescriptor> {
    d.map_values(|x: CastlePieceDescriptor| x.mirrored())
}

/// Every file offset can be negated.
pub open spec fn mirrorable(d: Seq<CastlePieceDescriptor>) -> bool {
    forall|k: int| 0 <= k < d.len() ==> (#[trigger] d[k]).offset.file > i8::MIN
}

/// The descriptors for the other wing.
pub fn mirror_descriptors(descriptors: &Vec<CastlePieceDescriptor>) -> (r: Vec<CastlePieceDescriptor>)
    requires
        mirrorable(descriptors@),
    ensures
        r@ == mirror_all(descriptors@),
{
    let mut out: Vec<CastlePieceDescriptor> = Vec::with_capacity(descriptors.len());
    let mut k: usize = 0;
    while k < descriptors.len()
        invariant
            k <= descriptors.len(),
            mirrorable(descriptors@),
            out@ == mirror_all(descriptors@.take(k as int)),
        decreases descriptors.len() - k,
    {
        let d = descriptors[k];
        let m = CastlePieceDescriptor {
            offset: RelativeOffset { rank: d.offset.rank, file: -d.offset.file },
            ..d
        };
        out.push(m);
        assert(mirror_all(descriptors@.take(k as int + 1)) =~= descriptors@.take(
            k as int,
        ).map_values(|d: CastlePieceDescriptor| d.mirrored()).push(d.mirrored()));
        k += 1;
    }
    assert(descriptors@.take(descriptors.len() as int) =~= descriptors@);
    out
}

/// Mirroring keeps every rank offset and flag and negates every file
/// offset; mirroring twice gives the shape back.
pub proof fn law_mirror(d: Seq<CastlePieceDescriptor>)
    requires
        mirrorable(d),
        forall|k: int| 0 <= k < d.len() ==> (#[trigger] d[k]).offset.file < i8::MAX,
    ensures
        forall|k: int|
            0 <= k < d.len() ==> {
                let m = #[trigger] mirror_all(d)[k];
                &&& m.offset.rank == d[k].offset.rank
                &&& m.offset.file == -d[k].offset.file
                &&& m.required == d[k].required
                &&& m.weight == d[k].weight
                &&& m.class == d[k].class
                &&& m.role == d[k].role
            },
        mirrorable(mirror_all(d)),
        mirror_all(mirror_all(d)) == d,
{
    let m = mirror_all(d);
    assert forall|k: int| 0 <= k < m.len() implies (#[trigger] m[k]).offset.file > i8::MIN by {
        assert(d[k].offset.file < i8::MAX);
    }
    assert(mirror_all(m) =~= d);
}

/// A named arrangement of castle squares.
#[derive(Debug, Clone)]
pub struct CastleVariant {
    pub name: &'static str,
    pub pieces: Vec<CastlePieceDescriptor>,
}

impl CastleVariant {
    /// A variant holding a copy of the descriptors.
    pub fn from_descriptors(name: &'static str, descriptors: &Vec<CastlePieceDescriptor>) -> (r: Self)
        ensures
            r.name == name,
            r.pieces@ == descriptors@,
    {
        let mut pieces: Vec<CastlePieceDescriptor> = Vec::with_capacity(descriptors.len());
        let mut k: usize = 0;
        while k < descriptors.len()
            invariant
                k <= descriptors.len(),
                pieces@ == descriptors@.take(k as int),
            decreases descriptors.len() - k,
        {
            pieces.push(descriptors[k]);
            assert(descriptors@.take(k as int + 1) =~= descriptors@.take(k as int).push(descriptors@[k as int]));
            k += 1;
        }
        assert(descriptors@.take(descriptors.len() as int) =~= descriptors@);
        CastleVariant { name, pieces }
    }
}

/// A castle: its variants, its score and how flexible it is.
#[derive(Debug, Clone)]
pub struct CastlePattern {
    pub name: &'static str,
    pub variants: Vec<CastleVariant>,
    pub score: TaperedScore,
    pub flexibility: u8,
}

/// Number of required squares of a shape.
pub open spec fn required_count(d: Seq<CastlePieceDescriptor>) -> int
    decreases d.len(),
{
    if d.len() == 0 {
        0
    } else {
        required_count(d.drop_last()) + if d.last().required {
            1int
        } else {
            0int
        }
    }
}

} // verus!
