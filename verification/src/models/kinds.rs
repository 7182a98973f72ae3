use vstd::prelude::*;

verus! {

/// The kind of a post on the archive.
#[derive(Clone, Debug, PartialEq, Eq, Structural)]
pub enum PostType {
    Plugin,
    Module,
    Song,
    Cover,
    Ui,
    Other,
}

/// The number that identifies each post kind.
pub open spec fn post_type_code(t: PostType) -> i32 {
    match t {
        PostType::Plugin => 0,
        PostType::Module => 1,
        PostType::Song => 2,
        PostType::Cover => 3,
        PostType::Ui => 4,
        PostType::Other => 5,
    }
}

impl PostType {
    /// The number that identifies this kind of post.
    pub fn code(&self) -> (c: i32)
        ensures
            c == post_type_code(*self),
    {
        match self {
            PostType::Plugin => 0,
            PostType::Module => 1,
            PostType::Song => 2,
            PostType::Cover => 3,
            PostType::Ui => 4,
            PostType::Other => 5,
        }
    }
}

/// What an id reservation on the archive is for: a song (PV), a module, a
/// customize item, or the costume slots of one of the characters.
#[derive(Clone, Copy, Debug, PartialEq, Eq, Structural, PartialOrd, Ord)]
pub enum ReservationType {
    Song,
    Module,
    CstmItem,
    CosMiku,
    CosRin,
    CosLen,
    CosLuka,
    CosNeru,
    CosHaku,
    CosKaito,
    CosMeiko,
    CosSakine,
    CosTeto,
}

/// The number that identifies each reservation kind; the kinds are ordered by it.
pub open spec fn reservation_type_code(t: ReservationType) -> i32 {
    match t {
        ReservationType::Song => 0,
        ReservationType::Module => 1,
        ReservationType::CstmItem => 2,
        ReservationType::CosMiku => 10,
        ReservationType::CosRin => 11,
        ReservationType::CosLen => 12,
        ReservationType::CosLuka => 13,
        ReservationType::CosNeru => 14,
        ReservationType::CosHaku => 15,
        ReservationType::CosKaito => 16,
        ReservationType::CosMeiko => 17,
        ReservationType::CosSakine => 18,
        ReservationType::CosTeto => 19,
    }
}

impl ReservationType {
    /// The number that identifies this kind of reservation.
    pub fn code(&self) -> (c: i32)
        ensures
            c == reservation_type_code(*self),
    {
        match self {
            ReservationType::Song => 0,
            ReservationType::Module => 1,
            ReservationType::CstmItem => 2,
            ReservationType::CosMiku => 10,
            ReservationType::CosRin => 11,
            ReservationType::CosLen => 12,
            ReservationType::CosLuka => 13,
            ReservationType::CosNeru => 14,
            ReservationType::CosHaku => 15,
            ReservationType::CosKaito => 16,
            ReservationType::CosMeiko => 17,
            ReservationType::CosSakine => 18,
            ReservationType::CosTeto => 19,
        }
    }
}

/// Distinct kinds have distinct numbers.
pub proof fn lemma_codes_identify_kinds(a: PostType, b: PostType, c: ReservationType, d: ReservationType)
    ensures
        post_type_code(a) == post_type_code(b) ==> a == b,
        reservation_type_code(c) == reservation_type_code(d) ==> c == d,
{
}

} // verus!
