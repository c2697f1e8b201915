use vstd::prelude::*;
use crate::text::str_eq;

verus! {

/// The two categories that scoring tables are published for.
#[derive(Clone, Copy, Debug, PartialEq, Eq, Hash, Structural)]
pub enum Gender {
    Male,
    Female,
}

/// The other gender.
pub open spec fn other_gender(g: Gender) -> Gender {
    match g {
        Gender::Male => Gender::Female,
        Gender::Female => Gender::Male,
    }
}

/// The codename of a gender, as it appears in table names.
pub open spec fn gender_codename(g: Gender) -> Seq<char> {
    match g {
        Gender::Female => "FEMALE"@,
        Gender::Male => "MALE"@,
    }
}

/// The gender that a codename (or its one-letter short form) denotes.
pub open spec fn gender_of_codename(s: Seq<char>) -> Option<Gender> {
    if s == "FEMALE"@ || s == "W"@ {
        Some(Gender::Female)
    } else if s == "MALE"@ || s == "M"@ {
        Some(Gender::Male)
    } else {
        None
    }
}

impl Gender {
    pub fn to_codename(&self) -> (r: &'static str)
        ensures
            r@ == gender_codename(*self),
    {
        match self {
            Gender::Female => "FEMALE",
            Gender::Male => "MALE",
        }
    }

    pub fn from_codename(code: &str) -> (r: Option<Gender>)
        ensures
            r == gender_of_codename(code@),
    {
        if str_eq(code, "FEMALE") || str_eq(code, "W") {
            Some(Gender::Female)
        } else if str_eq(code, "MALE") || str_eq(code, "M") {
            Some(Gender::Male)
        } else {
            None
        }
    }
}

/// Reading back the codename of a gender gives that gender.
pub proof fn lemma_gender_codename_round_trip(g: Gender)
    ensures
        gender_of_codename(gender_codename(g)) == Some(g),
{
    reveal_strlit("FEMALE");
    reveal_strlit("MALE");
    reveal_strlit("W");
    reveal_strlit("M");
    assert("MALE"@.len() == 4 && "FEMALE"@.len() == 6 && "W"@.len() == 1 && "M"@.len() == 1);
    assert("MALE"@[0] != "W"@[0]);
}

} // verus!
