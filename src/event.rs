use vstd::prelude::*;
use crate::gender::{other_gender, Gender};
use crate::text::{chars_match, chars_of};

verus! {

/// The outdoor competition events that scoring tables exist for.
#[derive(Clone, Copy, Debug, PartialEq, Eq, Hash, Structural)]
pub enum OutdoorEvent {
    // Non-running events
    HighJump,
    LongJump,
    TripleJump,
    DiscusThrow,
    HammerThrow,
    JavelinThrow,
    PoleVault,
    ShortPut,

    /// This event only has scoring tables for female contestants
    Heptathlon,
    /// This event only has scoring tables for male contestants
    Decathlon,

    // Sprint events
    Track100m,
    Track200m,
    Track300m,
    Track400m,
    Track500m,

    // Sprint events with hurdles
    /// This event only has scoring tables for female contestants
    Track100mHurdles,
    /// This event only has scoring tables for male contestants
    Track110mHurdles,
    Track400mHurdles,
    Track2kmSteeplechase,
    Track3kmSteeplechase,

    // Relay sprint events
    Track4x100mRelay,
    Track4x200mRelay,
    Track4x400mRelay,

    // Medium-distance events
    Track600m,
    Track800m,
    Track1000m,
    Track1500m,
    Track1Mile,
    Track2Miles,
    Track2000m,
    Track3000m,
    Track5000m,
    Track10000m,

    // Long-distance events (non-track)
    Road5km,
    Road10km,
    Road15km,
    Road20km,
    Road25km,
    Road30km,
    Road100km,
    Road10Miles,
    HalfMarathon,
    Marathon,

    // The scoring tables do not tell road walks from track walks.
    // Walking events (road)
    Walk3km,
    Walk5km,
    Walk10km,
    Walk15km,
    Walk20km,
    Walk30km,
    Walk35km,
    Walk50km,

    // Walking events (track)
    Walk3kmTrack,
    Walk5kmTrack,
    Walk10kmTrack,
    Walk15kmTrack,
    Walk20kmTrack,
    Walk30kmTrack,
    Walk35kmTrack,
    Walk50kmTrack,
}

/// Whether a larger or a smaller raw performance is the better one.
#[derive(Clone, Copy, Debug, PartialEq, Eq, Hash, Structural)]
pub enum EventCompareType {
    GreaterIsBetter,
    SmallerIsBetter,
}

/// The short name of an event, as it appears in table names.
pub open spec fn event_codename(e: OutdoorEvent) -> Seq<char> {
    match e {
        OutdoorEvent::HighJump => "HJ"@,
        OutdoorEvent::LongJump => "LJ"@,
        OutdoorEvent::TripleJump => "TJ"@,
        OutdoorEvent::DiscusThrow => "DT"@,
        OutdoorEvent::HammerThrow => "HT"@,
        OutdoorEvent::JavelinThrow => "JT"@,
        OutdoorEvent::PoleVault => "PV"@,
        OutdoorEvent::ShortPut => "SP"@,
        OutdoorEvent::Heptathlon => "Heptathlon"@,
        OutdoorEvent::Decathlon => "Decathlon"@,
        OutdoorEvent::Track100m => "100m"@,
        OutdoorEvent::Track200m => "200m"@,
        OutdoorEvent::Track300m => "300m"@,
        OutdoorEvent::Track400m => "400m"@,
        OutdoorEvent::Track500m => "500m"@,
        OutdoorEvent::Track100mHurdles => "100mH"@,
        OutdoorEvent::Track110mHurdles => "110mH"@,
        OutdoorEvent::Track400mHurdles => "400mH"@,
        OutdoorEvent::Track2kmSteeplechase => "2000m SC"@,
        OutdoorEvent::Track3kmSteeplechase => "3000m SC"@,
        OutdoorEvent::Track4x100mRelay => "4x100m"@,
        OutdoorEvent::Track4x200mRelay => "4x200m"@,
        OutdoorEvent::Track4x400mRelay => "4x400m"@,
        OutdoorEvent::Track600m => "600m"@,
        OutdoorEvent::Track800m => "800m"@,
        OutdoorEvent::Track1000m => "1000m"@,
        OutdoorEvent::Track1500m => "1500m"@,
        OutdoorEvent::Track1Mile => "Mile"@,
        OutdoorEvent::Track2Miles => "2 Miles"@,
        OutdoorEvent::Track2000m => "2000m"@,
        OutdoorEvent::Track3000m => "3000m"@,
        OutdoorEvent::Track5000m => "5000m"@,
        OutdoorEvent::Track10000m => "10000m"@,
        OutdoorEvent::Road5km => "5 km"@,
        OutdoorEvent::Road10km => "10 km"@,
        OutdoorEvent::Road15km => "15 km"@,
        OutdoorEvent::Road20km => "20 km"@,
        OutdoorEvent::Road25km => "25 km"@,
        OutdoorEvent::Road30km => "30 km"@,
        OutdoorEvent::Road100km => "100 km"@,
        OutdoorEvent::Road10Miles => "10 Miles"@,
        OutdoorEvent::HalfMarathon => "HM"@,
        OutdoorEvent::Marathon => "Marathon"@,
        OutdoorEvent::Walk3km => "3km W"@,
        OutdoorEvent::Walk5km => "5km W"@,
        OutdoorEvent::Walk10km => "10km W"@,
        OutdoorEvent::Walk15km => "15km W"@,
        OutdoorEvent::Walk20km => "20km W"@,
        OutdoorEvent::Walk30km => "30km W"@,
        OutdoorEvent::Walk35km => "35km W"@,
        OutdoorEvent::Walk50km => "50km W"@,
        OutdoorEvent::Walk3kmTrack => "3000mW"@,
        OutdoorEvent::Walk5kmTrack => "5000mW"@,
        OutdoorEvent::Walk10kmTrack => "10000mW"@,
        OutdoorEvent::Walk15kmTrack => "15000mW"@,
        OutdoorEvent::Walk20kmTrack => "20000mW"@,
        OutdoorEvent::Walk30kmTrack => "30000mW"@,
        OutdoorEvent::Walk35kmTrack => "35000mW"@,
        OutdoorEvent::Walk50kmTrack => "50000mW"@,
    }
}

/// The event that a codename denotes, if any.
pub open spec fn event_of_codename(s: Seq<char>) -> Option<OutdoorEvent> {
    if exists|e: OutdoorEvent| event_codename(e) == s {
        Some(choose|e: OutdoorEvent| event_codename(e) == s)
    } else {
        None
    }
}

/// The direction of comparison of an event: field and combined events
/// reward a larger value, timed events a smaller one.
pub open spec fn event_compare_type(e: OutdoorEvent) -> EventCompareType {
    match e {
        OutdoorEvent::HighJump
        | OutdoorEvent::LongJump
        | OutdoorEvent::TripleJump
        | OutdoorEvent::DiscusThrow
        | OutdoorEvent::HammerThrow
        | OutdoorEvent::JavelinThrow
        | OutdoorEvent::PoleVault
        | OutdoorEvent::ShortPut
        | OutdoorEvent::Heptathlon
        | OutdoorEvent::Decathlon => EventCompareType::GreaterIsBetter,
        _ => EventCompareType::SmallerIsBetter,
    }
}

/// The one gender an event is restricted to, if it is restricted.
pub open spec fn event_exclusive_gender(e: OutdoorEvent) -> Option<Gender> {
    match e {
        OutdoorEvent::Track110mHurdles => Some(Gender::Male),
        OutdoorEvent::Track100mHurdles => Some(Gender::Female),
        OutdoorEvent::Heptathlon => Some(Gender::Female),
        OutdoorEvent::Decathlon => Some(Gender::Male),
        OutdoorEvent::Walk35km => Some(Gender::Male),
        _ => None,
    }
}

/// Whether an event is held for a gender.
pub open spec fn event_exists_for(e: OutdoorEvent, g: Gender) -> bool {
    match event_exclusive_gender(e) {
        None => true,
        Some(only) => only == g,
    }
}

/// Reads an event back from its codename, among the codenames of one length.
spec fn codename_inverse(s: Seq<char>) -> Option<OutdoorEvent> {
    if s.len() == 2 {
        if s == "HJ"@ {
            Some(OutdoorEvent::HighJump)
        } else if s == "LJ"@ {
            Some(OutdoorEvent::LongJump)
        } else if s == "TJ"@ {
            Some(OutdoorEvent::TripleJump)
        } else if s == "DT"@ {
            Some(OutdoorEvent::DiscusThrow)
        } else if s == "HT"@ {
            Some(OutdoorEvent::HammerThrow)
        } else if s == "JT"@ {
            Some(OutdoorEvent::JavelinThrow)
        } else if s == "PV"@ {
            Some(OutdoorEvent::PoleVault)
        } else if s == "SP"@ {
            Some(OutdoorEvent::ShortPut)
        } else if s == "HM"@ {
            Some(OutdoorEvent::HalfMarathon)
        } else {
            None
        }
    } else if s.len() == 4 {
        if s == "100m"@ {
            Some(OutdoorEvent::Track100m)
        } else if s == "200m"@ {
            Some(OutdoorEvent::Track200m)
        } else if s == "300m"@ {
            Some(OutdoorEvent::Track300m)
        } else if s == "400m"@ {
            Some(OutdoorEvent::Track400m)
        } else if s == "500m"@ {
            Some(OutdoorEvent::Track500m)
        } else if s == "600m"@ {
            Some(OutdoorEvent::Track600m)
        } else if s == "800m"@ {
            Some(OutdoorEvent::Track800m)
        } else if s == "Mile"@ {
            Some(OutdoorEvent::Track1Mile)
        } else if s == "5 km"@ {
            Some(OutdoorEvent::Road5km)
        } else {
            None
        }
    } else if s.len() == 5 {
        if s == "100mH"@ {
            Some(OutdoorEvent::Track100mHurdles)
        } else if s == "110mH"@ {
            Some(OutdoorEvent::Track110mHurdles)
        } else if s == "400mH"@ {
            Some(OutdoorEvent::Track400mHurdles)
        } else if s == "1000m"@ {
            Some(OutdoorEvent::Track1000m)
        } else if s == "1500m"@ {
            Some(OutdoorEvent::Track1500m)
        } else if s == "2000m"@ {
            Some(OutdoorEvent::Track2000m)
        } else if s == "3000m"@ {
            Some(OutdoorEvent::Track3000m)
        } else if s == "5000m"@ {
            Some(OutdoorEvent::Track5000m)
        } else if s == "10 km"@ {
            Some(OutdoorEvent::Road10km)
        } else if s == "15 km"@ {
            Some(OutdoorEvent::Road15km)
        } else if s == "20 km"@ {
            Some(OutdoorEvent::Road20km)
        } else if s == "25 km"@ {
            Some(OutdoorEvent::Road25km)
        } else if s == "30 km"@ {
            Some(OutdoorEvent::Road30km)
        } else if s == "3km W"@ {
            Some(OutdoorEvent::Walk3km)
        } else if s == "5km W"@ {
            Some(OutdoorEvent::Walk5km)
        } else {
            None
        }
    } else if s.len() == 6 {
        if s == "4x100m"@ {
            Some(OutdoorEvent::Track4x100mRelay)
        } else if s == "4x200m"@ {
            Some(OutdoorEvent::Track4x200mRelay)
        } else if s == "4x400m"@ {
            Some(OutdoorEvent::Track4x400mRelay)
        } else if s == "10000m"@ {
            Some(OutdoorEvent::Track10000m)
        } else if s == "100 km"@ {
            Some(OutdoorEvent::Road100km)
        } else if s == "10km W"@ {
            Some(OutdoorEvent::Walk10km)
        } else if s == "15km W"@ {
            Some(OutdoorEvent::Walk15km)
        } else if s == "20km W"@ {
            Some(OutdoorEvent::Walk20km)
        } else if s == "30km W"@ {
            Some(OutdoorEvent::Walk30km)
        } else if s == "35km W"@ {
            Some(OutdoorEvent::Walk35km)
        } else if s == "50km W"@ {
            Some(OutdoorEvent::Walk50km)
        } else if s == "3000mW"@ {
            Some(OutdoorEvent::Walk3kmTrack)
        } else if s == "5000mW"@ {
            Some(OutdoorEvent::Walk5kmTrack)
        } else {
            None
        }
    } else if s.len() == 7 {
        if s == "2 Miles"@ {
            Some(OutdoorEvent::Track2Miles)
        } else if s == "10000mW"@ {
            Some(OutdoorEvent::Walk10kmTrack)
        } else if s == "15000mW"@ {
            Some(OutdoorEvent::Walk15kmTrack)
        } else if s == "20000mW"@ {
            Some(OutdoorEvent::Walk20kmTrack)
        } else if s == "30000mW"@ {
            Some(OutdoorEvent::Walk30kmTrack)
        } else if s == "35000mW"@ {
            Some(OutdoorEvent::Walk35kmTrack)
        } else if s == "50000mW"@ {
            Some(OutdoorEvent::Walk50kmTrack)
        } else {
            None
        }
    } else if s.len() == 8 {
        if s == "2000m SC"@ {
            Some(OutdoorEvent::Track2kmSteeplechase)
        } else if s == "3000m SC"@ {
            Some(OutdoorEvent::Track3kmSteeplechase)
        } else if s == "10 Miles"@ {
            Some(OutdoorEvent::Road10Miles)
        } else if s == "Marathon"@ {
            Some(OutdoorEvent::Marathon)
        } else {
            None
        }
    } else if s.len() == 9 {
        if s == "Decathlon"@ {
            Some(OutdoorEvent::Decathlon)
        } else {
            None
        }
    } else if s.len() == 10 {
        if s == "Heptathlon"@ {
            Some(OutdoorEvent::Heptathlon)
        } else {
            None
        }
    } else {
        None
    }
}

/// Each codename is read back as its event. Within one length, a codename
/// differs from each one tried before it at the position named.
#[verifier::spinoff_prover]
proof fn lemma_codename_inverse(e: OutdoorEvent)
    ensures
        codename_inverse(event_codename(e)) == Some(e),
{
    reveal_strlit("HJ");
    reveal_strlit("LJ");
    reveal_strlit("TJ");
    reveal_strlit("DT");
    reveal_strlit("HT");
    reveal_strlit("JT");
    reveal_strlit("PV");
    reveal_strlit("SP");
    reveal_strlit("Heptathlon");
    reveal_strlit("Decathlon");
    reveal_strlit("100m");
    reveal_strlit("200m");
    reveal_strlit("300m");
    reveal_strlit("400m");
    reveal_strlit("500m");
    reveal_strlit("100mH");
    reveal_strlit("110mH");
    reveal_strlit("400mH");
    reveal_strlit("2000m SC");
    reveal_strlit("3000m SC");
    reveal_strlit("4x100m");
    reveal_strlit("4x200m");
    reveal_strlit("4x400m");
    reveal_strlit("600m");
    reveal_strlit("800m");
    reveal_strlit("1000m");
    reveal_strlit("1500m");
    reveal_strlit("Mile");
    reveal_strlit("2 Miles");
    reveal_strlit("2000m");
    reveal_strlit("3000m");
    reveal_strlit("5000m");
    reveal_strlit("10000m");
    reveal_strlit("5 km");
    reveal_strlit("10 km");
    reveal_strlit("15 km");
    reveal_strlit("20 km");
    reveal_strlit("25 km");
    reveal_strlit("30 km");
    reveal_strlit("100 km");
    reveal_strlit("10 Miles");
    reveal_strlit("HM");
    reveal_strlit("Marathon");
    reveal_strlit("3km W");
    reveal_strlit("5km W");
    reveal_strlit("10km W");
    reveal_strlit("15km W");
    reveal_strlit("20km W");
    reveal_strlit("30km W");
    reveal_strlit("35km W");
    reveal_strlit("50km W");
    reveal_strlit("3000mW");
    reveal_strlit("5000mW");
    reveal_strlit("10000mW");
    reveal_strlit("15000mW");
    reveal_strlit("20000mW");
    reveal_strlit("30000mW");
    reveal_strlit("35000mW");
    reveal_strlit("50000mW");
    match e {
        OutdoorEvent::HighJump => {
            assert(event_codename(e) == "HJ"@);
        },
        OutdoorEvent::LongJump => {
            assert(event_codename(e) == "LJ"@);
            assert("LJ"@[0] != "HJ"@[0]);
        },
        OutdoorEvent::TripleJump => {
            assert(event_codename(e) == "TJ"@);
            assert("TJ"@[0] != "HJ"@[0]);
            assert("TJ"@[0] != "LJ"@[0]);
        },
        OutdoorEvent::DiscusThrow => {
            assert(event_codename(e) == "DT"@);
            assert("DT"@[0] != "HJ"@[0]);
            assert("DT"@[0] != "LJ"@[0]);
            assert("DT"@[0] != "TJ"@[0]);
        },
        OutdoorEvent::HammerThrow => {
            assert(event_codename(e) == "HT"@);
            assert("HT"@[1] != "HJ"@[1]);
            assert("HT"@[0] != "LJ"@[0]);
            assert("HT"@[0] != "TJ"@[0]);
            assert("HT"@[0] != "DT"@[0]);
        },
        OutdoorEvent::JavelinThrow => {
            assert(event_codename(e) == "JT"@);
            assert("JT"@[0] != "HJ"@[0]);
            assert("JT"@[0] != "LJ"@[0]);
            assert("JT"@[0] != "TJ"@[0]);
            assert("JT"@[0] != "DT"@[0]);
            assert("JT"@[0] != "HT"@[0]);
        },
        OutdoorEvent::PoleVault => {
            assert(event_codename(e) == "PV"@);
            assert("PV"@[0] != "HJ"@[0]);
            assert("PV"@[0] != "LJ"@[0]);
            assert("PV"@[0] != "TJ"@[0]);
            assert("PV"@[0] != "DT"@[0]);
            assert("PV"@[0] != "HT"@[0]);
            assert("PV"@[0] != "JT"@[0]);
        },
        OutdoorEvent::ShortPut => {
            assert(event_codename(e) == "SP"@);
            assert("SP"@[0] != "HJ"@[0]);
            assert("SP"@[0] != "LJ"@[0]);
            assert("SP"@[0] != "TJ"@[0]);
            assert("SP"@[0] != "DT"@[0]);
            assert("SP"@[0] != "HT"@[0]);
            assert("SP"@[0] != "JT"@[0]);
            assert("SP"@[0] != "PV"@[0]);
        },
        OutdoorEvent::Heptathlon => {
            assert(event_codename(e) == "Heptathlon"@);
        },
        OutdoorEvent::Decathlon => {
            assert(event_codename(e) == "Decathlon"@);
        },
        OutdoorEvent::Track100m => {
            assert(event_codename(e) == "100m"@);
        },
        OutdoorEvent::Track200m => {
            assert(event_codename(e) == "200m"@);
            assert("200m"@[0] != "100m"@[0]);
        },
        OutdoorEvent::Track300m => {
            assert(event_codename(e) == "300m"@);
            assert("300m"@[0] != "100m"@[0]);
            assert("300m"@[0] != "200m"@[0]);
        },
        OutdoorEvent::Track400m => {
            assert(event_codename(e) == "400m"@);
            assert("400m"@[0] != "100m"@[0]);
            assert("400m"@[0] != "200m"@[0]);
            assert("400m"@[0] != "300m"@[0]);
        },
        OutdoorEvent::Track500m => {
            assert(event_codename(e) == "500m"@);
            assert("500m"@[0] != "100m"@[0]);
            assert("500m"@[0] != "200m"@[0]);
            assert("500m"@[0] != "300m"@[0]);
            assert("500m"@[0] != "400m"@[0]);
        },
        OutdoorEvent::Track100mHurdles => {
            assert(event_codename(e) == "100mH"@);
        },
        OutdoorEvent::Track110mHurdles => {
            assert(event_codename(e) == "110mH"@);
            assert("110mH"@[1] != "100mH"@[1]);
        },
        OutdoorEvent::Track400mHurdles => {
            assert(event_codename(e) == "400mH"@);
            assert("400mH"@[0] != "100mH"@[0]);
            assert("400mH"@[0] != "110mH"@[0]);
        },
        OutdoorEvent::Track2kmSteeplechase => {
            assert(event_codename(e) == "2000m SC"@);
        },
        OutdoorEvent::Track3kmSteeplechase => {
            assert(event_codename(e) == "3000m SC"@);
            assert("3000m SC"@[0] != "2000m SC"@[0]);
        },
        OutdoorEvent::Track4x100mRelay => {
            assert(event_codename(e) == "4x100m"@);
        },
        OutdoorEvent::Track4x200mRelay => {
            assert(event_codename(e) == "4x200m"@);
            assert("4x200m"@[2] != "4x100m"@[2]);
        },
        OutdoorEvent::Track4x400mRelay => {
            assert(event_codename(e) == "4x400m"@);
            assert("4x400m"@[2] != "4x100m"@[2]);
            assert("4x400m"@[2] != "4x200m"@[2]);
        },
        OutdoorEvent::Track600m => {
            assert(event_codename(e) == "600m"@);
            assert("600m"@[0] != "100m"@[0]);
            assert("600m"@[0] != "200m"@[0]);
            assert("600m"@[0] != "300m"@[0]);
            assert("600m"@[0] != "400m"@[0]);
            assert("600m"@[0] != "500m"@[0]);
        },
        OutdoorEvent::Track800m => {
            assert(event_codename(e) == "800m"@);
            assert("800m"@[0] != "100m"@[0]);
            assert("800m"@[0] != "200m"@[0]);
            assert("800m"@[0] != "300m"@[0]);
            assert("800m"@[0] != "400m"@[0]);
            assert("800m"@[0] != "500m"@[0]);
            assert("800m"@[0] != "600m"@[0]);
        },
        OutdoorEvent::Track1000m => {
            assert(event_codename(e) == "1000m"@);
            assert("1000m"@[3] != "100mH"@[3]);
            assert("1000m"@[1] != "110mH"@[1]);
            assert("1000m"@[0] != "400mH"@[0]);
        },
        OutdoorEvent::Track1500m => {
            assert(event_codename(e) == "1500m"@);
            assert("1500m"@[1] != "100mH"@[1]);
            assert("1500m"@[1] != "110mH"@[1]);
            assert("1500m"@[0] != "400mH"@[0]);
            assert("1500m"@[1] != "1000m"@[1]);
        },
        OutdoorEvent::Track1Mile => {
            assert(event_codename(e) == "Mile"@);
            assert("Mile"@[0] != "100m"@[0]);
            assert("Mile"@[0] != "200m"@[0]);
            assert("Mile"@[0] != "300m"@[0]);
            assert("Mile"@[0] != "400m"@[0]);
            assert("Mile"@[0] != "500m"@[0]);
            assert("Mile"@[0] != "600m"@[0]);
            assert("Mile"@[0] != "800m"@[0]);
        },
        OutdoorEvent::Track2Miles => {
            assert(event_codename(e) == "2 Miles"@);
        },
        OutdoorEvent::Track2000m => {
            assert(event_codename(e) == "2000m"@);
            assert("2000m"@[0] != "100mH"@[0]);
            assert("2000m"@[0] != "110mH"@[0]);
            assert("2000m"@[0] != "400mH"@[0]);
            assert("2000m"@[0] != "1000m"@[0]);
            assert("2000m"@[0] != "1500m"@[0]);
        },
        OutdoorEvent::Track3000m => {
            assert(event_codename(e) == "3000m"@);
            assert("3000m"@[0] != "100mH"@[0]);
            assert("3000m"@[0] != "110mH"@[0]);
            assert("3000m"@[0] != "400mH"@[0]);
            assert("3000m"@[0] != "1000m"@[0]);
            assert("3000m"@[0] != "1500m"@[0]);
            assert("3000m"@[0] != "2000m"@[0]);
        },
        OutdoorEvent::Track5000m => {
            assert(event_codename(e) == "5000m"@);
            assert("5000m"@[0] != "100mH"@[0]);
            assert("5000m"@[0] != "110mH"@[0]);
            assert("5000m"@[0] != "400mH"@[0]);
            assert("5000m"@[0] != "1000m"@[0]);
            assert("5000m"@[0] != "1500m"@[0]);
            assert("5000m"@[0] != "2000m"@[0]);
            assert("5000m"@[0] != "3000m"@[0]);
        },
        OutdoorEvent::Track10000m => {
            assert(event_codename(e) == "10000m"@);
            assert("10000m"@[0] != "4x100m"@[0]);
            assert("10000m"@[0] != "4x200m"@[0]);
            assert("10000m"@[0] != "4x400m"@[0]);
        },
        OutdoorEvent::Road5km => {
            assert(event_codename(e) == "5 km"@);
            assert("5 km"@[0] != "100m"@[0]);
            assert("5 km"@[0] != "200m"@[0]);
            assert("5 km"@[0] != "300m"@[0]);
            assert("5 km"@[0] != "400m"@[0]);
            assert("5 km"@[1] != "500m"@[1]);
            assert("5 km"@[0] != "600m"@[0]);
            assert("5 km"@[0] != "800m"@[0]);
            assert("5 km"@[0] != "Mile"@[0]);
        },
        OutdoorEvent::Road10km => {
            assert(event_codename(e) == "10 km"@);
            assert("10 km"@[2] != "100mH"@[2]);
            assert("10 km"@[1] != "110mH"@[1]);
            assert("10 km"@[0] != "400mH"@[0]);
            assert("10 km"@[2] != "1000m"@[2]);
            assert("10 km"@[1] != "1500m"@[1]);
            assert("10 km"@[0] != "2000m"@[0]);
            assert("10 km"@[0] != "3000m"@[0]);
            assert("10 km"@[0] != "5000m"@[0]);
        },
        OutdoorEvent::Road15km => {
            assert(event_codename(e) == "15 km"@);
            assert("15 km"@[1] != "100mH"@[1]);
            assert("15 km"@[1] != "110mH"@[1]);
            assert("15 km"@[0] != "400mH"@[0]);
            assert("15 km"@[1] != "1000m"@[1]);
            assert("15 km"@[2] != "1500m"@[2]);
            assert("15 km"@[0] != "2000m"@[0]);
            assert("15 km"@[0] != "3000m"@[0]);
            assert("15 km"@[0] != "5000m"@[0]);
            assert("15 km"@[1] != "10 km"@[1]);
        },
        OutdoorEvent::Road20km => {
            assert(event_codename(e) == "20 km"@);
            assert("20 km"@[0] != "100mH"@[0]);
            assert("20 km"@[0] != "110mH"@[0]);
            assert("20 km"@[0] != "400mH"@[0]);
            assert("20 km"@[0] != "1000m"@[0]);
            assert("20 km"@[0] != "1500m"@[0]);
            assert("20 km"@[2] != "2000m"@[2]);
            assert("20 km"@[0] != "3000m"@[0]);
            assert("20 km"@[0] != "5000m"@[0]);
            assert("20 km"@[0] != "10 km"@[0]);
            assert("20 km"@[0] != "15 km"@[0]);
        },
        OutdoorEvent::Road25km => {
            assert(event_codename(e) == "25 km"@);
            assert("25 km"@[0] != "100mH"@[0]);
            assert("25 km"@[0] != "110mH"@[0]);
            assert("25 km"@[0] != "400mH"@[0]);
            assert("25 km"@[0] != "1000m"@[0]);
            assert("25 km"@[0] != "1500m"@[0]);
            assert("25 km"@[1] != "2000m"@[1]);
            assert("25 km"@[0] != "3000m"@[0]);
            assert("25 km"@[0] != "5000m"@[0]);
            assert("25 km"@[0] != "10 km"@[0]);
            assert("25 km"@[0] != "15 km"@[0]);
            assert("25 km"@[1] != "20 km"@[1]);
        },
        OutdoorEvent::Road30km => {
            assert(event_codename(e) == "30 km"@);
            assert("30 km"@[0] != "100mH"@[0]);
            assert("30 km"@[0] != "110mH"@[0]);
            assert("30 km"@[0] != "400mH"@[0]);
            assert("30 km"@[0] != "1000m"@[0]);
            assert("30 km"@[0] != "1500m"@[0]);
            assert("30 km"@[0] != "2000m"@[0]);
            assert("30 km"@[2] != "3000m"@[2]);
            assert("30 km"@[0] != "5000m"@[0]);
            assert("30 km"@[0] != "10 km"@[0]);
            assert("30 km"@[0] != "15 km"@[0]);
            assert("30 km"@[0] != "20 km"@[0]);
            assert("30 km"@[0] != "25 km"@[0]);
        },
        OutdoorEvent::Road100km => {
            assert(event_codename(e) == "100 km"@);
            assert("100 km"@[0] != "4x100m"@[0]);
            assert("100 km"@[0] != "4x200m"@[0]);
            assert("100 km"@[0] != "4x400m"@[0]);
            assert("100 km"@[3] != "10000m"@[3]);
        },
        OutdoorEvent::Road10Miles => {
            assert(event_codename(e) == "10 Miles"@);
            assert("10 Miles"@[0] != "2000m SC"@[0]);
            assert("10 Miles"@[0] != "3000m SC"@[0]);
        },
        OutdoorEvent::HalfMarathon => {
            assert(event_codename(e) == "HM"@);
            assert("HM"@[1] != "HJ"@[1]);
            assert("HM"@[0] != "LJ"@[0]);
            assert("HM"@[0] != "TJ"@[0]);
            assert("HM"@[0] != "DT"@[0]);
            assert("HM"@[1] != "HT"@[1]);
            assert("HM"@[0] != "JT"@[0]);
            assert("HM"@[0] != "PV"@[0]);
            assert("HM"@[0] != "SP"@[0]);
        },
        OutdoorEvent::Marathon => {
            assert(event_codename(e) == "Marathon"@);
            assert("Marathon"@[0] != "2000m SC"@[0]);
            assert("Marathon"@[0] != "3000m SC"@[0]);
            assert("Marathon"@[0] != "10 Miles"@[0]);
        },
        OutdoorEvent::Walk3km => {
            assert(event_codename(e) == "3km W"@);
            assert("3km W"@[0] != "100mH"@[0]);
            assert("3km W"@[0] != "110mH"@[0]);
            assert("3km W"@[0] != "400mH"@[0]);
            assert("3km W"@[0] != "1000m"@[0]);
            assert("3km W"@[0] != "1500m"@[0]);
            assert("3km W"@[0] != "2000m"@[0]);
            assert("3km W"@[1] != "3000m"@[1]);
            assert("3km W"@[0] != "5000m"@[0]);
            assert("3km W"@[0] != "10 km"@[0]);
            assert("3km W"@[0] != "15 km"@[0]);
            assert("3km W"@[0] != "20 km"@[0]);
            assert("3km W"@[0] != "25 km"@[0]);
            assert("3km W"@[1] != "30 km"@[1]);
        },
        OutdoorEvent::Walk5km => {
            assert(event_codename(e) == "5km W"@);
            assert("5km W"@[0] != "100mH"@[0]);
            assert("5km W"@[0] != "110mH"@[0]);
            assert("5km W"@[0] != "400mH"@[0]);
            assert("5km W"@[0] != "1000m"@[0]);
            assert("5km W"@[0] != "1500m"@[0]);
            assert("5km W"@[0] != "2000m"@[0]);
            assert("5km W"@[0] != "3000m"@[0]);
            assert("5km W"@[1] != "5000m"@[1]);
            assert("5km W"@[0] != "10 km"@[0]);
            assert("5km W"@[0] != "15 km"@[0]);
            assert("5km W"@[0] != "20 km"@[0]);
            assert("5km W"@[0] != "25 km"@[0]);
            assert("5km W"@[0] != "30 km"@[0]);
            assert("5km W"@[0] != "3km W"@[0]);
        },
        OutdoorEvent::Walk10km => {
            assert(event_codename(e) == "10km W"@);
            assert("10km W"@[0] != "4x100m"@[0]);
            assert("10km W"@[0] != "4x200m"@[0]);
            assert("10km W"@[0] != "4x400m"@[0]);
            assert("10km W"@[2] != "10000m"@[2]);
            assert("10km W"@[2] != "100 km"@[2]);
        },
        OutdoorEvent::Walk15km => {
            assert(event_codename(e) == "15km W"@);
            assert("15km W"@[0] != "4x100m"@[0]);
            assert("15km W"@[0] != "4x200m"@[0]);
            assert("15km W"@[0] != "4x400m"@[0]);
            assert("15km W"@[1] != "10000m"@[1]);
            assert("15km W"@[1] != "100 km"@[1]);
            assert("15km W"@[1] != "10km W"@[1]);
        },
        OutdoorEvent::Walk20km => {
            assert(event_codename(e) == "20km W"@);
            assert("20km W"@[0] != "4x100m"@[0]);
            assert("20km W"@[0] != "4x200m"@[0]);
            assert("20km W"@[0] != "4x400m"@[0]);
            assert("20km W"@[0] != "10000m"@[0]);
            assert("20km W"@[0] != "100 km"@[0]);
            assert("20km W"@[0] != "10km W"@[0]);
            assert("20km W"@[0] != "15km W"@[0]);
        },
        OutdoorEvent::Walk30km => {
            assert(event_codename(e) == "30km W"@);
            assert("30km W"@[0] != "4x100m"@[0]);
            assert("30km W"@[0] != "4x200m"@[0]);
            assert("30km W"@[0] != "4x400m"@[0]);
            assert("30km W"@[0] != "10000m"@[0]);
            assert("30km W"@[0] != "100 km"@[0]);
            assert("30km W"@[0] != "10km W"@[0]);
            assert("30km W"@[0] != "15km W"@[0]);
            assert("30km W"@[0] != "20km W"@[0]);
        },
        OutdoorEvent::Walk35km => {
            assert(event_codename(e) == "35km W"@);
            assert("35km W"@[0] != "4x100m"@[0]);
            assert("35km W"@[0] != "4x200m"@[0]);
            assert("35km W"@[0] != "4x400m"@[0]);
            assert("35km W"@[0] != "10000m"@[0]);
            assert("35km W"@[0] != "100 km"@[0]);
            assert("35km W"@[0] != "10km W"@[0]);
            assert("35km W"@[0] != "15km W"@[0]);
            assert("35km W"@[0] != "20km W"@[0]);
            assert("35km W"@[1] != "30km W"@[1]);
        },
        OutdoorEvent::Walk50km => {
            assert(event_codename(e) == "50km W"@);
            assert("50km W"@[0] != "4x100m"@[0]);
            assert("50km W"@[0] != "4x200m"@[0]);
            assert("50km W"@[0] != "4x400m"@[0]);
            assert("50km W"@[0] != "10000m"@[0]);
            assert("50km W"@[0] != "100 km"@[0]);
            assert("50km W"@[0] != "10km W"@[0]);
            assert("50km W"@[0] != "15km W"@[0]);
            assert("50km W"@[0] != "20km W"@[0]);
            assert("50km W"@[0] != "30km W"@[0]);
            assert("50km W"@[0] != "35km W"@[0]);
        },
        OutdoorEvent::Walk3kmTrack => {
            assert(event_codename(e) == "3000mW"@);
            assert("3000mW"@[0] != "4x100m"@[0]);
            assert("3000mW"@[0] != "4x200m"@[0]);
            assert("3000mW"@[0] != "4x400m"@[0]);
            assert("3000mW"@[0] != "10000m"@[0]);
            assert("3000mW"@[0] != "100 km"@[0]);
            assert("3000mW"@[0] != "10km W"@[0]);
            assert("3000mW"@[0] != "15km W"@[0]);
            assert("3000mW"@[0] != "20km W"@[0]);
            assert("3000mW"@[2] != "30km W"@[2]);
            assert("3000mW"@[1] != "35km W"@[1]);
            assert("3000mW"@[0] != "50km W"@[0]);
        },
        OutdoorEvent::Walk5kmTrack => {
            assert(event_codename(e) == "5000mW"@);
            assert("5000mW"@[0] != "4x100m"@[0]);
            assert("5000mW"@[0] != "4x200m"@[0]);
            assert("5000mW"@[0] != "4x400m"@[0]);
            assert("5000mW"@[0] != "10000m"@[0]);
            assert("5000mW"@[0] != "100 km"@[0]);
            assert("5000mW"@[0] != "10km W"@[0]);
            assert("5000mW"@[0] != "15km W"@[0]);
            assert("5000mW"@[0] != "20km W"@[0]);
            assert("5000mW"@[0] != "30km W"@[0]);
            assert("5000mW"@[0] != "35km W"@[0]);
            assert("5000mW"@[2] != "50km W"@[2]);
            assert("5000mW"@[0] != "3000mW"@[0]);
        },
        OutdoorEvent::Walk10kmTrack => {
            assert(event_codename(e) == "10000mW"@);
            assert("10000mW"@[0] != "2 Miles"@[0]);
        },
        OutdoorEvent::Walk15kmTrack => {
            assert(event_codename(e) == "15000mW"@);
            assert("15000mW"@[0] != "2 Miles"@[0]);
            assert("15000mW"@[1] != "10000mW"@[1]);
        },
        OutdoorEvent::Walk20kmTrack => {
            assert(event_codename(e) == "20000mW"@);
            assert("20000mW"@[1] != "2 Miles"@[1]);
            assert("20000mW"@[0] != "10000mW"@[0]);
            assert("20000mW"@[0] != "15000mW"@[0]);
        },
        OutdoorEvent::Walk30kmTrack => {
            assert(event_codename(e) == "30000mW"@);
            assert("30000mW"@[0] != "2 Miles"@[0]);
            assert("30000mW"@[0] != "10000mW"@[0]);
            assert("30000mW"@[0] != "15000mW"@[0]);
            assert("30000mW"@[0] != "20000mW"@[0]);
        },
        OutdoorEvent::Walk35kmTrack => {
            assert(event_codename(e) == "35000mW"@);
            assert("35000mW"@[0] != "2 Miles"@[0]);
            assert("35000mW"@[0] != "10000mW"@[0]);
            assert("35000mW"@[0] != "15000mW"@[0]);
            assert("35000mW"@[0] != "20000mW"@[0]);
            assert("35000mW"@[1] != "30000mW"@[1]);
        },
        OutdoorEvent::Walk50kmTrack => {
            assert(event_codename(e) == "50000mW"@);
            assert("50000mW"@[0] != "2 Miles"@[0]);
            assert("50000mW"@[0] != "10000mW"@[0]);
            assert("50000mW"@[0] != "15000mW"@[0]);
            assert("50000mW"@[0] != "20000mW"@[0]);
            assert("50000mW"@[0] != "30000mW"@[0]);
            assert("50000mW"@[0] != "35000mW"@[0]);
        },
    }
}

/// No two events share a codename.
pub proof fn lemma_codename_injective(a: OutdoorEvent, b: OutdoorEvent)
    requires
        event_codename(a) == event_codename(b),
    ensures
        a == b,
{
    lemma_codename_inverse(a);
    lemma_codename_inverse(b);
}

/// Once one event is known to carry codename `s`, `s` denotes that event.
proof fn lemma_codename_of(e: OutdoorEvent, s: Seq<char>)
    requires
        event_codename(e) == s,
    ensures
        event_of_codename(s) == Some(e),
{
    let c = choose|x: OutdoorEvent| event_codename(x) == s;
    lemma_codename_injective(c, e);
}

/// Reading back the codename of an event gives that event.
pub proof fn lemma_event_codename_round_trip(e: OutdoorEvent)
    ensures
        event_of_codename(event_codename(e)) == Some(e),
{
    lemma_codename_of(e, event_codename(e));
}

/// An event restricted to one gender is held for that gender and not for the
/// other; an event without restriction is held for both.
pub proof fn lemma_gender_eligibility(e: OutdoorEvent, g: Gender)
    ensures
        event_exclusive_gender(e) == Some(g) ==> event_exists_for(e, g) && !event_exists_for(
            e,
            other_gender(g),
        ),
        event_exclusive_gender(e) is None ==> event_exists_for(e, g) && event_exists_for(
            e,
            other_gender(g),
        ),
{
}

impl OutdoorEvent {
    pub fn to_codename(&self) -> (r: &'static str)
        ensures
            r@ == event_codename(*self),
    {
        match self {
            OutdoorEvent::HighJump => "HJ",
            OutdoorEvent::LongJump => "LJ",
            OutdoorEvent::TripleJump => "TJ",
            OutdoorEvent::DiscusThrow => "DT",
            OutdoorEvent::HammerThrow => "HT",
            OutdoorEvent::JavelinThrow => "JT",
            OutdoorEvent::PoleVault => "PV",
            OutdoorEvent::ShortPut => "SP",
            OutdoorEvent::Heptathlon => "Heptathlon",
            OutdoorEvent::Decathlon => "Decathlon",
            OutdoorEvent::Track100m => "100m",
            OutdoorEvent::Track200m => "200m",
            OutdoorEvent::Track300m => "300m",
            OutdoorEvent::Track400m => "400m",
            OutdoorEvent::Track500m => "500m",
            OutdoorEvent::Track100mHurdles => "100mH",
            OutdoorEvent::Track110mHurdles => "110mH",
            OutdoorEvent::Track400mHurdles => "400mH",
            OutdoorEvent::Track2kmSteeplechase => "2000m SC",
            OutdoorEvent::Track3kmSteeplechase => "3000m SC",
            OutdoorEvent::Track4x100mRelay => "4x100m",
            OutdoorEvent::Track4x200mRelay => "4x200m",
            OutdoorEvent::Track4x400mRelay => "4x400m",
            OutdoorEvent::Track600m => "600m",
            OutdoorEvent::Track800m => "800m",
            OutdoorEvent::Track1000m => "1000m",
            OutdoorEvent::Track1500m => "1500m",
            OutdoorEvent::Track1Mile => "Mile",
            OutdoorEvent::Track2Miles => "2 Miles",
            OutdoorEvent::Track2000m => "2000m",
            OutdoorEvent::Track3000m => "3000m",
            OutdoorEvent::Track5000m => "5000m",
            OutdoorEvent::Track10000m => "10000m",
            OutdoorEvent::Road5km => "5 km",
            OutdoorEvent::Road10km => "10 km",
            OutdoorEvent::Road15km => "15 km",
            OutdoorEvent::Road20km => "20 km",
            OutdoorEvent::Road25km => "25 km",
            OutdoorEvent::Road30km => "30 km",
            OutdoorEvent::Road100km => "100 km",
            OutdoorEvent::Road10Miles => "10 Miles",
            OutdoorEvent::HalfMarathon => "HM",
            OutdoorEvent::Marathon => "Marathon",
            OutdoorEvent::Walk3km => "3km W",
            OutdoorEvent::Walk5km => "5km W",
            OutdoorEvent::Walk10km => "10km W",
            OutdoorEvent::Walk15km => "15km W",
            OutdoorEvent::Walk20km => "20km W",
            OutdoorEvent::Walk30km => "30km W",
            OutdoorEvent::Walk35km => "35km W",
            OutdoorEvent::Walk50km => "50km W",
            OutdoorEvent::Walk3kmTrack => "3000mW",
            OutdoorEvent::Walk5kmTrack => "5000mW",
            OutdoorEvent::Walk10kmTrack => "10000mW",
            OutdoorEvent::Walk15kmTrack => "15000mW",
            OutdoorEvent::Walk20kmTrack => "20000mW",
            OutdoorEvent::Walk30kmTrack => "30000mW",
            OutdoorEvent::Walk35kmTrack => "35000mW",
            OutdoorEvent::Walk50kmTrack => "50000mW",
        }
    }

    pub fn from_codename(code: &str) -> (r: Option<OutdoorEvent>)
        ensures
            r == event_of_codename(code@),
    {
        let chars = chars_of(code);
        OutdoorEvent::from_codename_chars(&chars)
    }

    /// The event whose codename is the sequence of characters `code`.
    pub fn from_codename_chars(code: &Vec<char>) -> (r: Option<OutdoorEvent>)
        ensures
            r == event_of_codename(code@),
    {
        if chars_match(code, "HJ") {
            proof { lemma_codename_of(OutdoorEvent::HighJump, code@); }
            return Some(OutdoorEvent::HighJump);
        }
        if chars_match(code, "LJ") {
            proof { lemma_codename_of(OutdoorEvent::LongJump, code@); }
            return Some(OutdoorEvent::LongJump);
        }
        if chars_match(code, "TJ") {
            proof { lemma_codename_of(OutdoorEvent::TripleJump, code@); }
            return Some(OutdoorEvent::TripleJump);
        }
        if chars_match(code, "DT") {
            proof { lemma_codename_of(OutdoorEvent::DiscusThrow, code@); }
            return Some(OutdoorEvent::DiscusThrow);
        }
        if chars_match(code, "HT") {
            proof { lemma_codename_of(OutdoorEvent::HammerThrow, code@); }
            return Some(OutdoorEvent::HammerThrow);
        }
        if chars_match(code, "JT") {
            proof { lemma_codename_of(OutdoorEvent::JavelinThrow, code@); }
            return Some(OutdoorEvent::JavelinThrow);
        }
        if chars_match(code, "PV") {
            proof { lemma_codename_of(OutdoorEvent::PoleVault, code@); }
            return Some(OutdoorEvent::PoleVault);
        }
        if chars_match(code, "SP") {
            proof { lemma_codename_of(OutdoorEvent::ShortPut, code@); }
            return Some(OutdoorEvent::ShortPut);
        }
        if chars_match(code, "Heptathlon") {
            proof { lemma_codename_of(OutdoorEvent::Heptathlon, code@); }
            return Some(OutdoorEvent::Heptathlon);
        }
        if chars_match(code, "Decathlon") {
            proof { lemma_codename_of(OutdoorEvent::Decathlon, code@); }
            return Some(OutdoorEvent::Decathlon);
        }
        if chars_match(code, "100m") {
            proof { lemma_codename_of(OutdoorEvent::Track100m, code@); }
            return Some(OutdoorEvent::Track100m);
        }
        if chars_match(code, "200m") {
            proof { lemma_codename_of(OutdoorEvent::Track200m, code@); }
            return Some(OutdoorEvent::Track200m);
        }
        if chars_match(code, "300m") {
            proof { lemma_codename_of(OutdoorEvent::Track300m, code@); }
            return Some(OutdoorEvent::Track300m);
        }
        if chars_match(code, "400m") {
            proof { lemma_codename_of(OutdoorEvent::Track400m, code@); }
            return Some(OutdoorEvent::Track400m);
        }
        if chars_match(code, "500m") {
            proof { lemma_codename_of(OutdoorEvent::Track500m, code@); }
            return Some(OutdoorEvent::Track500m);
        }
        if chars_match(code, "100mH") {
            proof { lemma_codename_of(OutdoorEvent::Track100mHurdles, code@); }
            return Some(OutdoorEvent::Track100mHurdles);
        }
        if chars_match(code, "110mH") {
            proof { lemma_codename_of(OutdoorEvent::Track110mHurdles, code@); }
            return Some(OutdoorEvent::Track110mHurdles);
        }
        if chars_match(code, "400mH") {
            proof { lemma_codename_of(OutdoorEvent::Track400mHurdles, code@); }
            return Some(OutdoorEvent::Track400mHurdles);
        }
        if chars_match(code, "2000m SC") {
            proof { lemma_codename_of(OutdoorEvent::Track2kmSteeplechase, code@); }
            return Some(OutdoorEvent::Track2kmSteeplechase);
        }
        if chars_match(code, "3000m SC") {
            proof { lemma_codename_of(OutdoorEvent::Track3kmSteeplechase, code@); }
            return Some(OutdoorEvent::Track3kmSteeplechase);
        }
        if chars_match(code, "4x100m") {
            proof { lemma_codename_of(OutdoorEvent::Track4x100mRelay, code@); }
            return Some(OutdoorEvent::Track4x100mRelay);
        }
        if chars_match(code, "4x200m") {
            proof { lemma_codename_of(OutdoorEvent::Track4x200mRelay, code@); }
            return Some(OutdoorEvent::Track4x200mRelay);
        }
        if chars_match(code, "4x400m") {
            proof { lemma_codename_of(OutdoorEvent::Track4x400mRelay, code@); }
            return Some(OutdoorEvent::Track4x400mRelay);
        }
        if chars_match(code, "600m") {
            proof { lemma_codename_of(OutdoorEvent::Track600m, code@); }
            return Some(OutdoorEvent::Track600m);
        }
        if chars_match(code, "800m") {
            proof { lemma_codename_of(OutdoorEvent::Track800m, code@); }
            return Some(OutdoorEvent::Track800m);
        }
        if chars_match(code, "1000m") {
            proof { lemma_codename_of(OutdoorEvent::Track1000m, code@); }
            return Some(OutdoorEvent::Track1000m);
        }
        if chars_match(code, "1500m") {
            proof { lemma_codename_of(OutdoorEvent::Track1500m, code@); }
            return Some(OutdoorEvent::Track1500m);
        }
        if chars_match(code, "3000m") {
            proof { lemma_codename_of(OutdoorEvent::Track3000m, code@); }
            return Some(OutdoorEvent::Track3000m);
        }
        if chars_match(code, "Mile") {
            proof { lemma_codename_of(OutdoorEvent::Track1Mile, code@); }
            return Some(OutdoorEvent::Track1Mile);
        }
        if chars_match(code, "2 Miles") {
            proof { lemma_codename_of(OutdoorEvent::Track2Miles, code@); }
            return Some(OutdoorEvent::Track2Miles);
        }
        if chars_match(code, "2000m") {
            proof { lemma_codename_of(OutdoorEvent::Track2000m, code@); }
            return Some(OutdoorEvent::Track2000m);
        }
        if chars_match(code, "5000m") {
            proof { lemma_codename_of(OutdoorEvent::Track5000m, code@); }
            return Some(OutdoorEvent::Track5000m);
        }
        if chars_match(code, "10000m") {
            proof { lemma_codename_of(OutdoorEvent::Track10000m, code@); }
            return Some(OutdoorEvent::Track10000m);
        }
        if chars_match(code, "5 km") {
            proof { lemma_codename_of(OutdoorEvent::Road5km, code@); }
            return Some(OutdoorEvent::Road5km);
        }
        if chars_match(code, "10 km") {
            proof { lemma_codename_of(OutdoorEvent::Road10km, code@); }
            return Some(OutdoorEvent::Road10km);
        }
        if chars_match(code, "15 km") {
            proof { lemma_codename_of(OutdoorEvent::Road15km, code@); }
            return Some(OutdoorEvent::Road15km);
        }
        if chars_match(code, "20 km") {
            proof { lemma_codename_of(OutdoorEvent::Road20km, code@); }
            return Some(OutdoorEvent::Road20km);
        }
        if chars_match(code, "25 km") {
            proof { lemma_codename_of(OutdoorEvent::Road25km, code@); }
            return Some(OutdoorEvent::Road25km);
        }
        if chars_match(code, "30 km") {
            proof { lemma_codename_of(OutdoorEvent::Road30km, code@); }
            return Some(OutdoorEvent::Road30km);
        }
        if chars_match(code, "100 km") {
            proof { lemma_codename_of(OutdoorEvent::Road100km, code@); }
            return Some(OutdoorEvent::Road100km);
        }
        if chars_match(code, "10 Miles") {
            proof { lemma_codename_of(OutdoorEvent::Road10Miles, code@); }
            return Some(OutdoorEvent::Road10Miles);
        }
        if chars_match(code, "HM") {
            proof { lemma_codename_of(OutdoorEvent::HalfMarathon, code@); }
            return Some(OutdoorEvent::HalfMarathon);
        }
        if chars_match(code, "Marathon") {
            proof { lemma_codename_of(OutdoorEvent::Marathon, code@); }
            return Some(OutdoorEvent::Marathon);
        }
        if chars_match(code, "3km W") {
            proof { lemma_codename_of(OutdoorEvent::Walk3km, code@); }
            return Some(OutdoorEvent::Walk3km);
        }
        if chars_match(code, "5km W") {
            proof { lemma_codename_of(OutdoorEvent::Walk5km, code@); }
            return Some(OutdoorEvent::Walk5km);
        }
        if chars_match(code, "10km W") {
            proof { lemma_codename_of(OutdoorEvent::Walk10km, code@); }
            return Some(OutdoorEvent::Walk10km);
        }
        if chars_match(code, "15km W") {
            proof { lemma_codename_of(OutdoorEvent::Walk15km, code@); }
            return Some(OutdoorEvent::Walk15km);
        }
        if chars_match(code, "20km W") {
            proof { lemma_codename_of(OutdoorEvent::Walk20km, code@); }
            return Some(OutdoorEvent::Walk20km);
        }
        if chars_match(code, "30km W") {
            proof { lemma_codename_of(OutdoorEvent::Walk30km, code@); }
            return Some(OutdoorEvent::Walk30km);
        }
        if chars_match(code, "50km W") {
            proof { lemma_codename_of(OutdoorEvent::Walk50km, code@); }
            return Some(OutdoorEvent::Walk50km);
        }
        if chars_match(code, "35km W") {
            proof { lemma_codename_of(OutdoorEvent::Walk35km, code@); }
            return Some(OutdoorEvent::Walk35km);
        }
        if chars_match(code, "3000mW") {
            proof { lemma_codename_of(OutdoorEvent::Walk3kmTrack, code@); }
            return Some(OutdoorEvent::Walk3kmTrack);
        }
        if chars_match(code, "5000mW") {
            proof { lemma_codename_of(OutdoorEvent::Walk5kmTrack, code@); }
            return Some(OutdoorEvent::Walk5kmTrack);
        }
        if chars_match(code, "10000mW") {
            proof { lemma_codename_of(OutdoorEvent::Walk10kmTrack, code@); }
            return Some(OutdoorEvent::Walk10kmTrack);
        }
        if chars_match(code, "15000mW") {
            proof { lemma_codename_of(OutdoorEvent::Walk15kmTrack, code@); }
            return Some(OutdoorEvent::Walk15kmTrack);
        }
        if chars_match(code, "20000mW") {
            proof { lemma_codename_of(OutdoorEvent::Walk20kmTrack, code@); }
            return Some(OutdoorEvent::Walk20kmTrack);
        }
        if chars_match(code, "30000mW") {
            proof { lemma_codename_of(OutdoorEvent::Walk30kmTrack, code@); }
            return Some(OutdoorEvent::Walk30kmTrack);
        }
        if chars_match(code, "35000mW") {
            proof { lemma_codename_of(OutdoorEvent::Walk35kmTrack, code@); }
            return Some(OutdoorEvent::Walk35kmTrack);
        }
        if chars_match(code, "50000mW") {
            proof { lemma_codename_of(OutdoorEvent::Walk50kmTrack, code@); }
            return Some(OutdoorEvent::Walk50kmTrack);
        }
        None
    }

    pub fn is_gender_specific(&self) -> (r: bool)
        ensures
            r == event_exclusive_gender(*self).is_some(),
    {
        self.exclusive_for_gender().is_some()
    }

    pub fn exclusive_for_gender(&self) -> (r: Option<Gender>)
        ensures
            r == event_exclusive_gender(*self),
    {
        match self {
            OutdoorEvent::Track110mHurdles => Some(Gender::Male),
            OutdoorEvent::Track100mHurdles => Some(Gender::Female),
            OutdoorEvent::Heptathlon => Some(Gender::Female),
            OutdoorEvent::Decathlon => Some(Gender::Male),
            OutdoorEvent::Walk35km => Some(Gender::Male),
            _ => None,
        }
    }

    pub fn exists_for_gender(&self, gender: &Gender) -> (r: bool)
        ensures
            r == event_exists_for(*self, *gender),
    {
        match self.exclusive_for_gender() {
            None => true,
            Some(specific_gender) => specific_gender == *gender,
        }
    }

    pub fn compare_type(&self) -> (r: EventCompareType)
        ensures
            r == event_compare_type(*self),
    {
        match self {
            OutdoorEvent::HighJump
            | OutdoorEvent::LongJump
            | OutdoorEvent::TripleJump
            | OutdoorEvent::DiscusThrow
            | OutdoorEvent::HammerThrow
            | OutdoorEvent::JavelinThrow
            | OutdoorEvent::PoleVault
            | OutdoorEvent::ShortPut
            | OutdoorEvent::Heptathlon
            | OutdoorEvent::Decathlon => EventCompareType::GreaterIsBetter,
            _ => EventCompareType::SmallerIsBetter,
        }
    }
}

} // verus!
