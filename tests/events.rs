use iaaf_scoring::event::{EventCompareType, OutdoorEvent};
use iaaf_scoring::gender::Gender;

fn all_events() -> Vec<OutdoorEvent> {
    vec![
    OutdoorEvent::HighJump,
    OutdoorEvent::LongJump,
    OutdoorEvent::TripleJump,
    OutdoorEvent::DiscusThrow,
    OutdoorEvent::HammerThrow,
    OutdoorEvent::JavelinThrow,
    OutdoorEvent::PoleVault,
    OutdoorEvent::ShortPut,
    OutdoorEvent::Heptathlon,
    OutdoorEvent::Decathlon,
    OutdoorEvent::Track100m,
    OutdoorEvent::Track200m,
    OutdoorEvent::Track300m,
    OutdoorEvent::Track400m,
    OutdoorEvent::Track500m,
    OutdoorEvent::Track100mHurdles,
    OutdoorEvent::Track110mHurdles,
    OutdoorEvent::Track400mHurdles,
    OutdoorEvent::Track2kmSteeplechase,
    OutdoorEvent::Track3kmSteeplechase,
    OutdoorEvent::Track4x100mRelay,
    OutdoorEvent::Track4x200mRelay,
    OutdoorEvent::Track4x400mRelay,
    OutdoorEvent::Track600m,
    OutdoorEvent::Track800m,
    OutdoorEvent::Track1000m,
    OutdoorEvent::Track1500m,
    OutdoorEvent::Track1Mile,
    OutdoorEvent::Track2Miles,
    OutdoorEvent::Track2000m,
    OutdoorEvent::Track3000m,
    OutdoorEvent::Track5000m,
    OutdoorEvent::Track10000m,
    OutdoorEvent::Road5km,
    OutdoorEvent::Road10km,
    OutdoorEvent::Road15km,
    OutdoorEvent::Road20km,
    OutdoorEvent::Road25km,
    OutdoorEvent::Road30km,
    OutdoorEvent::Road100km,
    OutdoorEvent::Road10Miles,
    OutdoorEvent::HalfMarathon,
    OutdoorEvent::Marathon,
    OutdoorEvent::Walk3km,
    OutdoorEvent::Walk5km,
    OutdoorEvent::Walk10km,
    OutdoorEvent::Walk15km,
    OutdoorEvent::Walk20km,
    OutdoorEvent::Walk30km,
    OutdoorEvent::Walk35km,
    OutdoorEvent::Walk50km,
    OutdoorEvent::Walk3kmTrack,
    OutdoorEvent::Walk5kmTrack,
    OutdoorEvent::Walk10kmTrack,
    OutdoorEvent::Walk15kmTrack,
    OutdoorEvent::Walk20kmTrack,
    OutdoorEvent::Walk30kmTrack,
    OutdoorEvent::Walk35kmTrack,
    OutdoorEvent::Walk50kmTrack,
    ]
}

#[test]
fn event_test_gender_specific_events() {
    assert!(OutdoorEvent::Track110mHurdles.exists_for_gender(&Gender::Male));
    assert!(!OutdoorEvent::Track110mHurdles.exists_for_gender(&Gender::Female));

    assert!(!OutdoorEvent::HighJump.is_gender_specific());

    assert!(OutdoorEvent::LongJump.exists_for_gender(&Gender::Female));
    assert!(OutdoorEvent::LongJump.exists_for_gender(&Gender::Male));
}

#[test]
fn outdoor_test_gender_specific_events() {
    assert!(OutdoorEvent::Track110mHurdles.exists_for_gender(&Gender::Male));
    assert!(!OutdoorEvent::Track110mHurdles.exists_for_gender(&Gender::Female));

    assert!(!OutdoorEvent::HighJump.is_gender_specific());

    assert!(OutdoorEvent::LongJump.exists_for_gender(&Gender::Female));
    assert!(OutdoorEvent::LongJump.exists_for_gender(&Gender::Male));
}

#[test]
fn every_event_codename_reads_back() {
    for e in all_events() {
        assert_eq!(OutdoorEvent::from_codename(e.to_codename()), Some(e));
    }
}

#[test]
fn event_codenames_are_distinct_and_non_empty() {
    let events = all_events();
    for (i, a) in events.iter().enumerate() {
        assert!(!a.to_codename().is_empty());
        for b in events.iter().skip(i + 1) {
            assert_ne!(a.to_codename(), b.to_codename());
        }
    }
}

#[test]
fn sample_event_codenames() {
    assert_eq!(OutdoorEvent::HighJump.to_codename(), "HJ");
    assert_eq!(OutdoorEvent::Track100m.to_codename(), "100m");
    assert_eq!(OutdoorEvent::Walk3kmTrack.to_codename(), "3000mW");
    assert_eq!(OutdoorEvent::Track2kmSteeplechase.to_codename(), "2000m SC");
    assert_eq!(OutdoorEvent::from_codename("3km W"), Some(OutdoorEvent::Walk3km));
}

#[test]
fn unknown_event_codename_is_not_found() {
    assert_eq!(OutdoorEvent::from_codename("60m"), None);
    assert_eq!(OutdoorEvent::from_codename(""), None);
    assert_eq!(OutdoorEvent::from_codename("hj"), None);
    assert_eq!(OutdoorEvent::from_codename(" HJ"), None);
}

#[test]
fn gender_codenames_read_back() {
    for g in [Gender::Male, Gender::Female] {
        assert_eq!(Gender::from_codename(g.to_codename()), Some(g));
    }
    assert_eq!(Gender::Male.to_codename(), "MALE");
    assert_eq!(Gender::Female.to_codename(), "FEMALE");
    assert_eq!(Gender::from_codename("W"), Some(Gender::Female));
    assert_eq!(Gender::from_codename("M"), Some(Gender::Male));
    assert_eq!(Gender::from_codename("X"), None);
    assert_eq!(Gender::from_codename("male"), None);
}

#[test]
fn gender_eligibility_is_consistent() {
    for e in all_events() {
        match e.exclusive_for_gender() {
            Some(Gender::Male) => {
                assert!(e.exists_for_gender(&Gender::Male));
                assert!(!e.exists_for_gender(&Gender::Female));
                assert!(e.is_gender_specific());
            }
            Some(Gender::Female) => {
                assert!(e.exists_for_gender(&Gender::Female));
                assert!(!e.exists_for_gender(&Gender::Male));
                assert!(e.is_gender_specific());
            }
            None => {
                assert!(e.exists_for_gender(&Gender::Male));
                assert!(e.exists_for_gender(&Gender::Female));
                assert!(!e.is_gender_specific());
            }
        }
    }
    assert_eq!(OutdoorEvent::Heptathlon.exclusive_for_gender(), Some(Gender::Female));
    assert_eq!(OutdoorEvent::Decathlon.exclusive_for_gender(), Some(Gender::Male));
    assert_eq!(OutdoorEvent::Walk35km.exclusive_for_gender(), Some(Gender::Male));
    assert_eq!(OutdoorEvent::Walk35kmTrack.exclusive_for_gender(), None);
}

#[test]
fn compare_types() {
    assert_eq!(OutdoorEvent::HighJump.compare_type(), EventCompareType::GreaterIsBetter);
    assert_eq!(OutdoorEvent::Decathlon.compare_type(), EventCompareType::GreaterIsBetter);
    assert_eq!(OutdoorEvent::ShortPut.compare_type(), EventCompareType::GreaterIsBetter);
    assert_eq!(OutdoorEvent::Track100m.compare_type(), EventCompareType::SmallerIsBetter);
    assert_eq!(OutdoorEvent::Marathon.compare_type(), EventCompareType::SmallerIsBetter);
    assert_eq!(OutdoorEvent::Walk50kmTrack.compare_type(), EventCompareType::SmallerIsBetter);
}
