use iaaf_scoring::event::{EventCompareType, OutdoorEvent};
use iaaf_scoring::gender::Gender;
use iaaf_scoring::methods::iaaf_2017_tables_outdoor::Iaaf2017Tables;
use iaaf_scoring::methods::{EmbeddedTables, MissingTable, ScoringMethod};
use iaaf_scoring::naming::{classify, TableKind};
use iaaf_scoring::number::{parse_points, parse_thousandths};
use iaaf_scoring::preformance::Preformance;
use iaaf_scoring::table::{lookup_points, parse_table, sort_table, TableEntry};

fn tar_lzma(files: &[(&str, &str)]) -> Vec<u8> {
    let mut builder = tar::Builder::new(Vec::new());
    for (path, body) in files {
        let mut header = tar::Header::new_gnu();
        header.set_size(body.len() as u64);
        header.set_mode(0o644);
        header.set_cksum();
        builder.append_data(&mut header, path, body.as_bytes()).unwrap();
    }
    let tar = builder.into_inner().unwrap();
    let mut out = Vec::new();
    lzma_rs::lzma_compress(&mut std::io::Cursor::new(tar), &mut out).unwrap();
    out
}

fn chars(s: &str) -> Vec<char> {
    s.chars().collect()
}

fn sample_tables() -> Iaaf2017Tables {
    let archive = tar_lzma(&[
        (
            "outdoor/Table Outdoor 2017 - MALE - 200m.csv",
            "Time,Points\n26.16,443\n26.14,445\n26.15,444\n",
        ),
        (
            "outdoor/Table Outdoor 2017 - MALE - 100m.csv",
            "Time,Points\n15.36,66\n9.40,1400\n15.33,68\n9.41,1399\n15.35,67\n",
        ),
        (
            "outdoor/Table Outdoor 2017 - FEMALE - HJ.csv",
            "Height,Points\n1.64,1000\n2.10,1399\n2.09,1392\n",
        ),
        (
            "outdoor/Table Outdoor 2017 - FEMALE - 100m.csv",
            "Time,Points\n21.60,1\n11.00,1200\n",
        ),
        (
            "indoor/Table Indoor 2017 - MALE - 60m.csv",
            "Time,Points\n6.50,1200\n",
        ),
    ]);
    let tables = EmbeddedTables::init(&vec![archive]).unwrap();
    Iaaf2017Tables::new(tables)
}

#[test]
fn test_out_of_table_preformance() {
    let tables = sample_tables();

    assert_eq!(tables.score(OutdoorEvent::Track200m, Gender::Male, Preformance::Time(26150)).unwrap().unwrap(), 444);

    // falls in between two table entries
    assert_eq!(tables.score(OutdoorEvent::Track100m, Gender::Male, Preformance::Time(15340)).unwrap().unwrap(), 67);

    // also falls off the table
    assert_eq!(tables.score(OutdoorEvent::HighJump, Gender::Female, Preformance::Distance(2200)).unwrap().unwrap(), 1399);

    // falls off the table
    assert_eq!(tables.score(OutdoorEvent::Track100m, Gender::Male, Preformance::Time(9400)).unwrap().unwrap(), 1400);
    assert_eq!(tables.score(OutdoorEvent::Track100m, Gender::Female, Preformance::Time(21700)).unwrap().unwrap(), 0);
}

#[test]
fn ineligible_gender_has_no_score() {
    let tables = sample_tables();
    assert_eq!(tables.score(OutdoorEvent::Track110mHurdles, Gender::Female, Preformance::Time(13000)), Ok(None));
    assert_eq!(tables.score(OutdoorEvent::Heptathlon, Gender::Male, Preformance::Points(6000)), Ok(None));
}

#[test]
fn missing_table_is_an_error() {
    let tables = sample_tables();
    assert_eq!(
        tables.score(OutdoorEvent::Marathon, Gender::Male, Preformance::Time(7_200_000)),
        Err(MissingTable { event: OutdoorEvent::Marathon, gender: Gender::Male })
    );
    // an ineligible query is no error, even with the table missing
    assert_eq!(tables.score(OutdoorEvent::Decathlon, Gender::Female, Preformance::Points(7000)), Ok(None));
    // indoor tables are not taken up
    let empty = Iaaf2017Tables::new(EmbeddedTables::new());
    assert_eq!(
        empty.score(OutdoorEvent::Track100m, Gender::Male, Preformance::Time(10000)),
        Err(MissingTable { event: OutdoorEvent::Track100m, gender: Gender::Male })
    );
}

#[test]
fn better_performance_never_scores_less() {
    let tables = sample_tables();
    let mut last = u64::MAX;
    for t in [9000u64, 9400, 9405, 9410, 15000, 15340, 15350, 15360, 20000] {
        let p = tables.score(OutdoorEvent::Track100m, Gender::Male, Preformance::Time(t)).unwrap().unwrap();
        assert!(p <= last);
        last = p;
    }
    let mut last = 0u64;
    for d in [1000i64, 1640, 2000, 2090, 2095, 2100, 3000] {
        let p = tables.score(OutdoorEvent::HighJump, Gender::Female, Preformance::Distance(d)).unwrap().unwrap();
        assert!(p >= last);
        last = p;
    }
}

#[test]
fn table_names() {
    assert_eq!(
        Iaaf2017Tables::format_name(OutdoorEvent::Track100m, Gender::Male),
        "Table Outdoor 2017 - MALE - 100m.csv"
    );
    assert_eq!(
        Iaaf2017Tables::format_name(OutdoorEvent::Track3kmSteeplechase, Gender::Female),
        "Table Outdoor 2017 - FEMALE - 3000m SC.csv"
    );
}

#[test]
fn file_names_are_classified() {
    assert_eq!(
        classify(&chars("Table Outdoor 2017 - MALE - 100m.csv")),
        TableKind::Outdoor(OutdoorEvent::Track100m)
    );
    assert_eq!(
        classify(&chars("Table Outdoor 2017 - FEMALE - 2000m SC.csv")),
        TableKind::Outdoor(OutdoorEvent::Track2kmSteeplechase)
    );
    assert_eq!(
        classify(&chars("table OUTDOOR 2017 - FEMALE -  3000mW .csv")),
        TableKind::Outdoor(OutdoorEvent::Walk3kmTrack)
    );
    assert_eq!(
        classify(&chars("Table Outdoor 2017 - MALE -\u{a0}100m\u{3000}.csv")),
        TableKind::Outdoor(OutdoorEvent::Track100m)
    );
    assert_eq!(classify(&chars("Table Indoor 2017 - MALE - 60m.csv")), TableKind::Indoor);
    assert_eq!(classify(&chars("Table 2017 - MALE - 100m.csv")), TableKind::Unmarked);
    assert_eq!(classify(&chars("Table Outdoor 2017 - MALE - 60m.csv")), TableKind::UnknownEvent);
}

#[test]
fn loading_skips_other_files_and_keeps_tables_sorted() {
    let archive = tar_lzma(&[
        ("Table Outdoor 2017 - MALE - LJ.csv", "Distance,Points\n7.00,1000\n8.95,1400\nbad,5\n7.50,1100,9\n"),
        ("Table Indoor 2017 - MALE - LJ.csv", "Distance,Points\n1.00,1\n"),
        ("notes.txt", "nothing"),
        ("Table Outdoor 2017 - MALE - 60m.csv", "Time,Points\n6.50,1200\n"),
    ]);
    let tables = EmbeddedTables::init(&vec![archive]).unwrap();
    let lj = tables.read_table(&chars("Table Outdoor 2017 - MALE - LJ.csv")).unwrap();
    assert_eq!(
        lj,
        &vec![
            TableEntry { performance: 8950, points: 1400 },
            TableEntry { performance: 7000, points: 1000 },
        ]
    );
    assert!(tables.read_table(&chars("Table Indoor 2017 - MALE - LJ.csv")).is_none());
    assert!(tables.read_table(&chars("Table Outdoor 2017 - MALE - 60m.csv")).is_none());
    assert!(tables.read_table(&chars("notes.txt")).is_none());
}

#[test]
fn later_file_of_the_same_name_replaces_earlier() {
    let first = tar_lzma(&[("Table Outdoor 2017 - MALE - SP.csv", "Distance,Points\n20.00,1200\n")]);
    let second = tar_lzma(&[("Table Outdoor 2017 - MALE - SP.csv", "Distance,Points\n21.00,1250\n")]);
    let tables = Iaaf2017Tables::new(EmbeddedTables::init(&vec![first, second]).unwrap());
    assert_eq!(tables.score(OutdoorEvent::ShortPut, Gender::Male, Preformance::Distance(20500)), Ok(Some(0)));
    assert_eq!(tables.score(OutdoorEvent::ShortPut, Gender::Male, Preformance::Distance(21000)), Ok(Some(1250)));
}

#[test]
fn unreadable_archive_fails_the_load() {
    assert!(EmbeddedTables::init(&vec![vec![1, 2, 3]]).is_none());
    let good = tar_lzma(&[("Table Outdoor 2017 - MALE - SP.csv", "Distance,Points\n20.00,1200\n")]);
    assert!(EmbeddedTables::init(&vec![good, b"not lzma".to_vec()]).is_none());
    assert!(EmbeddedTables::init(&vec![]).is_some());
}

#[test]
fn add_file_reports_the_kind() {
    let mut tables = EmbeddedTables::new();
    let kind = tables.add_file("dir/Table Outdoor 2017 - FEMALE - PV.csv", b"H,P\n4.50,1100\n4.90,1250\n");
    assert_eq!(kind, TableKind::Outdoor(OutdoorEvent::PoleVault));
    assert_eq!(tables.add_file("indoor/Table Indoor - MALE - HJ.csv", b"H,P\n2.0,1\n"), TableKind::Indoor);
    let pv = tables.read_table(&chars("Table Outdoor 2017 - FEMALE - PV.csv")).unwrap();
    assert_eq!(pv[0], TableEntry { performance: 4900, points: 1250 });
    assert_eq!(pv.len(), 2);
}

#[test]
fn decimals_in_thousandths() {
    assert_eq!(parse_thousandths("26.15"), Some(26150));
    assert_eq!(parse_thousandths("9.4"), Some(9400));
    assert_eq!(parse_thousandths("12"), Some(12000));
    assert_eq!(parse_thousandths("0.005"), Some(5));
    assert_eq!(parse_thousandths("-1.5"), Some(-1500));
    assert_eq!(parse_thousandths("+2."), Some(2000));
    assert_eq!(parse_thousandths(".25"), Some(250));
    assert_eq!(parse_thousandths("1.2345"), Some(1234));
    assert_eq!(parse_thousandths("26.15099"), Some(26150));
    assert_eq!(parse_thousandths("-0.0019"), Some(-1));
    assert_eq!(parse_thousandths("1.234x"), None);
    assert_eq!(parse_thousandths("1.2.3"), None);
    assert_eq!(parse_thousandths("."), None);
    assert_eq!(parse_thousandths(""), None);
    assert_eq!(parse_thousandths("-"), None);
    assert_eq!(parse_thousandths("abc"), None);
    assert_eq!(parse_thousandths(" 1.0"), None);
    assert_eq!(parse_thousandths("9223372036854775.807"), Some(i64::MAX));
    assert_eq!(parse_thousandths("9223372036854775.808"), None);
    assert_eq!(parse_thousandths("-9223372036854775.808"), Some(i64::MIN));
    assert_eq!(parse_thousandths("99999999999999999999"), None);
}

#[test]
fn points_values() {
    assert_eq!(parse_points("444"), Some(444));
    assert_eq!(parse_points("+7"), Some(7));
    assert_eq!(parse_points("0"), Some(0));
    assert_eq!(parse_points("18446744073709551615"), Some(u64::MAX));
    assert_eq!(parse_points("18446744073709551616"), None);
    assert_eq!(parse_points("-1"), None);
    assert_eq!(parse_points("+"), None);
    assert_eq!(parse_points(""), None);
    assert_eq!(parse_points("1.0"), None);
}

#[test]
fn sorting_is_by_direction_and_stable() {
    let rows = vec![
        TableEntry { performance: 300, points: 1 },
        TableEntry { performance: 100, points: 2 },
        TableEntry { performance: 200, points: 3 },
        TableEntry { performance: 100, points: 4 },
    ];
    let up = sort_table(rows.clone(), EventCompareType::SmallerIsBetter);
    let up_points: Vec<u64> = up.iter().map(|e| e.points).collect();
    assert_eq!(up_points, vec![2, 4, 3, 1]);
    let down = sort_table(rows, EventCompareType::GreaterIsBetter);
    let down_points: Vec<u64> = down.iter().map(|e| e.points).collect();
    assert_eq!(down_points, vec![1, 3, 2, 4]);
}

#[test]
fn parse_table_reads_and_orders() {
    let t = parse_table(b"Time,Points\n10.50,900\n10.00,1000\nx,1\n", EventCompareType::SmallerIsBetter);
    assert_eq!(
        t,
        vec![TableEntry { performance: 10000, points: 1000 }, TableEntry { performance: 10500, points: 900 }]
    );
    assert!(parse_table(b"", EventCompareType::GreaterIsBetter).is_empty());
}

#[test]
fn lookup_boundaries() {
    let t = vec![
        TableEntry { performance: 10000, points: 1000 },
        TableEntry { performance: 11000, points: 800 },
    ];
    assert_eq!(lookup_points(&t, EventCompareType::SmallerIsBetter, 9000), 1000);
    assert_eq!(lookup_points(&t, EventCompareType::SmallerIsBetter, 10000), 1000);
    assert_eq!(lookup_points(&t, EventCompareType::SmallerIsBetter, 10001), 800);
    assert_eq!(lookup_points(&t, EventCompareType::SmallerIsBetter, 11001), 0);
    assert_eq!(lookup_points(&vec![], EventCompareType::GreaterIsBetter, 5), 0);
}

#[test]
fn performance_numbers() {
    assert_eq!(Preformance::Distance(1640).to_number(), 1640);
    assert_eq!(Preformance::Time(26150).to_number(), 26150);
    assert_eq!(Preformance::Points(8000).to_number(), 8_000_000);
    assert_eq!(Preformance::Distance(-5).to_number(), -5);
}

#[test]
fn load_archive_lists_members_and_kinds() {
    let archive = tar_lzma(&[
        ("outdoor/Table Outdoor 2017 - MALE - DT.csv", "Distance,Points\n70.00,1250\n"),
        ("indoor/Table Indoor 2017 - MALE - 60m.csv", "Time,Points\n6.50,1200\n"),
        ("readme", "x"),
    ]);
    let mut tables = EmbeddedTables::new();
    let kinds = tables.load_archive(&archive).unwrap();
    assert_eq!(
        kinds,
        vec![
            (
                String::from("outdoor/Table Outdoor 2017 - MALE - DT.csv"),
                TableKind::Outdoor(OutdoorEvent::DiscusThrow)
            ),
            (String::from("indoor/Table Indoor 2017 - MALE - 60m.csv"), TableKind::Indoor),
            (String::from("readme"), TableKind::Unmarked),
        ]
    );
    assert!(tables.read_table(&chars("Table Outdoor 2017 - MALE - DT.csv")).is_some());
    assert!(tables.load_archive(b"broken").is_none());
    assert!(tables.read_table(&chars("Table Outdoor 2017 - MALE - DT.csv")).is_some());
}

#[test]
fn scoring_through_the_trait() {
    let mut tables = sample_tables();
    let r = ScoringMethod::score(&mut tables, OutdoorEvent::Track200m, Gender::Male, Preformance::Time(26150));
    assert_eq!(r, Ok(Some(444)));
    let r = ScoringMethod::score(&mut tables, OutdoorEvent::LongJump, Gender::Female, Preformance::Distance(6000));
    assert_eq!(r, Err(MissingTable { event: OutdoorEvent::LongJump, gender: Gender::Female }));
}
