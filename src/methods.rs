use vstd::prelude::*;

pub mod iaaf_2017_tables_outdoor;

use crate::archive::{csv_records, decompress, lzma_decoded, members_view, tar_members, unpack};
use crate::event::{event_compare_type, OutdoorEvent};
use crate::gender::Gender;
use crate::naming::{base_name, base_name_chars, classify, table_kind, TableKind};
use crate::preformance::Preformance;
use crate::table::{parse_table, rows_of, sort_rows, sorted_for, TableEntry};
use crate::text::{chars_eq, chars_of};

verus! {

/// The table of an event and a gender that the event is held for is not
/// there: the reference data are incomplete.
#[derive(Clone, Copy, Debug, PartialEq, Eq, Structural)]
pub struct MissingTable<E> {
    pub event: E,
    pub gender: Gender,
}

/// A way of turning a performance in an event into points.
pub trait ScoringMethod<E> {
    /// What `score` gives.
    spec fn scored(&self, event: E, gender: Gender, performance: Preformance) -> Result<
        Option<u64>,
        MissingTable<E>,
    >;

    /// The points that `performance` earns in `event` for `gender`: `Ok(None)`
    /// where the event is not held for the gender, an error where its table is
    /// missing.
    fn score(&mut self, event: E, gender: Gender, performance: Preformance) -> (r: Result<
        Option<u64>,
        MissingTable<E>,
    >)
        ensures
            r == old(self).scored(event, gender, performance),
    ;
}

/// One loaded table: the file name it came from, its event, and its rows.
pub struct StoredTable {
    pub name: Vec<char>,
    pub event: OutdoorEvent,
    pub entries: Vec<TableEntry>,
}

/// What a catalog holds under one name: the event and the sorted rows.
pub type TableView = (OutdoorEvent, Seq<TableEntry>);

/// The catalog that a list of stored tables makes: a later table replaces
/// an earlier one of the same name.
pub open spec fn catalog_of(s: Seq<StoredTable>) -> Map<Seq<char>, TableView>
    decreases s.len(),
{
    if s.len() == 0 {
        Map::empty()
    } else {
        catalog_of(s.drop_last()).insert(s.last().name@, (s.last().event, s.last().entries@))
    }
}

/// A table that is in order: named for an outdoor table of its event, and
/// sorted for that event's comparison.
pub open spec fn well_stored(name: Seq<char>, v: TableView) -> bool {
    &&& table_kind(name) == TableKind::Outdoor(v.0)
    &&& sorted_for(v.1, event_compare_type(v.0))
}

/// The rows of the table for `data`, sorted for event `e`.
pub open spec fn loaded_rows(e: OutdoorEvent, data: Seq<u8>) -> Seq<TableEntry> {
    sort_rows(rows_of(csv_records(data)), event_compare_type(e))
}

/// The catalog after the archive member at `path` with bytes `data` is taken
/// up: outdoor tables of known events are added under their file name, and
/// every other member is passed over.
pub open spec fn with_member(
    m: Map<Seq<char>, TableView>,
    path: Seq<char>,
    data: Seq<u8>,
) -> Map<Seq<char>, TableView> {
    match table_kind(base_name(path)) {
        TableKind::Outdoor(e) => m.insert(base_name(path), (e, loaded_rows(e, data))),
        _ => m,
    }
}

/// The catalog after all the members `ms` are taken up, in order.
pub open spec fn with_members(
    m: Map<Seq<char>, TableView>,
    ms: Seq<(Seq<char>, Seq<u8>)>,
) -> Map<Seq<char>, TableView>
    decreases ms.len(),
{
    if ms.len() == 0 {
        m
    } else {
        with_member(with_members(m, ms.drop_last()), ms.last().0, ms.last().1)
    }
}

/// The catalog that a list of compressed archives makes, or `None` where one
/// of them cannot be decompressed or unpacked.
pub open spec fn catalog_from(archives: Seq<Seq<u8>>) -> Option<Map<Seq<char>, TableView>>
    decreases archives.len(),
{
    if archives.len() == 0 {
        Some(Map::empty())
    } else {
        match catalog_from(archives.drop_last()) {
            None => None,
            Some(m) => match lzma_decoded(archives.last()) {
                None => None,
                Some(tar) => match tar_members(tar) {
                    None => None,
                    Some(ms) => Some(with_members(m, ms)),
                },
            },
        }
    }
}

/// The scoring tables, each kept under the name of the file it came from.
pub struct EmbeddedTables {
    tables: Vec<StoredTable>,
}

impl View for EmbeddedTables {
    type V = Map<Seq<char>, TableView>;

    closed spec fn view(&self) -> Map<Seq<char>, TableView> {
        catalog_of(self.tables@)
    }
}

proof fn lemma_catalog_lookup(s: Seq<StoredTable>, k: Seq<char>, i: int)
    requires
        0 <= i <= s.len(),
        forall|j: int| i <= j < s.len() ==> (#[trigger] s[j]).name@ != k,
    ensures
        catalog_of(s).contains_key(k) == catalog_of(s.take(i)).contains_key(k),
        catalog_of(s)[k] == catalog_of(s.take(i))[k],
    decreases s.len(),
{
    if s.len() > i {
        lemma_catalog_lookup(s.drop_last(), k, i);
        assert(s.drop_last().take(i) =~= s.take(i));
    } else {
        assert(s.take(i) =~= s);
    }
}

proof fn lemma_catalog_well_stored(s: Seq<StoredTable>)
    requires
        forall|j: int| 0 <= j < s.len() ==> well_stored(
            (#[trigger] s[j]).name@,
            (s[j].event, s[j].entries@),
        ),
    ensures
        forall|k: Seq<char>| #[trigger] catalog_of(s).contains_key(k) ==> well_stored(k, catalog_of(s)[k]),
    decreases s.len(),
{
    if s.len() > 0 {
        let t = s.drop_last();
        assert forall|j: int| 0 <= j < t.len() implies well_stored(
            (#[trigger] t[j]).name@,
            (t[j].event, t[j].entries@),
        ) by {
            assert(t[j] == s[j]);
        }
        lemma_catalog_well_stored(t);
        assert(well_stored(s.last().name@, (s.last().event, s.last().entries@)));
        assert forall|k: Seq<char>| #[trigger] catalog_of(s).contains_key(k) implies well_stored(
            k,
            catalog_of(s)[k],
        ) by {
            if k != s.last().name@ {
                assert(catalog_of(t).contains_key(k));
            }
        }
    }
}

impl EmbeddedTables {
    /// Every stored table is named for its event and sorted for it.
    pub closed spec fn wf(&self) -> bool {
        forall|j: int| 0 <= j < self.tables@.len() ==> well_stored(
            (#[trigger] self.tables@[j]).name@,
            (self.tables@[j].event, self.tables@[j].entries@),
        )
    }

    /// A catalog with no table in it.
    pub fn new() -> (r: EmbeddedTables)
        ensures
            r.wf(),
            r@ == Map::<Seq<char>, TableView>::empty(),
    {
        EmbeddedTables { tables: Vec::new() }
    }

    /// The rows of the table kept under `name`.
    pub fn read_table(&self, name: &Vec<char>) -> (r: Option<&Vec<TableEntry>>)
        ensures
            match r {
                Some(t) => self@.contains_key(name@) && self@[name@].1 == t@,
                None => !self@.contains_key(name@),
            },
    {
        let mut i: usize = self.tables.len();
        while i > 0
            invariant
                i <= self.tables.len(),
                forall|j: int| i <= j < self.tables@.len() ==> (#[trigger] self.tables@[j]).name@
                    != name@,
            decreases i,
        {
            let t = &self.tables[i - 1];
            if chars_eq(&t.name, name) {
                proof {
                    let s = self.tables@;
                    lemma_catalog_lookup(s, name@, i as int);
                    assert(s.take(i as int).drop_last() =~= s.take(i - 1));
                }
                return Some(&t.entries);
            }
            i = i - 1;
        }
        proof {
            lemma_catalog_lookup(self.tables@, name@, 0);
        }
        None
    }

    /// Takes up one archive member: an outdoor table of a known event is
    /// parsed, sorted and kept under its file name; any other member is
    /// passed over. Says which kind of member it was.
    pub fn add_file(&mut self, path: &str, data: &[u8]) -> (kind: TableKind)
        requires
            old(self).wf(),
        ensures
            final(self).wf(),
            kind == table_kind(base_name(path@)),
            final(self)@ == with_member(old(self)@, path@, data@),
    {
        let path_chars = chars_of(path);
        let name = base_name_chars(&path_chars);
        let kind = classify(&name);
        match kind {
            TableKind::Outdoor(event) => {
                let entries = parse_table(data, event.compare_type());
                let ghost nv = name@;
                self.tables.push(StoredTable { name, event, entries });
                proof {
                    assert(self.tables@.drop_last() =~= old(self).tables@);
                    assert forall|j: int| 0 <= j < self.tables@.len() implies well_stored(
                        (#[trigger] self.tables@[j]).name@,
                        (self.tables@[j].event, self.tables@[j].entries@),
                    ) by {
                        if j < old(self).tables@.len() {
                            assert(self.tables@[j] == old(self).tables@[j]);
                        }
                    }
                }
            },
            _ => {},
        }
        kind
    }

    /// Takes up every member of one LZMA-compressed tar archive, in order.
    /// Fails, leaving the catalog as it was, where the archive cannot be
    /// decompressed or unpacked; else gives each member's path and kind.
    pub fn load_archive(&mut self, archive: &[u8]) -> (r: Option<Vec<(String, TableKind)>>)
        requires
            old(self).wf(),
        ensures
            final(self).wf(),
            match r {
                Some(kinds) => lzma_decoded(archive@) is Some && tar_members(
                    lzma_decoded(archive@)->0,
                ) is Some && ({
                    let ms = tar_members(lzma_decoded(archive@)->0)->0;
                    &&& final(self)@ == with_members(old(self)@, ms)
                    &&& kinds@.len() == ms.len()
                    &&& forall|i: int|
                        0 <= i < ms.len() ==> (#[trigger] kinds@[i]).0@ == ms[i].0 && kinds@[i].1
                            == table_kind(base_name(ms[i].0))
                }),
                None => final(self)@ == old(self)@ && (lzma_decoded(archive@) is None
                    || tar_members(lzma_decoded(archive@)->0) is None),
            },
    {
        let tar = match decompress(archive) {
            Some(t) => t,
            None => {
                return None;
            },
        };
        let members = match unpack(tar.as_slice()) {
            Some(m) => m,
            None => {
                return None;
            },
        };
        let ghost before = self@;
        let ghost ms = members_view(members@);
        let mut kinds: Vec<(String, TableKind)> = Vec::new();
        let mut j: usize = 0;
        while j < members.len()
            invariant
                j <= members.len(),
                ms == members_view(members@),
                self.wf(),
                self@ == with_members(before, ms.take(j as int)),
                kinds@.len() == j,
                forall|i: int|
                    0 <= i < j ==> (#[trigger] kinds@[i]).0@ == ms[i].0 && kinds@[i].1 == table_kind(
                        base_name(ms[i].0),
                    ),
            decreases members.len() - j,
        {
            let (path, data) = (&members[j].0, &members[j].1);
            assert(ms.take(j as int + 1).drop_last() =~= ms.take(j as int));
            let kind = self.add_file(path.as_str(), data.as_slice());
            kinds.push((path.clone(), kind));
            j = j + 1;
        }
        assert(ms.take(members.len() as int) =~= ms);
        Some(kinds)
    }

    /// Loads every outdoor table from a list of LZMA-compressed tar archives.
    /// Fails where an archive cannot be decompressed or unpacked.
    pub fn init(archives: &Vec<Vec<u8>>) -> (r: Option<EmbeddedTables>)
        ensures
            match r {
                Some(t) => t.wf() && catalog_from(archives@.map_values(|a: Vec<u8>| a@)) == Some(t@),
                None => catalog_from(archives@.map_values(|a: Vec<u8>| a@)) is None,
            },
    {
        let ghost views = archives@.map_values(|a: Vec<u8>| a@);
        let mut tables = EmbeddedTables::new();
        let mut i: usize = 0;
        while i < archives.len()
            invariant
                i <= archives.len(),
                views == archives@.map_values(|a: Vec<u8>| a@),
                tables.wf(),
                catalog_from(views.take(i as int)) == Some(tables@),
            decreases archives.len() - i,
        {
            assert(views.take(i as int + 1).drop_last() =~= views.take(i as int));
            if tables.load_archive(archives[i].as_slice()).is_none() {
                proof {
                    lemma_catalog_from_fails(views, i as int);
                }
                return None;
            }
            i = i + 1;
        }
        assert(views.take(archives.len() as int) =~= views);
        Some(tables)
    }
}

/// Once one archive cannot be read, the whole list cannot.
proof fn lemma_catalog_from_fails(archives: Seq<Seq<u8>>, i: int)
    requires
        0 <= i < archives.len(),
        catalog_from(archives.take(i)) is Some,
        lzma_decoded(archives[i]) is None || tar_members(lzma_decoded(archives[i])->0) is None,
    ensures
        catalog_from(archives) is None,
    decreases archives.len(),
{
    if archives.len() > i + 1 {
        assert(archives.drop_last().take(i) =~= archives.take(i));
        lemma_catalog_from_fails(archives.drop_last(), i);
    } else {
        assert(archives.take(i) =~= archives.drop_last());
    }
}

/// Every table of a well-formed catalog is kept under the file name of an
/// outdoor table of its event, and sorted for that event's comparison:
/// ascending thresholds for timed events, descending ones for the others.
pub proof fn lemma_tables_sorted(t: &EmbeddedTables)
    requires
        t.wf(),
    ensures
        forall|k: Seq<char>| #[trigger] t@.contains_key(k) ==> {
            &&& table_kind(k) == TableKind::Outdoor(t@[k].0)
            &&& sorted_for(t@[k].1, event_compare_type(t@[k].0))
        },
{
    lemma_catalog_well_stored(t.tables@);
}

} // verus!
