use vstd::prelude::*;
use vstd::string::StringExecFns;
use crate::event::{event_compare_type, event_exclusive_gender, event_exists_for, OutdoorEvent};
use crate::gender::{other_gender, Gender};
use crate::methods::{EmbeddedTables, MissingTable, ScoringMethod, TableView};
use crate::naming::table_name;
use crate::preformance::{performance_value, Preformance};
use crate::table::{as_good_as, lemma_points_monotonic, lookup_points, points_descending, table_points};
use crate::text::chars_of;

verus! {

/// The points that value `v` earns for `event` and `gender` in a catalog:
/// no score for an event that the gender does not compete in; an error where
/// the event is held for the gender but its table is not there; else what the
/// table awards.
pub open spec fn score_in(
    m: Map<Seq<char>, TableView>,
    event: OutdoorEvent,
    gender: Gender,
    v: int,
) -> Result<Option<u64>, MissingTable<OutdoorEvent>> {
    if !event_exists_for(event, gender) {
        Ok(None)
    } else if !m.contains_key(table_name(event, gender)) {
        Err(MissingTable { event, gender })
    } else {
        Ok(Some(table_points(m[table_name(event, gender)].1, event_compare_type(event), v)))
    }
}

/// An event restricted to one gender earns the other gender no score.
pub proof fn lemma_ineligible(m: Map<Seq<char>, TableView>, e: OutdoorEvent, g: Gender, v: int)
    requires
        event_exclusive_gender(e) == Some(other_gender(g)),
    ensures
        score_in(m, e, g, v) == Ok::<Option<u64>, MissingTable<OutdoorEvent>>(None),
{
}

/// A performance as good as another never scores fewer points, where the
/// table's points do not rise from one row to the next.
pub proof fn lemma_score_monotonic(
    m: Map<Seq<char>, TableView>,
    e: OutdoorEvent,
    g: Gender,
    a: int,
    b: int,
)
    requires
        m.contains_key(table_name(e, g)) ==> points_descending(m[table_name(e, g)].1),
        as_good_as(a, b, event_compare_type(e)),
    ensures
        score_in(m, e, g, a) is Ok <==> score_in(m, e, g, b) is Ok,
        match (score_in(m, e, g, a), score_in(m, e, g, b)) {
            (Ok(Some(pa)), Ok(Some(pb))) => pa >= pb,
            (Ok(None), Ok(None)) => true,
            (Err(_), Err(_)) => true,
            _ => false,
        },
{
    if m.contains_key(table_name(e, g)) {
        lemma_points_monotonic(m[table_name(e, g)].1, event_compare_type(e), a, b);
    }
}

/// Scoring by the 2017 outdoor tables.
pub struct Iaaf2017Tables {
    tables: EmbeddedTables,
}

impl Iaaf2017Tables {
    /// The catalog that scores are read from.
    pub closed spec fn catalog(&self) -> Map<Seq<char>, TableView> {
        self.tables@
    }

    /// Scores by the tables of `tables`.
    pub fn new(tables: EmbeddedTables) -> (r: Iaaf2017Tables)
        ensures
            r.catalog() == tables@,
    {
        Iaaf2017Tables { tables }
    }

    /// The name of the table file of an event and a gender.
    pub fn format_name(event: OutdoorEvent, gender: Gender) -> (r: String)
        ensures
            r@ == table_name(event, gender),
    {
        let mut r = String::from_str("Table Outdoor 2017 - ");
        r.append(gender.to_codename());
        r.append(" - ");
        r.append(event.to_codename());
        r.append(".csv");
        r
    }

    /// The points that `performance` earns in `event` for `gender`:
    /// `Ok(None)` where the event is not held for the gender; `MissingTable`
    /// where it is held but its table is not in the catalog; else the points
    /// of the first row, in stored order, whose threshold the performance
    /// reaches, or 0 where it reaches none.
    pub fn score(&self, event: OutdoorEvent, gender: Gender, performance: Preformance) -> (r: Result<
        Option<u64>,
        MissingTable<OutdoorEvent>,
    >)
        ensures
            r == score_in(self.catalog(), event, gender, performance_value(performance)),
            (event_exists_for(event, gender) && !self.catalog().contains_key(
                table_name(event, gender),
            )) <==> r is Err,
    {
        if !event.exists_for_gender(&gender) {
            return Ok(None);
        }
        let name = Iaaf2017Tables::format_name(event, gender);
        let key = chars_of(name.as_str());
        match self.tables.read_table(&key) {
            Some(table) => Ok(Some(lookup_points(table, event.compare_type(), performance.to_number()))),
            None => Err(MissingTable { event, gender }),
        }
    }
}

impl ScoringMethod<OutdoorEvent> for Iaaf2017Tables {
    open spec fn scored(&self, event: OutdoorEvent, gender: Gender, performance: Preformance) -> Result<
        Option<u64>,
        MissingTable<OutdoorEvent>,
    > {
        score_in(self.catalog(), event, gender, performance_value(performance))
    }

    fn score(&mut self, event: OutdoorEvent, gender: Gender, performance: Preformance) -> (r: Result<
        Option<u64>,
        MissingTable<OutdoorEvent>,
    >) {
        Iaaf2017Tables::score(self, event, gender, performance)
    }
}

} // verus!
