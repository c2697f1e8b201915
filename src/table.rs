use vstd::prelude::*;
use crate::archive::{csv_records, read_records, records_view};
use crate::event::EventCompareType;
use crate::number::{parse_points, parse_thousandths, points_of, thousandths_of};

verus! {

broadcast use vstd::seq_lib::group_to_multiset_ensures;

/// One row of a scoring table: the points awarded for reaching `performance`.
///
/// Performances are held in thousandths of their unit: millimetres for
/// distances, milliseconds for times, thousandths of a point for points.
#[derive(Clone, Copy, Debug, PartialEq, Eq, Structural)]
pub struct TableEntry {
    pub performance: i64,
    pub points: u64,
}

/// Whether a row's threshold is reached by the raw value `v`.
pub open spec fn reaches(t: TableEntry, c: EventCompareType, v: int) -> bool {
    match c {
        EventCompareType::SmallerIsBetter => t.performance >= v,
        EventCompareType::GreaterIsBetter => t.performance <= v,
    }
}

/// The points of the first row whose threshold `v` reaches, or 0 when it
/// reaches none.
pub open spec fn table_points(t: Seq<TableEntry>, c: EventCompareType, v: int) -> u64
    decreases t.len(),
{
    if t.len() == 0 {
        0
    } else if reaches(t[0], c, v) {
        t[0].points
    } else {
        table_points(t.drop_first(), c, v)
    }
}

/// Whether row `a` may stand before row `b`: the better threshold first.
pub open spec fn in_order(a: TableEntry, b: TableEntry, c: EventCompareType) -> bool {
    match c {
        EventCompareType::SmallerIsBetter => a.performance <= b.performance,
        EventCompareType::GreaterIsBetter => a.performance >= b.performance,
    }
}

/// A table whose thresholds run from the best to the worst.
pub open spec fn sorted_for(t: Seq<TableEntry>, c: EventCompareType) -> bool {
    forall|i: int, j: int| 0 <= i < j < t.len() ==> in_order(#[trigger] t[i], #[trigger] t[j], c)
}

/// A table whose points never rise from one row to the next.
pub open spec fn points_descending(t: Seq<TableEntry>) -> bool {
    forall|i: int, j: int| 0 <= i < j < t.len() ==> #[trigger] t[i].points >= #[trigger] t[j].points
}

/// Scans a table in its stored order for the points that the raw value `v`
/// earns.
pub fn lookup_points(table: &Vec<TableEntry>, c: EventCompareType, v: i128) -> (r: u64)
    ensures
        r == table_points(table@, c, v as int),
{
    let mut i: usize = 0;
    assert(table@.subrange(0, table.len() as int) =~= table@);
    while i < table.len()
        invariant
            i <= table.len(),
            table_points(table@, c, v as int) == table_points(
                table@.subrange(i as int, table.len() as int),
                c,
                v as int,
            ),
        decreases table.len() - i,
    {
        let e = table[i];
        let hit = match c {
            EventCompareType::SmallerIsBetter => e.performance as i128 >= v,
            EventCompareType::GreaterIsBetter => e.performance as i128 <= v,
        };
        assert(table@.subrange(i as int, table.len() as int).drop_first() =~= table@.subrange(
            i as int + 1,
            table.len() as int,
        ));
        if hit {
            return e.points;
        }
        i = i + 1;
    }
    0
}

/// Whether row `a` has a strictly better threshold than row `b`.
pub open spec fn strictly_before(a: TableEntry, b: TableEntry, c: EventCompareType) -> bool {
    !in_order(b, a, c)
}

/// `s` with `x` placed after every row that it does not strictly beat.
pub open spec fn insert_in_order(s: Seq<TableEntry>, x: TableEntry, c: EventCompareType) -> Seq<
    TableEntry,
>
    decreases s.len(),
{
    if s.len() == 0 {
        seq![x]
    } else if strictly_before(x, s[0], c) {
        seq![x] + s
    } else {
        seq![s[0]] + insert_in_order(s.drop_first(), x, c)
    }
}

/// The rows of `s` ordered from the best threshold to the worst; rows with
/// equal thresholds keep the order they had in `s`.
pub open spec fn sort_rows(s: Seq<TableEntry>, c: EventCompareType) -> Seq<TableEntry>
    decreases s.len(),
{
    if s.len() == 0 {
        Seq::empty()
    } else {
        insert_in_order(sort_rows(s.drop_last(), c), s.last(), c)
    }
}

proof fn lemma_insert_at(s: Seq<TableEntry>, x: TableEntry, c: EventCompareType, p: int)
    requires
        0 <= p <= s.len(),
        forall|i: int| 0 <= i < p ==> !strictly_before(x, #[trigger] s[i], c),
        p < s.len() ==> strictly_before(x, s[p], c),
    ensures
        insert_in_order(s, x, c) == s.insert(p, x),
    decreases s.len(),
{
    if s.len() == 0 {
        assert(s.insert(p, x) =~= seq![x]);
    } else if p == 0 {
        assert(s.insert(p, x) =~= seq![x] + s);
    } else {
        let t = s.drop_first();
        assert forall|i: int| 0 <= i < p - 1 implies !strictly_before(x, #[trigger] t[i], c) by {
            assert(t[i] == s[i + 1]);
        }
        lemma_insert_at(t, x, c, p - 1);
        assert(s.insert(p, x) =~= seq![s[0]] + t.insert(p - 1, x));
    }
}

proof fn lemma_insert_sorted(s: Seq<TableEntry>, x: TableEntry, c: EventCompareType)
    requires
        sorted_for(s, c),
    ensures
        sorted_for(insert_in_order(s, x, c), c),
        insert_in_order(s, x, c).to_multiset() == s.to_multiset().insert(x),
    decreases s.len(),
{
    let r = insert_in_order(s, x, c);
    if s.len() == 0 {
        assert(seq![x] =~= Seq::<TableEntry>::empty().push(x));
        vstd::seq_lib::to_multiset_build(Seq::<TableEntry>::empty(), x);
    } else if strictly_before(x, s[0], c) {
        assert(r =~= s.insert(0, x));
        vstd::seq_lib::to_multiset_insert(s, 0, x);
        assert forall|i: int, j: int| 0 <= i < j < r.len() implies in_order(
            #[trigger] r[i],
            #[trigger] r[j],
            c,
        ) by {
            if i > 0 {
                assert(in_order(s[i - 1], s[j - 1], c));
            } else if j > 1 {
                assert(in_order(s[0], s[j - 1], c));
            }
        }
    } else {
        let t = s.drop_first();
        assert(sorted_for(t, c)) by {
            assert forall|i: int, j: int| 0 <= i < j < t.len() implies in_order(
                #[trigger] t[i],
                #[trigger] t[j],
                c,
            ) by {
                assert(in_order(s[i + 1], s[j + 1], c));
            }
        }
        lemma_insert_sorted(t, x, c);
        let u = insert_in_order(t, x, c);
        assert(r =~= seq![s[0]] + u);
        assert forall|i: int, j: int| 0 <= i < j < r.len() implies in_order(
            #[trigger] r[i],
            #[trigger] r[j],
            c,
        ) by {
            if i > 0 {
                assert(in_order(u[i - 1], u[j - 1], c));
            } else {
                // r[j] is x or a row of t, each no better than s[0]
                assert(u.to_multiset().count(u[j - 1]) > 0);
                assert(t.to_multiset().insert(x).count(u[j - 1]) > 0);
                if u[j - 1] != x {
                    assert(t.to_multiset().count(u[j - 1]) > 0);
                    let k = choose|k: int| 0 <= k < t.len() && t[k] == u[j - 1];
                    assert(in_order(s[0], s[k + 1], c));
                }
            }
        }
        assert(r =~= u.insert(0, s[0]));
        vstd::seq_lib::to_multiset_insert(u, 0, s[0]);
        assert(s =~= t.insert(0, s[0]));
        vstd::seq_lib::to_multiset_insert(t, 0, s[0]);
    }
}

/// A sorted table is ordered from the best threshold to the worst, and holds
/// the same rows as before.
pub proof fn lemma_sort_rows(s: Seq<TableEntry>, c: EventCompareType)
    ensures
        sorted_for(sort_rows(s, c), c),
        sort_rows(s, c).to_multiset() == s.to_multiset(),
    decreases s.len(),
{
    if s.len() > 0 {
        lemma_sort_rows(s.drop_last(), c);
        lemma_insert_sorted(sort_rows(s.drop_last(), c), s.last(), c);
        assert(s =~= s.drop_last().push(s.last()));
        vstd::seq_lib::to_multiset_build(s.drop_last(), s.last());
    }
}

/// Orders a table from the best threshold to the worst, keeping rows with
/// equal thresholds in the order they came in.
pub fn sort_table(rows: Vec<TableEntry>, c: EventCompareType) -> (r: Vec<TableEntry>)
    ensures
        r@ == sort_rows(rows@, c),
        sorted_for(r@, c),
        r@.to_multiset() == rows@.to_multiset(),
{
    let mut out: Vec<TableEntry> = Vec::new();
    let mut k: usize = 0;
    while k < rows.len()
        invariant
            k <= rows.len(),
            out@ == sort_rows(rows@.take(k as int), c),
        decreases rows.len() - k,
    {
        let x = rows[k];
        let mut p: usize = 0;
        while p < out.len()
            invariant
                p <= out.len(),
                forall|i: int| 0 <= i < p ==> !strictly_before(x, #[trigger] out@[i], c),
            ensures
                p <= out.len(),
                forall|i: int| 0 <= i < p ==> !strictly_before(x, #[trigger] out@[i], c),
                p < out.len() ==> strictly_before(x, out@[p as int], c),
            decreases out.len() - p,
        {
            let before = match c {
                EventCompareType::SmallerIsBetter => x.performance < out[p].performance,
                EventCompareType::GreaterIsBetter => x.performance > out[p].performance,
            };
            if before {
                break;
            }
            p = p + 1;
        }
        proof {
            lemma_insert_at(out@, x, c, p as int);
            assert(rows@.take(k as int + 1).drop_last() =~= rows@.take(k as int));
        }
        out.insert(p, x);
        k = k + 1;
    }
    assert(rows@.take(rows.len() as int) =~= rows@);
    proof {
        lemma_sort_rows(rows@, c);
    }
    out
}

/// Whether the raw value `a` is as good as `b` or better.
pub open spec fn as_good_as(a: int, b: int, c: EventCompareType) -> bool {
    match c {
        EventCompareType::SmallerIsBetter => a <= b,
        EventCompareType::GreaterIsBetter => a >= b,
    }
}

proof fn lemma_descending_tail(t: Seq<TableEntry>)
    requires
        points_descending(t),
        t.len() > 0,
    ensures
        points_descending(t.drop_first()),
{
    let u = t.drop_first();
    assert forall|i: int, j: int| 0 <= i < j < u.len() implies #[trigger] u[i].points
        >= #[trigger] u[j].points by {
        assert(t[i + 1].points >= t[j + 1].points);
    }
}

/// On a table whose points do not rise, no value earns more than the first row.
pub proof fn lemma_points_at_most_first(t: Seq<TableEntry>, c: EventCompareType, v: int)
    requires
        points_descending(t),
        t.len() > 0,
    ensures
        table_points(t, c, v) <= t[0].points,
    decreases t.len(),
{
    if !reaches(t[0], c, v) && t.len() == 1 {
        assert(table_points(t.drop_first(), c, v) == 0);
    } else if !reaches(t[0], c, v) {
        lemma_descending_tail(t);
        lemma_points_at_most_first(t.drop_first(), c, v);
        assert(t[0].points >= t[1].points);
    }
}

/// A performance as good as another never earns fewer points, on a table
/// whose points do not rise from one row to the next.
pub proof fn lemma_points_monotonic(t: Seq<TableEntry>, c: EventCompareType, a: int, b: int)
    requires
        points_descending(t),
        as_good_as(a, b, c),
    ensures
        table_points(t, c, a) >= table_points(t, c, b),
    decreases t.len(),
{
    if t.len() > 0 {
        if reaches(t[0], c, a) {
            lemma_points_at_most_first(t, c, b);
        } else {
            lemma_descending_tail(t);
            lemma_points_monotonic(t.drop_first(), c, a, b);
        }
    }
}

/// A value that reaches no threshold earns 0 points; one that reaches the
/// first (on a sorted table, the best) threshold earns that row's points.
pub proof fn lemma_points_boundaries(t: Seq<TableEntry>, c: EventCompareType, v: int)
    ensures
        (forall|i: int| 0 <= i < t.len() ==> !reaches(#[trigger] t[i], c, v)) ==> table_points(
            t,
            c,
            v,
        ) == 0,
        t.len() > 0 && reaches(t[0], c, v) ==> table_points(t, c, v) == t[0].points,
    decreases t.len(),
{
    if t.len() > 0 && !reaches(t[0], c, v) {
        lemma_points_boundaries(t.drop_first(), c, v);
        if forall|i: int| 0 <= i < t.len() ==> !reaches(#[trigger] t[i], c, v) {
            assert forall|i: int| 0 <= i < t.len() - 1 implies !reaches(
                #[trigger] t.drop_first()[i],
                c,
                v,
            ) by {
                assert(t.drop_first()[i] == t[i + 1]);
            }
        }
    }
}

/// On a sorted table, a value at least as good as the first threshold
/// reaches it, and so earns the first row's points.
pub proof fn lemma_points_capped(t: Seq<TableEntry>, c: EventCompareType, v: int)
    requires
        sorted_for(t, c),
        t.len() > 0,
        as_good_as(v, t[0].performance as int, c),
    ensures
        table_points(t, c, v) == t[0].points,
        forall|i: int| 0 <= i < t.len() ==> in_order(t[0], #[trigger] t[i], c),
{
    assert forall|i: int| 0 <= i < t.len() implies in_order(t[0], #[trigger] t[i], c) by {
        if i > 0 {
            assert(in_order(t[0], t[i], c));
        }
    }
}

/// The row that a record gives: a threshold in its first field and points
/// in its second; `None` for a record that is not of that form.
pub open spec fn row_entry(rec: Seq<Seq<char>>) -> Option<TableEntry> {
    if rec.len() >= 2 {
        match (thousandths_of(rec[0]), points_of(rec[1])) {
            (Some(p), Some(q)) => Some(TableEntry { performance: p, points: q }),
            _ => None,
        }
    } else {
        None
    }
}

/// The rows that the well-formed records give, in record order.
pub open spec fn rows_of(recs: Seq<Seq<Seq<char>>>) -> Seq<TableEntry>
    decreases recs.len(),
{
    if recs.len() == 0 {
        Seq::empty()
    } else {
        let rest = rows_of(recs.drop_last());
        match row_entry(recs.last()) {
            Some(e) => rest.push(e),
            None => rest,
        }
    }
}

/// Builds a table from records of (threshold, points) fields, dropping the
/// records that are not of that form, and orders it for comparison `k`.
pub fn table_from_records(records: &Vec<Vec<String>>, k: EventCompareType) -> (r: Vec<TableEntry>)
    ensures
        r@ == sort_rows(rows_of(records_view(records@)), k),
{
    let ghost recs = records_view(records@);
    let mut rows: Vec<TableEntry> = Vec::new();
    let mut i: usize = 0;
    while i < records.len()
        invariant
            i <= records.len(),
            recs == records_view(records@),
            rows@ == rows_of(recs.take(i as int)),
        decreases records.len() - i,
    {
        let rec = &records[i];
        assert(recs.take(i as int + 1).drop_last() =~= recs.take(i as int));
        assert(recs[i as int] == rec@.map_values(|f: String| f@));
        if rec.len() >= 2 {
            let p = parse_thousandths(rec[0].as_str());
            let q = parse_points(rec[1].as_str());
            match (p, q) {
                (Some(p), Some(q)) => {
                    rows.push(TableEntry { performance: p, points: q });
                },
                _ => {},
            }
        }
        i = i + 1;
    }
    assert(recs.take(records.len() as int) =~= recs);
    sort_table(rows, k)
}

/// Reads a table from comma-separated text with a header line, and orders
/// it for comparison `k`.
pub fn parse_table(data: &[u8], k: EventCompareType) -> (r: Vec<TableEntry>)
    ensures
        r@ == sort_rows(rows_of(csv_records(data@)), k),
        sorted_for(r@, k),
{
    let records = read_records(data);
    let r = table_from_records(&records, k);
    proof {
        lemma_sort_rows(rows_of(csv_records(data@)), k);
    }
    r
}

} // verus!
