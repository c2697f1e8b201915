use vstd::prelude::*;
use crate::event::{event_codename, event_of_codename, lemma_event_codename_round_trip, OutdoorEvent};
use crate::gender::{gender_codename, Gender};
use crate::text::chars_of;

verus! {

/// The name of the table file for an event and a gender.
pub open spec fn table_name(e: OutdoorEvent, g: Gender) -> Seq<char> {
    "Table Outdoor 2017 - "@ + gender_codename(g) + " - "@ + event_codename(e) + ".csv"@
}

/// Whether `c` is the letter `n`, in either case (`n` given in lower case).
pub open spec fn same_letter(c: char, n: char) -> bool {
    c == n || ('a' <= n && n <= 'z' && c as u32 == n as u32 - 32)
}

/// Whether `n` occurs in `h` at position `i`, ignoring the case of ASCII letters.
pub open spec fn occurs_at(h: Seq<char>, n: Seq<char>, i: int) -> bool {
    0 <= i && i + n.len() <= h.len() && forall|j: int|
        0 <= j < n.len() ==> same_letter(#[trigger] h[i + j], n[j])
}

/// Whether `n` occurs somewhere in `h`, ignoring the case of ASCII letters.
pub open spec fn contains_folded(h: Seq<char>, n: Seq<char>) -> bool {
    exists|i: int| occurs_at(h, n, i)
}

/// What follows the last `sep` in `s`; all of `s` when it has none.
pub open spec fn after_last(s: Seq<char>, sep: char) -> Seq<char>
    decreases s.len(),
{
    if s.len() == 0 {
        s
    } else if s.last() == sep {
        Seq::empty()
    } else {
        after_last(s.drop_last(), sep).push(s.last())
    }
}

/// The file name at the end of a path: what follows its last `/`.
pub open spec fn base_name(path: Seq<char>) -> Seq<char> {
    after_last(path, '/')
}

/// `s` without a `.csv` ending.
pub open spec fn strip_csv(s: Seq<char>) -> Seq<char> {
    if s.len() >= 4 && s.skip(s.len() - 4) == ".csv"@ {
        s.take(s.len() - 4)
    } else {
        s
    }
}

/// Unicode white space (the White_Space property): tab to carriage return,
/// space, next line, no-break space, ogham space mark, the spaces from en
/// quad to hair space, line and paragraph separators, narrow no-break space,
/// medium mathematical space and ideographic space.
pub open spec fn is_space(c: char) -> bool {
    ||| ('\t' <= c && c <= '\r')
    ||| c == ' '
    ||| c == '\u{85}'
    ||| c == '\u{A0}'
    ||| c == '\u{1680}'
    ||| ('\u{2000}' <= c && c <= '\u{200A}')
    ||| c == '\u{2028}'
    ||| c == '\u{2029}'
    ||| c == '\u{202F}'
    ||| c == '\u{205F}'
    ||| c == '\u{3000}'
}

/// Whether `c` is white space.
pub fn is_white_space(c: char) -> (r: bool)
    ensures
        r == is_space(c),
{
    ('\t' <= c && c <= '\r') || c == ' ' || c == '\u{85}' || c == '\u{A0}' || c == '\u{1680}' || (
    '\u{2000}' <= c && c <= '\u{200A}') || c == '\u{2028}' || c == '\u{2029}' || c == '\u{202F}'
        || c == '\u{205F}' || c == '\u{3000}'
}

pub open spec fn trim_start(s: Seq<char>) -> Seq<char>
    decreases s.len(),
{
    if s.len() > 0 && is_space(s[0]) {
        trim_start(s.drop_first())
    } else {
        s
    }
}

pub open spec fn trim_end(s: Seq<char>) -> Seq<char>
    decreases s.len(),
{
    if s.len() > 0 && is_space(s.last()) {
        trim_end(s.drop_last())
    } else {
        s
    }
}

/// The event codename that a table file name ends with: the part after the
/// last `-`, without `.csv`, trimmed.
pub open spec fn event_segment(name: Seq<char>) -> Seq<char> {
    trim_end(trim_start(strip_csv(after_last(name, '-'))))
}

/// How a table file is taken up, by its name.
#[derive(Clone, Copy, Debug, PartialEq, Eq, Structural)]
pub enum TableKind {
    /// An indoor table; these are not supported.
    Indoor,
    /// An outdoor table of a known event.
    Outdoor(OutdoorEvent),
    /// An outdoor table whose event codename is not known.
    UnknownEvent,
    /// A name that says neither indoor nor outdoor.
    Unmarked,
}

pub open spec fn table_kind(name: Seq<char>) -> TableKind {
    if contains_folded(name, "indoor"@) {
        TableKind::Indoor
    } else if contains_folded(name, "outdoor"@) {
        match event_of_codename(event_segment(name)) {
            Some(e) => TableKind::Outdoor(e),
            None => TableKind::UnknownEvent,
        }
    } else {
        TableKind::Unmarked
    }
}

/// Whether `needle` (in lower case) occurs in `hay`, ignoring the case of
/// ASCII letters.
pub fn contains_folded_chars(hay: &Vec<char>, needle: &Vec<char>) -> (r: bool)
    ensures
        r == contains_folded(hay@, needle@),
{
    if needle.len() > hay.len() {
        return false;
    }
    let mut i: usize = 0;
    while i <= hay.len() - needle.len()
        invariant
            needle.len() <= hay.len(),
            forall|k: int| 0 <= k < i ==> !occurs_at(hay@, needle@, k),
        decreases hay.len() - needle.len() + 1 - i,
    {
        let mut j: usize = 0;
        let mut all = true;
        while j < needle.len()
            invariant
                i + needle.len() <= hay.len(),
                j <= needle.len(),
                all == forall|m: int| 0 <= m < j ==> same_letter(#[trigger] hay@[i + m], needle@[m]),
            decreases needle.len() - j,
        {
            let c = hay[i + j];
            let n = needle[j];
            let same = c == n || ('a' <= n && n <= 'z' && c as u32 == n as u32 - 32);
            all = all && same;
            j = j + 1;
        }
        if all {
            assert(occurs_at(hay@, needle@, i as int));
            return true;
        }
        i = i + 1;
    }
    assert forall|k: int| !occurs_at(hay@, needle@, k) by {
        if 0 <= k < i {
        }
    }
    false
}

proof fn lemma_after_last(s: Seq<char>, sep: char, k: int)
    requires
        0 <= k <= s.len(),
        forall|i: int| k <= i < s.len() ==> s[i] != sep,
        k > 0 ==> s[k - 1] == sep,
    ensures
        after_last(s, sep) == s.skip(k),
    decreases s.len(),
{
    if s.len() > k {
        lemma_after_last(s.drop_last(), sep, k);
        assert(s.skip(k) =~= s.drop_last().skip(k).push(s.last()));
    } else if k > 0 {
        assert(s.skip(k) =~= Seq::<char>::empty());
    } else {
        assert(s.skip(k) =~= s);
    }
}

proof fn lemma_trim_start(s: Seq<char>, a: int)
    requires
        0 <= a <= s.len(),
        forall|i: int| 0 <= i < a ==> is_space(#[trigger] s[i]),
        a < s.len() ==> !is_space(s[a]),
    ensures
        trim_start(s) == s.skip(a),
    decreases a,
{
    if a > 0 {
        assert forall|i: int| 0 <= i < a - 1 implies is_space(#[trigger] s.drop_first()[i]) by {
            assert(s.drop_first()[i] == s[i + 1]);
        }
        lemma_trim_start(s.drop_first(), a - 1);
        assert(s.drop_first().skip(a - 1) =~= s.skip(a));
    } else {
        assert(s.skip(0) =~= s);
    }
}

proof fn lemma_trim_end(s: Seq<char>, b: int)
    requires
        0 <= b <= s.len(),
        forall|i: int| b <= i < s.len() ==> is_space(#[trigger] s[i]),
        b > 0 ==> !is_space(s[b - 1]),
    ensures
        trim_end(s) == s.take(b),
    decreases s.len() - b,
{
    if b < s.len() {
        lemma_trim_end(s.drop_last(), b);
        assert(s.drop_last().take(b) =~= s.take(b));
    } else {
        assert(s.take(b) =~= s);
    }
}

/// Where the part of `s` after its last `sep` starts.
fn start_after_last(s: &Vec<char>, sep: char) -> (lo: usize)
    ensures
        lo <= s.len(),
        after_last(s@, sep) == s@.skip(lo as int),
{
    let mut lo: usize = s.len();
    while lo > 0 && s[lo - 1] != sep
        invariant
            lo <= s.len(),
            forall|i: int| lo <= i < s.len() ==> s@[i] != sep,
        decreases lo,
    {
        lo = lo - 1;
    }
    proof {
        lemma_after_last(s@, sep, lo as int);
    }
    lo
}

/// The file name at the end of a path.
pub fn base_name_chars(path: &Vec<char>) -> (r: Vec<char>)
    ensures
        r@ == base_name(path@),
{
    let lo = start_after_last(path, '/');
    let mut r: Vec<char> = Vec::new();
    let mut i: usize = lo;
    while i < path.len()
        invariant
            lo <= i <= path.len(),
            r@ == path@.subrange(lo as int, i as int),
        decreases path.len() - i,
    {
        r.push(path[i]);
        i = i + 1;
    }
    assert(r@ =~= path@.skip(lo as int));
    r
}

/// The event codename that a table file name ends with.
pub fn event_segment_chars(name: &Vec<char>) -> (r: Vec<char>)
    ensures
        r@ == event_segment(name@),
{
    let n = name.len();
    let lo = start_after_last(name, '-');
    let ghost seg = name@.skip(lo as int);
    // drop a `.csv` ending
    let mut hi: usize = n;
    proof {
        reveal_strlit(".csv");
    }
    if n - lo >= 4 && name[n - 4] == '.' && name[n - 3] == 'c' && name[n - 2] == 's' && name[n
        - 1] == 'v' {
        assert(seg.skip(seg.len() - 4) =~= ".csv"@);
        hi = n - 4;
    } else {
        proof {
            if seg.len() >= 4 && seg.skip(seg.len() - 4) == ".csv"@ {
                assert(seg.skip(seg.len() - 4)[0] == '.');
                assert(seg.skip(seg.len() - 4)[1] == 'c');
                assert(seg.skip(seg.len() - 4)[2] == 's');
                assert(seg.skip(seg.len() - 4)[3] == 'v');
            }
        }
    }
    let ghost stripped = name@.subrange(lo as int, hi as int);
    assert(strip_csv(seg) =~= stripped);
    // trim white space on both sides
    let mut a: usize = lo;
    while a < hi && is_white_space(name[a])
        invariant
            lo <= a <= hi <= n == name.len(),
            forall|i: int| lo <= i < a ==> is_space(#[trigger] name@[i]),
        decreases hi - a,
    {
        a = a + 1;
    }
    proof {
        assert forall|i: int| 0 <= i < a - lo implies is_space(#[trigger] stripped[i]) by {
            assert(stripped[i] == name@[lo + i]);
        }
        lemma_trim_start(stripped, a - lo);
    }
    let ghost started = name@.subrange(a as int, hi as int);
    assert(stripped.skip(a - lo) =~= started);
    let mut b: usize = hi;
    while b > a && is_white_space(name[b - 1])
        invariant
            lo <= a <= b <= hi <= n == name.len(),
            forall|i: int| b <= i < hi ==> is_space(#[trigger] name@[i]),
        decreases b,
    {
        b = b - 1;
    }
    proof {
        assert forall|i: int| b - a <= i < started.len() implies is_space(#[trigger] started[i]) by {
            assert(started[i] == name@[a + i]);
        }
        lemma_trim_end(started, b - a);
    }
    let mut r: Vec<char> = Vec::new();
    let mut i: usize = a;
    while i < b
        invariant
            a <= i <= b <= name.len(),
            r@ == name@.subrange(a as int, i as int),
        decreases b - i,
    {
        r.push(name[i]);
        i = i + 1;
    }
    assert(started.take(b - a) =~= r@);
    r
}

/// Tells from a file name whether it holds an outdoor table, and of which event.
pub fn classify(name: &Vec<char>) -> (r: TableKind)
    ensures
        r == table_kind(name@),
{
    let chars = name;
    if contains_folded_chars(chars, &chars_of("indoor")) {
        TableKind::Indoor
    } else if contains_folded_chars(chars, &chars_of("outdoor")) {
        let code = event_segment_chars(chars);
        match OutdoorEvent::from_codename_chars(&code) {
            Some(e) => TableKind::Outdoor(e),
            None => TableKind::UnknownEvent,
        }
    } else {
        TableKind::Unmarked
    }
}

/// No character of `s` is `c`.
pub open spec fn lacks(s: Seq<char>, c: char) -> bool {
    forall|i: int| 0 <= i < s.len() ==> #[trigger] s[i] != c
}

/// No character of `s` is the letter `l` (given in lower case), in either case.
pub open spec fn lacks_letter(s: Seq<char>, l: char) -> bool {
    forall|i: int| 0 <= i < s.len() ==> !same_letter(#[trigger] s[i], l)
}

/// The shape of a piece of a table name that the loader relies on: no `-`
/// or `/`, and never both an `i` and an `n` (so no `indoor`).
pub open spec fn plain_piece(s: Seq<char>) -> bool {
    &&& lacks(s, '-')
    &&& lacks(s, '/')
    &&& (lacks_letter(s, 'i') || lacks_letter(s, 'n'))
}

/// Every event codename is a plain piece, non-empty, and neither starts nor
/// ends with white space.
proof fn lemma_codename_shape(e: OutdoorEvent)
    ensures
        plain_piece(event_codename(e)),
        event_codename(e).len() > 0,
        !is_space(event_codename(e)[0]),
        !is_space(event_codename(e).last()),
{
    match e {
        OutdoorEvent::HighJump => {
            reveal_strlit("HJ");
        },
        OutdoorEvent::LongJump => {
            reveal_strlit("LJ");
        },
        OutdoorEvent::TripleJump => {
            reveal_strlit("TJ");
        },
        OutdoorEvent::DiscusThrow => {
            reveal_strlit("DT");
        },
        OutdoorEvent::HammerThrow => {
            reveal_strlit("HT");
        },
        OutdoorEvent::JavelinThrow => {
            reveal_strlit("JT");
        },
        OutdoorEvent::PoleVault => {
            reveal_strlit("PV");
        },
        OutdoorEvent::ShortPut => {
            reveal_strlit("SP");
        },
        OutdoorEvent::Heptathlon => {
            reveal_strlit("Heptathlon");
        },
        OutdoorEvent::Decathlon => {
            reveal_strlit("Decathlon");
        },
        OutdoorEvent::Track100m => {
            reveal_strlit("100m");
        },
        OutdoorEvent::Track200m => {
            reveal_strlit("200m");
        },
        OutdoorEvent::Track300m => {
            reveal_strlit("300m");
        },
        OutdoorEvent::Track400m => {
            reveal_strlit("400m");
        },
        OutdoorEvent::Track500m => {
            reveal_strlit("500m");
        },
        OutdoorEvent::Track100mHurdles => {
            reveal_strlit("100mH");
        },
        OutdoorEvent::Track110mHurdles => {
            reveal_strlit("110mH");
        },
        OutdoorEvent::Track400mHurdles => {
            reveal_strlit("400mH");
        },
        OutdoorEvent::Track2kmSteeplechase => {
            reveal_strlit("2000m SC");
        },
        OutdoorEvent::Track3kmSteeplechase => {
            reveal_strlit("3000m SC");
        },
        OutdoorEvent::Track4x100mRelay => {
            reveal_strlit("4x100m");
        },
        OutdoorEvent::Track4x200mRelay => {
            reveal_strlit("4x200m");
        },
        OutdoorEvent::Track4x400mRelay => {
            reveal_strlit("4x400m");
        },
        OutdoorEvent::Track600m => {
            reveal_strlit("600m");
        },
        OutdoorEvent::Track800m => {
            reveal_strlit("800m");
        },
        OutdoorEvent::Track1000m => {
            reveal_strlit("1000m");
        },
        OutdoorEvent::Track1500m => {
            reveal_strlit("1500m");
        },
        OutdoorEvent::Track1Mile => {
            reveal_strlit("Mile");
        },
        OutdoorEvent::Track2Miles => {
            reveal_strlit("2 Miles");
        },
        OutdoorEvent::Track2000m => {
            reveal_strlit("2000m");
        },
        OutdoorEvent::Track3000m => {
            reveal_strlit("3000m");
        },
        OutdoorEvent::Track5000m => {
            reveal_strlit("5000m");
        },
        OutdoorEvent::Track10000m => {
            reveal_strlit("10000m");
        },
        OutdoorEvent::Road5km => {
            reveal_strlit("5 km");
        },
        OutdoorEvent::Road10km => {
            reveal_strlit("10 km");
        },
        OutdoorEvent::Road15km => {
            reveal_strlit("15 km");
        },
        OutdoorEvent::Road20km => {
            reveal_strlit("20 km");
        },
        OutdoorEvent::Road25km => {
            reveal_strlit("25 km");
        },
        OutdoorEvent::Road30km => {
            reveal_strlit("30 km");
        },
        OutdoorEvent::Road100km => {
            reveal_strlit("100 km");
        },
        OutdoorEvent::Road10Miles => {
            reveal_strlit("10 Miles");
        },
        OutdoorEvent::HalfMarathon => {
            reveal_strlit("HM");
        },
        OutdoorEvent::Marathon => {
            reveal_strlit("Marathon");
        },
        OutdoorEvent::Walk3km => {
            reveal_strlit("3km W");
        },
        OutdoorEvent::Walk5km => {
            reveal_strlit("5km W");
        },
        OutdoorEvent::Walk10km => {
            reveal_strlit("10km W");
        },
        OutdoorEvent::Walk15km => {
            reveal_strlit("15km W");
        },
        OutdoorEvent::Walk20km => {
            reveal_strlit("20km W");
        },
        OutdoorEvent::Walk30km => {
            reveal_strlit("30km W");
        },
        OutdoorEvent::Walk35km => {
            reveal_strlit("35km W");
        },
        OutdoorEvent::Walk50km => {
            reveal_strlit("50km W");
        },
        OutdoorEvent::Walk3kmTrack => {
            reveal_strlit("3000mW");
        },
        OutdoorEvent::Walk5kmTrack => {
            reveal_strlit("5000mW");
        },
        OutdoorEvent::Walk10kmTrack => {
            reveal_strlit("10000mW");
        },
        OutdoorEvent::Walk15kmTrack => {
            reveal_strlit("15000mW");
        },
        OutdoorEvent::Walk20kmTrack => {
            reveal_strlit("20000mW");
        },
        OutdoorEvent::Walk30kmTrack => {
            reveal_strlit("30000mW");
        },
        OutdoorEvent::Walk35kmTrack => {
            reveal_strlit("35000mW");
        },
        OutdoorEvent::Walk50kmTrack => {
            reveal_strlit("50000mW");
        },
    }
}

proof fn lemma_gender_shape(g: Gender)
    ensures
        plain_piece(gender_codename(g)),
        lacks_letter(gender_codename(g), 'i') && lacks_letter(gender_codename(g), 'n'),
{
    reveal_strlit("MALE");
    reveal_strlit("FEMALE");
}

proof fn lemma_after_last_concat(x: Seq<char>, y: Seq<char>, sep: char)
    requires
        lacks(y, sep),
    ensures
        after_last(x + y, sep) == after_last(x, sep) + y,
    decreases y.len(),
{
    if y.len() == 0 {
        assert(x + y =~= x);
        assert(after_last(x, sep) + y =~= after_last(x, sep));
    } else {
        assert((x + y).drop_last() =~= x + y.drop_last());
        assert(y[y.len() - 1] != sep);
        lemma_after_last_concat(x, y.drop_last(), sep);
        assert(after_last(x, sep) + y =~= (after_last(x, sep) + y.drop_last()).push(y.last()));
    }
}

proof fn lemma_after_last_absent(s: Seq<char>, sep: char)
    requires
        lacks(s, sep),
    ensures
        after_last(s, sep) == s,
{
    lemma_after_last_concat(Seq::empty(), s, sep);
    assert(Seq::<char>::empty() + s =~= s);
}

/// The name that a table is looked up by is the name of a file that the
/// loader files under that same name, as an outdoor table of its event.
pub proof fn lemma_table_name_loads(e: OutdoorEvent, g: Gender)
    ensures
        base_name(table_name(e, g)) == table_name(e, g),
        table_kind(table_name(e, g)) == TableKind::Outdoor(e),
{
    let p = "Table Outdoor 2017 - "@;
    let m = " - "@;
    let c = ".csv"@;
    let code = event_codename(e);
    let gc = gender_codename(g);
    let name = table_name(e, g);
    reveal_strlit("Table Outdoor 2017 - ");
    reveal_strlit(" - ");
    reveal_strlit(".csv");
    reveal_strlit("indoor");
    reveal_strlit("outdoor");
    lemma_codename_shape(e);
    lemma_gender_shape(g);
    let z = p + gc + m;
    let y = code + c;
    assert(name =~= z + y);
    // no `/` anywhere: the name is its own file name
    assert(lacks(name, '/'));
    lemma_after_last_absent(name, '/');
    // it says outdoor, and not indoor
    assert(occurs_at(name, "outdoor"@, 6));
    assert(!contains_folded(name, "indoor"@)) by {
        if exists|i: int| occurs_at(name, "indoor"@, i) {
            let i = choose|i: int| occurs_at(name, "indoor"@, i);
            let (j0, j1) = (0int, 1int);
            assert(same_letter(name[i + j0], "indoor"@[j0]));
            assert(same_letter(name[i + j1], "indoor"@[j1]));
            if lacks_letter(code, 'i') {
                assert(lacks_letter(name, 'i'));
            } else {
                assert(lacks_letter(name, 'n'));
            }
        }
    }
    // the event segment is the codename
    assert(lacks(y, '-'));
    lemma_after_last_concat(z, y, '-');
    assert(z.drop_last().last() == '-');
    assert(after_last(z.drop_last(), '-') =~= Seq::<char>::empty());
    assert(after_last(z, '-') =~= seq![' ']);
    let seg = seq![' '] + code + c;
    assert(after_last(name, '-') =~= seg);
    assert(seg.skip(seg.len() - 4) =~= c);
    let spaced = seq![' '] + code;
    assert(strip_csv(seg) =~= spaced);
    assert(spaced.drop_first() =~= code);
    assert(trim_start(spaced) == trim_start(code));
    assert(trim_start(code) == code);
    assert(trim_end(code) == code);
    assert(event_segment(name) == code);
    lemma_event_codename_round_trip(e);
}

} // verus!
