//! Query parameters: the wire names the upstream API knows, and the
//! generic mapping from a filter's field table to key/value pairs.

use vstd::prelude::*;
use vstd::string::*;
use crate::time::{utc_text, Timestamp};

verus! {

/// A query-string key. The variants are declared in the lexicographic order
/// of their wire names, so `rank` orders keys as their names sort
/// (`lemma_wire_names_sorted`).
#[derive(Clone, Copy, Debug, PartialEq, Eq, Structural)]
pub enum Param {
    ApiKey,
    Characters,
    Collaborators,
    Comics,
    Contains,
    Creators,
    DateDescriptor,
    DateRange,
    DiamondCode,
    DigitalId,
    Ean,
    Events,
    FirstName,
    FirstNameStartsWith,
    Format,
    FormatType,
    HasDigitalIssue,
    Hash,
    Isbn,
    Issn,
    IssueNumber,
    LastName,
    LastNameStartsWith,
    Limit,
    MiddleName,
    MiddleNameStartsWith,
    ModifiedSince,
    Name,
    NameStartsWith,
    NoVariants,
    Offset,
    OrderBy,
    Series,
    SeriesType,
    SharedAppearances,
    StartYear,
    Stories,
    Suffix,
    Title,
    TitleStartsWith,
    Ts,
    Upc,
}

impl Param {
    /// Position of the key in the lexicographic order of wire names.
    pub open spec fn rank(self) -> int {
        match self {
            Param::ApiKey => 0,
            Param::Characters => 1,
            Param::Collaborators => 2,
            Param::Comics => 3,
            Param::Contains => 4,
            Param::Creators => 5,
            Param::DateDescriptor => 6,
            Param::DateRange => 7,
            Param::DiamondCode => 8,
            Param::DigitalId => 9,
            Param::Ean => 10,
            Param::Events => 11,
            Param::FirstName => 12,
            Param::FirstNameStartsWith => 13,
            Param::Format => 14,
            Param::FormatType => 15,
            Param::HasDigitalIssue => 16,
            Param::Hash => 17,
            Param::Isbn => 18,
            Param::Issn => 19,
            Param::IssueNumber => 20,
            Param::LastName => 21,
            Param::LastNameStartsWith => 22,
            Param::Limit => 23,
            Param::MiddleName => 24,
            Param::MiddleNameStartsWith => 25,
            Param::ModifiedSince => 26,
            Param::Name => 27,
            Param::NameStartsWith => 28,
            Param::NoVariants => 29,
            Param::Offset => 30,
            Param::OrderBy => 31,
            Param::Series => 32,
            Param::SeriesType => 33,
            Param::SharedAppearances => 34,
            Param::StartYear => 35,
            Param::Stories => 36,
            Param::Suffix => 37,
            Param::Title => 38,
            Param::TitleStartsWith => 39,
            Param::Ts => 40,
            Param::Upc => 41,
        }
    }

    /// The camelCase name under which the key goes on the wire.
    pub open spec fn wire_text(self) -> Seq<char> {
        match self {
            Param::ApiKey => "apikey"@,
            Param::Characters => "characters"@,
            Param::Collaborators => "collaborators"@,
            Param::Comics => "comics"@,
            Param::Contains => "contains"@,
            Param::Creators => "creators"@,
            Param::DateDescriptor => "dateDescriptor"@,
            Param::DateRange => "dateRange"@,
            Param::DiamondCode => "diamondCode"@,
            Param::DigitalId => "digitalId"@,
            Param::Ean => "ean"@,
            Param::Events => "events"@,
            Param::FirstName => "firstName"@,
            Param::FirstNameStartsWith => "firstNameStartsWith"@,
            Param::Format => "format"@,
            Param::FormatType => "formatType"@,
            Param::HasDigitalIssue => "hasDigitalIssue"@,
            Param::Hash => "hash"@,
            Param::Isbn => "isbn"@,
            Param::Issn => "issn"@,
            Param::IssueNumber => "issueNumber"@,
            Param::LastName => "lastName"@,
            Param::LastNameStartsWith => "lastNameStartsWith"@,
            Param::Limit => "limit"@,
            Param::MiddleName => "middleName"@,
            Param::MiddleNameStartsWith => "middleNameStartsWith"@,
            Param::ModifiedSince => "modifiedSince"@,
            Param::Name => "name"@,
            Param::NameStartsWith => "nameStartsWith"@,
            Param::NoVariants => "noVariants"@,
            Param::Offset => "offset"@,
            Param::OrderBy => "orderBy"@,
            Param::Series => "series"@,
            Param::SeriesType => "seriesType"@,
            Param::SharedAppearances => "sharedAppearances"@,
            Param::StartYear => "startYear"@,
            Param::Stories => "stories"@,
            Param::Suffix => "suffix"@,
            Param::Title => "title"@,
            Param::TitleStartsWith => "titleStartsWith"@,
            Param::Ts => "ts"@,
            Param::Upc => "upc"@,
        }
    }

    /// The wire name of the key.
    pub fn wire(&self) -> (r: &'static str)
        ensures
            r@ == self.wire_text(),
    {
        match self {
            Param::ApiKey => "apikey",
            Param::Characters => "characters",
            Param::Collaborators => "collaborators",
            Param::Comics => "comics",
            Param::Contains => "contains",
            Param::Creators => "creators",
            Param::DateDescriptor => "dateDescriptor",
            Param::DateRange => "dateRange",
            Param::DiamondCode => "diamondCode",
            Param::DigitalId => "digitalId",
            Param::Ean => "ean",
            Param::Events => "events",
            Param::FirstName => "firstName",
            Param::FirstNameStartsWith => "firstNameStartsWith",
            Param::Format => "format",
            Param::FormatType => "formatType",
            Param::HasDigitalIssue => "hasDigitalIssue",
            Param::Hash => "hash",
            Param::Isbn => "isbn",
            Param::Issn => "issn",
            Param::IssueNumber => "issueNumber",
            Param::LastName => "lastName",
            Param::LastNameStartsWith => "lastNameStartsWith",
            Param::Limit => "limit",
            Param::MiddleName => "middleName",
            Param::MiddleNameStartsWith => "middleNameStartsWith",
            Param::ModifiedSince => "modifiedSince",
            Param::Name => "name",
            Param::NameStartsWith => "nameStartsWith",
            Param::NoVariants => "noVariants",
            Param::Offset => "offset",
            Param::OrderBy => "orderBy",
            Param::Series => "series",
            Param::SeriesType => "seriesType",
            Param::SharedAppearances => "sharedAppearances",
            Param::StartYear => "startYear",
            Param::Stories => "stories",
            Param::Suffix => "suffix",
            Param::Title => "title",
            Param::TitleStartsWith => "titleStartsWith",
            Param::Ts => "ts",
            Param::Upc => "upc",
        }
    }
}

/// `a` sorts strictly before `b`, character by character.
pub open spec fn lex_lt(a: Seq<char>, b: Seq<char>) -> bool {
    exists|i: int|
        0 <= i <= a.len() && i < b.len() && #[trigger] a.take(i) == b.take(i) && (i == a.len() || a[i] < b[i])
}

proof fn lemma_lex_lt_at(a: Seq<char>, b: Seq<char>, i: int)
    requires
        0 <= i <= a.len(),
        i < b.len(),
        forall|k: int| 0 <= k < i ==> a[k] == b[k],
        i == a.len() || a[i] < b[i],
    ensures
        lex_lt(a, b),
{
    assert(a.take(i) =~= b.take(i));
}

/// Keys rank as their wire names sort: the name of each key sorts strictly
/// before the name of the key ranked next.
pub proof fn lemma_wire_names_sorted(p: Param, q: Param)
    requires
        q.rank() == p.rank() + 1,
    ensures
        lex_lt(p.wire_text(), q.wire_text()),
{
    match p {
        Param::ApiKey => {
            assert(q == Param::Characters);
            reveal_strlit("apikey");
            reveal_strlit("characters");
            lemma_lex_lt_at(p.wire_text(), q.wire_text(), 0);
        },
        Param::Characters => {
            assert(q == Param::Collaborators);
            reveal_strlit("characters");
            reveal_strlit("collaborators");
            lemma_lex_lt_at(p.wire_text(), q.wire_text(), 1);
        },
        Param::Collaborators => {
            assert(q == Param::Comics);
            reveal_strlit("collaborators");
            reveal_strlit("comics");
            lemma_lex_lt_at(p.wire_text(), q.wire_text(), 2);
        },
        Param::Comics => {
            assert(q == Param::Contains);
            reveal_strlit("comics");
            reveal_strlit("contains");
            lemma_lex_lt_at(p.wire_text(), q.wire_text(), 2);
        },
        Param::Contains => {
            assert(q == Param::Creators);
            reveal_strlit("contains");
            reveal_strlit("creators");
            lemma_lex_lt_at(p.wire_text(), q.wire_text(), 1);
        },
        Param::Creators => {
            assert(q == Param::DateDescriptor);
            reveal_strlit("creators");
            reveal_strlit("dateDescriptor");
            lemma_lex_lt_at(p.wire_text(), q.wire_text(), 0);
        },
        Param::DateDescriptor => {
            assert(q == Param::DateRange);
            reveal_strlit("dateDescriptor");
            reveal_strlit("dateRange");
            lemma_lex_lt_at(p.wire_text(), q.wire_text(), 4);
        },
        Param::DateRange => {
            assert(q == Param::DiamondCode);
            reveal_strlit("dateRange");
            reveal_strlit("diamondCode");
            lemma_lex_lt_at(p.wire_text(), q.wire_text(), 1);
        },
        Param::DiamondCode => {
            assert(q == Param::DigitalId);
            reveal_strlit("diamondCode");
            reveal_strlit("digitalId");
            lemma_lex_lt_at(p.wire_text(), q.wire_text(), 2);
        },
        Param::DigitalId => {
            assert(q == Param::Ean);
            reveal_strlit("digitalId");
            reveal_strlit("ean");
            lemma_lex_lt_at(p.wire_text(), q.wire_text(), 0);
        },
        Param::Ean => {
            assert(q == Param::Events);
            reveal_strlit("ean");
            reveal_strlit("events");
            lemma_lex_lt_at(p.wire_text(), q.wire_text(), 1);
        },
        Param::Events => {
            assert(q == Param::FirstName);
            reveal_strlit("events");
            reveal_strlit("firstName");
            lemma_lex_lt_at(p.wire_text(), q.wire_text(), 0);
        },
        Param::FirstName => {
            assert(q == Param::FirstNameStartsWith);
            reveal_strlit("firstName");
            reveal_strlit("firstNameStartsWith");
            lemma_lex_lt_at(p.wire_text(), q.wire_text(), 9);
        },
        Param::FirstNameStartsWith => {
            assert(q == Param::Format);
            reveal_strlit("firstNameStartsWith");
            reveal_strlit("format");
            lemma_lex_lt_at(p.wire_text(), q.wire_text(), 1);
        },
        Param::Format => {
            assert(q == Param::FormatType);
            reveal_strlit("format");
            reveal_strlit("formatType");
            lemma_lex_lt_at(p.wire_text(), q.wire_text(), 6);
        },
        Param::FormatType => {
            assert(q == Param::HasDigitalIssue);
            reveal_strlit("formatType");
            reveal_strlit("hasDigitalIssue");
            lemma_lex_lt_at(p.wire_text(), q.wire_text(), 0);
        },
        Param::HasDigitalIssue => {
            assert(q == Param::Hash);
            reveal_strlit("hasDigitalIssue");
            reveal_strlit("hash");
            lemma_lex_lt_at(p.wire_text(), q.wire_text(), 3);
        },
        Param::Hash => {
            assert(q == Param::Isbn);
            reveal_strlit("hash");
            reveal_strlit("isbn");
            lemma_lex_lt_at(p.wire_text(), q.wire_text(), 0);
        },
        Param::Isbn => {
            assert(q == Param::Issn);
            reveal_strlit("isbn");
            reveal_strlit("issn");
            lemma_lex_lt_at(p.wire_text(), q.wire_text(), 2);
        },
        Param::Issn => {
            assert(q == Param::IssueNumber);
            reveal_strlit("issn");
            reveal_strlit("issueNumber");
            lemma_lex_lt_at(p.wire_text(), q.wire_text(), 3);
        },
        Param::IssueNumber => {
            assert(q == Param::LastName);
            reveal_strlit("issueNumber");
            reveal_strlit("lastName");
            lemma_lex_lt_at(p.wire_text(), q.wire_text(), 0);
        },
        Param::LastName => {
            assert(q == Param::LastNameStartsWith);
            reveal_strlit("lastName");
            reveal_strlit("lastNameStartsWith");
            lemma_lex_lt_at(p.wire_text(), q.wire_text(), 8);
        },
        Param::LastNameStartsWith => {
            assert(q == Param::Limit);
            reveal_strlit("lastNameStartsWith");
            reveal_strlit("limit");
            lemma_lex_lt_at(p.wire_text(), q.wire_text(), 1);
        },
        Param::Limit => {
            assert(q == Param::MiddleName);
            reveal_strlit("limit");
            reveal_strlit("middleName");
            lemma_lex_lt_at(p.wire_text(), q.wire_text(), 0);
        },
        Param::MiddleName => {
            assert(q == Param::MiddleNameStartsWith);
            reveal_strlit("middleName");
            reveal_strlit("middleNameStartsWith");
            lemma_lex_lt_at(p.wire_text(), q.wire_text(), 10);
        },
        Param::MiddleNameStartsWith => {
            assert(q == Param::ModifiedSince);
            reveal_strlit("middleNameStartsWith");
            reveal_strlit("modifiedSince");
            lemma_lex_lt_at(p.wire_text(), q.wire_text(), 1);
        },
        Param::ModifiedSince => {
            assert(q == Param::Name);
            reveal_strlit("modifiedSince");
            reveal_strlit("name");
            lemma_lex_lt_at(p.wire_text(), q.wire_text(), 0);
        },
        Param::Name => {
            assert(q == Param::NameStartsWith);
            reveal_strlit("name");
            reveal_strlit("nameStartsWith");
            lemma_lex_lt_at(p.wire_text(), q.wire_text(), 4);
        },
        Param::NameStartsWith => {
            assert(q == Param::NoVariants);
            reveal_strlit("nameStartsWith");
            reveal_strlit("noVariants");
            lemma_lex_lt_at(p.wire_text(), q.wire_text(), 1);
        },
        Param::NoVariants => {
            assert(q == Param::Offset);
            reveal_strlit("noVariants");
            reveal_strlit("offset");
            lemma_lex_lt_at(p.wire_text(), q.wire_text(), 0);
        },
        Param::Offset => {
            assert(q == Param::OrderBy);
            reveal_strlit("offset");
            reveal_strlit("orderBy");
            lemma_lex_lt_at(p.wire_text(), q.wire_text(), 1);
        },
        Param::OrderBy => {
            assert(q == Param::Series);
            reveal_strlit("orderBy");
            reveal_strlit("series");
            lemma_lex_lt_at(p.wire_text(), q.wire_text(), 0);
        },
        Param::Series => {
            assert(q == Param::SeriesType);
            reveal_strlit("series");
            reveal_strlit("seriesType");
            lemma_lex_lt_at(p.wire_text(), q.wire_text(), 6);
        },
        Param::SeriesType => {
            assert(q == Param::SharedAppearances);
            reveal_strlit("seriesType");
            reveal_strlit("sharedAppearances");
            lemma_lex_lt_at(p.wire_text(), q.wire_text(), 1);
        },
        Param::SharedAppearances => {
            assert(q == Param::StartYear);
            reveal_strlit("sharedAppearances");
            reveal_strlit("startYear");
            lemma_lex_lt_at(p.wire_text(), q.wire_text(), 1);
        },
        Param::StartYear => {
            assert(q == Param::Stories);
            reveal_strlit("startYear");
            reveal_strlit("stories");
            lemma_lex_lt_at(p.wire_text(), q.wire_text(), 2);
        },
        Param::Stories => {
            assert(q == Param::Suffix);
            reveal_strlit("stories");
            reveal_strlit("suffix");
            lemma_lex_lt_at(p.wire_text(), q.wire_text(), 1);
        },
        Param::Suffix => {
            assert(q == Param::Title);
            reveal_strlit("suffix");
            reveal_strlit("title");
            lemma_lex_lt_at(p.wire_text(), q.wire_text(), 0);
        },
        Param::Title => {
            assert(q == Param::TitleStartsWith);
            reveal_strlit("title");
            reveal_strlit("titleStartsWith");
            lemma_lex_lt_at(p.wire_text(), q.wire_text(), 5);
        },
        Param::TitleStartsWith => {
            assert(q == Param::Ts);
            reveal_strlit("titleStartsWith");
            reveal_strlit("ts");
            lemma_lex_lt_at(p.wire_text(), q.wire_text(), 1);
        },
        Param::Ts => {
            assert(q == Param::Upc);
            reveal_strlit("ts");
            reveal_strlit("upc");
            lemma_lex_lt_at(p.wire_text(), q.wire_text(), 0);
        },
        Param::Upc => {},
    }
}

/// One key/value pair of a query string.
#[derive(Debug)]
pub struct QueryParam {
    pub key: Param,
    pub value: String,
}

/// One row of a filter's field table: a key, and the text of the field's
/// value when the field is set.
pub type Field = (Param, Option<Seq<char>>);

/// The pairs that a list of query parameters stands for.
pub open spec fn pairs_view(s: Seq<QueryParam>) -> Seq<(Param, Seq<char>)> {
    s.map_values(|q: QueryParam| (q.key, q.value@))
}

/// What one row contributes to the query: its pair when the field is set,
/// nothing otherwise.
pub open spec fn present(f: Field) -> Seq<(Param, Seq<char>)> {
    match f.1 {
        Some(v) => seq![(f.0, v)],
        None => Seq::empty(),
    }
}

/// The query pairs of a field table, row by row in table order.
pub open spec fn emitted(t: Seq<Field>) -> Seq<(Param, Seq<char>)>
    decreases t.len(),
{
    if t.len() == 0 {
        Seq::empty()
    } else {
        emitted(t.drop_last()) + present(t.last())
    }
}

/// The keys of the table strictly ascend; in particular no key is repeated.
pub open spec fn ascending(t: Seq<Field>) -> bool {
    forall|i: int, j: int| 0 <= i < j < t.len() ==> #[trigger] t[i].0.rank() < #[trigger] t[j].0.rank()
}

/// The value that a list of pairs gives for `k`: the last pair with that
/// key wins.
pub open spec fn value_of(s: Seq<(Param, Seq<char>)>, k: Param) -> Option<Seq<char>>
    decreases s.len(),
{
    if s.len() == 0 {
        None
    } else if s.last().0 == k {
        Some(s.last().1)
    } else {
        value_of(s.drop_last(), k)
    }
}

/// The row for a text field.
pub open spec fn text_field(k: Param, v: Option<String>) -> Field {
    (k, match v { Some(s) => Some(s@), None => None })
}

/// The row for a numeric field, written in decimal.
pub open spec fn number_field(k: Param, v: Option<u32>) -> Field {
    (k, match v { Some(n) => Some(crate::text::nat_text(n as nat)), None => None })
}

/// The row for a flag, written `true` or `false`.
pub open spec fn flag_field(k: Param, v: Option<bool>) -> Field {
    (k, match v { Some(b) => Some(crate::text::bool_text(b)), None => None })
}

/// The row for a moment in time, in its UTC text form.
pub open spec fn time_field(k: Param, v: Option<Timestamp>) -> Field {
    (k, match v { Some(t) => Some(utc_text(t.seconds_spec())), None => None })
}

pub broadcast proof fn lemma_emitted_push(t: Seq<Field>, f: Field)
    ensures
        #[trigger] emitted(t.push(f)) == emitted(t) + present(f),
{
    assert(t.push(f).drop_last() =~= t);
}

pub broadcast proof fn lemma_ascending_push(t: Seq<Field>, f: Field)
    requires
        ascending(t),
        t.len() == 0 || t.last().0.rank() < f.0.rank(),
    ensures
        #[trigger] ascending(t.push(f)),
{
    let u = t.push(f);
    assert forall|i: int, j: int| 0 <= i < j < u.len() implies #[trigger] u[i].0.rank() < #[trigger] u[j].0.rank() by {
        if j == t.len() {
            if i < t.len() - 1 {
                assert(t[i].0.rank() < t[t.len() - 1].0.rank());
            }
        } else {
            assert(u[i] == t[i] && u[j] == t[j]);
        }
    }
}

/// Every pair of the query comes from a row of the table whose field is set
/// to that value.
pub proof fn lemma_emitted_from_table(t: Seq<Field>, j: int)
    requires
        0 <= j < emitted(t).len(),
    ensures
        exists|i: int| 0 <= i < t.len() && #[trigger] t[i].0 == emitted(t)[j].0 && t[i].1 == Some(emitted(t)[j].1),
    decreases t.len(),
{
    let d = t.drop_last();
    let e = emitted(t);
    if j < emitted(d).len() {
        lemma_emitted_from_table(d, j);
        let i = choose|i: int| 0 <= i < d.len() && #[trigger] d[i].0 == emitted(d)[j].0 && d[i].1 == Some(emitted(d)[j].1);
        assert(t[i] == d[i]);
        assert(e[j] == emitted(d)[j]);
    } else {
        let i = t.len() - 1;
        assert(t[i].0 == e[j].0);
    }
}

/// A list of pairs gives no value for a key that none of its pairs has.
proof fn lemma_value_of_absent(s: Seq<(Param, Seq<char>)>, k: Param)
    requires
        forall|j: int| 0 <= j < s.len() ==> #[trigger] s[j].0 != k,
    ensures
        value_of(s, k) is None,
    decreases s.len(),
{
    if s.len() > 0 {
        assert(s.last().0 != k);
        assert forall|j: int| 0 <= j < s.drop_last().len() implies #[trigger] s.drop_last()[j].0 != k by {
            assert(s.drop_last()[j] == s[j]);
        }
        lemma_value_of_absent(s.drop_last(), k);
    }
}

/// Unset fields never appear as query keys, and a set field appears under
/// its own key with its own value: for a table whose keys ascend, the query
/// holds a pair with the key of row `i` exactly when that row's field is set,
/// and reading the query back by that key gives the field's value.
pub proof fn lemma_fields_round_trip(t: Seq<Field>, i: int)
    requires
        ascending(t),
        0 <= i < t.len(),
    ensures
        (exists|j: int| 0 <= j < emitted(t).len() && #[trigger] emitted(t)[j].0 == t[i].0) <==> t[i].1 is Some,
        value_of(emitted(t), t[i].0) == t[i].1,
    decreases t.len(),
{
    let k = t[i].0;
    let d = t.drop_last();
    let e = emitted(t);
    assert(ascending(d)) by {
        assert forall|a: int, b: int| 0 <= a < b < d.len() implies #[trigger] d[a].0.rank() < #[trigger] d[b].0.rank() by {
            assert(d[a] == t[a] && d[b] == t[b]);
        }
    }
    if i == t.len() - 1 {
        // No earlier row has this key, so the earlier part of the query has none.
        assert forall|j: int| 0 <= j < emitted(d).len() implies #[trigger] emitted(d)[j].0 != k by {
            lemma_emitted_from_table(d, j);
            let a = choose|a: int| 0 <= a < d.len() && #[trigger] d[a].0 == emitted(d)[j].0 && d[a].1 == Some(emitted(d)[j].1);
            assert(t[a] == d[a]);
            assert(t[a].0.rank() < t[i].0.rank());
        }
        match t[i].1 {
            Some(v) => {
                assert(e.last() == (k, v));
                assert(e[e.len() - 1].0 == k);
            },
            None => {
                assert(e =~= emitted(d));
                lemma_value_of_absent(e, k);
            },
        }
    } else {
        lemma_fields_round_trip(d, i);
        assert(d[i] == t[i]);
        let l = t.last();
        assert(t[i].0.rank() < t[t.len() - 1].0.rank());
        assert(l.0 != k);
        match l.1 {
            Some(v) => {
                assert(e.drop_last() =~= emitted(d));
                assert(e.last() == (l.0, v));
            },
            None => {
                assert(e =~= emitted(d));
            },
        }
        if exists|j: int| 0 <= j < emitted(d).len() && #[trigger] emitted(d)[j].0 == k {
            let j = choose|j: int| 0 <= j < emitted(d).len() && #[trigger] emitted(d)[j].0 == k;
            assert(e[j] == emitted(d)[j]);
        }
        if exists|j: int| 0 <= j < e.len() && #[trigger] e[j].0 == k {
            let j = choose|j: int| 0 <= j < e.len() && #[trigger] e[j].0 == k;
            if j < emitted(d).len() {
                assert(e[j] == emitted(d)[j]);
            }
        }
    }
}

fn push_pair(out: &mut Vec<QueryParam>, key: Param, value: String)
    ensures
        pairs_view(final(out)@) == pairs_view(old(out)@) + seq![(key, value@)],
{
    let ghost before = out@;
    out.push(QueryParam { key, value });
    assert(pairs_view(out@) =~= pairs_view(before) + seq![(key, value@)]);
}

/// Appends the pair of a text field, if it is set.
pub fn emit_text(out: &mut Vec<QueryParam>, key: Param, value: &Option<String>)
    ensures
        pairs_view(final(out)@) == pairs_view(old(out)@) + present(text_field(key, *value)),
{
    match value {
        Some(v) => push_pair(out, key, v.clone()),
        None => {
            assert(pairs_view(out@) =~= pairs_view(out@) + Seq::<(Param, Seq<char>)>::empty());
        },
    }
}

/// Appends the pair of a numeric field, if it is set.
pub fn emit_number(out: &mut Vec<QueryParam>, key: Param, value: &Option<u32>)
    ensures
        pairs_view(final(out)@) == pairs_view(old(out)@) + present(number_field(key, *value)),
{
    match value {
        Some(n) => push_pair(out, key, crate::text::u64_text(*n as u64)),
        None => {
            assert(pairs_view(out@) =~= pairs_view(out@) + Seq::<(Param, Seq<char>)>::empty());
        },
    }
}

/// Appends the pair of a flag, if it is set.
pub fn emit_flag(out: &mut Vec<QueryParam>, key: Param, value: &Option<bool>)
    ensures
        pairs_view(final(out)@) == pairs_view(old(out)@) + present(flag_field(key, *value)),
{
    match value {
        Some(b) => push_pair(out, key, String::from_str(crate::text::bool_str(*b))),
        None => {
            assert(pairs_view(out@) =~= pairs_view(out@) + Seq::<(Param, Seq<char>)>::empty());
        },
    }
}

/// Appends the pair of a moment in time, if it is set.
pub fn emit_time(out: &mut Vec<QueryParam>, key: Param, value: &Option<Timestamp>)
    ensures
        pairs_view(final(out)@) == pairs_view(old(out)@) + present(time_field(key, *value)),
{
    match value {
        Some(t) => push_pair(out, key, t.text()),
        None => {
            assert(pairs_view(out@) =~= pairs_view(out@) + Seq::<(Param, Seq<char>)>::empty());
        },
    }
}

/// The value that `params` gives for `key`; the last pair with it wins.
pub fn param_value(params: &Vec<QueryParam>, key: Param) -> (r: Option<String>)
    ensures
        match r {
            Some(v) => value_of(pairs_view(params@), key) == Some(v@),
            None => value_of(pairs_view(params@), key) is None,
        },
{
    let mut i: usize = params.len();
    assert(params@.take(i as int) =~= params@);
    while i > 0
        invariant
            i <= params@.len(),
            value_of(pairs_view(params@), key) == value_of(pairs_view(params@.take(i as int)), key),
        decreases i,
    {
        let q = &params[i - 1];
        let ghost s = pairs_view(params@.take(i as int));
        assert(s.last() == (q.key, q.value@));
        assert(s.drop_last() =~= pairs_view(params@.take(i - 1)));
        if q.key == key {
            return Some(q.value.clone());
        }
        i = i - 1;
    }
    assert(pairs_view(params@.take(0)).len() == 0);
    None
}

} // verus!
