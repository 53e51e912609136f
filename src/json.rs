use vstd::prelude::*;

verus! {

/// A self-describing structured value (null, boolean, integer, string,
/// array, object), the form in which a scene is persisted.
#[derive(Debug, PartialEq, Eq)]
pub enum Json {
    Null,
    Bool(bool),
    Int(i64),
    /// A number that is not an integer within the range of `i64`.
    OtherNumber,
    Str(String),
    Array(Vec<Json>),
    /// The entries of an object, in order.
    Object(Vec<(String, Json)>),
}

/// The mathematical value of a `Json`.
pub enum JsonView {
    Null,
    Bool(bool),
    Int(i64),
    OtherNumber,
    Str(Seq<char>),
    Array(Seq<JsonView>),
    Object(Seq<(Seq<char>, JsonView)>),
}

pub open spec fn json_view(j: Json) -> JsonView
    decreases j,
{
    match j {
        Json::Null => JsonView::Null,
        Json::Bool(b) => JsonView::Bool(b),
        Json::Int(i) => JsonView::Int(i),
        Json::OtherNumber => JsonView::OtherNumber,
        Json::Str(s) => JsonView::Str(s@),
        Json::Array(items) => JsonView::Array(json_views(items@)),
        Json::Object(entries) => JsonView::Object(entries_view(entries@)),
    }
}

/// The values of a sequence of `Json`, in order.
pub open spec fn json_views(s: Seq<Json>) -> Seq<JsonView>
    decreases s,
{
    if s.len() == 0 {
        Seq::empty()
    } else {
        json_views(s.subrange(0, s.len() - 1)).push(json_view(s[s.len() - 1]))
    }
}

/// The values of the entries of an object, in order.
pub open spec fn entries_view(s: Seq<(String, Json)>) -> Seq<(Seq<char>, JsonView)>
    decreases s,
{
    if s.len() == 0 {
        Seq::empty()
    } else {
        let last = s[s.len() - 1];
        entries_view(s.subrange(0, s.len() - 1)).push((last.0@, json_view(last.1)))
    }
}

impl View for Json {
    type V = JsonView;

    open spec fn view(&self) -> JsonView {
        json_view(*self)
    }
}

/// The values of a sequence of `Json`, element by element.
pub proof fn lemma_json_views(s: Seq<Json>)
    ensures
        json_views(s).len() == s.len(),
        forall|i: int| 0 <= i < s.len() ==> #[trigger] json_views(s)[i] == json_view(s[i]),
    decreases s.len(),
{
    if s.len() > 0 {
        let w = s.subrange(0, s.len() - 1);
        lemma_json_views(w);
        assert forall|i: int| 0 <= i < w.len() implies w[i] == s[i] by {}
    }
}

/// The values of the entries of an object, entry by entry.
pub proof fn lemma_entries_view(s: Seq<(String, Json)>)
    ensures
        entries_view(s).len() == s.len(),
        forall|i: int|
            0 <= i < s.len() ==> #[trigger] entries_view(s)[i] == (s[i].0@, json_view(s[i].1)),
    decreases s.len(),
{
    if s.len() > 0 {
        let w = s.subrange(0, s.len() - 1);
        lemma_entries_view(w);
        assert forall|i: int| 0 <= i < w.len() implies w[i] == s[i] by {}
    }
}

/// The value of the first entry named `key`, if any.
pub open spec fn field(entries: Seq<(Seq<char>, JsonView)>, key: Seq<char>) -> Option<JsonView>
    decreases entries.len(),
{
    if entries.len() == 0 {
        None
    } else if entries[0].0 == key {
        Some(entries[0].1)
    } else {
        field(entries.subrange(1, entries.len() as int), key)
    }
}

/// Looks up the first entry named `key`.
pub fn get_field<'a>(entries: &'a Vec<(String, Json)>, key: &str) -> (r: Option<&'a Json>)
    ensures
        match r {
            Some(j) => field(entries_view(entries@), key@) == Some(j@),
            None => field(entries_view(entries@), key@) is None,
        },
{
    let wanted = String::from_str(key);
    let ghost es = entries_view(entries@);
    proof {
        lemma_entries_view(entries@);
        assert(es.subrange(0, es.len() as int) =~= es);
    }
    let mut i: usize = 0;
    while i < entries.len()
        invariant
            i <= entries@.len(),
            es == entries_view(entries@),
            es.len() == entries@.len(),
            wanted@ == key@,
            field(es, key@) == field(es.subrange(i as int, es.len() as int), key@),
        decreases entries@.len() - i,
    {
        let ghost rest = es.subrange(i as int, es.len() as int);
        proof {
            lemma_entries_view(entries@);
        }
        assert(rest[0] == es[i as int]);
        assert(es[i as int] == (entries@[i as int].0@, json_view(entries@[i as int].1)));
        if entries[i].0 == wanted {
            return Some(&entries[i].1);
        }
        assert(rest.subrange(1, rest.len() as int) =~= es.subrange(i + 1, es.len() as int));
        i = i + 1;
    }
    None
}

/// The entry at `i` is found when no earlier entry has its name.
pub proof fn lemma_field_at(es: Seq<(Seq<char>, JsonView)>, i: int)
    requires
        0 <= i < es.len(),
        forall|j: int| 0 <= j < i ==> (#[trigger] es[j]).0 != es[i].0,
    ensures
        field(es, es[i].0) == Some(es[i].1),
    decreases i,
{
    if i > 0 {
        let rest = es.subrange(1, es.len() as int);
        assert forall|j: int| 0 <= j < i - 1 implies (#[trigger] rest[j]).0 != rest[i - 1].0 by {
            assert(rest[j] == es[j + 1]);
        }
        lemma_field_at(rest, i - 1);
        assert(es[0].0 != es[i].0);
    }
}

/// The fields of an object with two entries of different names.
pub proof fn lemma_object2(k0: Seq<char>, v0: JsonView, k1: Seq<char>, v1: JsonView)
    requires
        k0 != k1,
    ensures
        field(seq![(k0, v0), (k1, v1)], k0) == Some(v0),
        field(seq![(k0, v0), (k1, v1)], k1) == Some(v1),
{
    let es = seq![(k0, v0), (k1, v1)];
    lemma_field_at(es, 0);
    lemma_field_at(es, 1);
}

/// The fields of an object with three entries of pairwise different names.
pub proof fn lemma_object3(
    k0: Seq<char>,
    v0: JsonView,
    k1: Seq<char>,
    v1: JsonView,
    k2: Seq<char>,
    v2: JsonView,
)
    requires
        k0 != k1,
        k0 != k2,
        k1 != k2,
    ensures
        field(seq![(k0, v0), (k1, v1), (k2, v2)], k0) == Some(v0),
        field(seq![(k0, v0), (k1, v1), (k2, v2)], k1) == Some(v1),
        field(seq![(k0, v0), (k1, v1), (k2, v2)], k2) == Some(v2),
{
    let es = seq![(k0, v0), (k1, v1), (k2, v2)];
    lemma_field_at(es, 0);
    lemma_field_at(es, 1);
    assert forall|j: int| 0 <= j < 2 implies (#[trigger] es[j]).0 != es[2].0 by {
        if j == 1 {
        }
    }
    lemma_field_at(es, 2);
}

/// The fields of an object with four entries of pairwise different names.
pub proof fn lemma_object4(
    k0: Seq<char>,
    v0: JsonView,
    k1: Seq<char>,
    v1: JsonView,
    k2: Seq<char>,
    v2: JsonView,
    k3: Seq<char>,
    v3: JsonView,
)
    requires
        k0 != k1,
        k0 != k2,
        k0 != k3,
        k1 != k2,
        k1 != k3,
        k2 != k3,
    ensures
        field(seq![(k0, v0), (k1, v1), (k2, v2), (k3, v3)], k0) == Some(v0),
        field(seq![(k0, v0), (k1, v1), (k2, v2), (k3, v3)], k1) == Some(v1),
        field(seq![(k0, v0), (k1, v1), (k2, v2), (k3, v3)], k2) == Some(v2),
        field(seq![(k0, v0), (k1, v1), (k2, v2), (k3, v3)], k3) == Some(v3),
{
    let es = seq![(k0, v0), (k1, v1), (k2, v2), (k3, v3)];
    lemma_field_at(es, 0);
    lemma_field_at(es, 1);
    assert forall|j: int| 0 <= j < 2 implies (#[trigger] es[j]).0 != es[2].0 by {
        if j == 1 {
        }
    }
    lemma_field_at(es, 2);
    assert forall|j: int| 0 <= j < 3 implies (#[trigger] es[j]).0 != es[3].0 by {
        if j == 1 {
        } else if j == 2 {
        }
    }
    lemma_field_at(es, 3);
}

} // verus!
