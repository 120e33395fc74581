//! JSON status documents: what this library reads of a JSON value.
//!
//! A document is either an object, whose members are kept in order with their
//! string values readable and every other value carried along untouched, or
//! any other JSON value, carried along untouched.  Parsing is done by
//! `serde_json`.
use vstd::prelude::*;

verus! {

/// `serde_json::Value`, carried through the library without being read.
#[verifier::external_type_specification]
#[verifier::external_body]
pub struct ExJsonValue(serde_json::Value);

/// The value of an object member.
#[derive(Debug)]
enum Member {
    /// A JSON string.
    Text(String),
    /// Any other JSON value (never a string).
    Other(serde_json::Value),
}

/// The two shapes of a document.
#[derive(Debug)]
enum Repr {
    /// A JSON object, its members in order.
    Object(Vec<(String, Member)>),
    /// Any JSON value that is not an object.
    Other(serde_json::Value),
}

/// A JSON document.  Only this module builds one: `parse_json` puts every
/// object in `Repr::Object` and every string member in `Member::Text`, and
/// the other constructors build objects of string members.
#[derive(Debug)]
pub struct JsonDoc {
    repr: Repr,
}

/// The members of an object as this library reads them: each key with its
/// string value, or `None` for a value that is not a string.
pub type MembersView = Seq<(Seq<char>, Option<Seq<char>>)>;

impl Member {
    /// The string value, if the member holds a string.
    spec fn text_view(&self) -> Option<Seq<char>> {
        match self {
            Member::Text(s) => Some(s@),
            Member::Other(_) => None,
        }
    }
}

/// One member as this library reads it.
spec fn member_view(p: (String, Member)) -> (Seq<char>, Option<Seq<char>>) {
    (p.0@, p.1.text_view())
}

impl View for JsonDoc {
    /// `Some` of the members for an object, `None` for any other value.
    type V = Option<MembersView>;

    closed spec fn view(&self) -> Option<MembersView> {
        match self.repr {
            Repr::Object(m) => Some(m@.map_values(|p: (String, Member)| member_view(p))),
            Repr::Other(_) => None,
        }
    }
}

/// What `doc[key]` holds: `Some(v)` for the first member named `key`, where
/// `v` is its string value if it has one.
pub open spec fn lookup(members: MembersView, key: Seq<char>) -> Option<Option<Seq<char>>>
    decreases members.len(),
{
    if members.len() == 0 {
        None
    } else if members[0].0 == key {
        Some(members[0].1)
    } else {
        lookup(members.drop_first(), key)
    }
}

/// What `doc[key].as_str()` gives: the string value of member `key`, or
/// `None` when the document is no object, has no such member, or the member
/// is not a string.
pub open spec fn str_member(doc: Option<MembersView>, key: Seq<char>) -> Option<Seq<char>> {
    match doc {
        Some(m) => match lookup(m, key) {
            Some(Some(s)) => Some(s),
            _ => None,
        },
        None => None,
    }
}

/// No key occurs twice, as in every JSON object that `serde_json` builds.
pub open spec fn distinct_keys(members: MembersView) -> bool {
    forall|i: int, j: int|
        0 <= i < j < members.len() ==> #[trigger] members[i].0 != #[trigger] members[j].0
}

/// The document view with member `key` set to the string `value`: `None`
/// stays `None`, and an object keeps its other members.
pub open spec fn with_member_spec(
    doc: Option<MembersView>,
    key: Seq<char>,
    value: Seq<char>,
    result: Option<MembersView>,
) -> bool {
    match doc {
        None => result is None,
        Some(m) => result matches Some(r) && (forall|k: Seq<char>|
            #[trigger] lookup(r, k) == if k == key {
                Some(Some(value))
            } else {
                lookup(m, k)
            }) && (distinct_keys(m) ==> distinct_keys(r)),
    }
}

/// The view of what `serde_json::from_str::<serde_json::Value>` returns for
/// `text`: `None` when it fails, else the document as this library reads it.
pub uninterp spec fn spec_parse_json(text: Seq<char>) -> Option<Option<MembersView>>;

/// Parses `text` as JSON with `serde_json::from_str::<serde_json::Value>`.
/// Trusted: the result is the named result `spec_parse_json(text@)`, an
/// object's members come from a `serde_json::Map`, whose keys are distinct,
/// and each value is kept as it was parsed.
#[verifier::external_body]
pub(crate) fn parse_json(text: &str) -> (res: Option<JsonDoc>)
    ensures
        res is None <==> spec_parse_json(text@) is None,
        res matches Some(d) ==> spec_parse_json(text@) == Some(d@),
        res matches Some(d) ==> (d@ matches Some(m) ==> distinct_keys(m)),
{
    match serde_json::from_str::<serde_json::Value>(text) {
        Ok(serde_json::Value::Object(members)) => Some(JsonDoc {
            repr: Repr::Object(members.into_iter().map(
                |(key, value)|
                    (key, match value {
                        serde_json::Value::String(s) => Member::Text(s),
                        other => Member::Other(other),
                    }),
            ).collect()),
        }),
        Ok(other) => Some(JsonDoc { repr: Repr::Other(other) }),
        Err(_) => None,
    }
}

/// `text` parses back to a document with the same shape as `doc` and, for an
/// object whose keys are distinct, the same members.
pub open spec fn reads_back_as(doc: Option<MembersView>, text: Seq<char>) -> bool {
    spec_parse_json(text) matches Some(p) && match doc {
        None => p is None,
        Some(m) => p matches Some(pm) && (distinct_keys(m) ==> forall|k: Seq<char>|
            #[trigger] lookup(pm, k) == lookup(m, k)),
    }
}

/// Writes `doc` as JSON text with `serde_json::Value::to_string`, after
/// turning it back into the `serde_json::Value` it stands for.  Trusted:
/// writing a `Value` cannot fail, and serde_json writes every string and key
/// as it is and an object as an object, so its parser reads the text back
/// with the same shape, keys and strings.  It reads it back at all because
/// every value a document carries was itself parsed by serde_json (nested
/// no deeper than its limit allows, numbers finite) or is a string, and a
/// document adds at most the one object level its own parse had; a document
/// never holds an object outside `Repr::Object` nor a string in
/// `Member::Other` (see `JsonDoc`).
#[verifier::external_body]
pub(crate) fn json_text(doc: JsonDoc) -> (s: String)
    ensures
        reads_back_as(doc@, s@),
{
    let value = match doc.repr {
        Repr::Object(members) => serde_json::Value::Object(members.into_iter().map(
            |(key, member)|
                (key, match member {
                    Member::Text(s) => serde_json::Value::String(s),
                    Member::Other(v) => v,
                }),
        ).collect()),
        Repr::Other(v) => v,
    };
    value.to_string()
}

// ---------------------------------------------------------------------------
// Lemmas on `lookup`
// ---------------------------------------------------------------------------

/// `lookup` finds the first member with the key.
proof fn lemma_lookup_first(m: MembersView, key: Seq<char>, i: int)
    requires
        0 <= i < m.len(),
        m[i].0 == key,
        forall|j: int| 0 <= j < i ==> #[trigger] m[j].0 != key,
    ensures
        lookup(m, key) == Some(m[i].1),
    decreases i,
{
    if i > 0 {
        let t = m.drop_first();
        assert forall|j: int| 0 <= j < i - 1 implies #[trigger] t[j].0 != key by {
            assert(t[j] == m[j + 1]);
        }
        lemma_lookup_first(t, key, i - 1);
    }
}

/// `lookup` of a key that no member has.
proof fn lemma_lookup_absent(m: MembersView, key: Seq<char>)
    requires
        forall|j: int| 0 <= j < m.len() ==> #[trigger] m[j].0 != key,
    ensures
        lookup(m, key) is None,
    decreases m.len(),
{
    if m.len() > 0 {
        let t = m.drop_first();
        assert forall|j: int| 0 <= j < t.len() implies #[trigger] t[j].0 != key by {
            assert(t[j] == m[j + 1]);
        }
        lemma_lookup_absent(t, key);
    }
}

/// Replacing the value of member `i` changes `lookup` of its key only, when
/// it is the first member with that key.
proof fn lemma_lookup_update(m: MembersView, i: int, v: Option<Seq<char>>, k: Seq<char>)
    requires
        0 <= i < m.len(),
        forall|j: int| 0 <= j < i ==> #[trigger] m[j].0 != m[i].0,
    ensures
        lookup(m.update(i, (m[i].0, v)), k) == if k == m[i].0 {
            Some(v)
        } else {
            lookup(m, k)
        },
    decreases i,
{
    let u = m.update(i, (m[i].0, v));
    if i == 0 {
        assert(u.drop_first() =~= m.drop_first());
    } else {
        let t = m.drop_first();
        assert(u.drop_first() =~= t.update(i - 1, (t[i - 1].0, v)));
        assert forall|j: int| 0 <= j < i - 1 implies #[trigger] t[j].0 != t[i - 1].0 by {
            assert(t[j] == m[j + 1]);
        }
        lemma_lookup_update(t, i - 1, v, k);
    }
}

/// Appending a member changes `lookup` of its key only, when no member had
/// that key.
pub(crate) proof fn lemma_lookup_push(m: MembersView, p: (Seq<char>, Option<Seq<char>>), k: Seq<char>)
    requires
        forall|j: int| 0 <= j < m.len() ==> #[trigger] m[j].0 != p.0,
    ensures
        lookup(m.push(p), k) == if k == p.0 {
            Some(p.1)
        } else {
            lookup(m, k)
        },
    decreases m.len(),
{
    if m.len() > 0 {
        let t = m.drop_first();
        assert(m.push(p).drop_first() =~= t.push(p));
        assert forall|j: int| 0 <= j < t.len() implies #[trigger] t[j].0 != p.0 by {
            assert(t[j] == m[j + 1]);
        }
        assert(m.push(p)[0] == m[0]);
        lemma_lookup_push(t, p, k);
    } else {
        assert(m.push(p).drop_first() =~= m);
        assert(m.push(p)[0] == p);
    }
}

// ---------------------------------------------------------------------------
// Executable operations
// ---------------------------------------------------------------------------

/// Equality of two texts, character by character.
pub fn same_text(a: &str, b: &str) -> (r: bool)
    ensures
        r == (a@ == b@),
{
    let x = crate::text::chars_of(a);
    let y = crate::text::chars_of(b);
    if x.len() != y.len() {
        return false;
    }
    let mut i: usize = 0;
    while i < x.len()
        invariant
            x@ == a@,
            y@ == b@,
            x.len() == y.len(),
            0 <= i <= x.len(),
            forall|j: int| 0 <= j < i ==> x@[j] == y@[j],
        decreases x.len() - i,
    {
        if x[i] != y[i] {
            return false;
        }
        i = i + 1;
    }
    assert(x@ =~= y@);
    true
}

/// The first member of `m` named `key` is member `i`.
spec fn first_with_key(m: Seq<(String, Member)>, key: Seq<char>, i: int) -> bool {
    &&& 0 <= i < m.len()
    &&& m[i].0@ == key
    &&& forall|j: int| 0 <= j < i ==> (#[trigger] m[j]).0@ != key
}

/// `new` is `old` with member `key` set to the string `value`, the way
/// `serde_json::Map::insert` does it: an object gets the value in place of
/// its first member named `key`, or as a new last member, every other member
/// staying as it was; a document that is no object stays as it was.
pub closed spec fn sets_member(old: JsonDoc, key: Seq<char>, value: Seq<char>, new: JsonDoc) -> bool {
    match (old.repr, new.repr) {
        (Repr::Object(m), Repr::Object(r)) => {
            let m = m@;
            let r = r@;
            ||| exists|i: int|
                {
                    &&& first_with_key(m, key, i)
                    &&& r.len() == m.len()
                    &&& forall|j: int| 0 <= j < m.len() && j != i ==> #[trigger] r[j] == m[j]
                    &&& r[i].0@ == key
                    &&& r[i].1 matches Member::Text(t) && t@ == value
                }
            ||| {
                &&& forall|j: int| 0 <= j < m.len() ==> (#[trigger] m[j]).0@ != key
                &&& r.len() == m.len() + 1
                &&& forall|j: int| 0 <= j < m.len() ==> #[trigger] r[j] == m[j]
                &&& r[m.len() as int].0@ == key
                &&& r[m.len() as int].1 matches Member::Text(t) && t@ == value
            }
        },
        (Repr::Other(v), Repr::Other(w)) => v == w,
        _ => false,
    }
}

/// The keys of an object are distinct; true of a document that is no object.
pub open spec fn keys_distinct(doc: Option<MembersView>) -> bool {
    match doc {
        Some(m) => distinct_keys(m),
        None => true,
    }
}

impl JsonDoc {
    /// Whether the document is an object.
    pub fn is_object(&self) -> (b: bool)
        ensures
            b == self@ is Some,
    {
        match &self.repr {
            Repr::Object(_) => true,
            Repr::Other(_) => false,
        }
    }

    /// An object with the string members `emoji` and `text`.
    pub fn status(emoji: String, text: String) -> (d: JsonDoc)
        ensures
            d@ == Some(seq![("emoji"@, Some(emoji@)), ("text"@, Some(text@))]),
            keys_distinct(d@),
    {
        let mut members: Vec<(String, String)> = Vec::new();
        let ghost (e, t) = (emoji@, text@);
        members.push((String::from_str("emoji"), emoji));
        members.push((String::from_str("text"), text));
        proof {
            reveal_strlit("emoji");
            reveal_strlit("text");
            assert("emoji"@.len() != "text"@.len());
            assert(members@.map_values(|p: (String, String)| (p.0@, Some(p.1@))) =~= seq![
                ("emoji"@, Some(e)),
                ("text"@, Some(t)),
            ]);
        }
        let d = Self::object(members);
        d
    }

    /// An object whose members are the given keys with string values, in
    /// order; the keys must be distinct, as in every document.
    pub(crate) fn object(members: Vec<(String, String)>) -> (d: JsonDoc)
        requires
            distinct_keys(members@.map_values(|p: (String, String)| (p.0@, Some(p.1@)))),
        ensures
            d@ == Some(members@.map_values(|p: (String, String)| (p.0@, Some(p.1@)))),
    {
        let ghost src = members@.map_values(|p: (String, String)| (p.0@, Some(p.1@)));
        let ghost orig = members@;
        let mut out: Vec<(String, Member)> = Vec::new();
        let mut rest = members;
        while rest.len() > 0
            invariant
                src == orig.map_values(|p: (String, String)| (p.0@, Some(p.1@))),
                out.len() + rest.len() == orig.len(),
                rest@ == orig.skip(out.len() as int),
                forall|i: int| 0 <= i < out.len() ==> member_view(#[trigger] out@[i]) == src[i],
            decreases rest.len(),
        {
            let ghost n = out.len();
            let (key, value) = rest.remove(0);
            proof {
                assert(orig[n as int] == (key, value));
                assert(rest@ =~= orig.skip(n + 1));
            }
            out.push((key, Member::Text(value)));
        }
        let d = JsonDoc { repr: Repr::Object(out) };
        assert(d@->0 =~= src);
        d
    }

    /// The index of the first member named `key`, if any.
    fn find_member(members: &Vec<(String, Member)>, key: &str) -> (r: Option<usize>)
        ensures
            r matches Some(i) ==> first_with_key(members@, key@, i as int),
            r is None ==> forall|j: int| 0 <= j < members.len() ==> (#[trigger] members@[j]).0@ != key@,
    {
        let mut i: usize = 0;
        while i < members.len()
            invariant
                0 <= i <= members.len(),
                forall|j: int| 0 <= j < i ==> (#[trigger] members@[j]).0@ != key@,
            decreases members.len() - i,
        {
            if same_text(members[i].0.as_str(), key) {
                return Some(i);
            }
            i = i + 1;
        }
        None
    }

    /// What `doc[key].as_str()` gives, as an owned text.
    pub fn str_member(&self, key: &str) -> (r: Option<String>)
        ensures
            r is None <==> str_member(self@, key@) is None,
            r matches Some(s) ==> str_member(self@, key@) == Some(s@),
    {
        match &self.repr {
            Repr::Object(members) => {
                let ghost m = self@->0;
                match Self::find_member(members, key) {
                    Some(i) => {
                        proof {
                            assert(m[i as int] == member_view(members@[i as int]));
                            assert forall|j: int| 0 <= j < i implies #[trigger] m[j].0 != key@ by {
                                assert(m[j] == member_view(members@[j]));
                            }
                            lemma_lookup_first(m, key@, i as int);
                        }
                        match &members[i].1 {
                            Member::Text(s) => Some(s.clone()),
                            Member::Other(_) => None,
                        }
                    },
                    None => {
                        proof {
                            assert forall|j: int| 0 <= j < m.len() implies #[trigger] m[j].0
                                != key@ by {
                                assert(m[j] == member_view(members@[j]));
                            }
                            lemma_lookup_absent(m, key@);
                        }
                        None
                    },
                }
            },
            Repr::Other(_) => None,
        }
    }

    /// The document with member `key` set to the string `value`, as
    /// `as_object_mut` followed by `insert` does; a document that is no object
    /// is returned as it is.
    pub fn with_member(self, key: &str, value: String) -> (d: JsonDoc)
        ensures
            sets_member(self, key@, value@, d),
            with_member_spec(self@, key@, value@, d@),
    {
        let ghost old_doc = self;
        let ghost v = value@;
        match self.repr {
            Repr::Object(members) => {
                let ghost m = members@.map_values(|p: (String, Member)| member_view(p));
                let mut members = members;
                let ghost orig = members@;
                match Self::find_member(&members, key) {
                    Some(i) => {
                        let entry = (String::from_str(key), Member::Text(value));
                        members.set(i, entry);
                        let ghost r = members@.map_values(|p: (String, Member)| member_view(p));
                        proof {
                            assert(m[i as int].0 == key@);
                            assert(r =~= m.update(i as int, (m[i as int].0, Some(v))));
                            assert forall|j: int| 0 <= j < i implies #[trigger] m[j].0
                                != m[i as int].0 by {
                                assert(m[j] == member_view(orig[j]));
                            }
                            if distinct_keys(m) {
                                assert forall|a: int, b: int| 0 <= a < b < r.len() implies #[trigger] r[a].0
                                    != #[trigger] r[b].0 by {
                                    assert(r[a].0 == m[a].0 && r[b].0 == m[b].0);
                                }
                            }
                            assert forall|k: Seq<char>| #[trigger]
                                lookup(r, k) == if k == key@ {
                                    Some(Some(v))
                                } else {
                                    lookup(m, k)
                                } by {
                                lemma_lookup_update(m, i as int, Some(v), k);
                            }
                        }
                        let d = JsonDoc { repr: Repr::Object(members) };
                        assert(first_with_key(orig, key@, i as int));
                        d
                    },
                    None => {
                        members.push((String::from_str(key), Member::Text(value)));
                        let ghost r = members@.map_values(|p: (String, Member)| member_view(p));
                        proof {
                            assert(r =~= m.push((key@, Some(v))));
                            assert forall|j: int| 0 <= j < m.len() implies #[trigger] m[j].0
                                != key@ by {
                                assert(m[j] == member_view(orig[j]));
                            }
                            if distinct_keys(m) {
                                assert forall|a: int, b: int| 0 <= a < b < r.len() implies #[trigger] r[a].0
                                    != #[trigger] r[b].0 by {
                                    if b == m.len() {
                                        assert(r[a].0 == m[a].0);
                                    } else {
                                        assert(r[a].0 == m[a].0 && r[b].0 == m[b].0);
                                    }
                                }
                            }
                            assert forall|k: Seq<char>| #[trigger]
                                lookup(r, k) == if k == key@ {
                                    Some(Some(v))
                                } else {
                                    lookup(m, k)
                                } by {
                                lemma_lookup_push(m, (key@, Some(v)), k);
                            }
                        }
                        JsonDoc { repr: Repr::Object(members) }
                    },
                }
            },
            Repr::Other(v) => JsonDoc { repr: Repr::Other(v) },
        }
    }
}

} // verus!
