//! A JSON value model holding plain data, and the accessors the bridge's
//! message handling reads JSON-RPC messages with.

use vstd::prelude::*;
use crate::assoc::{insert_member, lemma_insert_member_split, lookup_member};
use crate::text::str_eq;

verus! {

/// A JSON value. A number keeps the text it is written with; an object keeps
/// its members in order.
#[derive(Debug, PartialEq)]
pub enum Json {
    Null,
    Bool(bool),
    Number(String),
    Str(String),
    Array(Vec<Json>),
    Object(Vec<(String, Json)>),
}

/// The mathematical value of a [`Json`].
pub enum JsonV {
    Null,
    Bool(bool),
    Number(Seq<char>),
    Str(Seq<char>),
    Array(Seq<JsonV>),
    Object(Seq<(Seq<char>, JsonV)>),
}

/// The value of a JSON tree.
pub open spec fn json_view(j: Json) -> JsonV
    decreases j,
{
    match j {
        Json::Null => JsonV::Null,
        Json::Bool(b) => JsonV::Bool(b),
        Json::Number(s) => JsonV::Number(s@),
        Json::Str(s) => JsonV::Str(s@),
        Json::Array(v) => JsonV::Array(elems_view(v@)),
        Json::Object(f) => JsonV::Object(members_view(f@)),
    }
}

/// The values of a sequence of JSON trees.
pub open spec fn elems_view(s: Seq<Json>) -> Seq<JsonV>
    decreases s,
{
    if s.len() == 0 {
        Seq::empty()
    } else {
        elems_view(s.subrange(0, s.len() - 1)).push(json_view(s[s.len() - 1]))
    }
}

/// The values of a sequence of object members.
pub open spec fn members_view(s: Seq<(String, Json)>) -> Seq<(Seq<char>, JsonV)>
    decreases s,
{
    if s.len() == 0 {
        Seq::empty()
    } else {
        members_view(s.subrange(0, s.len() - 1)).push(
            (s[s.len() - 1].0@, json_view(s[s.len() - 1].1)),
        )
    }
}

impl View for Json {
    type V = JsonV;

    open spec fn view(&self) -> JsonV {
        json_view(*self)
    }
}


/// Element-wise description of [`elems_view`].
pub proof fn lemma_elems_view(s: Seq<Json>)
    ensures
        elems_view(s).len() == s.len(),
        forall|i: int| 0 <= i < s.len() ==> #[trigger] elems_view(s)[i] == json_view(s[i]),
    decreases s.len(),
{
    if s.len() > 0 {
        lemma_elems_view(s.subrange(0, s.len() - 1));
    }
}

/// The values of a sequence with one more tree.
pub proof fn lemma_elems_view_push(s: Seq<Json>, x: Json)
    ensures
        elems_view(s.push(x)) == elems_view(s).push(json_view(x)),
{
    assert(s.push(x).subrange(0, s.len() as int) =~= s);
}

/// Element-wise description of [`members_view`].
pub proof fn lemma_members_view(s: Seq<(String, Json)>)
    ensures
        members_view(s).len() == s.len(),
        forall|i: int|
            0 <= i < s.len() ==> #[trigger] members_view(s)[i] == (s[i].0@, json_view(s[i].1)),
    decreases s.len(),
{
    if s.len() > 0 {
        lemma_members_view(s.subrange(0, s.len() - 1));
    }
}

impl JsonV {
    /// `self[key]` where `self` is an object holding `key`.
    pub open spec fn get(self, key: Seq<char>) -> Option<JsonV> {
        match self {
            JsonV::Object(fs) => lookup_member(fs, key),
            _ => None,
        }
    }

    /// `self[key]`, `Null` where there is no such member (as serde_json's
    /// indexing of a `Value` by a string gives it).
    pub open spec fn index(self, key: Seq<char>) -> JsonV {
        match self.get(key) {
            Some(v) => v,
            None => JsonV::Null,
        }
    }

    /// The text of a JSON string.
    pub open spec fn as_str(self) -> Option<Seq<char>> {
        match self {
            JsonV::Str(s) => Some(s),
            _ => None,
        }
    }

    /// A JSON string.
    pub open spec fn string(s: Seq<char>) -> JsonV {
        JsonV::Str(s)
    }
}

impl Json {
    /// A copy of this value.
    #[verifier::loop_isolation(false)]
    pub fn deep_clone(&self) -> (r: Json)
        ensures
            r@ == self@,
        decreases self,
    {
        match self {
            Json::Null => Json::Null,
            Json::Bool(b) => Json::Bool(*b),
            Json::Number(s) => Json::Number(s.clone()),
            Json::Str(s) => Json::Str(s.clone()),
            Json::Array(v) => {
                let mut out: Vec<Json> = Vec::new();
                let n = v.len();
                for i in 0..n
                    invariant
                        n == v@.len(),
                        out@.len() == i,
                        elems_view(out@) == elems_view(v@.subrange(0, i as int)),
                {
                    assert(decreases_to!(*self => self->Array_0));
                    assert(decreases_to!(self->Array_0 => v@));
                    assert(decreases_to!(v@ => v@[i as int]));
                    let c = v[i].deep_clone();
                    let ghost prev = out@;
                    out.push(c);
                    assert(out@.subrange(0, out@.len() - 1) =~= prev);
                    assert(v@.subrange(0, i + 1).subrange(0, i as int) =~= v@.subrange(
                        0,
                        i as int,
                    ));
                }
                assert(v@.subrange(0, n as int) =~= v@);
                Json::Array(out)
            },
            Json::Object(f) => {
                let mut out: Vec<(String, Json)> = Vec::new();
                let n = f.len();
                for i in 0..n
                    invariant
                        n == f@.len(),
                        out@.len() == i,
                        members_view(out@) == members_view(f@.subrange(0, i as int)),
                {
                    assert(decreases_to!(*self => self->Object_0));
                    assert(decreases_to!(self->Object_0 => f@));
                    assert(decreases_to!(f@ => f@[i as int]));
                    assert(decreases_to!(f@[i as int] => f@[i as int].1));
                    let k = f[i].0.clone();
                    let c = f[i].1.deep_clone();
                    let ghost prev = out@;
                    out.push((k, c));
                    assert(out@.subrange(0, out@.len() - 1) =~= prev);
                    assert(f@.subrange(0, i + 1).subrange(0, i as int) =~= f@.subrange(
                        0,
                        i as int,
                    ));
                }
                assert(f@.subrange(0, n as int) =~= f@);
                Json::Object(out)
            },
        }
    }
}

impl Json {
    /// A JSON string holding `s`.
    pub fn string(s: &str) -> (r: Json)
        ensures
            r@ == JsonV::Str(s@),
    {
        Json::Str(s.to_owned())
    }

    /// The member named `key` of an object; `None` for a missing member or
    /// a value that is not an object.
    pub fn get(&self, key: &str) -> (r: Option<&Json>)
        ensures
            match r {
                Some(m) => self@.get(key@) == Some(m@),
                None => self@.get(key@) is None,
            },
    {
        match self {
            Json::Object(f) => {
                let n = f.len();
                proof {
                    lemma_members_view(f@);
                    assert(members_view(f@).subrange(0, n as int) =~= members_view(f@));
                }
                for i in 0..n
                    invariant
                        n == f@.len(),
                        members_view(f@).len() == n,
                        forall|k: int|
                            0 <= k < n ==> #[trigger] members_view(f@)[k] == (
                                f@[k].0@,
                                json_view(f@[k].1),
                            ),
                        self@ == JsonV::Object(members_view(f@)),
                        lookup_member(members_view(f@), key@) == lookup_member(
                            members_view(f@).subrange(i as int, n as int),
                            key@,
                        ),
                {
                    let ghost rest = members_view(f@).subrange(i as int, n as int);
                    assert(rest[0] == members_view(f@)[i as int]);
                    if str_eq(f[i].0.as_str(), key) {
                        return Some(&f[i].1);
                    }
                    assert(rest.drop_first() =~= members_view(f@).subrange(i + 1, n as int));
                }
                None
            },
            _ => None,
        }
    }

    /// `self[key]`: a copy of the member named `key`, `Null` where there is
    /// none.
    pub fn index(&self, key: &str) -> (r: Json)
        ensures
            r@ == self@.index(key@),
    {
        match self.get(key) {
            Some(m) => m.deep_clone(),
            None => Json::Null,
        }
    }

    /// The text of a JSON string.
    pub fn as_str(&self) -> (r: Option<&String>)
        ensures
            match r {
                Some(s) => self@ == JsonV::Str(s@),
                None => !(self@ is Str),
            },
    {
        match self {
            Json::Str(s) => Some(s),
            _ => None,
        }
    }

    /// The elements of a JSON array.
    pub fn as_array(&self) -> (r: Option<&Vec<Json>>)
        ensures
            match r {
                Some(v) => self@ == JsonV::Array(elems_view(v@)),
                None => !(self@ is Array),
            },
    {
        match self {
            Json::Array(v) => Some(v),
            _ => None,
        }
    }

    /// Whether this value is an object.
    pub fn is_object(&self) -> (b: bool)
        ensures
            b == (self@ is Object),
    {
        match self {
            Json::Object(_) => true,
            _ => false,
        }
    }

    /// This value with the member `key` set to `value` where it is an
    /// object; any other value is returned unchanged.
    pub fn with_member(self, key: String, value: Json) -> (r: Json)
        ensures
            match self@ {
                JsonV::Object(fs) => r@ == JsonV::Object(insert_member(fs, key@, value@)),
                _ => r@ == self@,
            },
    {
        match self {
            Json::Object(mut f) => {
                let n = f.len();
                let ghost old_f = f@;
                proof {
                    lemma_members_view(f@);
                }
                let mut i: usize = 0;
                while i < n
                    invariant
                        n == f@.len(),
                        f@ == old_f,
                        members_view(f@).len() == n,
                        forall|k: int|
                            0 <= k < n ==> #[trigger] members_view(f@)[k] == (
                                f@[k].0@,
                                json_view(f@[k].1),
                            ),
                        i <= n,
                        forall|k: int| 0 <= k < i ==> members_view(f@)[k].0 != key@,
                    ensures
                        i <= n,
                        forall|k: int| 0 <= k < i ==> members_view(f@)[k].0 != key@,
                        i < n ==> members_view(f@)[i as int].0 == key@,
                    decreases n - i,
                {
                    if str_eq(f[i].0.as_str(), key.as_str()) {
                        break;
                    }
                    i = i + 1;
                }
                proof {
                    lemma_insert_member_split(members_view(old_f), key@, value@, i as int);
                }
                if i < n {
                    f.set(i, (key, value));
                } else {
                    f.push((key, value));
                }
                proof {
                    lemma_members_view(f@);
                    assert(members_view(f@) =~= insert_member(members_view(old_f), key@, value@));
                }
                Json::Object(f)
            },
            other => other,
        }
    }
}

} // verus!
