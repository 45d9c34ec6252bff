//! The map flattener and the typed field extractors: an alternating
//! key/value reply array becomes a key-to-value map, and single generic
//! values become concrete scalars, each failing with a decode error that
//! names the expected kind and carries the offending value.

use vstd::prelude::*;
use crate::codec::{CommandError, ErrV, RespV, Response, res_view, resp_views};
use crate::codec::lemma_resp_views;

verus! {

broadcast use vstd::seq_lib::lemma_seq_skip_of_skip;

/// The text content of a string-like generic value: a bulk string or a
/// status string, and nothing else.
pub open spec fn as_text(v: RespV) -> Option<Seq<char>> {
    match v {
        RespV::Bytes(s) => Some(s),
        RespV::Status(s) => Some(s),
        _ => None,
    }
}

/// What extracting text from a generic value returns: its content when it
/// is string-like, otherwise a decode error holding the value.
pub open spec fn text_spec(v: RespV) -> Result<Seq<char>, ErrV> {
    match as_text(v) {
        Some(s) => Ok(s),
        None => Err(ErrV::Output("Unexpected Value Type, Want string"@, v)),
    }
}

/// What extracting an integer from a generic value returns.
pub open spec fn int_spec(v: RespV) -> Result<int, ErrV> {
    match v {
        RespV::Integer(n) => Ok(n),
        _ => Err(ErrV::Output("Unexpected Value Type, Want i64"@, v)),
    }
}

/// Extracts the text of a string-like generic value.
pub fn text_of(v: &Response) -> (r: Result<String, CommandError>)
    ensures
        res_view(r) == text_spec(v@),
{
    match v {
        Response::Bytes(s) => Ok(s.clone()),
        Response::String(s) => Ok(s.clone()),
        _ => Err(CommandError::Output("Unexpected Value Type, Want string".to_string(), v.clone())),
    }
}

/// Extracts the integer of an integer generic value.
pub fn int_of(v: &Response) -> (r: Result<i64, CommandError>)
    ensures
        (match r {
            Ok(n) => int_spec(v@) == Ok::<int, ErrV>(n as int),
            Err(e) => int_spec(v@) == Err::<int, ErrV>(e@),
        }),
{
    match v {
        Response::Integer(n) => Ok(*n),
        _ => Err(CommandError::Output("Unexpected Value Type, Want i64".to_string(), v.clone())),
    }
}

/// The value bound to a key in a flattened map: the first pair holding the
/// key wins the lookup (the map keeps keys unique).
pub open spec fn map_get<V>(s: Seq<(Seq<char>, V)>, k: Seq<char>) -> Option<V>
    decreases s.len(),
{
    if s.len() == 0 {
        None
    } else if s[0].0 == k {
        Some(s[0].1)
    } else {
        map_get(s.skip(1), k)
    }
}

/// Binding a key in a flattened map: an existing pair with the key is
/// replaced in place, a new key is appended.
pub open spec fn upsert<V>(s: Seq<(Seq<char>, V)>, k: Seq<char>, v: V) -> Seq<(Seq<char>, V)>
    decreases s.len(),
{
    if s.len() == 0 {
        seq![(k, v)]
    } else if s[0].0 == k {
        seq![(k, v)] + s.skip(1)
    } else {
        seq![s[0]] + upsert(s.skip(1), k, v)
    }
}

/// A map from string keys to generic values, as produced by flattening an
/// alternating key/value reply array. Insertion order of first occurrence
/// is preserved; a repeated key overwrites the earlier value.
#[derive(Debug)]
pub struct FieldMap {
    pairs: Vec<(String, Response)>,
}

impl View for FieldMap {
    type V = Seq<(Seq<char>, RespV)>;

    closed spec fn view(&self) -> Seq<(Seq<char>, RespV)> {
        Seq::new(self.pairs@.len(), |i: int| (self.pairs@[i].0@, self.pairs@[i].1@))
    }
}

impl FieldMap {
    /// The empty map.
    pub fn new() -> (m: FieldMap)
        ensures
            m@ == Seq::<(Seq<char>, RespV)>::empty(),
    {
        let m = FieldMap { pairs: Vec::new() };
        proof {
            assert(m@ =~= Seq::<(Seq<char>, RespV)>::empty());
        }
        m
    }

    /// Binds a key to a value, last write winning.
    pub fn insert(&mut self, k: String, v: Response)
        ensures
            final(self)@ == upsert(old(self)@, k@, v@),
    {
        let mut i: usize = 0;
        while i < self.pairs.len()
            invariant
                i <= self.pairs.len(),
                *self == *old(self),
                forall|j: int| 0 <= j < i as int ==> old(self)@[j].0 != k@,
            decreases self.pairs.len() - i,
        {
            if self.pairs[i].0 == k {
                self.pairs.remove(i);
                self.pairs.insert(i, (k, v));
                proof {
                    lemma_upsert_found(old(self)@, k@, v@, i as int);
                    assert(self@ =~= old(self)@.update(i as int, (k@, v@)));
                }
                return ;
            }
            i = i + 1;
        }
        self.pairs.push((k, v));
        proof {
            lemma_upsert_absent(old(self)@, k@, v@);
            assert(self@ =~= old(self)@.push((k@, v@)));
        }
    }

    /// Looks a key up.
    pub fn get(&self, k: &str) -> (r: Option<&Response>)
        ensures
            (match r {
                Some(v) => map_get(self@, k@) == Some(v@),
                None => map_get(self@, k@) is None,
            }),
    {
        let key = k.to_string();
        let mut i: usize = 0;
        while i < self.pairs.len()
            invariant
                i <= self.pairs.len(),
                key@ == k@,
                map_get(self@, k@) == map_get(self@.skip(i as int), k@),
            decreases self.pairs.len() - i,
        {
            proof {
                assert(self@.skip(i as int)[0] == self@[i as int]);
                assert(self@.skip(i as int).skip(1) =~= self@.skip(i as int + 1));
            }
            if self.pairs[i].0 == key {
                return Some(&self.pairs[i].1);
            }
            i = i + 1;
        }
        proof {
            assert(self@.skip(i as int).len() == 0);
        }
        None
    }
}

/// Replacing the first pair holding a present key is what [`upsert`] does.
pub proof fn lemma_upsert_found<V>(s: Seq<(Seq<char>, V)>, k: Seq<char>, v: V, i: int)
    requires
        0 <= i < s.len(),
        s[i].0 == k,
        forall|j: int| 0 <= j < i ==> s[j].0 != k,
    ensures
        upsert(s, k, v) == s.update(i, (k, v)),
    decreases i,
{
    if i == 0 {
        assert(upsert(s, k, v) =~= s.update(0, (k, v)));
    } else {
        lemma_upsert_found(s.skip(1), k, v, i - 1);
        assert(s.skip(1).update(i - 1, (k, v)) =~= s.update(i, (k, v)).skip(1));
        assert(upsert(s, k, v) =~= s.update(i, (k, v)));
    }
}

/// Appending a pair with a fresh key is what [`upsert`] does.
pub proof fn lemma_upsert_absent<V>(s: Seq<(Seq<char>, V)>, k: Seq<char>, v: V)
    ensures
        (forall|j: int| 0 <= j < s.len() ==> s[j].0 != k) ==> upsert(s, k, v) == s.push((k, v)),
    decreases s.len(),
{
    if s.len() > 0 {
        lemma_upsert_absent(s.skip(1), k, v);
        if forall|j: int| 0 <= j < s.len() ==> s[j].0 != k {
            assert(forall|j: int| 0 <= j < s.skip(1).len() ==> s.skip(1)[j].0 != k);
            assert(seq![s[0]] + s.skip(1).push((k, v)) =~= s.push((k, v)));
        }
    } else {
        assert(upsert(s, k, v) =~= s.push((k, v)));
    }
}

/// What flattening the rest of an alternating key/value array adds to an
/// accumulated map: each even-positioned value must be a string-like key;
/// a trailing key with no value is checked and then dropped.
pub open spec fn flatten_from(
    items: Seq<RespV>,
    acc: Seq<(Seq<char>, RespV)>,
) -> Result<Seq<(Seq<char>, RespV)>, ErrV>
    decreases items.len(),
{
    if items.len() == 0 {
        Ok(acc)
    } else {
        match text_spec(items[0]) {
            Err(e) => Err(e),
            Ok(k) => if items.len() == 1 {
                Ok(acc)
            } else {
                flatten_from(items.skip(2), upsert(acc, k, items[1]))
            },
        }
    }
}

/// What flattening a whole alternating key/value array yields.
pub open spec fn flatten_spec(items: Seq<RespV>) -> Result<Seq<(Seq<char>, RespV)>, ErrV> {
    flatten_from(items, Seq::empty())
}

/// Flattens an alternating key/value reply array into a map from string
/// key to generic value, failing on a key that is not string-like.
pub fn parse_response_to_map(items: &Vec<Response>) -> (r: Result<FieldMap, CommandError>)
    ensures
        res_view(r) == flatten_spec(resp_views(items@)),
{
    let ghost full = resp_views(items@);
    proof {
        lemma_resp_views(items@);
    }
    let mut m = FieldMap::new();
    let mut i: usize = 0;
    while i < items.len()
        invariant
            i <= items.len(),
            full == resp_views(items@),
            full.len() == items@.len(),
            forall|j: int| 0 <= j < items@.len() ==> full[j] == items@[j]@,
            flatten_from(full.skip(i as int), m@) == flatten_spec(full),
        decreases items.len() - i,
    {
        proof {
            assert(full.skip(i as int)[0] == full[i as int]);
        }
        let key = match text_of(&items[i]) {
            Ok(k) => k,
            Err(e) => {
                return Err(e);
            },
        };
        if i + 1 < items.len() {
            proof {
                assert(full.skip(i as int)[1] == full[i as int + 1]);
                assert(full.skip(i as int).skip(2) =~= full.skip(i as int + 2));
            }
            let value = items[i + 1].clone();
            m.insert(key, value);
            i = i + 2;
        } else {
            proof {
                assert(full.skip(i as int).len() == 1);
            }
            return Ok(m);
        }
    }
    proof {
        assert(full.skip(i as int).len() == 0);
    }
    Ok(m)
}

/// The integer a required key must be bound to: absence is a missing-field
/// error, a non-integer value a decode error.
pub open spec fn req_int(m: Seq<(Seq<char>, RespV)>, k: Seq<char>) -> Result<int, ErrV> {
    match map_get(m, k) {
        None => Err(ErrV::MissingField(k)),
        Some(v) => int_spec(v),
    }
}

/// The text a required key must be bound to.
pub open spec fn req_text(m: Seq<(Seq<char>, RespV)>, k: Seq<char>) -> Result<Seq<char>, ErrV> {
    match map_get(m, k) {
        None => Err(ErrV::MissingField(k)),
        Some(v) => text_spec(v),
    }
}

/// The text an optional key is bound to: absence, and a value that is not
/// string-like, both read as nothing.
pub open spec fn opt_text(m: Seq<(Seq<char>, RespV)>, k: Seq<char>) -> Option<Seq<char>> {
    match map_get(m, k) {
        Some(v) => as_text(v),
        None => None,
    }
}

/// The integer an optional key is bound to: only an integer-shaped value
/// counts as present.
pub open spec fn opt_int(m: Seq<(Seq<char>, RespV)>, k: Seq<char>) -> Option<int> {
    match map_get(m, k) {
        Some(v) => match v {
            RespV::Integer(n) => Some(n),
            _ => None,
        },
        None => None,
    }
}

impl FieldMap {
    /// Extracts the integer a required key is bound to.
    pub fn get_int(&self, k: &str) -> (r: Result<i64, CommandError>)
        ensures
            (match r {
                Ok(n) => req_int(self@, k@) == Ok::<int, ErrV>(n as int),
                Err(e) => req_int(self@, k@) == Err::<int, ErrV>(e@),
            }),
    {
        match self.get(k) {
            Some(v) => int_of(v),
            None => Err(CommandError::MissingField(k.to_string())),
        }
    }

    /// Extracts the text a required key is bound to.
    pub fn get_text(&self, k: &str) -> (r: Result<String, CommandError>)
        ensures
            res_view(r) == req_text(self@, k@),
    {
        match self.get(k) {
            Some(v) => text_of(v),
            None => Err(CommandError::MissingField(k.to_string())),
        }
    }

    /// Extracts the text an optional key is bound to, if it is there and
    /// string-like.
    pub fn get_opt_text(&self, k: &str) -> (r: Option<String>)
        ensures
            (match r {
                Some(s) => opt_text(self@, k@) == Some(s@),
                None => opt_text(self@, k@) is None,
            }),
    {
        match self.get(k) {
            Some(v) => match v {
                Response::Bytes(s) => Some(s.clone()),
                Response::String(s) => Some(s.clone()),
                _ => None,
            },
            None => None,
        }
    }

    /// Extracts the integer an optional key is bound to, if it is there
    /// and integer-shaped.
    pub fn get_opt_int(&self, k: &str) -> (r: Option<i64>)
        ensures
            (match r {
                Some(n) => opt_int(self@, k@) == Some(n as int),
                None => opt_int(self@, k@) is None,
            }),
    {
        match self.get(k) {
            Some(v) => match v {
                Response::Integer(n) => Some(*n),
                _ => None,
            },
            None => None,
        }
    }
}

} // verus!
