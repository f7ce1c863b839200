//! Key/value metadata of an embedded chunk, and its JSON form.

use vstd::prelude::*;

verus! {

/// The pairs as plain text.
pub open spec fn pair_views(pairs: Seq<(String, String)>) -> Seq<(Seq<char>, Seq<char>)> {
    pairs.map_values(|p: (String, String)| (p.0@, p.1@))
}

/// No key occurs twice.
pub open spec fn keys_distinct(pairs: Seq<(Seq<char>, Seq<char>)>) -> bool {
    forall|i: int, j: int| 0 <= i < j < pairs.len() ==> #[trigger] pairs[i].0 != #[trigger] pairs[j].0
}

/// Key/value metadata: each key at most once, kept in the order first given.
pub struct Metadata {
    entries: Vec<(String, String)>,
}

impl View for Metadata {
    type V = Seq<(Seq<char>, Seq<char>)>;

    closed spec fn view(&self) -> Seq<(Seq<char>, Seq<char>)> {
        pair_views(self.entries@)
    }
}

impl Metadata {
    #[verifier::type_invariant]
    closed spec fn keys_unique(&self) -> bool {
        keys_distinct(self@)
    }

    /// No entries.
    pub fn new() -> (r: Self)
        ensures
            r@ == Seq::<(Seq<char>, Seq<char>)>::empty(),
    {
        let r = Metadata { entries: Vec::new() };
        assert(r@ =~= Seq::<(Seq<char>, Seq<char>)>::empty());
        r
    }

    /// The number of keys.
    pub fn len(&self) -> (r: usize)
        ensures
            r == self@.len(),
    {
        self.entries.len()
    }

    /// The entries, in order; no key occurs twice.
    pub fn entries(&self) -> (r: &Vec<(String, String)>)
        ensures
            pair_views(r@) == self@,
            keys_distinct(self@),
    {
        proof {
            use_type_invariant(self);
        }
        &self.entries
    }

    /// This metadata with `key` set to `value`: the value of an existing key is
    /// replaced in place, a new key is added at the end.
    pub fn inserted(self, key: String, value: String) -> (r: Self)
        ensures
            (exists|i: int| 0 <= i < self@.len() && self@[i].0 == key@) ==> (exists|i: int|
                0 <= i < self@.len() && self@[i].0 == key@ && r@ == self@.update(i, (key@, value@))),
            !(exists|i: int| 0 <= i < self@.len() && self@[i].0 == key@) ==> r@ == self@.push(
                (key@, value@),
            ),
    {
        proof {
            use_type_invariant(&self);
        }
        let ghost before = self@;
        let Metadata { mut entries } = self;
        let n = entries.len();
        let mut i: usize = 0;
        while i < n
            invariant
                n == entries@.len(),
                i <= n,
                pair_views(entries@) == before,
                keys_distinct(before),
                before == self@,
                forall|k: int| 0 <= k < i ==> before[k].0 != key@,
            decreases n - i,
        {
            if entries[i].0 == key {
                let ghost old_entries = entries@;
                proof {
                    assert(pair_views(old_entries)[i as int] == before[i as int]);
                    assert(before[i as int].0 == key@);
                }
                entries.set(i, (key, value));
                let ghost after = before.update(i as int, (key@, value@));
                proof {
                    assert(pair_views(entries@) =~= after);
                    assert(forall|k: int| 0 <= k < after.len() ==> #[trigger] after[k].0 == before[k].0);
                }
                let r = Metadata { entries };
                assert(r@ == after);
                return r;
            }
            i = i + 1;
        }
        let ghost old_entries = entries@;
        entries.push((key, value));
        proof {
            assert(pair_views(entries@) =~= before.push((key@, value@))) by {
                assert(forall|k: int| 0 <= k < old_entries.len() ==> entries@[k] == old_entries[k]);
            }
        }
        let r = Metadata { entries };
        r
    }

    /// A copy of this metadata.
    pub fn copy(&self) -> (r: Self)
        ensures
            r@ == self@,
    {
        proof {
            use_type_invariant(self);
        }
        let mut out: Vec<(String, String)> = Vec::new();
        let mut i: usize = 0;
        while i < self.entries.len()
            invariant
                i <= self.entries@.len(),
                out@ == self.entries@.subrange(0, i as int),
            decreases self.entries@.len() - i,
        {
            let k = self.entries[i].0.clone();
            let v = self.entries[i].1.clone();
            out.push((k, v));
            proof {
                assert(self.entries@[i as int] == (k, v));
            }
            i = i + 1;
        }
        assert(out@ =~= self.entries@);
        Metadata { entries: out }
    }
}

/// The JSON object text that serde_json makes of these key/value pairs.
pub uninterp spec fn json_object_of(entries: Seq<(Seq<char>, Seq<char>)>) -> Seq<char>;

/// Relies on serde_json::to_string of a serde_json::Map whose values are
/// strings: a JSON object, which depends on the pairs alone. Such a map
/// cannot fail to serialize.
#[verifier::external_body]
fn json_object(pairs: &Vec<(String, String)>) -> (r: String)
    ensures
        r@ == json_object_of(pair_views(pairs@)),
{
    let map: serde_json::Map<String, serde_json::Value> =
        pairs.iter().map(|(k, v)| (k.clone(), serde_json::Value::String(v.clone()))).collect();
    serde_json::to_string(&map).unwrap_or_default()
}

/// The metadata as a JSON object.
pub fn metadata_json(md: &Metadata) -> (r: String)
    ensures
        r@ == json_object_of(md@),
{
    json_object(md.entries())
}

/// The JSON form of optional metadata: none stays none.
pub fn metadata_json_of(md: &Option<Metadata>) -> (r: Option<String>)
    ensures
        md is None ==> r is None,
        md matches Some(m) ==> (r matches Some(j) && j@ == json_object_of(m@)),
{
    match md {
        Some(m) => Some(metadata_json(m)),
        None => None,
    }
}

} // verus!
