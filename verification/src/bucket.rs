//! An explicit model of the remote object store.
//!
//! The remote service is an opaque capability: put, get, and list by
//! key. This module gives that capability an explicit state — a region
//! and an ordered association of keys to byte payloads — so that the
//! facade's contracts can say exactly what each call does to the store
//! and what it yields. Keys are unique; the listing order is the order
//! in which keys first arrived, the provider order of this model.

use vstd::prelude::*;
use vstd::pervasive::VecAdditionalExecFns;

verus! {

/// An upload request: the key under which a payload is stored.
pub struct ObjectSeed {
    key: String,
}

impl View for ObjectSeed {
    type V = Seq<char>;

    closed spec fn view(&self) -> Seq<char> {
        self.key@
    }
}

impl ObjectSeed {
    /// Wraps a caller-supplied object key.
    pub fn new(key: String) -> (r: ObjectSeed)
        ensures
            r@ == key@,
    {
        ObjectSeed { key }
    }

    /// The key itself.
    pub fn key(&self) -> (k: &str)
        ensures
            k@ == self@,
    {
        self.key.as_str()
    }

    /// The local path an upload reads its payload from: the key with
    /// an image suffix. The mapping is deterministic and collision-free
    /// for distinct keys.
    pub fn source_file_name(&self) -> (r: String)
        ensures
            r@ == self@ + ".png"@,
    {
        self.key.clone().concat(".png")
    }

    /// The local path a download writes to: derived from the key, and
    /// distinct from the upload source path for the same key.
    pub fn dest_file_name(&self) -> (r: String)
        ensures
            r@ == self@ + "-dest.png"@,
    {
        self.key.clone().concat("-dest.png")
    }
}

/// One page of object keys, in the order the provider delivered them.
pub struct ObjectKeys {
    keys: Vec<String>,
}

impl View for ObjectKeys {
    type V = Seq<Seq<char>>;

    closed spec fn view(&self) -> Seq<Seq<char>> {
        self.keys.deep_view()
    }
}

impl ObjectKeys {
    /// Wraps a listing as delivered by the provider.
    pub fn new(keys: Vec<String>) -> (r: ObjectKeys)
        ensures
            r@ == keys.deep_view(),
    {
        ObjectKeys { keys }
    }

    /// The keys, in provider order.
    pub fn keys(&self) -> (r: &Vec<String>)
        ensures
            r.deep_view() == self@,
    {
        &self.keys
    }

    /// How many keys the page holds.
    pub fn len(&self) -> (n: usize)
        ensures
            n == self@.len(),
    {
        self.keys.len()
    }
}

/// What a key resolves to among stored entries: the payload of the
/// latest entry carrying that key, if any.
pub open spec fn lookup(entries: Seq<(String, Vec<u8>)>, k: Seq<char>) -> Option<Seq<u8>>
    decreases entries.len(),
{
    if entries.len() == 0 {
        None
    } else if entries.last().0@ == k {
        Some(entries.last().1@)
    } else {
        lookup(entries.drop_last(), k)
    }
}

/// The state of one bucket of the remote store: its region and its
/// stored objects, in arrival order.
pub struct Bucket {
    region: String,
    entries: Vec<(String, Vec<u8>)>,
}

impl Bucket {
    /// The region the bucket lives in.
    pub closed spec fn spec_region(&self) -> Seq<char> {
        self.region@
    }

    /// Each stored key maps to its payload.
    pub closed spec fn contents(&self) -> Map<Seq<char>, Seq<u8>> {
        Map::new(
            |k: Seq<char>| lookup(self.entries@, k) is Some,
            |k: Seq<char>| lookup(self.entries@, k)->0,
        )
    }

    /// The stored keys in provider order.
    pub closed spec fn key_order(&self) -> Seq<Seq<char>> {
        self.entries@.map_values(|e: (String, Vec<u8>)| e.0@)
    }

    /// Well-formedness: no key is stored twice.
    pub closed spec fn wf(&self) -> bool {
        forall|i: int, j: int|
            0 <= i < j < self.entries@.len() ==> self.entries@[i].0@ != self.entries@[j].0@
    }

    /// An empty bucket in the given region.
    pub fn new(region: String) -> (r: Bucket)
        ensures
            r.wf(),
            r.spec_region() == region@,
            r.contents() == Map::<Seq<char>, Seq<u8>>::empty(),
            r.key_order() == Seq::<Seq<char>>::empty(),
    {
        let r = Bucket { region, entries: Vec::new() };
        proof {
            assert(r.contents() =~= Map::<Seq<char>, Seq<u8>>::empty());
            assert(r.key_order() =~= Seq::<Seq<char>>::empty());
        }
        r
    }

    /// The region the bucket lives in.
    pub fn region(&self) -> (r: &str)
        ensures
            r@ == self.spec_region(),
    {
        self.region.as_str()
    }

    /// Finds the entry holding the key, if any.
    fn find(&self, key: &String) -> (r: Option<usize>)
        requires
            self.wf(),
        ensures
            r matches Some(i) ==> {
                &&& i < self.entries@.len()
                &&& self.entries@[i as int].0@ == key@
                &&& lookup(self.entries@, key@) == Some(self.entries@[i as int].1@)
            },
            r is None ==> {
                &&& forall|j: int| 0 <= j < self.entries@.len() ==> self.entries@[j].0@ != key@
                &&& lookup(self.entries@, key@) is None
            },
    {
        let n = self.entries.len();
        let mut i: usize = 0;
        while i < n
            invariant
                i <= n,
                n == self.entries@.len(),
                self.wf(),
                forall|j: int| 0 <= j < i ==> self.entries@[j].0@ != key@,
            decreases n - i,
        {
            let e = &self.entries[i];
            if e.0 == *key {
                proof {
                    lemma_lookup_present(self.entries@, i as int, key@);
                }
                return Some(i);
            }
            i = i + 1;
        }
        proof {
            lemma_lookup_absent(self.entries@, key@);
        }
        None
    }

    /// Stores a payload under a key, overwriting any previous payload
    /// for the same key in place. A new key is appended to the provider
    /// order; an overwritten key keeps its position.
    pub fn put(&mut self, key: String, value: Vec<u8>)
        requires
            old(self).wf(),
        ensures
            final(self).wf(),
            final(self).spec_region() == old(self).spec_region(),
            final(self).contents() == old(self).contents().insert(key@, value@),
            final(self).contents().contains_key(key@),
            final(self).contents()[key@] == value@,
            final(self).key_order() == if old(self).contents().contains_key(key@) {
                old(self).key_order()
            } else {
                old(self).key_order().push(key@)
            },
    {
        let ghost old_entries = self.entries@;
        let ghost key_view = key@;
        let ghost value_view = value@;
        match self.find(&key) {
            Some(i) => {
                self.entries.set(i, (key, value));
                proof {
                    let new_entries = self.entries@;
                    assert forall|k2: Seq<char>| #![auto]
                        lookup(new_entries, k2) == (if k2 == key_view {
                            Some(value_view)
                        } else {
                            lookup(old_entries, k2)
                        }) by {
                        lemma_lookup_update(old_entries, i as int, new_entries[i as int], k2);
                    }
                    assert(final(self).contents() =~= old(self).contents().insert(
                        key_view,
                        value_view,
                    ));
                    assert(final(self).key_order() =~= old(self).key_order());
                    assert(final(self).wf());
                }
            },
            None => {
                self.entries.push((key, value));
                proof {
                    let new_entries = self.entries@;
                    assert forall|k2: Seq<char>| #![auto]
                        lookup(new_entries, k2) == (if k2 == key_view {
                            Some(value_view)
                        } else {
                            lookup(old_entries, k2)
                        }) by {
                        lemma_lookup_push(old_entries, new_entries.last(), k2);
                    }
                    assert(final(self).contents() =~= old(self).contents().insert(
                        key_view,
                        value_view,
                    ));
                    assert(final(self).key_order() =~= old(self).key_order().push(key_view));
                    assert(!old(self).contents().contains_key(key_view));
                    assert(final(self).wf());
                }
            },
        }
    }

    /// Yields the payload stored under a key, if any.
    pub fn get(&self, key: &String) -> (r: Option<&Vec<u8>>)
        requires
            self.wf(),
        ensures
            self.contents().contains_key(key@) ==> (r matches Some(b) && b@
                == self.contents()[key@]),
            !self.contents().contains_key(key@) ==> r is None,
    {
        match self.find(key) {
            Some(i) => Some(&self.entries[i].1),
            None => None,
        }
    }

    /// All stored keys, in provider order.
    pub fn keys(&self) -> (r: Vec<String>)
        ensures
            r.deep_view() == self.key_order(),
    {
        let n = self.entries.len();
        let mut out: Vec<String> = Vec::new();
        let mut i: usize = 0;
        while i < n
            invariant
                i <= n,
                n == self.entries@.len(),
                out@.len() == i,
                forall|j: int| 0 <= j < i ==> out@[j]@ == self.key_order()[j],
            decreases n - i,
        {
            out.push(self.entries[i].0.clone());
            i = i + 1;
        }
        proof {
            assert forall|j: int| 0 <= j < n implies out.deep_view()[j] == self.key_order()[j] by {
                assert(out@[j]@ == self.key_order()[j]);
            }
            assert(out.deep_view() =~= self.key_order());
        }
        out
    }
}

/// A key that resolves to some entry resolves to the payload of that
/// entry, provided no later entry shadows it.
proof fn lemma_lookup_present(s: Seq<(String, Vec<u8>)>, i: int, k: Seq<char>)
    requires
        0 <= i < s.len(),
        s[i].0@ == k,
        forall|j: int| i < j < s.len() ==> s[j].0@ != k,
    ensures
        lookup(s, k) == Some(s[i].1@),
    decreases s.len(),
{
    if i < s.len() - 1 {
        assert(s.last().0@ != k);
        assert(s.drop_last()[i] == s[i]);
        lemma_lookup_present(s.drop_last(), i, k);
    }
}

/// A key held by no entry resolves to nothing.
proof fn lemma_lookup_absent(s: Seq<(String, Vec<u8>)>, k: Seq<char>)
    requires
        forall|j: int| 0 <= j < s.len() ==> s[j].0@ != k,
    ensures
        lookup(s, k) is None,
    decreases s.len(),
{
    if s.len() > 0 {
        lemma_lookup_absent(s.drop_last(), k);
    }
}

/// Appending an entry resolves its key to its payload and leaves every
/// other key as it was.
proof fn lemma_lookup_push(s: Seq<(String, Vec<u8>)>, e: (String, Vec<u8>), k2: Seq<char>)
    ensures
        lookup(s.push(e), k2) == (if e.0@ == k2 {
            Some(e.1@)
        } else {
            lookup(s, k2)
        }),
{
    assert(s.push(e).last() == e);
    assert(s.push(e).drop_last() =~= s);
}

/// Overwriting the unique entry holding a key resolves that key to the
/// new payload and leaves every other key as it was.
proof fn lemma_lookup_update(s: Seq<(String, Vec<u8>)>, i: int, e: (String, Vec<u8>), k2: Seq<char>)
    requires
        0 <= i < s.len(),
        s[i].0@ == e.0@,
        forall|j: int| 0 <= j < s.len() && j != i ==> s[j].0@ != e.0@,
    ensures
        lookup(s.update(i, e), k2) == (if k2 == e.0@ {
            Some(e.1@)
        } else {
            lookup(s, k2)
        }),
    decreases s.len(),
{
    let t = s.update(i, e);
    if i == s.len() - 1 {
        assert(t.last() == e);
        assert(t.drop_last() =~= s.drop_last());
    } else {
        assert(t.last() == s.last());
        assert(s.last().0@ != e.0@);
        assert(t.drop_last() =~= s.drop_last().update(i, e));
        assert(s.drop_last()[i] == s[i]);
        lemma_lookup_update(s.drop_last(), i, e, k2);
    }
}

/// The derived local file names are collision-free for distinct keys:
/// appending a fixed suffix to the key is injective, so two keys
/// share a derived name only when they are the same key.
pub proof fn lemma_derived_names_collision_free(k1: Seq<char>, k2: Seq<char>, suffix: Seq<char>)
    requires
        k1 + suffix == k2 + suffix,
    ensures
        k1 == k2,
{
    assert((k1 + suffix).len() == k1.len() + suffix.len());
    assert((k2 + suffix).len() == k2.len() + suffix.len());
    assert(k1 =~= (k1 + suffix).subrange(0, k1.len() as int));
    assert(k2 =~= (k2 + suffix).subrange(0, k2.len() as int));
}

/// Uploading a payload and then downloading the same key yields that
/// payload back: storing under a key makes the key present, bound to
/// exactly the stored bytes.
pub proof fn lemma_put_then_get_round_trip(
    m: Map<Seq<char>, Seq<u8>>,
    key: Seq<char>,
    data: Seq<u8>,
)
    ensures
        m.insert(key, data).contains_key(key),
        m.insert(key, data)[key] == data,
{
}

} // verus!
