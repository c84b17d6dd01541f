//! The answers of a web service, cached per key: what a lookup answers from the cache, when it
//! asks the service, and what each outcome of a request leaves in the cache. The requests
//! themselves are made by the caller.

use std::sync::Arc;
use vstd::prelude::*;

use crate::text::str_eq;

verus! {

/// Another pointer to the same value (`Arc::clone`, which the std documentation describes as
/// making another pointer to the same allocation).
#[verifier::external_body]
fn share_arc<V>(p: &Arc<V>) -> (r: Arc<V>)
    ensures
        r == *p,
{
    Arc::clone(p)
}

/// The value an optional shared pointer points to.
pub open spec fn shared_view<V>(o: Option<Arc<V>>) -> Option<V> {
    match o {
        Some(a) => Some(*a),
        None => None,
    }
}

/// What a list of cache entries holds: each key's last entry wins.
pub open spec fn entries_view<V>(s: Seq<(String, Option<Arc<V>>)>) -> Map<Seq<char>, Option<V>>
    decreases s.len(),
{
    if s.len() == 0 {
        Map::empty()
    } else {
        entries_view(s.drop_last()).insert(s.last().0@, shared_view(s.last().1))
    }
}

/// What the cache holds after a request answered with `status` and, for a good answer, the
/// value read from it: the value for status 200, nothing otherwise (the key is then known to
/// have no value and is not asked again).
pub open spec fn answer_entry<V>(status: u16, value: Option<V>) -> Option<V> {
    if status == 200 {
        value
    } else {
        None
    }
}

/// The entry of a key in a list, when the entries after `i` have other keys: the `i`-th one.
proof fn lemma_last_entry<V>(s: Seq<(String, Option<Arc<V>>)>, k: Seq<char>, i: int)
    requires
        0 <= i < s.len(),
        s[i].0@ == k,
        forall|j: int| i < j < s.len() ==> s[j].0@ != k,
    ensures
        entries_view(s).contains_key(k),
        entries_view(s)[k] == shared_view(s[i].1),
    decreases s.len(),
{
    if i < s.len() - 1 {
        lemma_last_entry(s.drop_last(), k, i);
    }
}

/// A key with no entry in a list is not in what the list holds.
proof fn lemma_no_entry<V>(s: Seq<(String, Option<Arc<V>>)>, k: Seq<char>)
    requires
        forall|j: int| 0 <= j < s.len() ==> s[j].0@ != k,
    ensures
        !entries_view(s).contains_key(k),
    decreases s.len(),
{
    if s.len() > 0 {
        lemma_no_entry(s.drop_last(), k);
    }
}

/// The cached answers of a service, per key. The entries are kept in a list, the last entry of
/// a key being the one that counts: std's map with text keys has no specification to prove the
/// cache's contracts against.
pub struct CachedHttpApi<V> {
    entries: Vec<(String, Option<Arc<V>>)>,
}

impl<V> View for CachedHttpApi<V> {
    type V = Map<Seq<char>, Option<V>>;

    /// What is cached: for each key asked about, the value, or nothing while the answer is
    /// awaited or when the service had none.
    closed spec fn view(&self) -> Map<Seq<char>, Option<V>> {
        entries_view(self.entries@)
    }
}

impl<V> CachedHttpApi<V> {
    /// An empty cache.
    pub fn new() -> (r: Self)
        ensures
            r@ == Map::<Seq<char>, Option<V>>::empty(),
    {
        CachedHttpApi { entries: Vec::new() }
    }

    /// Drops every entry of `key`.
    fn remove_key(&mut self, key: &str)
        ensures
            final(self)@ == old(self)@.remove(key@),
    {
        let mut old_entries: Vec<(String, Option<Arc<V>>)> = Vec::new();
        std::mem::swap(&mut old_entries, &mut self.entries);
        let ghost orig = old_entries@;
        let n = old_entries.len();
        let mut i: usize = 0;
        while old_entries.len() > 0
            invariant
                n == orig.len(),
                i + old_entries@.len() == n,
                old_entries@ == orig.subrange(i as int, n as int),
                entries_view(self.entries@) == entries_view(orig.take(i as int)).remove(key@),
            decreases old_entries@.len(),
        {
            let e = old_entries.remove(0);
            proof {
                assert(e == orig[i as int]);
                assert(orig.take(i + 1).drop_last() =~= orig.take(i as int));
                assert(orig.take(i + 1).last() == e);
            }
            if !str_eq(e.0.as_str(), key) {
                let ghost pre = self.entries@;
                let ghost ek = e.0@;
                let ghost ev = e.1;
                self.entries.push(e);
                proof {
                    assert(self.entries@.drop_last() =~= pre);
                    assert(entries_view(self.entries@) == entries_view(pre).insert(ek, shared_view(ev)));
                    assert(entries_view(self.entries@) =~= entries_view(orig.take(i + 1)).remove(key@));
                }
            } else {
                proof {
                    assert(entries_view(orig.take(i + 1)).remove(key@) =~= entries_view(orig.take(i as int)).remove(
                        key@,
                    ));
                }
            }
            i = i + 1;
            proof {
                assert(old_entries@ =~= orig.subrange(i as int, n as int));
            }
        }
        assert(orig.take(n as int) =~= orig);
    }

    /// Sets the entry of `key`.
    fn put(&mut self, key: &str, value: Option<Arc<V>>)
        ensures
            final(self)@ == old(self)@.insert(key@, shared_view(value)),
    {
        self.remove_key(key);
        let ghost before = self.entries@;
        self.entries.push((key.to_string(), value));
        proof {
            assert(self.entries@.drop_last() =~= before);
            assert(self@ =~= old(self)@.insert(key@, shared_view(value)));
        }
    }

    /// Looks a key up: a key already asked about gives what is cached and no request; any
    /// other key is marked as awaited, and the caller is to ask the service (`true`).
    pub fn get(&mut self, key: &str) -> (r: (Option<Arc<V>>, bool))
        ensures
            old(self)@.contains_key(key@) ==> shared_view(r.0) == old(self)@[key@] && !r.1 && final(self)@ == old(self)@,
            !old(self)@.contains_key(key@) ==> r.0 is None && r.1 && final(self)@ == old(self)@.insert(
                key@,
                None,
            ),
    {
        let n = self.entries.len();
        let mut i = n;
        while i > 0
            invariant
                i <= n == self.entries@.len(),
                forall|j: int| i <= j < n ==> self.entries@[j].0@ != key@,
            decreases i,
        {
            if str_eq(self.entries[i - 1].0.as_str(), key) {
                proof {
                    lemma_last_entry(self.entries@, key@, i - 1);
                }
                let found = match &self.entries[i - 1].1 {
                    Some(v) => Some(share_arc(v)),
                    None => None,
                };
                return (found, false);
            }
            i = i - 1;
        }
        proof {
            lemma_no_entry(self.entries@, key@);
        }
        self.put(key, None);
        (None, true)
    }

    /// A request that could not be made or had no reply: the key is forgotten, so the next
    /// lookup asks again.
    pub fn request_failed(&mut self, key: &str)
        ensures
            final(self)@ == old(self)@.remove(key@),
    {
        self.remove_key(key);
    }

    /// A reply with its HTTP status and, for status 200, the value read from it.
    pub fn answered(&mut self, key: &str, status: u16, value: Option<V>)
        ensures
            final(self)@ == old(self)@.insert(key@, answer_entry(status, value)),
    {
        let entry = if status == 200 {
            match value {
                Some(v) => Some(Arc::new(v)),
                None => None,
            }
        } else {
            None
        };
        self.put(key, entry);
    }

    /// Forgets the given keys.
    pub fn invalidate(&mut self, keys: &Vec<String>)
        ensures
            final(self)@ == old(self)@.remove_keys(keys@.map_values(|k: String| k@).to_set()),
    {
        let mut i: usize = 0;
        while i < keys.len()
            invariant
                i <= keys@.len(),
                self@ == old(self)@.remove_keys(keys@.take(i as int).map_values(|k: String| k@).to_set()),
            decreases keys@.len() - i,
        {
            let ghost before = self@;
            self.remove_key(keys[i].as_str());
            proof {
                let s0 = keys@.take(i as int).map_values(|k: String| k@).to_set();
                let s1 = keys@.take(i + 1).map_values(|k: String| k@).to_set();
                assert(keys@.take(i + 1).map_values(|k: String| k@) =~= keys@.take(i as int).map_values(
                    |k: String| k@,
                ).push(keys@[i as int]@));
                let q0 = keys@.take(i as int).map_values(|k: String| k@);
                let q1 = keys@.take(i + 1).map_values(|k: String| k@);
                assert forall|a: Seq<char>| s1.contains(a) <==> s0.insert(keys@[i as int]@).contains(a) by {
                    if q1.contains(a) {
                        let j = choose|j: int| 0 <= j < q1.len() && q1[j] == a;
                        if j < q0.len() {
                            assert(q0[j] == a);
                        }
                    }
                    if q0.contains(a) {
                        let j = choose|j: int| 0 <= j < q0.len() && q0[j] == a;
                        assert(q1[j] == a);
                    }
                    if a == keys@[i as int]@ {
                        assert(q1[i as int] == a);
                    }
                }
                assert(s1 =~= s0.insert(keys@[i as int]@));
                assert(self@ =~= old(self)@.remove_keys(s1));
            }
            i = i + 1;
        }
        assert(keys@.take(i as int) =~= keys@);
    }
}

} // verus!
