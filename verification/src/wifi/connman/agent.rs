//! The store of Wi-Fi pass phrases that the ConnMan agent answers from.
//!
//! ConnMan asks for a pass phrase while it connects; it is not told one in
//! advance. A pass phrase is therefore kept under the object path of its
//! service until ConnMan asks for it, and is handed out once.

use vstd::prelude::*;
use crate::text::str_eq;

verus! {

/// One-shot store of pass phrases, keyed by service path.
#[derive(Debug)]
pub struct WifiSecrets {
    entries: Vec<(String, String)>,
}

/// The map that a list of pairs stands for; of two pairs with one key the
/// later counts.
pub open spec fn pairs_to_map(pairs: Seq<(String, String)>) -> Map<Seq<char>, Seq<char>>
    decreases pairs.len(),
{
    if pairs.len() == 0 {
        Map::empty()
    } else {
        pairs_to_map(pairs.drop_last()).insert(pairs.last().0@, pairs.last().1@)
    }
}

/// No service path occurs twice.
pub open spec fn distinct_keys(pairs: Seq<(String, String)>) -> bool {
    forall|i: int, j: int|
        0 <= i < j < pairs.len() ==> (#[trigger] pairs[i]).0@ != (#[trigger] pairs[j]).0@
}

/// A key is in the map exactly where a pair holds it.
proof fn lemma_map_keys(pairs: Seq<(String, String)>, key: Seq<char>)
    ensures
        pairs_to_map(pairs).contains_key(key) <==> exists|i: int|
            0 <= i < pairs.len() && (#[trigger] pairs[i]).0@ == key,
    decreases pairs.len(),
{
    if pairs.len() > 0 {
        let front = pairs.drop_last();
        lemma_map_keys(front, key);
        if pairs_to_map(pairs).contains_key(key) {
            if pairs.last().0@ == key {
                assert(pairs[pairs.len() - 1].0@ == key);
            } else {
                let i = choose|i: int| 0 <= i < front.len() && (#[trigger] front[i]).0@ == key;
                assert(pairs[i].0@ == key);
            }
        }
        if exists|i: int| 0 <= i < pairs.len() && (#[trigger] pairs[i]).0@ == key {
            let i = choose|i: int| 0 <= i < pairs.len() && (#[trigger] pairs[i]).0@ == key;
            if i < pairs.len() - 1 {
                assert(front[i].0@ == key);
            }
        }
    }
}

/// Among distinct keys the pair at a position gives the value of its key.
proof fn lemma_map_value(pairs: Seq<(String, String)>, i: int)
    requires
        distinct_keys(pairs),
        0 <= i < pairs.len(),
    ensures
        pairs_to_map(pairs).contains_key(pairs[i].0@),
        pairs_to_map(pairs)[pairs[i].0@] == pairs[i].1@,
    decreases pairs.len(),
{
    let front = pairs.drop_last();
    if i < pairs.len() - 1 {
        assert(pairs[i].0@ != pairs[pairs.len() - 1].0@);
        assert(front[i] == pairs[i]);
        assert(distinct_keys(front)) by {
            assert forall|a: int, b: int| 0 <= a < b < front.len() implies (#[trigger] front[a]).0@
                != (#[trigger] front[b]).0@ by {
                assert(front[a] == pairs[a]);
                assert(front[b] == pairs[b]);
            }
        }
        lemma_map_value(front, i);
    }
}

/// Among distinct keys, taking a pair out takes its key out of the map.
proof fn lemma_map_remove(pairs: Seq<(String, String)>, i: int)
    requires
        distinct_keys(pairs),
        0 <= i < pairs.len(),
    ensures
        distinct_keys(pairs.remove(i)),
        pairs_to_map(pairs.remove(i)) == pairs_to_map(pairs).remove(pairs[i].0@),
    decreases pairs.len(),
{
    let rest = pairs.remove(i);
    let key = pairs[i].0@;
    assert(distinct_keys(rest)) by {
        assert forall|a: int, b: int| 0 <= a < b < rest.len() implies (#[trigger] rest[a]).0@
            != (#[trigger] rest[b]).0@ by {
            let a0 = if a < i {
                a
            } else {
                a + 1
            };
            let b0 = if b < i {
                b
            } else {
                b + 1
            };
            assert(rest[a] == pairs[a0]);
            assert(rest[b] == pairs[b0]);
        }
    }
    let front = pairs.drop_last();
    assert(distinct_keys(front)) by {
        assert forall|a: int, b: int| 0 <= a < b < front.len() implies (#[trigger] front[a]).0@
            != (#[trigger] front[b]).0@ by {
            assert(front[a] == pairs[a]);
            assert(front[b] == pairs[b]);
        }
    }
    if i == pairs.len() - 1 {
        assert(rest =~= front);
        lemma_map_keys(front, key);
        if pairs_to_map(front).contains_key(key) {
            let j = choose|j: int| 0 <= j < front.len() && (#[trigger] front[j]).0@ == key;
            assert(front[j] == pairs[j]);
            assert(pairs[j].0@ != pairs[i].0@);
        }
        assert(pairs_to_map(rest) =~= pairs_to_map(pairs).remove(key));
    } else {
        assert(rest.drop_last() =~= front.remove(i));
        assert(rest.last() == pairs.last());
        assert(front[i] == pairs[i]);
        lemma_map_remove(front, i);
        assert(pairs[i].0@ != pairs[pairs.len() - 1].0@);
        assert(pairs_to_map(rest) =~= pairs_to_map(pairs).remove(key));
    }
}

impl View for WifiSecrets {
    type V = Map<Seq<char>, Seq<char>>;

    closed spec fn view(&self) -> Map<Seq<char>, Seq<char>> {
        pairs_to_map(self.entries@)
    }
}

impl WifiSecrets {
    #[verifier::type_invariant]
    spec fn no_path_twice(&self) -> bool {
        distinct_keys(self.entries@)
    }

    /// The position of the pass phrase of a service.
    fn position(&self, service: &str) -> (at: Option<usize>)
        ensures
            match at {
                Some(i) => i < self.entries@.len() && self.entries@[i as int].0@ == service@,
                None => !self@.contains_key(service@),
            },
    {
        let mut i: usize = 0;
        while i < self.entries.len()
            invariant
                i <= self.entries@.len(),
                forall|j: int| 0 <= j < i ==> (#[trigger] self.entries@[j]).0@ != service@,
            decreases self.entries@.len() - i,
        {
            if str_eq(self.entries[i].0.as_str(), service) {
                return Some(i);
            }
            i = i + 1;
        }
        proof {
            lemma_map_keys(self.entries@, service@);
        }
        None
    }

    /// An empty store.
    pub fn new() -> (store: Self)
        ensures
            store@ == Map::<Seq<char>, Seq<char>>::empty(),
    {
        WifiSecrets { entries: Vec::new() }
    }

    /// Keeps a pass phrase for a service. A pass phrase that was kept for the
    /// service before is replaced.
    pub fn insert(&mut self, service: String, passphrase: String)
        ensures
            final(self)@ == old(self)@.insert(service@, passphrase@),
    {
        proof {
            use_type_invariant(&*self);
        }
        let found = self.position(service.as_str());
        let mut entries = Vec::new();
        std::mem::swap(&mut entries, &mut self.entries);
        if let Some(i) = found {
            proof {
                lemma_map_remove(entries@, i as int);
            }
            entries.remove(i);
        }
        let ghost before = entries@;
        entries.push((service, passphrase));
        proof {
            assert(entries@.drop_last() =~= before);
            lemma_map_keys(before, service@);
            assert(distinct_keys(entries@)) by {
                assert forall|a: int, b: int| 0 <= a < b < entries@.len() implies (
                #[trigger] entries@[a]).0@ != (#[trigger] entries@[b]).0@ by {
                    if b == entries@.len() - 1 {
                        assert(before[a] == entries@[a]);
                    } else {
                        assert(before[a] == entries@[a]);
                        assert(before[b] == entries@[b]);
                    }
                }
            }
            assert(pairs_to_map(entries@) =~= old(self)@.insert(service@, passphrase@));
        }
        self.entries = entries;
    }

    /// Hands out the pass phrase of a service and forgets it: a second call
    /// for the same service finds nothing.
    pub fn take(&mut self, service: &str) -> (passphrase: Option<String>)
        ensures
            final(self)@ == old(self)@.remove(service@),
            match passphrase {
                Some(p) => old(self)@.contains_key(service@) && p@ == old(self)@[service@],
                None => !old(self)@.contains_key(service@),
            },
    {
        proof {
            use_type_invariant(&*self);
        }
        match self.position(service) {
            Some(i) => {
                let mut entries = Vec::new();
                std::mem::swap(&mut entries, &mut self.entries);
                proof {
                    lemma_map_remove(entries@, i as int);
                    lemma_map_value(entries@, i as int);
                }
                let pair = entries.remove(i);
                self.entries = entries;
                Some(pair.1)
            },
            None => {
                assert(self@.remove(service@) =~= self@);
                None
            },
        }
    }

    /// Whether a pass phrase is kept for a service.
    pub fn contains(&self, service: &str) -> (found: bool)
        ensures
            found == self@.contains_key(service@),
    {
        proof {
            use_type_invariant(self);
        }
        match self.position(service) {
            Some(i) => {
                proof {
                    lemma_map_value(self.entries@, i as int);
                }
                true
            },
            None => false,
        }
    }

    /// The answer to a request of ConnMan for the credentials of a service.
    /// The pass phrase is handed out, and forgotten, only where the request
    /// asks for one.
    pub fn answer_request(&mut self, service: &str, passphrase_requested: bool) -> (passphrase:
        Option<String>)
        ensures
            passphrase_requested ==> final(self)@ == old(self)@.remove(service@),
            !passphrase_requested ==> final(self)@ == old(self)@ && passphrase is None,
            match passphrase {
                Some(p) => old(self)@.contains_key(service@) && p@ == old(self)@[service@],
                None => !passphrase_requested || !old(self)@.contains_key(service@),
            },
    {
        if passphrase_requested {
            self.take(service)
        } else {
            None
        }
    }
}

impl Default for WifiSecrets {
    fn default() -> (store: Self)
        ensures
            store@ == Map::<Seq<char>, Seq<char>>::empty(),
    {
        WifiSecrets::new()
    }
}

} // verus!
