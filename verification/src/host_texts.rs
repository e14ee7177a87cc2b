//! A mapping from host to text: what each host's tailer read.

use vstd::prelude::*;
use vstd::string::*;
use crate::host_map::distinct_hosts;
use crate::host_map::has_host;
use crate::host_map::lemma_listing;
use crate::host_map::lemma_pairs_map_update;
use crate::host_map::pairs_map;

verus! {

broadcast use vstd::set::group_set_axioms, vstd::map::group_map_axioms;

/// The entries as mathematical values.
pub open spec fn text_pairs(entries: Seq<(String, String)>) -> Seq<(Seq<char>, Seq<char>)> {
    Seq::new(entries.len(), |i: int| (entries[i].0@, entries[i].1@))
}

/// A mapping from host to text. Every host occurs once; hosts are listed in
/// the order of their first insertion.
pub struct HostTexts {
    entries: Vec<(String, String)>,
}

impl View for HostTexts {
    type V = Map<Seq<char>, Seq<char>>;

    open spec fn view(&self) -> Map<Seq<char>, Seq<char>> {
        pairs_map(self.pairs())
    }
}

impl HostTexts {
    /// No host is listed twice.
    pub closed spec fn wf(&self) -> bool {
        distinct_hosts(text_pairs(self.entries@))
    }

    /// The entries in listing order.
    pub closed spec fn pairs(&self) -> Seq<(Seq<char>, Seq<char>)> {
        text_pairs(self.entries@)
    }

    /// What well-formedness means for the listing.
    pub proof fn lemma_wf(&self)
        requires
            self.wf(),
        ensures
            distinct_hosts(self.pairs()),
    {
    }

    /// The empty mapping.
    pub fn empty() -> (r: HostTexts)
        ensures
            r.wf(),
            r@ == Map::<Seq<char>, Seq<char>>::empty(),
            r.pairs().len() == 0,
    {
        HostTexts { entries: Vec::new() }
    }

    fn position(&self, host: &String) -> (found: Option<usize>)
        ensures
            match found {
                Some(i) => i < self.pairs().len() && self.pairs()[i as int].0 == host@,
                None => !has_host(self.pairs(), host@),
            },
    {
        let mut i: usize = 0;
        while i < self.entries.len()
            invariant
                i <= self.entries.len(),
                forall|k: int| 0 <= k < i ==> (#[trigger] self.pairs()[k]).0 != host@,
            decreases self.entries.len() - i,
        {
            if self.entries[i].0 == *host {
                assert(self.pairs()[i as int].0 == host@);
                return Some(i);
            }
            assert(self.pairs()[i as int].0 != host@);
            i += 1;
        }
        None
    }

    /// Sets the text of `host`, replacing an earlier one.
    pub fn insert(&mut self, host: String, text: String)
        requires
            old(self).wf(),
        ensures
            final(self).wf(),
            final(self)@ == old(self)@.insert(host@, text@),
    {
        let ghost before = self.pairs();
        match self.position(&host) {
            Some(i) => {
                proof {
                    lemma_pairs_map_update(before, i as int, text@);
                }
                self.entries[i] = (host, text);
                assert(text_pairs(self.entries@) =~= before.update(
                    i as int,
                    (before[i as int].0, text@),
                ));
            },
            None => {
                self.entries.push((host, text));
                proof {
                    let after = text_pairs(self.entries@);
                    assert(after.drop_last() =~= before);
                    assert(after.last() == (host@, text@));
                    assert(distinct_hosts(after)) by {
                        assert forall|a: int, b: int| 0 <= a < b < after.len() implies after[a].0
                            != after[b].0 by {
                            assert(before[a] == after[a]);
                            if b < before.len() {
                                assert(before[b] == after[b]);
                            }
                        }
                    }
                }
            },
        }
    }

    /// The number of hosts.
    pub fn len(&self) -> (n: usize)
        requires
            self.wf(),
        ensures
            n == self@.len(),
            n == self.pairs().len(),
    {
        proof {
            lemma_listing(self.pairs());
        }
        self.entries.len()
    }

    /// Whether `host` has a text.
    pub fn contains(&self, host: &str) -> (found: bool)
        requires
            self.wf(),
        ensures
            found == self@.contains_key(host@),
    {
        proof {
            lemma_listing(self.pairs());
        }
        let key = String::from_str(host);
        self.position(&key).is_some()
    }

    /// The text of `host`, if it has one.
    pub fn get(&self, host: &str) -> (found: Option<String>)
        requires
            self.wf(),
        ensures
            match found {
                Some(t) => self@.contains_key(host@) && t@ == self@[host@],
                None => !self@.contains_key(host@),
            },
    {
        proof {
            lemma_listing(self.pairs());
        }
        let key = String::from_str(host);
        match self.position(&key) {
            Some(i) => {
                assert(self.pairs()[i as int].1 == self.entries@[i as int].1@);
                Some(self.entries[i].1.clone())
            },
            None => None,
        }
    }

    /// Each host with its text, in listing order.
    pub fn items(&self) -> (listing: Vec<(String, String)>)
        requires
            self.wf(),
        ensures
            text_pairs(listing@) == self.pairs(),
            distinct_hosts(text_pairs(listing@)),
            pairs_map(text_pairs(listing@)) == self@,
    {
        let mut listing: Vec<(String, String)> = Vec::new();
        let mut i: usize = 0;
        while i < self.entries.len()
            invariant
                i <= self.entries.len(),
                listing@.len() == i,
                forall|k: int| 0 <= k < i ==> (#[trigger] text_pairs(listing@)[k]) == self.pairs()[k],
            decreases self.entries.len() - i,
        {
            let ghost before = text_pairs(listing@);
            listing.push((self.entries[i].0.clone(), self.entries[i].1.clone()));
            assert forall|k: int| 0 <= k < i + 1 implies (#[trigger] text_pairs(listing@)[k])
                == self.pairs()[k] by {
                if k < i {
                    assert(before[k] == self.pairs()[k]);
                }
            }
            i += 1;
        }
        assert(text_pairs(listing@) =~= self.pairs());
        listing
    }
}

} // verus!
