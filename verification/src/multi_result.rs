//! The aggregated outcome of a multi-host operation: one result per host.

use vstd::prelude::*;
use vstd::string::*;
use crate::host_map::distinct_hosts;
use crate::host_map::has_host;
use crate::host_map::lemma_listing;
use crate::host_map::lemma_pairs_map_dom;
use crate::host_map::lemma_pairs_map_update;
use crate::host_map::pairs_map;
use crate::result::ResultView;
use crate::result::SSHResult;
use crate::text::decimal_nat;
use crate::text::push_decimal;

verus! {

broadcast use vstd::set::group_set_axioms, vstd::map::group_map_axioms;

/// A host with its outcome, as mathematical values.
pub type HostEntry = (Seq<char>, ResultView);

/// The part of a mapping whose outcomes succeeded (`ok`) or failed (`!ok`).
pub open spec fn with_status(m: Map<Seq<char>, ResultView>, ok: bool) -> Map<
    Seq<char>,
    ResultView,
> {
    Map::new(|h: Seq<char>| m.contains_key(h) && (m[h].status == 0) == ok, |h: Seq<char>| m[h])
}

/// `host` has an outcome in `m`, and its status is 0.
pub open spec fn host_succeeded(m: Map<Seq<char>, ResultView>, host: Seq<char>) -> bool {
    m.contains_key(host) && m[host].status == 0
}

/// The entries as mathematical values.
pub open spec fn pairs_of(entries: Seq<(String, SSHResult)>) -> Seq<HostEntry> {
    Seq::new(entries.len(), |i: int| (entries[i].0@, entries[i].1@))
}

/// The message of a partial failure.
pub open spec fn partial_failure_message(failed: nat, total: nat) -> Seq<char> {
    "Operation failed on "@ + decimal_nat(failed) + " of "@ + decimal_nat(total) + " host(s)"@
}

/// The debugging form of an aggregated outcome.
pub open spec fn multi_result_repr(total: nat, succeeded: nat, failed: nat) -> Seq<char> {
    "MultiResult("@ + decimal_nat(total) + " hosts: "@ + decimal_nat(succeeded) + " succeeded, "@
        + decimal_nat(failed) + " failed)"@
}

/// The successes and the failures of a mapping split it: each host is in
/// exactly one of the two parts, and with the outcome it has in the whole.
pub proof fn lemma_status_partition(m: Map<Seq<char>, ResultView>)
    ensures
        with_status(m, true).dom().union(with_status(m, false).dom()) == m.dom(),
        with_status(m, true).dom().disjoint(with_status(m, false).dom()),
        with_status(m, true).union_prefer_right(with_status(m, false)) == m,
{
    assert(with_status(m, true).dom().union(with_status(m, false).dom()) =~= m.dom());
    assert(with_status(m, true).union_prefer_right(with_status(m, false)) =~= m);
}

/// A mapping from host to outcome. Every host occurs once; the order in
/// which hosts are listed is that of their first insertion.
pub struct MultiResult {
    entries: Vec<(String, SSHResult)>,
}

/// The error of `raise_if_any_failed`: both parts of the outcome, each
/// absent when empty, and a message with the counts.
pub struct PartialFailure {
    pub succeeded: Option<MultiResult>,
    pub failed: Option<MultiResult>,
    pub message: String,
}

impl View for MultiResult {
    type V = Map<Seq<char>, ResultView>;

    open spec fn view(&self) -> Map<Seq<char>, ResultView> {
        pairs_map(self.pairs())
    }
}

impl MultiResult {
    /// No host is listed twice.
    pub closed spec fn wf(&self) -> bool {
        distinct_hosts(pairs_of(self.entries@))
    }

    /// What well-formedness means for the listing.
    pub proof fn lemma_wf(&self)
        requires
            self.wf(),
        ensures
            distinct_hosts(self.pairs()),
    {
    }

    /// The entries in listing order.
    pub closed spec fn pairs(&self) -> Seq<HostEntry> {
        pairs_of(self.entries@)
    }

    /// The empty mapping.
    pub fn empty() -> (r: MultiResult)
        ensures
            r.wf(),
            r@ == Map::<Seq<char>, ResultView>::empty(),
            r.pairs().len() == 0,
    {
        MultiResult { entries: Vec::new() }
    }

    /// The mapping that holds each of `results`; where a host occurs twice,
    /// the later outcome stays.
    pub fn new(results: Vec<(String, SSHResult)>) -> (r: MultiResult)
        ensures
            r.wf(),
            r@ == pairs_map(pairs_of(results@)),
    {
        let mut out = MultiResult::empty();
        let ghost all = pairs_of(results@);
        let mut i: usize = 0;
        assert(all.take(0) =~= Seq::<HostEntry>::empty());
        while i < results.len()
            invariant
                i <= results.len(),
                all == pairs_of(results@),
                out.wf(),
                out@ == pairs_map(all.take(i as int)),
            decreases results.len() - i,
        {
            proof {
                let next = all.take(i as int + 1);
                assert(next.drop_last() =~= all.take(i as int));
                assert(next.last() == (results@[i as int].0@, results@[i as int].1@));
            }
            out.insert(results[i].0.clone(), results[i].1.clone());
            i += 1;
        }
        assert(all.take(i as int) =~= all);
        out
    }

    fn position(&self, host: &String) -> (found: Option<usize>)
        ensures
            match found {
                Some(i) => i < self.pairs().len() && self.pairs()[i as int].0 == host@,
                None => !has_host(self.pairs(), host@),
            },
    {
        let mut i: usize = 0;
        while i < self.entries.len()
            invariant
                i <= self.entries.len(),
                forall|k: int| 0 <= k < i ==> (#[trigger] self.pairs()[k]).0 != host@,
            decreases self.entries.len() - i,
        {
            if self.entries[i].0 == *host {
                assert(self.pairs()[i as int].0 == host@);
                return Some(i);
            }
            assert(self.pairs()[i as int].0 != host@);
            i += 1;
        }
        None
    }

    /// Sets the outcome of `host`, replacing an earlier one.
    pub fn insert(&mut self, host: String, result: SSHResult)
        requires
            old(self).wf(),
        ensures
            final(self).wf(),
            final(self)@ == old(self)@.insert(host@, result@),
    {
        let ghost before = self.pairs();
        match self.position(&host) {
            Some(i) => {
                proof {
                    lemma_pairs_map_update(before, i as int, result@);
                }
                self.entries[i] = (host, result);
                assert(pairs_of(self.entries@) =~= before.update(
                    i as int,
                    (before[i as int].0, result@),
                ));
            },
            None => {
                self.entries.push((host, result));
                proof {
                    let after = pairs_of(self.entries@);
                    assert(after.drop_last() =~= before);
                    assert(after.last() == (host@, result@));
                    assert(distinct_hosts(after)) by {
                        assert forall|a: int, b: int| 0 <= a < b < after.len() implies after[a].0
                            != after[b].0 by {
                            assert(before[a] == after[a]);
                            if b < before.len() {
                                assert(before[b] == after[b]);
                            }
                        }
                    }
                }
            },
        }
    }

    /// The number of hosts.
    pub fn len(&self) -> (n: usize)
        requires
            self.wf(),
        ensures
            n == self@.len(),
            n == self.pairs().len(),
    {
        proof {
            lemma_listing(self.pairs());
        }
        self.entries.len()
    }

    /// Whether `host` has an outcome.
    pub fn contains(&self, host: &str) -> (found: bool)
        requires
            self.wf(),
        ensures
            found == self@.contains_key(host@),
    {
        proof {
            lemma_listing(self.pairs());
        }
        let key = String::from_str(host);
        self.position(&key).is_some()
    }

    /// The outcome of `host`, if it has one.
    pub fn get_item(&self, host: &str) -> (found: Option<SSHResult>)
        requires
            self.wf(),
        ensures
            match found {
                Some(r) => self@.contains_key(host@) && r@ == self@[host@],
                None => !self@.contains_key(host@),
            },
    {
        proof {
            lemma_listing(self.pairs());
        }
        let key = String::from_str(host);
        match self.position(&key) {
            Some(i) => {
                assert(self.pairs()[i as int].1 == self.entries@[i as int].1@);
                Some(self.entries[i].1.clone())
            },
            None => None,
        }
    }

    /// Whether `host` has an outcome with status 0.
    pub fn succeeded_on(&self, host: &String) -> (ok: bool)
        requires
            self.wf(),
        ensures
            ok == host_succeeded(self@, host@),
    {
        proof {
            lemma_listing(self.pairs());
        }
        match self.position(host) {
            Some(i) => {
                assert(self.pairs()[i as int].1 == self.entries@[i as int].1@);
                self.entries[i].1.status == 0
            },
            None => false,
        }
    }

    /// The outcome of `host`, or `default` where it has none.
    pub fn get(&self, host: &str, default: Option<SSHResult>) -> (found: Option<SSHResult>)
        requires
            self.wf(),
        ensures
            self@.contains_key(host@) ==> found.is_some() && found.unwrap()@ == self@[host@],
            !self@.contains_key(host@) ==> found == default,
    {
        match self.get_item(host) {
            Some(r) => Some(r),
            None => default,
        }
    }

    /// The hosts, in listing order.
    pub fn keys(&self) -> (hosts: Vec<String>)
        requires
            self.wf(),
        ensures
            hosts@.len() == self.pairs().len(),
            forall|i: int| 0 <= i < hosts@.len() ==> (#[trigger] hosts@[i])@ == self.pairs()[i].0,
            hosts@.len() == self@.len(),
            forall|i: int| 0 <= i < hosts@.len() ==> self@.contains_key((#[trigger] hosts@[i])@),
            forall|i: int, j: int| 0 <= i < j < hosts@.len() ==> hosts@[i]@ != hosts@[j]@,
            forall|h: Seq<char>|
                self@.contains_key(h) ==> exists|i: int|
                    0 <= i < hosts@.len() && (#[trigger] hosts@[i])@ == h,
    {
        proof {
            lemma_listing(self.pairs());
        }
        let mut hosts: Vec<String> = Vec::new();
        let mut i: usize = 0;
        while i < self.entries.len()
            invariant
                i <= self.entries.len(),
                hosts@.len() == i,
                forall|k: int| 0 <= k < i ==> (#[trigger] hosts@[k])@ == self.pairs()[k].0,
            decreases self.entries.len() - i,
        {
            hosts.push(self.entries[i].0.clone());
            i += 1;
        }
        proof {
            lemma_listing(self.pairs());
            assert forall|h: Seq<char>| self@.contains_key(h) implies exists|i: int|
                0 <= i < hosts@.len() && (#[trigger] hosts@[i])@ == h by {
                assert(pairs_map(self.pairs()).contains_key(h));
                assert(has_host(self.pairs(), h));
                let k = choose|k: int|
                    0 <= k < self.pairs().len() && (#[trigger] self.pairs()[k]).0 == h;
                assert(hosts@[k]@ == h);
            }
        }
        hosts
    }

    /// The outcomes, in listing order.
    pub fn values(&self) -> (outcomes: Vec<SSHResult>)
        requires
            self.wf(),
        ensures
            outcomes@.len() == self.pairs().len(),
            forall|i: int|
                0 <= i < outcomes@.len() ==> (#[trigger] outcomes@[i])@ == self.pairs()[i].1,
            forall|i: int|
                0 <= i < outcomes@.len() ==> self@[self.pairs()[i].0] == (#[trigger] outcomes@[i])@,
    {
        proof {
            lemma_listing(self.pairs());
        }
        let mut outcomes: Vec<SSHResult> = Vec::new();
        let mut i: usize = 0;
        while i < self.entries.len()
            invariant
                i <= self.entries.len(),
                outcomes@.len() == i,
                forall|k: int| 0 <= k < i ==> (#[trigger] outcomes@[k])@ == self.pairs()[k].1,
            decreases self.entries.len() - i,
        {
            outcomes.push(self.entries[i].1.clone());
            i += 1;
        }
        outcomes
    }

    /// Each host with its outcome, in listing order.
    pub fn items(&self) -> (listing: Vec<(String, SSHResult)>)
        requires
            self.wf(),
        ensures
            pairs_of(listing@) == self.pairs(),
            distinct_hosts(pairs_of(listing@)),
            pairs_map(pairs_of(listing@)) == self@,
    {
        let mut listing: Vec<(String, SSHResult)> = Vec::new();
        let mut i: usize = 0;
        while i < self.entries.len()
            invariant
                i <= self.entries.len(),
                listing@.len() == i,
                forall|k: int| 0 <= k < i ==> (#[trigger] pairs_of(listing@)[k]) == self.pairs()[k],
            decreases self.entries.len() - i,
        {
            let ghost before = pairs_of(listing@);
            listing.push((self.entries[i].0.clone(), self.entries[i].1.clone()));
            assert forall|k: int| 0 <= k < i + 1 implies (#[trigger] pairs_of(listing@)[k])
                == self.pairs()[k] by {
                if k < i {
                    assert(before[k] == self.pairs()[k]);
                }
            }
            i += 1;
        }
        assert(pairs_of(listing@) =~= self.pairs());
        listing
    }

    fn select(&self, ok: bool) -> (part: MultiResult)
        requires
            self.wf(),
        ensures
            part.wf(),
            part@ == with_status(self@, ok),
    {
        let mut part = MultiResult::empty();
        let mut i: usize = 0;
        let ghost all = self.pairs();
        assert(all.take(0) =~= Seq::<HostEntry>::empty());
        assert(part@ =~= with_status(pairs_map(all.take(0)), ok));
        while i < self.entries.len()
            invariant
                i <= self.entries.len(),
                all == self.pairs(),
                distinct_hosts(all),
                part@ == with_status(pairs_map(all.take(i as int)), ok),
                part.wf(),
            decreases self.entries.len() - i,
        {
            let ghost seen = all.take(i as int);
            let ghost next = all.take(i as int + 1);
            proof {
                assert(next.drop_last() =~= seen);
                assert(next.last() == all[i as int]);
                lemma_pairs_map_dom(seen);
                assert(!pairs_map(seen).contains_key(all[i as int].0)) by {
                    if has_host(seen, all[i as int].0) {
                        let k = choose|k: int|
                            0 <= k < seen.len() && (#[trigger] seen[k]).0 == all[i as int].0;
                        assert(all[k].0 != all[i as int].0);
                    }
                }
            }
            if (self.entries[i].1.status == 0) == ok {
                part.insert(self.entries[i].0.clone(), self.entries[i].1.clone());
                assert(part@ =~= with_status(pairs_map(next), ok));
            } else {
                assert(part@ =~= with_status(pairs_map(next), ok));
            }
            i += 1;
        }
        assert(all.take(i as int) =~= all);
        part
    }

    /// The hosts whose outcome has status 0, or `None` where there is none.
    pub fn succeeded(&self) -> (part: Option<MultiResult>)
        requires
            self.wf(),
        ensures
            match part {
                Some(p) => p.wf() && p@ == with_status(self@, true) && p@.len() > 0,
                None => with_status(self@, true) == Map::<Seq<char>, ResultView>::empty(),
            },
    {
        let part = self.select(true);
        if part.len() == 0 {
            proof {
                lemma_listing(part.pairs());
                assert(part@.dom() =~= Set::empty());
                assert(part@ =~= Map::empty());
            }
            None
        } else {
            Some(part)
        }
    }

    /// The hosts whose outcome has another status than 0, or `None` where
    /// there is none.
    pub fn failed(&self) -> (part: Option<MultiResult>)
        requires
            self.wf(),
        ensures
            match part {
                Some(p) => p.wf() && p@ == with_status(self@, false) && p@.len() > 0,
                None => with_status(self@, false) == Map::<Seq<char>, ResultView>::empty(),
            },
    {
        let part = self.select(false);
        if part.len() == 0 {
            proof {
                lemma_listing(part.pairs());
                assert(part@.dom() =~= Set::empty());
                assert(part@ =~= Map::empty());
            }
            None
        } else {
            Some(part)
        }
    }

    /// Fails exactly when some host failed. The error carries both parts of
    /// the outcome and a message with the number of failed hosts and of all.
    pub fn raise_if_any_failed(&self) -> (outcome: Result<(), PartialFailure>)
        requires
            self.wf(),
        ensures
            outcome.is_err() <==> exists|h: Seq<char>|
                self@.contains_key(h) && self@[h].status != 0,
            outcome.is_err() <==> with_status(self@, false).len() > 0,
            match outcome {
                Ok(_) => true,
                Err(e) => {
                    &&& e.failed.is_some()
                    &&& e.failed.unwrap().wf()
                    &&& e.failed.unwrap()@ == with_status(self@, false)
                    &&& match e.succeeded {
                        Some(s) => s.wf() && s@ == with_status(self@, true) && s@.len() > 0,
                        None => with_status(self@, true) == Map::<Seq<char>, ResultView>::empty(),
                    }
                    &&& e.message@ == partial_failure_message(
                        with_status(self@, false).len(),
                        self@.len(),
                    )
                },
            },
    {
        let failed = self.failed();
        match failed {
            None => {
                proof {
                    assert forall|h: Seq<char>| self@.contains_key(h) implies self@[h].status
                        == 0 by {
                        if self@[h].status != 0 {
                            assert(with_status(self@, false).contains_key(h));
                        }
                    }
                    assert(with_status(self@, false).dom() =~= Set::empty());
                }
                Ok(())
            },
            Some(f) => {
                proof {
                    lemma_listing(f.pairs());
                    assert(f@.dom().len() > 0);
                    let h = f@.dom().choose();
                    assert(f@.dom().contains(h));
                    assert(self@.contains_key(h) && self@[h].status != 0);
                }
                let mut message = String::from_str("Operation failed on ");
                push_decimal(&mut message, f.len() as u64);
                message.append(" of ");
                push_decimal(&mut message, self.len() as u64);
                message.append(" host(s)");
                let succeeded = self.succeeded();
                Err(PartialFailure { succeeded, failed: Some(f), message })
            },
        }
    }

    /// The debugging form: the number of hosts, of successes and of failures.
    pub fn repr(&self) -> (text: String)
        requires
            self.wf(),
        ensures
            text@ == multi_result_repr(
                self@.len(),
                with_status(self@, true).len(),
                with_status(self@, false).len(),
            ),
    {
        let ok = self.select(true);
        let bad = self.select(false);
        let mut text = String::from_str("MultiResult(");
        push_decimal(&mut text, self.len() as u64);
        text.append(" hosts: ");
        push_decimal(&mut text, ok.len() as u64);
        text.append(" succeeded, ");
        push_decimal(&mut text, bad.len() as u64);
        text.append(" failed)");
        text
    }
}

} // verus!
