//! The registry of connected sessions: who is online, under which name, and
//! through which channel text reaches them.

use vstd::prelude::*;
use vstd::string::*;
use std::collections::HashMap;
use vstd::std_specs::hash::{axiom_spec_hash_map_iter, spec_hash_map_iter};
use vstd::std_specs::iter::IteratorSpec;
use tokio::sync::mpsc::{UnboundedReceiver, UnboundedSender};
use crate::channel::{offer, open_channel};
use crate::text::same_text;

verus! {

/// Why a session could not be registered.
#[derive(Clone, Copy, Debug, PartialEq, Eq)]
pub enum RegistryError {
    /// The display name is bound to another endpoint that is online.
    AlreadyConnected,
}

/// To whom a text was handed, and whom it could not reach.
#[derive(Debug, PartialEq, Eq)]
pub struct Fanout {
    /// Endpoints whose channel took the text.
    pub delivered: Vec<u64>,
    /// Endpoints whose channel was already closed.
    pub skipped: Vec<u64>,
}

impl Fanout {
    /// The text was offered exactly once to each endpoint of `targets`,
    /// and to no other.
    pub open spec fn covers(&self, targets: Set<u64>) -> bool {
        &&& self.delivered@.no_duplicates()
        &&& self.skipped@.no_duplicates()
        &&& forall|e: u64| !(self.delivered@.contains(e) && self.skipped@.contains(e))
        &&& forall|e: u64|
            targets.contains(e) <==> (self.delivered@.contains(e) || self.skipped@.contains(e))
    }
}

/// The sessions that are online, keyed by endpoint.
pub struct Shared {
    peers: HashMap<u64, UnboundedSender<String>>,
    usernames: HashMap<u64, String>,
}

impl Shared {
    /// The endpoints that hold a channel.
    pub closed spec fn endpoints(&self) -> Set<u64> {
        self.peers@.dom()
    }

    /// The display name of each endpoint that has one.
    pub closed spec fn names(&self) -> Map<u64, Seq<char>> {
        Map::new(|e: u64| self.usernames@.contains_key(e), |e: u64| self.usernames@[e]@)
    }

    /// Whether `name` is the display name of some endpoint.
    pub open spec fn online(&self, name: Seq<char>) -> bool {
        exists|e: u64| #[trigger] self.names().contains_key(e) && self.names()[e] == name
    }

    /// The endpoint that is online under `name`, where there is one.
    pub open spec fn located(&self, name: Seq<char>) -> Option<u64> {
        if self.online(name) {
            Some(choose|e: u64| #[trigger] self.names().contains_key(e) && self.names()[e] == name)
        } else {
            None
        }
    }

    /// The two maps hold the same endpoints, finitely many, and no two
    /// endpoints share a display name.
    pub closed spec fn wf(&self) -> bool {
        &&& self.peers@.dom() == self.usernames@.dom()
        &&& self.peers@.dom().finite()
        &&& forall|a: u64, b: u64|
            #![trigger self.usernames@[a], self.usernames@[b]]
            self.usernames@.contains_key(a) && self.usernames@.contains_key(b)
                && self.usernames@[a]@ == self.usernames@[b]@ ==> a == b
    }

    /// An empty registry.
    pub fn new() -> (r: Shared)
        ensures
            r.wf(),
            r.endpoints() == Set::<u64>::empty(),
            r.names() == Map::<u64, Seq<char>>::empty(),
            r.endpoints() == r.names().dom(),
    {
        let r = Shared { peers: HashMap::new(), usernames: HashMap::new() };
        proof {
            assert(r.names() =~= Map::<u64, Seq<char>>::empty());
        }
        r
    }

    /// Whether some session is online under `username`.
    pub fn is_user_connected(&self, username: &str) -> (b: bool)
        requires
            self.wf(),
        ensures
            b == self.online(username@),
    {
        let mut found = false;
        for entry in it: self.usernames.iter()
            invariant
                it.seq() == spec_hash_map_iter(&self.usernames).remaining(),
                found == exists|i: int|
                    0 <= i < it.index() && (#[trigger] it.seq()[i]).1@ == username@,
        {
            if same_text(entry.1.as_str(), username) {
                found = true;
            }
        }
        proof {
            broadcast use axiom_spec_hash_map_iter;
            let v = spec_hash_map_iter(&self.usernames).remaining();
            if found {
                let i = choose|i: int| 0 <= i < v.len() && (#[trigger] v[i]).1@ == username@;
                let e = *v[i].0;
                assert(self.usernames@.contains_key(e));
                assert(self.names().contains_key(e) && self.names()[e] == username@);
            }
            if self.online(username@) {
                let e = choose|e: u64| #[trigger]
                    self.names().contains_key(e) && self.names()[e] == username@;
                assert(self.usernames@.contains_key(e));
                assert(v.contains((&e, &self.usernames@[e])));
            }
        }
        found
    }

    /// The endpoint that is online under `username`, if there is one.
    pub fn get_addr_by_username(&self, username: &str) -> (r: Option<u64>)
        requires
            self.wf(),
        ensures
            r == self.located(username@),
            match r {
                Some(e) => self.names().contains_key(e) && self.names()[e] == username@,
                None => !self.online(username@),
            },
    {
        let mut found: Option<u64> = None;
        for entry in it: self.usernames.iter()
            invariant
                it.seq() == spec_hash_map_iter(&self.usernames).remaining(),
                match found {
                    Some(e) => self.usernames@.contains_key(e) && self.usernames@[e]@
                        == username@,
                    None => forall|i: int|
                        0 <= i < it.index() ==> (#[trigger] it.seq()[i]).1@ != username@,
                },
        {
            proof {
                broadcast use axiom_spec_hash_map_iter;

                assert(self.usernames@.contains_key(*it.seq()[it.index()].0));
            }
            if same_text(entry.1.as_str(), username) {
                found = Some(*entry.0);
            }
        }
        proof {
            broadcast use axiom_spec_hash_map_iter;

            let v = spec_hash_map_iter(&self.usernames).remaining();
            if found is None && self.online(username@) {
                let e = choose|e: u64| #[trigger]
                    self.names().contains_key(e) && self.names()[e] == username@;
                assert(self.usernames@.contains_key(e));
                assert(v.contains((&e, &self.usernames@[e])));
            }
            if let Some(e) = found {
                assert(self.names().contains_key(e) && self.names()[e] == username@);
                self.lemma_names_distinct(e, self.located(username@).unwrap());
            }
        }
        found
    }

    /// The two maps move in lock-step: an endpoint holds a channel exactly
    /// where it has a display name.
    pub proof fn lemma_lock_step(&self)
        requires
            self.wf(),
        ensures
            self.endpoints() == self.names().dom(),
            self.endpoints().finite(),
    {
        assert(self.names().dom() =~= self.usernames@.dom());
    }

    /// No two endpoints are online under one display name.
    pub proof fn lemma_names_distinct(&self, a: u64, b: u64)
        requires
            self.wf(),
            self.names().contains_key(a),
            self.names().contains_key(b),
            self.names()[a] == self.names()[b],
        ensures
            a == b,
    {
        assert(self.usernames@[a]@ == self.usernames@[b]@);
    }

    /// Whether `username` is the display name of an endpoint other than
    /// `endpoint`.
    pub open spec fn bound_elsewhere(&self, username: Seq<char>, endpoint: u64) -> bool {
        exists|e: u64|
            e != endpoint && #[trigger] self.names().contains_key(e) && self.names()[e]
                == username
    }

    /// Brings a session online: opens its inbound channel, keeps the
    /// sending half under `endpoint` beside the display name, and hands
    /// back the receiving half. Refused, with nothing changed, where the
    /// name belongs to another endpoint.
    pub fn register(&mut self, endpoint: u64, username: &str) -> (r: Result<
        UnboundedReceiver<String>,
        RegistryError,
    >)
        requires
            old(self).wf(),
        ensures
            final(self).wf(),
            final(self).endpoints() == final(self).names().dom(),
            r is Err <==> old(self).bound_elsewhere(username@, endpoint),
            r is Err ==> r == Err::<UnboundedReceiver<String>, RegistryError>(
                RegistryError::AlreadyConnected,
            ) && final(self).endpoints() == old(self).endpoints() && final(self).names() == old(
                self,
            ).names(),
            r is Ok ==> final(self).endpoints() == old(self).endpoints().insert(endpoint)
                && final(self).names() == old(self).names().insert(endpoint, username@),
    {
        match self.get_addr_by_username(username) {
            Some(holder) => {
                if holder != endpoint {
                    return Err(RegistryError::AlreadyConnected);
                }
                proof {
                    if self.bound_elsewhere(username@, endpoint) {
                        let e = choose|e: u64|
                            e != endpoint && #[trigger] self.names().contains_key(e)
                                && self.names()[e] == username@;
                        assert(self.usernames@[e]@ == self.usernames@[holder]@);
                    }
                }
            },
            None => {},
        }
        let halves = open_channel();
        let name = String::from_str(username);
        self.peers.insert(endpoint, halves.0);
        self.usernames.insert(endpoint, name);
        proof {
            assert(self.names() =~= old(self).names().insert(endpoint, username@));
            assert(self.peers@.dom() =~= self.usernames@.dom());
            assert(self.names().dom() =~= self.usernames@.dom());
            assert forall|a: u64, b: u64|
                #![trigger self.usernames@[a], self.usernames@[b]]
                self.usernames@.contains_key(a) && self.usernames@.contains_key(b)
                    && self.usernames@[a]@ == self.usernames@[b]@ implies a == b by {
                if a != b {
                    if a == endpoint {
                        assert(old(self).names().contains_key(b) && old(self).names()[b]
                            == username@);
                    } else if b == endpoint {
                        assert(old(self).names().contains_key(a) && old(self).names()[a]
                            == username@);
                    } else {
                        assert(old(self).usernames@[a]@ == old(self).usernames@[b]@);
                    }
                }
            }
        }
        Ok(halves.1)
    }

    /// Takes a session offline. Nothing changes where `endpoint` is not
    /// registered.
    pub fn deregister(&mut self, endpoint: u64)
        requires
            old(self).wf(),
        ensures
            final(self).wf(),
            final(self).endpoints() == final(self).names().dom(),
            final(self).endpoints() == old(self).endpoints().remove(endpoint),
            final(self).names() == old(self).names().remove(endpoint),
    {
        self.peers.remove(&endpoint);
        self.usernames.remove(&endpoint);
        proof {
            assert(self.names().dom() =~= self.usernames@.dom());
            assert(self.names() =~= old(self).names().remove(endpoint));
            assert(self.peers@.dom() =~= self.usernames@.dom());
            assert forall|a: u64, b: u64|
                #![trigger self.usernames@[a], self.usernames@[b]]
                self.usernames@.contains_key(a) && self.usernames@.contains_key(b)
                    && self.usernames@[a]@ == self.usernames@[b]@ implies a == b by {
                assert(old(self).usernames@[a]@ == old(self).usernames@[b]@);
            }
        }
    }

    /// Offers `message` once to the channel of every registered endpoint
    /// but `sender`, and reports which channels took it. A channel that is
    /// already closed is passed over.
    pub fn broadcast(&self, sender: u64, message: &str) -> (report: Fanout)
        requires
            self.wf(),
        ensures
            report.covers(self.endpoints().remove(sender)),
    {
        let mut report = Fanout { delivered: Vec::new(), skipped: Vec::new() };
        for entry in it: self.peers.iter()
            invariant
                it.seq() == spec_hash_map_iter(&self.peers).remaining(),
                it.seq().no_duplicates(),
                report.delivered@.no_duplicates(),
                report.skipped@.no_duplicates(),
                forall|e: u64|
                    !(report.delivered@.contains(e) && report.skipped@.contains(e)),
                forall|e: u64|
                    (report.delivered@.contains(e) || report.skipped@.contains(e)) <==> (e
                        != sender && exists|i: int|
                        0 <= i < it.index() && *(#[trigger] it.seq()[i]).0 == e),
        {
            let target: u64 = *entry.0;
            proof {
                broadcast use axiom_spec_hash_map_iter;

                let v = it.seq();
                let k = it.index();
                assert(*v[k].0 == target);
                assert forall|i: int| 0 <= i < k implies *(#[trigger] v[i]).0 != target by {
                    if *v[i].0 == target {
                        assert(self.peers@[*v[i].0] == *v[i].1);
                        assert(self.peers@[*v[k].0] == *v[k].1);
                        assert(v[i] == v[k]);
                    }
                }
            }
            if target != sender {
                let ghost before = report;
                if offer(entry.1, message) {
                    report.delivered.push(target);
                    proof {
                        assert(!before.delivered@.contains(target));
                        assert forall|i: int, j: int|
                            0 <= i < report.delivered@.len() && 0 <= j < report.delivered@.len() && i
                                != j implies report.delivered@[i] != report.delivered@[j] by {
                            if i < before.delivered@.len() {
                                assert(before.delivered@.contains(report.delivered@[i]));
                            }
                            if j < before.delivered@.len() {
                                assert(before.delivered@.contains(report.delivered@[j]));
                            }
                        }
                        assert forall|e: u64| report.delivered@.contains(e) <==> (
                        before.delivered@.contains(e) || e == target) by {
                            if before.delivered@.contains(e) {
                                let j = choose|j: int|
                                    0 <= j < before.delivered@.len() && before.delivered@[j] == e;
                                assert(report.delivered@[j] == e);
                            }
                            if e == target {
                                assert(report.delivered@[before.delivered@.len() as int] == e);
                            }
                        }
                    }
                } else {
                    report.skipped.push(target);
                    proof {
                        assert(!before.skipped@.contains(target));
                        assert forall|i: int, j: int|
                            0 <= i < report.skipped@.len() && 0 <= j < report.skipped@.len() && i
                                != j implies report.skipped@[i] != report.skipped@[j] by {
                            if i < before.skipped@.len() {
                                assert(before.skipped@.contains(report.skipped@[i]));
                            }
                            if j < before.skipped@.len() {
                                assert(before.skipped@.contains(report.skipped@[j]));
                            }
                        }
                        assert forall|e: u64| report.skipped@.contains(e) <==> (
                        before.skipped@.contains(e) || e == target) by {
                            if before.skipped@.contains(e) {
                                let j = choose|j: int|
                                    0 <= j < before.skipped@.len() && before.skipped@[j] == e;
                                assert(report.skipped@[j] == e);
                            }
                            if e == target {
                                assert(report.skipped@[before.skipped@.len() as int] == e);
                            }
                        }
                    }
                }
            }
        }
        proof {
            broadcast use axiom_spec_hash_map_iter;

            let v = spec_hash_map_iter(&self.peers).remaining();
            assert forall|e: u64|
                self.endpoints().remove(sender).contains(e) <==> (report.delivered@.contains(e)
                    || report.skipped@.contains(e)) by {
                if self.peers@.contains_key(e) && e != sender {
                    assert(v.contains((&e, &self.peers@[e])));
                    let i = choose|i: int| 0 <= i < v.len() && v[i] == (&e, &self.peers@[e]);
                    assert(*v[i].0 == e);
                }
                if report.delivered@.contains(e) || report.skipped@.contains(e) {
                    let i = choose|i: int| 0 <= i < v.len() && *(#[trigger] v[i]).0 == e;
                    assert(self.peers@.contains_key(*v[i].0));
                }
            }
        }
        report
    }

    /// Offers `text` to the channel of `endpoint` alone, and tells whether
    /// it was taken; `None` where the endpoint is not registered.
    pub fn send_to(&self, endpoint: u64, text: &str) -> (taken: Option<bool>)
        requires
            self.wf(),
        ensures
            taken is Some <==> self.endpoints().contains(endpoint),
    {
        match self.peers.get(&endpoint) {
            Some(handle) => Some(offer(handle, text)),
            None => None,
        }
    }
}

} // verus!
