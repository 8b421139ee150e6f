//! The tables of the rednet broker: the computers listening for requests, and
//! the requests waiting for a reply.

use std::collections::HashMap;
use rand::Rng;
use vstd::prelude::*;
use crate::rednet::GatewayError;

verus! {

broadcast use vstd::std_specs::hash::group_hash_axioms;

/// Relies on rand::rng and Rng::random_range over `0..n`: a value in that range,
/// which must not be empty.
#[verifier::external_body]
fn random_index(n: usize) -> (r: usize)
    requires
        n > 0,
    ensures
        r < n,
{
    rand::rng().random_range(0..n)
}

/// Relies on uuid::Uuid::new_v4 and Uuid::as_u128: a fresh random request id.
/// Nothing is promised of the value.
#[verifier::external_body]
fn fresh_request_id() -> (r: u128) {
    uuid::Uuid::new_v4().as_u128()
}

/// A request that was registered and must now be sent to the listener at
/// `listener`.
pub struct PendingRequest {
    pub request_id: u128,
    pub listener: usize,
}

/// The broker's state. `L` is the outbound queue of a listening computer, `R`
/// the slot a reply is delivered into.
pub struct Server<L, R> {
    listeners: Vec<(String, L)>,
    in_flight_requests: HashMap<u128, R>,
}

impl<L, R> Server<L, R> {
    /// The listening computers, with their queues, in the order they connected.
    pub closed spec fn listener_entries(&self) -> Seq<(String, L)> {
        self.listeners@
    }

    /// A computer with id `id` is listening.
    pub open spec fn has_listener(&self, id: Seq<char>) -> bool {
        has_key(self.listener_entries(), id)
    }

    /// The reply slots of the requests waiting for a reply, by request id.
    pub closed spec fn in_flight(&self) -> Map<u128, R> {
        self.in_flight_requests@
    }

    /// A broker with no listeners and no waiting requests.
    pub fn new() -> (r: Self)
        ensures
            r.listener_entries().len() == 0,
            r.in_flight() == Map::<u128, R>::empty(),
    {
        Server { listeners: Vec::new(), in_flight_requests: HashMap::new() }
    }

    /// How many computers are listening.
    pub fn listener_count(&self) -> (r: usize)
        ensures
            r == self.listener_entries().len(),
    {
        self.listeners.len()
    }

    /// The queue of the listener at `i`.
    pub fn listener(&self, i: usize) -> (r: &L)
        requires
            i < self.listener_entries().len(),
        ensures
            *r == self.listener_entries()[i as int].1,
    {
        &self.listeners[i].1
    }

    /// How many requests are waiting for a reply.
    pub fn in_flight_count(&self) -> (r: usize)
        ensures
            r == self.in_flight().len(),
    {
        self.in_flight_requests.len()
    }

    /// Forgets the listener `id`, if it is there.
    pub fn remove_listener(&mut self, id: &String)
        ensures
            !final(self).has_listener(id@),
            forall|other: Seq<char>| other != id@ ==> final(self).has_listener(other) == old(self).has_listener(other),
            final(self).in_flight() == old(self).in_flight(),
    {
        let mut i: usize = 0;
        while i < self.listeners.len()
            invariant
                i <= self.listeners@.len(),
                self.in_flight_requests@ == old(self).in_flight_requests@,
                forall|j: int| 0 <= j < i ==> (#[trigger] self.listeners@[j]).0@ != id@,
                forall|other: Seq<char>| other != id@ ==> has_key(self.listeners@, other) == has_key(old(self).listeners@, other),
            decreases self.listeners@.len() - i,
        {
            if self.listeners[i].0.eq(id) {
                let ghost cur = self.listeners@;
                proof {
                    lemma_remove_other_keys(cur, i as int, id@);
                }
                self.listeners.remove(i);
                assert forall|j: int| 0 <= j < i implies (#[trigger] self.listeners@[j]).0@ != id@ by {
                    assert(self.listeners@[j] == cur[j]);
                }
            } else {
                i += 1;
            }
        }
    }

    /// Registers the listener `id` with its queue, replacing an earlier one of that id.
    pub fn add_listener(&mut self, id: String, queue: L)
        ensures
            final(self).has_listener(id@),
            final(self).listener_entries().last() == (id, queue),
            forall|j: int|
                0 <= j < final(self).listener_entries().len() - 1 ==> (#[trigger] final(self).listener_entries()[j]).0@ != id@,
            forall|other: Seq<char>| other != id@ ==> final(self).has_listener(other) == old(self).has_listener(other),
            final(self).in_flight() == old(self).in_flight(),
    {
        self.remove_listener(&id);
        let ghost mid = *self;
        self.listeners.push((id, queue));
        assert(self.listener_entries()[self.listeners@.len() - 1].0@ == id@);
        assert forall|other: Seq<char>| other != id@ implies self.has_listener(other) == mid.has_listener(other) by {
            if self.has_listener(other) {
                let j = choose|j: int| 0 <= j < self.listeners@.len() && (#[trigger] self.listeners@[j]).0@ == other;
                assert(mid.listener_entries()[j].0@ == other);
            }
            if mid.has_listener(other) {
                let j = choose|j: int| 0 <= j < mid.listeners@.len() && (#[trigger] mid.listeners@[j]).0@ == other;
                assert(self.listener_entries()[j].0@ == other);
            }
        }
        assert forall|j: int| 0 <= j < self.listener_entries().len() - 1 implies (#[trigger] self.listener_entries()[j]).0@ != id@ by {
            assert(self.listener_entries()[j] == mid.listener_entries()[j]);
            if mid.listener_entries()[j].0@ == id@ {
                assert(mid.has_listener(id@));
            }
        }
    }

    /// Picks one of the listeners uniformly at random.
    pub fn choose_listener(&self) -> (r: Result<usize, GatewayError>)
        ensures
            r is Err <==> self.listener_entries().len() == 0,
            match r {
                Ok(i) => i < self.listener_entries().len(),
                Err(e) => e is NoListeners,
            },
    {
        let n = self.listeners.len();
        if n == 0 {
            Err(GatewayError::NoListeners)
        } else {
            Ok(random_index(n))
        }
    }

    /// Starts a request: picks a listener for it, gives it a fresh id, and
    /// registers the slot its reply will be delivered into.
    pub fn new_request(&mut self, reply: R) -> (r: Result<PendingRequest, GatewayError>)
        ensures
            r is Err <==> old(self).listener_entries().len() == 0,
            final(self).listener_entries() == old(self).listener_entries(),
            match r {
                Ok(p) => {
                    &&& p.listener < old(self).listener_entries().len()
                    &&& final(self).in_flight() == old(self).in_flight().insert(p.request_id, reply)
                },
                Err(e) => e is NoListeners && final(self).in_flight() == old(self).in_flight(),
            },
    {
        let listener = match self.choose_listener() {
            Ok(i) => i,
            Err(e) => return Err(e),
        };
        let request_id = fresh_request_id();
        self.register_request(request_id, reply);
        Ok(PendingRequest { request_id, listener })
    }

    /// Registers the slot a reply to `request_id` is delivered into.
    pub fn register_request(&mut self, request_id: u128, reply: R)
        ensures
            final(self).in_flight() == old(self).in_flight().insert(request_id, reply),
            final(self).listener_entries() == old(self).listener_entries(),
    {
        self.in_flight_requests.insert(request_id, reply);
    }

    /// Forgets the request `request_id`: whatever ended it, no slot stays behind.
    pub fn cancel_request(&mut self, request_id: u128)
        ensures
            final(self).in_flight() == old(self).in_flight().remove(request_id),
            !final(self).in_flight().contains_key(request_id),
            final(self).listener_entries() == old(self).listener_entries(),
    {
        self.in_flight_requests.remove(&request_id);
    }
}

/// Takes the reply slot of `request_id` out of the table, if the request is still
/// waiting; a reply to an unknown or finished request finds nothing.
pub fn handle_response<L, R>(server: &mut Server<L, R>, request_id: u128) -> (r: Option<R>)
    ensures
        r == if old(server).in_flight().contains_key(request_id) {
            Some(old(server).in_flight()[request_id])
        } else {
            None
        },
        final(server).in_flight() == old(server).in_flight().remove(request_id),
        final(server).listener_entries() == old(server).listener_entries(),
{
    server.in_flight_requests.remove(&request_id)
}

/// Some entry of `s` has the key `id`.
pub open spec fn has_key<L>(s: Seq<(String, L)>, id: Seq<char>) -> bool {
    exists|i: int| 0 <= i < s.len() && (#[trigger] s[i]).0@ == id
}

proof fn lemma_remove_other_keys<L>(s: Seq<(String, L)>, i: int, id: Seq<char>)
    requires
        0 <= i < s.len(),
        s[i].0@ == id,
    ensures
        forall|other: Seq<char>| other != id ==> has_key(s.remove(i), other) == has_key(s, other),
{
    let t = s.remove(i);
    assert forall|other: Seq<char>| other != id implies has_key(t, other) == has_key(s, other) by {
        if has_key(t, other) {
            let j = choose|j: int| 0 <= j < t.len() && (#[trigger] t[j]).0@ == other;
            if j < i {
                assert(s[j] == t[j]);
            } else {
                assert(s[j + 1] == t[j]);
            }
        }
        if has_key(s, other) {
            let k = choose|k: int| 0 <= k < s.len() && (#[trigger] s[k]).0@ == other;
            if k < i {
                assert(t[k] == s[k]);
            } else {
                assert(k != i);
                assert(t[k - 1] == s[k]);
            }
        }
    }
}

/// A request leaves no trace in the table of waiting requests: registering a
/// fresh id and then forgetting it restores the table, whether or not a reply
/// took the slot in between.
pub proof fn lemma_request_leaves_no_trace<R>(before: Map<u128, R>, request_id: u128, reply: R, replied: bool)
    requires
        !before.contains_key(request_id),
    ensures
        ({
            let registered = before.insert(request_id, reply);
            let answered = if replied { registered.remove(request_id) } else { registered };
            &&& answered.remove(request_id) == before
            &&& !answered.remove(request_id).contains_key(request_id)
        }),
{
    let registered = before.insert(request_id, reply);
    assert(registered.remove(request_id) =~= before);
    assert(registered.remove(request_id).remove(request_id) =~= before);
}

} // verus!
