use vstd::prelude::*;

use crate::input::opt_text;

verus! {

/// A notification from the transport that a peer became reachable or left.
pub enum LifecycleEvent {
    Connected(String),
    Disconnected(String),
}

/// What the registry holds, as seen by contracts.
pub struct RegistryView<C> {
    /// The established connections, keyed by the remote peer's id.
    pub conns: Map<Seq<char>, C>,
    /// The current remote peer: the target of outbound messages.
    pub target: Option<Seq<char>>,
}

/// The registry after one lifecycle event. A connected peer becomes the
/// current one; a peer that leaves loses its connection, and when it was the
/// current peer there is no current peer any more.
pub open spec fn applied<C>(r: RegistryView<C>, e: LifecycleEvent) -> RegistryView<C> {
    match e {
        LifecycleEvent::Connected(id) => RegistryView { conns: r.conns, target: Some(id@) },
        LifecycleEvent::Disconnected(id) => RegistryView {
            conns: r.conns.remove(id@),
            target: if r.target == Some(id@) {
                None
            } else {
                r.target
            },
        },
    }
}

/// The peer that outbound messages go to: the most recently connected one,
/// unless it has left since.
pub open spec fn send_target<C>(r: RegistryView<C>) -> Option<Seq<char>> {
    r.target
}

/// The connections of a session, keyed by remote peer id, and the current
/// remote peer.
pub struct PeerRegistry<C> {
    conns: Vec<(String, C)>,
    keys: Ghost<Map<Seq<char>, C>>,
    current: Option<String>,
}

/// `conns` stores each value of `keys` under its own key, once.
pub closed spec fn entries_wf<C>(conns: Seq<(String, C)>, keys: Map<Seq<char>, C>) -> bool {
    &&& forall|i: int|
        0 <= i < conns.len() ==> {
            &&& keys.contains_key(#[trigger] conns[i].0@)
            &&& keys[conns[i].0@] == conns[i].1
        }
    &&& forall|i: int, j: int|
        0 <= i < j < conns.len() ==> #[trigger] conns[i].0@ != #[trigger] conns[j].0@
    &&& forall|k: Seq<char>|
        #[trigger] keys.contains_key(k) ==> exists|i: int|
            0 <= i < conns.len() && #[trigger] conns[i].0@ == k
}

impl<C> View for PeerRegistry<C> {
    type V = RegistryView<C>;

    closed spec fn view(&self) -> RegistryView<C> {
        RegistryView { conns: self.keys@, target: opt_text(self.current) }
    }
}

impl<C> PeerRegistry<C> {
    /// Each stored connection is under its own id, no id is stored twice,
    /// and every key of the map has an entry.
    pub closed spec fn wf(&self) -> bool {
        entries_wf(self.conns@, self.keys@)
    }

    /// An empty registry.
    pub fn new() -> (r: PeerRegistry<C>)
        ensures
            r.wf(),
            r@.conns == Map::<Seq<char>, C>::empty(),
            r@.target == None::<Seq<char>>,
    {
        PeerRegistry { conns: Vec::new(), keys: Ghost(Map::empty()), current: None }
    }

    /// Where the connection to `id` is stored, if there is one.
    fn find(&self, id: &String) -> (r: Option<usize>)
        requires
            self.wf(),
        ensures
            r is None <==> !self@.conns.contains_key(id@),
            r matches Some(i) ==> i < self.conns@.len() && self.conns@[i as int].0@ == id@,
    {
        let mut i: usize = 0;
        while i < self.conns.len()
            invariant
                self.wf(),
                i <= self.conns@.len(),
                forall|j: int| 0 <= j < i ==> #[trigger] self.conns@[j].0@ != id@,
            decreases self.conns@.len() - i,
        {
            if self.conns[i].0 == *id {
                return Some(i);
            }
            i = i + 1;
        }
        None
    }

    /// Stores `conn` under `id`; one already there is replaced.
    pub fn register(&mut self, id: String, conn: C)
        requires
            old(self).wf(),
        ensures
            final(self).wf(),
            final(self)@.conns == old(self)@.conns.insert(id@, conn),
            final(self)@.target == old(self)@.target,
    {
        let ghost key = id@;
        match self.find(&id) {
            Some(i) => {
                self.conns.set(i, (id, conn));
                proof {
                    self.keys@ = self.keys@.insert(key, self.conns@[i as int].1);
                    assert forall|k: Seq<char>| #[trigger] self.keys@.contains_key(k) implies exists|
                        j: int,
                    | 0 <= j < self.conns@.len() && #[trigger] self.conns@[j].0@ == k by {
                        if k != key {
                            let j = choose|j: int|
                                0 <= j < old(self).conns@.len() && #[trigger] old(
                                    self,
                                ).conns@[j].0@ == k;
                            assert(self.conns@[j].0@ == k);
                        } else {
                            assert(self.conns@[i as int].0@ == k);
                        }
                    }
                }
            },
            None => {
                self.conns.push((id, conn));
                proof {
                    let n = self.conns@.len() - 1;
                    self.keys@ = self.keys@.insert(key, self.conns@[n].1);
                    assert forall|k: Seq<char>| #[trigger] self.keys@.contains_key(k) implies exists|
                        j: int,
                    | 0 <= j < self.conns@.len() && #[trigger] self.conns@[j].0@ == k by {
                        if k != key {
                            let j = choose|j: int|
                                0 <= j < old(self).conns@.len() && #[trigger] old(
                                    self,
                                ).conns@[j].0@ == k;
                            assert(self.conns@[j].0@ == k);
                        } else {
                            assert(self.conns@[n].0@ == k);
                        }
                    }
                }
            },
        }
    }

    /// Drops the connection stored under `id`, if any.
    fn forget(&mut self, id: &String)
        requires
            old(self).wf(),
        ensures
            final(self).wf(),
            final(self)@.conns == old(self)@.conns.remove(id@),
            final(self)@.target == old(self)@.target,
    {
        match self.find(id) {
            Some(i) => {
                let ghost key = id@;
                self.conns.remove(i);
                proof {
                    self.keys@ = self.keys@.remove(key);
                    let o = old(self).conns@;
                    assert forall|j: int| 0 <= j < self.conns@.len() implies #[trigger] self.conns@[j]
                        == (if j < i { o[j] } else { o[j + 1] }) by {}
                    assert forall|k: Seq<char>| #[trigger] self.keys@.contains_key(k) implies exists|
                        j: int,
                    | 0 <= j < self.conns@.len() && #[trigger] self.conns@[j].0@ == k by {
                        let j = choose|j: int| 0 <= j < o.len() && #[trigger] o[j].0@ == k;
                        if j < i {
                            assert(self.conns@[j].0@ == k);
                        } else {
                            assert(j != i);
                            assert(self.conns@[j - 1].0@ == k);
                        }
                    }
                    assert forall|a: int, b: int|
                        0 <= a < b < self.conns@.len() implies #[trigger] self.conns@[a].0@
                        != #[trigger] self.conns@[b].0@ by {
                        let a1 = if a < i { a } else { a + 1 };
                        let b1 = if b < i { b } else { b + 1 };
                        assert(o[a1].0@ != o[b1].0@);
                    }
                    assert forall|j: int| 0 <= j < self.conns@.len() implies {
                        &&& self.keys@.contains_key(#[trigger] self.conns@[j].0@)
                        &&& self.keys@[self.conns@[j].0@] == self.conns@[j].1
                    } by {
                        let j1 = if j < i { j } else { j + 1 };
                        assert(o[j1].0@ != o[i as int].0@);
                    }
                }
            },
            None => {
                assert(self@.conns =~= old(self)@.conns.remove(id@));
            },
        }
    }

    /// The connection stored under `id`, if any.
    pub fn connection(&self, id: &String) -> (r: Option<&C>)
        requires
            self.wf(),
        ensures
            r is Some <==> self@.conns.contains_key(id@),
            r matches Some(c) ==> *c == self@.conns[id@],
    {
        match self.find(id) {
            Some(i) => Some(&self.conns[i].1),
            None => None,
        }
    }

    /// Applies a lifecycle event: a connected peer becomes the current one;
    /// a peer that left loses its connection and, when it was the current
    /// peer, leaves no current peer.
    pub fn apply(&mut self, e: &LifecycleEvent)
        requires
            old(self).wf(),
        ensures
            final(self).wf(),
            final(self)@ == applied(old(self)@, *e),
    {
        match e {
            LifecycleEvent::Connected(id) => {
                self.current = Some(id.clone());
            },
            LifecycleEvent::Disconnected(id) => {
                let departed = match &self.current {
                    Some(c) => *c == *id,
                    None => false,
                };
                if departed {
                    self.current = None;
                }
                self.forget(id);
            },
        }
    }

    /// The peer that outbound messages go to, if there is a current one.
    pub fn resolve_send_target(&self) -> (r: Option<String>)
        ensures
            opt_text(r) == send_target(self@),
    {
        self.current.clone()
    }
}

/// A peer that has just connected is the send target, whatever came before;
/// once it disconnects there is no send target.
pub proof fn lemma_connect_then_disconnect<C>(r: RegistryView<C>, a: String)
    ensures
        send_target(applied(r, LifecycleEvent::Connected(a))) == Some(a@),
        send_target(applied(applied(r, LifecycleEvent::Connected(a)), LifecycleEvent::Disconnected(a)))
            == None::<Seq<char>>,
{
}

/// A peer that disconnects is never the send target afterwards, and a peer
/// other than the current one leaving does not change the target.
pub proof fn lemma_departure_clears_target<C>(r: RegistryView<C>, a: String)
    ensures
        send_target(applied(r, LifecycleEvent::Disconnected(a))) != Some(a@),
        r.target != Some(a@) ==> send_target(applied(r, LifecycleEvent::Disconnected(a)))
            == r.target,
        r.target == Some(a@) ==> send_target(applied(r, LifecycleEvent::Disconnected(a)))
            == None::<Seq<char>>,
{
}

} // verus!
