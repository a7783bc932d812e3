use vstd::prelude::*;

use crate::registry::{PeerRegistry, RegistryView};
use crate::ui::ConnectionMode;

verus! {

/// Where the handshake stands.
#[derive(Clone, Copy, Debug, PartialEq, Eq, Structural)]
pub enum Phase {
    /// Send role: waiting for the user to name the peer to connect to.
    AwaitingPeer,
    /// Send role: a connection to the named peer is being made.
    Connecting,
    /// Receive role: polling for a remote peer's offer.
    Polling,
    /// Receive role: an offer arrived and is being accepted.
    Accepting,
    /// A connection is registered; the event loop may start.
    Established,
    /// The connection attempt failed; the session does not start.
    Failed,
}

/// The handshake failed: fatal to the start of the session.
#[derive(Clone, Copy, Debug, PartialEq, Eq, Structural)]
pub struct ConnectionError;

/// What the coordinator holds, as seen by contracts.
pub struct CoordinatorView {
    pub mode: ConnectionMode,
    pub phase: Phase,
    /// The peer named by the user, in the Send role.
    pub target: Option<Seq<char>>,
    /// How many times the transport was polled for an offer.
    pub polls: nat,
}

/// The coordinator before anything happened.
pub open spec fn started(mode: ConnectionMode) -> CoordinatorView {
    CoordinatorView {
        mode,
        phase: if mode == ConnectionMode::Send {
            Phase::AwaitingPeer
        } else {
            Phase::Polling
        },
        target: None,
        polls: 0,
    }
}

/// The coordinator after one poll for an offer, given whether one came.
pub open spec fn polled(c: CoordinatorView, got_offer: bool) -> CoordinatorView {
    CoordinatorView {
        phase: if got_offer {
            Phase::Accepting
        } else {
            Phase::Polling
        },
        polls: c.polls + 1,
        ..c
    }
}

/// The coordinator after a run of polls, one outcome each, that stops at the
/// first offer.
pub open spec fn polled_all(c: CoordinatorView, outcomes: Seq<bool>) -> CoordinatorView
    decreases outcomes.len(),
{
    if outcomes.len() == 0 {
        c
    } else {
        let before = polled_all(c, outcomes.drop_last());
        if before.phase == Phase::Polling {
            polled(before, outcomes.last())
        } else {
            before
        }
    }
}

/// Runs the one-time handshake that gives the session its first connection:
/// in the Send role it connects to a peer the user names, in the Receive role
/// it polls for an offer and accepts it. The transport calls are made by the
/// caller, which hands their outcomes back.
pub struct Coordinator {
    mode: ConnectionMode,
    phase: Phase,
    target: Option<String>,
    polls: Ghost<nat>,
}

impl View for Coordinator {
    type V = CoordinatorView;

    closed spec fn view(&self) -> CoordinatorView {
        CoordinatorView {
            mode: self.mode,
            phase: self.phase,
            target: match self.target {
                Some(t) => Some(t@),
                None => None,
            },
            polls: self.polls@,
        }
    }
}

impl Coordinator {
    /// A coordinator for the chosen role.
    pub fn new(mode: ConnectionMode) -> (r: Coordinator)
        ensures
            r@ == started(mode),
    {
        let phase = match mode {
            ConnectionMode::Send => Phase::AwaitingPeer,
            ConnectionMode::Receive => Phase::Polling,
        };
        Coordinator { mode, phase, target: None, polls: Ghost(0) }
    }

    /// The role this session plays.
    pub fn mode(&self) -> (r: ConnectionMode)
        ensures
            r == self@.mode,
    {
        self.mode
    }

    /// Where the handshake stands.
    pub fn phase(&self) -> (r: Phase)
        ensures
            r == self@.phase,
    {
        self.phase
    }

    /// The user named the peer to connect to: the connection to it is to be
    /// made, and its id is handed back for that.
    pub fn choose_peer(&mut self, peer: String) -> (r: String)
        requires
            old(self)@.phase == Phase::AwaitingPeer,
        ensures
            r@ == peer@,
            final(self)@ == (CoordinatorView {
                phase: Phase::Connecting,
                target: Some(peer@),
                ..old(self)@
            }),
    {
        let r = peer.clone();
        self.target = Some(peer);
        self.phase = Phase::Connecting;
        r
    }

    /// One poll for an offer. An offer that came is handed back, to be
    /// accepted; without one the coordinator keeps polling.
    pub fn poll<O>(&mut self, offer: Option<O>) -> (r: Option<O>)
        requires
            old(self)@.phase == Phase::Polling,
        ensures
            r == offer,
            final(self)@ == polled(old(self)@, offer is Some),
    {
        self.polls = Ghost(self.polls@ + 1);
        if offer.is_some() {
            self.phase = Phase::Accepting;
        }
        offer
    }

    /// The outcome of the connection attempt: a connection to the peer `id`
    /// is registered and the handshake is done, or the error is handed back
    /// and the session does not start. In the Send role the connection is to
    /// the peer the user named.
    pub fn finish<C>(
        &mut self,
        registry: &mut PeerRegistry<C>,
        result: Result<(String, C), ConnectionError>,
    ) -> (r: Result<(), ConnectionError>)
        requires
            old(self)@.phase == Phase::Connecting || old(self)@.phase == Phase::Accepting,
            old(self)@.phase == Phase::Connecting ==> (result matches Ok((id, _)) ==> old(
                self,
            )@.target == Some(id@)),
            old(registry).wf(),
        ensures
            final(registry).wf(),
            old(self)@.phase == Phase::Connecting && r is Ok ==> (old(self)@.target matches Some(t)
                && final(registry)@.conns.contains_key(t)),
            match result {
                Ok((id, c)) => {
                    &&& r is Ok
                    &&& final(self)@ == (CoordinatorView { phase: Phase::Established, ..old(self)@ })
                    &&& final(registry)@ == (RegistryView {
                        conns: old(registry)@.conns.insert(id@, c),
                        ..old(registry)@
                    })
                },
                Err(e) => {
                    &&& r == Err::<(), ConnectionError>(e)
                    &&& final(self)@ == (CoordinatorView { phase: Phase::Failed, ..old(self)@ })
                    &&& final(registry)@ == old(registry)@
                },
            },
    {
        match result {
            Ok((id, c)) => {
                registry.register(id, c);
                self.phase = Phase::Established;
                Ok(())
            },
            Err(e) => {
                self.phase = Phase::Failed;
                Err(e)
            },
        }
    }
}

/// In the Receive role, when the first `n` polls bring nothing and the next
/// one brings an offer, the coordinator is still polling after each of the
/// first `n` polls and moves on to accept the offer after `n + 1` of them.
pub proof fn lemma_offer_after_empty_polls(outcomes: Seq<bool>, n: nat)
    requires
        outcomes.len() == n + 1,
        forall|i: int| 0 <= i < n ==> !outcomes[i],
        outcomes[n as int],
    ensures
        forall|k: int|
            0 <= k <= n ==> #[trigger] polled_all(started(ConnectionMode::Receive), outcomes.take(k))
                == (CoordinatorView { polls: k as nat, ..started(ConnectionMode::Receive) }),
        polled_all(started(ConnectionMode::Receive), outcomes) == (CoordinatorView {
            phase: Phase::Accepting,
            polls: n + 1,
            ..started(ConnectionMode::Receive)
        }),
{
    let s = started(ConnectionMode::Receive);
    assert forall|k: int| 0 <= k <= n implies #[trigger] polled_all(s, outcomes.take(k))
        == (CoordinatorView { polls: k as nat, ..s }) by {
        lemma_still_polling(outcomes, n, k);
    }
    lemma_still_polling(outcomes, n, n as int);
    assert(outcomes.drop_last() =~= outcomes.take(n as int));
}

/// The first `k` of `n` empty polls leave the coordinator polling.
proof fn lemma_still_polling(outcomes: Seq<bool>, n: nat, k: int)
    requires
        outcomes.len() == n + 1,
        forall|i: int| 0 <= i < n ==> !outcomes[i],
        0 <= k <= n,
    ensures
        polled_all(started(ConnectionMode::Receive), outcomes.take(k)) == (CoordinatorView {
            polls: k as nat,
            ..started(ConnectionMode::Receive)
        }),
    decreases k,
{
    if k > 0 {
        lemma_still_polling(outcomes, n, k - 1);
        assert(outcomes.take(k).drop_last() =~= outcomes.take(k - 1));
    } else {
        assert(outcomes.take(0).len() == 0);
    }
}

/// A handshake that starts from an empty registry and succeeds leaves exactly
/// one connection registered, under the id of the peer it reached.
pub proof fn lemma_one_connection<C>(r: RegistryView<C>, id: Seq<char>, c: C)
    requires
        r.conns == Map::<Seq<char>, C>::empty(),
    ensures
        r.conns.insert(id, c).dom() == set![id],
        r.conns.insert(id, c).dom().len() == 1,
{
    assert(r.conns.insert(id, c).dom() =~= set![id]);
    assert(set![id].len() == 1) by {
        assert(Set::<Seq<char>>::empty().insert(id).len() == 1);
    }
}

} // verus!
