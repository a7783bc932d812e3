use vstd::prelude::*;
use vstd::string::StringExecFns;

use crate::input::{notified, taken};
use crate::registry::{
    applied, lemma_departure_clears_target, send_target, LifecycleEvent, PeerRegistry, RegistryView};
use crate::ui::{UIView, UI};

verus! {

/// A message to hand to the transport: its text and the peer it goes to.
pub struct Outbound {
    pub target: String,
    pub text: String,
}

/// The system note that reports a lifecycle event in the chat log.
pub open spec fn event_note(e: LifecycleEvent) -> (Seq<char>, Seq<char>) {
    match e {
        LifecycleEvent::Connected(id) => ("System"@, "Peer "@ + id@ + " connected."@),
        LifecycleEvent::Disconnected(id) => ("System"@, "Peer "@ + id@ + " disconnected."@),
    }
}

/// The registry after a run of lifecycle events, applied in order.
pub open spec fn applied_all<C>(r: RegistryView<C>, events: Seq<LifecycleEvent>) -> RegistryView<C>
    decreases events.len(),
{
    if events.len() == 0 {
        r
    } else {
        applied(applied_all(r, events.drop_last()), events.last())
    }
}

/// The log entries of one tick's lifecycle events.
pub open spec fn event_notes(events: Seq<LifecycleEvent>) -> Seq<(Seq<char>, Seq<char>)> {
    events.map_values(|e: LifecycleEvent| event_note(e))
}

/// The log entries of one tick's inbound messages.
pub open spec fn peer_notes(messages: Seq<String>) -> Seq<(Seq<char>, Seq<char>)> {
    messages.map_values(|m: String| ("Peer"@, m@))
}

/// The log entry of a taken local message, if there is one.
pub open spec fn own_notes(t: Option<Seq<char>>) -> Seq<(Seq<char>, Seq<char>)> {
    match t {
        Some(text) => seq![("You"@, text)],
        None => Seq::empty(),
    }
}

/// Where a taken local message is sent: to the send target, when there is
/// one and a connection to it is registered.
pub open spec fn outbound_for<C>(r: RegistryView<C>, t: Option<Seq<char>>) -> Option<
    (Seq<char>, Seq<char>),
> {
    match (t, send_target(r)) {
        (Some(text), Some(id)) => if r.conns.contains_key(id) {
            Some((id, text))
        } else {
            None
        },
        _ => None,
    }
}

/// The target and text of an optional outbound message.
pub open spec fn outbound_text(o: Option<Outbound>) -> Option<(Seq<char>, Seq<char>)> {
    match o {
        Some(m) => Some((m.target@, m.text@)),
        None => None,
    }
}

/// The page after a tick: lifecycle notes, then inbound messages, then the
/// local message taken from the input, if any.
pub open spec fn ui_after_tick(
    u: UIView,
    events: Seq<LifecycleEvent>,
    messages: Seq<String>,
) -> UIView {
    let (input, t) = taken(u.input);
    UIView { log: u.log + event_notes(events) + peer_notes(messages) + own_notes(t), input, ..u }
}

/// The system note for a lifecycle event.
fn note_for(e: &LifecycleEvent) -> (r: String)
    ensures
        r@ == event_note(*e).1,
{
    match e {
        LifecycleEvent::Connected(id) => String::from_str("Peer ").concat(id.as_str()).concat(
            " connected.",
        ),
        LifecycleEvent::Disconnected(id) => String::from_str("Peer ").concat(id.as_str()).concat(
            " disconnected.",
        ),
    }
}

/// One step of the event loop. Lifecycle events are applied to the registry
/// and noted in the log, in order; then the inbound messages are logged as
/// from "Peer"; then a submitted local message is logged as from "You", and
/// returned for sending when the registry, after this tick's events, has a
/// connected target for it.
pub fn tick<C>(
    registry: &mut PeerRegistry<C>,
    ui: &mut UI,
    messages: Vec<String>,
    events: &Vec<LifecycleEvent>,
) -> (r: Option<Outbound>)
    requires
        old(registry).wf(),
        old(ui)@.input.armed,
    ensures
        final(registry).wf(),
        final(registry)@ == applied_all(old(registry)@, events@),
        final(ui)@ == ui_after_tick(old(ui)@, events@, messages@),
        outbound_text(r) == outbound_for(final(registry)@, taken(old(ui)@.input).1),
{
    let ghost reg0 = registry@;
    let ghost ui0 = ui@;
    let mut i: usize = 0;
    while i < events.len()
        invariant
            registry.wf(),
            i <= events@.len(),
            registry@ == applied_all(reg0, events@.take(i as int)),
            ui@ == (UIView { log: ui0.log + event_notes(events@.take(i as int)), ..ui0 }),
        decreases events@.len() - i,
    {
        let ghost done = events@.take(i as int);
        assert(events@.take(i + 1).drop_last() =~= done);
        assert(event_notes(events@.take(i + 1)) =~= event_notes(done).push(event_note(events@[i as int])));
        registry.apply(&events[i]);
        let note = note_for(&events[i]);
        ui.insert_message("System", note);
        assert(ui0.log + event_notes(events@.take(i + 1)) =~= ui0.log + event_notes(done) + seq![event_note(events@[i as int])]);
        i = i + 1;
    }
    assert(events@.take(events@.len() as int) =~= events@);
    let ghost ui1 = ui@;
    let mut j: usize = 0;
    while j < messages.len()
        invariant
            j <= messages@.len(),
            ui@ == (UIView { log: ui1.log + peer_notes(messages@.take(j as int)), ..ui1 }),
        decreases messages@.len() - j,
    {
        let ghost done = messages@.take(j as int);
        assert(peer_notes(messages@.take(j + 1)) =~= peer_notes(done).push(("Peer"@, messages@[j as int]@)));
        ui.insert_message("Peer", messages[j].clone());
        assert(ui1.log + peer_notes(messages@.take(j + 1)) =~= ui1.log + peer_notes(done) + seq![("Peer"@, messages@[j as int]@)]);
        j = j + 1;
    }
    assert(messages@.take(messages@.len() as int) =~= messages@);
    let ghost ui2 = ui@;
    match ui.get_message() {
        Some(text) => {
            let out = match registry.resolve_send_target() {
                Some(target) => {
                    if registry.connection(&target).is_some() {
                        Some(Outbound { target, text: text.clone() })
                    } else {
                        None
                    }
                },
                None => None,
            };
            ui.insert_message("You", text);
            assert(ui@.log =~= ui0.log + event_notes(events@) + peer_notes(messages@) + own_notes(taken(ui0.input).1));
            out
        },
        None => {
            assert(ui@.log =~= ui0.log + event_notes(events@) + peer_notes(messages@) + own_notes(taken(ui0.input).1));
            None
        },
    }
}


/// A local message taken in a tick whose last lifecycle event is a peer's
/// departure is never sent to that peer, because the target is resolved after
/// the events are applied. When that peer was the send target, the message is
/// not sent at all, and it is still logged as from "You".
pub proof fn lemma_departure_before_send<C>(
    r: RegistryView<C>,
    u: UIView,
    events: Seq<LifecycleEvent>,
    messages: Seq<String>,
    a: String,
)
    requires
        events.len() > 0,
        events.last() == LifecycleEvent::Disconnected(a),
        u.input.armed,
    ensures
        outbound_for(applied_all(r, events), Some(u.input.field)) matches Some(m) ==> m.0 != a@,
        send_target(applied_all(r, events.drop_last())) == Some(a@) ==> outbound_for(
            applied_all(r, events),
            Some(u.input.field),
        ) == None::<(Seq<char>, Seq<char>)>,
        ui_after_tick(UIView { input: notified(u.input), ..u }, events, messages).log.last() == (
            "You"@,
            u.input.field,
        ),
{
    lemma_departure_clears_target(applied_all(r, events.drop_last()), a);
}

} // verus!
