//! The propagation engine: the poller and the ingress handler over the
//! state they share, and what holds of every run of the two.

use crate::envelope::tag_texts;
use crate::ingress::{
    handle_event, ingress_decision, is_own_event, json_text_field, origins_after, IngressAction,
    IngressDecision,
};
use crate::origin::OriginTracker;
use crate::poller::{
    announce_list, echo_list, occurrences, occurrences_of_concat, texts,
    tick_announces_new_local_once, MempoolPoller, TickPlan,
};
use vstd::prelude::*;

verus! {

/// The engine's state as sets: what the poller knows, and what arrived
/// from the bus.
pub struct EngineState {
    pub relay_id: u16,
    pub known: Set<Seq<char>>,
    pub remote: Set<Seq<char>>,
}

/// What can happen to the engine.
pub enum Input {
    /// The subscription delivered an event with these tags and these two
    /// fields of its content.
    Event { tags: Seq<(Seq<char>, Seq<char>)>, txid: Option<Seq<char>>, hex: Option<Seq<char>> },
    /// A poll of the mempool succeeded with this snapshot.
    Snapshot(Seq<Seq<char>>),
    /// A poll of the mempool failed.
    PollFailed,
}

/// The state after an input.
pub open spec fn state_after(state: EngineState, input: Input) -> EngineState {
    match input {
        Input::Event { tags, txid, hex } => EngineState {
            remote: origins_after(
                state.remote,
                ingress_decision(state.relay_id, tags, txid, hex),
            ),
            ..state
        },
        Input::Snapshot(snapshot) => EngineState { known: snapshot.to_set(), ..state },
        Input::PollFailed => state,
    }
}

/// What an input makes the engine announce on the bus.
pub open spec fn announced_on(state: EngineState, input: Input) -> Seq<Seq<char>> {
    match input {
        Input::Snapshot(snapshot) => announce_list(snapshot, state.known, state.remote),
        _ => Seq::empty(),
    }
}

/// What an input makes the engine submit to the node.
pub open spec fn submitted_on(state: EngineState, input: Input) -> Option<Seq<char>> {
    match input {
        Input::Event { tags, txid, hex } => match ingress_decision(
            state.relay_id,
            tags,
            txid,
            hex,
        ) {
            IngressDecision::Submit { txid, hex } => Some(txid),
            _ => None,
        },
        _ => None,
    }
}

/// The state after a run of inputs.
pub open spec fn state_after_all(state: EngineState, inputs: Seq<Input>) -> EngineState
    decreases inputs.len(),
{
    if inputs.len() == 0 {
        state
    } else {
        state_after_all(state_after(state, inputs[0]), inputs.drop_first())
    }
}

/// Everything announced during a run of inputs, in order.
pub open spec fn announced_during(state: EngineState, inputs: Seq<Input>) -> Seq<Seq<char>>
    decreases inputs.len(),
{
    if inputs.len() == 0 {
        Seq::empty()
    } else {
        announced_on(state, inputs[0]) + announced_during(
            state_after(state, inputs[0]),
            inputs.drop_first(),
        )
    }
}

/// The engine: this relay's id, the poller's memory, and the origin set.
pub struct PropagationEngine {
    relay_id: u16,
    poller: MempoolPoller,
    origins: OriginTracker,
}

impl View for PropagationEngine {
    type V = EngineState;

    closed spec fn view(&self) -> EngineState {
        EngineState { relay_id: self.relay_id, known: self.poller@, remote: self.origins@ }
    }
}

impl PropagationEngine {
    /// An engine for the relay with the given id. The transactions of the
    /// first snapshot of the mempool count as known and are never
    /// announced; where that snapshot could not be had, nothing is known.
    pub fn new(relay_id: u16, first_snapshot: Option<&Vec<String>>) -> (engine: PropagationEngine)
        ensures
            engine@.relay_id == relay_id,
            engine@.remote == Set::<Seq<char>>::empty(),
            engine@.known == match first_snapshot {
                Some(snapshot) => texts(snapshot@).to_set(),
                None => Set::<Seq<char>>::empty(),
            },
    {
        PropagationEngine {
            relay_id,
            poller: MempoolPoller::new(first_snapshot),
            origins: OriginTracker::new(),
        }
    }

    /// Whether the transaction arrived from the bus.
    pub fn is_remote(&self, txid: &str) -> (remote: bool)
        ensures
            remote == self@.remote.contains(txid@),
    {
        self.origins.is_remote(txid)
    }

    /// Whether the transaction was in the last snapshot of the mempool.
    pub fn is_known(&self, txid: &str) -> (known: bool)
        ensures
            known == self@.known.contains(txid@),
    {
        self.poller.is_known(txid)
    }

    /// Handles an event that the subscription delivered. An event of this
    /// relay's own changes nothing. A transaction handed back for
    /// submission has been marked as remote before this returns.
    pub fn on_nostr_event(&mut self, tags: &Vec<(String, String)>, content: &str) -> (action:
        IngressAction)
        ensures
            action@ == ingress_decision(
                old(self)@.relay_id,
                tag_texts(tags@),
                json_text_field(content@, "txid"@),
                json_text_field(content@, "hex"@),
            ),
            final(self)@ == state_after(
                old(self)@,
                Input::Event {
                    tags: tag_texts(tags@),
                    txid: json_text_field(content@, "txid"@),
                    hex: json_text_field(content@, "hex"@),
                },
            ),
            is_own_event(old(self)@.relay_id, tag_texts(tags@)) ==> final(self)@ == old(self)@
                && action@ == IngressDecision::DropOwn,
    {
        handle_event(self.relay_id, tags, content, &mut self.origins)
    }

    /// One tick of the poller on a snapshot of the mempool: says which
    /// transactions to announce, and remembers the snapshot.
    pub fn on_mempool_snapshot(&mut self, current: &Vec<String>) -> (plan: TickPlan)
        ensures
            texts(plan.to_publish@) == announced_on(old(self)@, Input::Snapshot(texts(current@))),
            texts(plan.skipped_echo@) == echo_list(
                texts(current@),
                old(self)@.known,
                old(self)@.remote,
            ),
            final(self)@ == state_after(old(self)@, Input::Snapshot(texts(current@))),
    {
        self.poller.tick(current, &self.origins)
    }
}

/// An event of this relay's own has no effect: the state stays as it was,
/// nothing is announced and nothing is submitted.
pub proof fn own_event_has_no_effect(
    state: EngineState,
    tags: Seq<(Seq<char>, Seq<char>)>,
    txid: Option<Seq<char>>,
    hex: Option<Seq<char>>,
)
    requires
        is_own_event(state.relay_id, tags),
    ensures
        state_after(state, Input::Event { tags, txid, hex }) == state,
        announced_on(state, Input::Event { tags, txid, hex }) == Seq::<Seq<char>>::empty(),
        submitted_on(state, Input::Event { tags, txid, hex }) is None,
{
}

/// A transaction is marked as remote by the very input that hands it on
/// for submission.
pub proof fn marked_before_submitted(state: EngineState, input: Input)
    requires
        submitted_on(state, input) is Some,
    ensures
        state_after(state, input).remote.contains(submitted_on(state, input)->Some_0),
{
}

/// The origin set only grows, and the relay's id never changes.
pub proof fn remote_only_grows(state: EngineState, inputs: Seq<Input>, txid: Seq<char>)
    requires
        state.remote.contains(txid),
    ensures
        state_after_all(state, inputs).remote.contains(txid),
        state_after_all(state, inputs).relay_id == state.relay_id,
    decreases inputs.len(),
{
    if inputs.len() > 0 {
        remote_only_grows(state_after(state, inputs[0]), inputs.drop_first(), txid);
    }
}

/// A transaction that arrived from the bus is never announced: from the
/// moment it is in the origin set, no run of inputs announces it.
pub proof fn received_is_never_announced(state: EngineState, inputs: Seq<Input>, txid: Seq<char>)
    requires
        state.remote.contains(txid),
    ensures
        occurrences(announced_during(state, inputs), txid) == 0,
    decreases inputs.len(),
{
    if inputs.len() > 0 {
        let first = inputs[0];
        match first {
            Input::Snapshot(snapshot) => {
                tick_announces_new_local_once(snapshot, state.known, state.remote, txid);
            },
            _ => {},
        }
        received_is_never_announced(state_after(state, first), inputs.drop_first(), txid);
        occurrences_of_concat(
            announced_on(state, first),
            announced_during(state_after(state, first), inputs.drop_first()),
            txid,
        );
    }
}

/// After a successful poll the engine knows exactly the snapshot: what has
/// left the mempool is forgotten within that tick. A failed poll leaves
/// what is known as it was.
pub proof fn known_follows_last_snapshot(
    state: EngineState,
    snapshot: Seq<Seq<char>>,
    txid: Seq<char>,
)
    ensures
        state_after(state, Input::Snapshot(snapshot)).known.contains(txid) <==> snapshot.contains(
            txid,
        ),
        state_after(state, Input::PollFailed).known == state.known,
{
}

/// The input hands the transaction on for submission to the node: it is an
/// event of another relay whose content names the transaction.
pub open spec fn hands_on(relay_id: u16, input: Input, txid: Seq<char>) -> bool {
    match input {
        Input::Event { tags, txid: named, hex } => !is_own_event(relay_id, tags)
            && named == Some(txid) && hex is Some,
        _ => false,
    }
}

/// The transaction is in the snapshot of every successful poll of the run.
pub open spec fn stays_in_mempool(inputs: Seq<Input>, txid: Seq<char>) -> bool {
    forall|k: int|
        0 <= k < inputs.len() ==> ((#[trigger] inputs[k]) matches Input::Snapshot(snapshot)
            ==> snapshot.contains(txid))
}

/// No input of the run hands the transaction on for submission: it never
/// arrives from another relay.
pub open spec fn never_received(relay_id: u16, inputs: Seq<Input>, txid: Seq<char>) -> bool {
    forall|k: int| 0 <= k < inputs.len() ==> !hands_on(relay_id, #[trigger] inputs[k], txid)
}

/// A transaction that is known and stays in the mempool is not announced.
pub proof fn known_is_not_announced_again(state: EngineState, inputs: Seq<Input>, txid: Seq<char>)
    requires
        state.known.contains(txid),
        stays_in_mempool(inputs, txid),
    ensures
        occurrences(announced_during(state, inputs), txid) == 0,
    decreases inputs.len(),
{
    if inputs.len() > 0 {
        let first = inputs[0];
        let rest = inputs.drop_first();
        assert forall|k: int| 0 <= k < rest.len() implies ((#[trigger] rest[k]) matches Input::Snapshot(
            snapshot,
        ) ==> snapshot.contains(txid)) by {
            assert(rest[k] == inputs[k + 1]);
        }
        match first {
            Input::Snapshot(snapshot) => {
                tick_announces_new_local_once(snapshot, state.known, state.remote, txid);
            },
            _ => {},
        }
        known_is_not_announced_again(state_after(state, first), rest, txid);
        occurrences_of_concat(
            announced_on(state, first),
            announced_during(state_after(state, first), rest),
            txid,
        );
    }
}

/// A locally originated transaction is announced exactly once. The
/// transaction is new to the poller and has not arrived from the bus;
/// during the run it never arrives from another relay, it is in every
/// snapshot of the mempool, and at least one poll succeeds (the one at
/// position `polled`). Events of this relay's own, failed polls and events
/// about other transactions may come in between.
pub proof fn local_is_announced_exactly_once(
    state: EngineState,
    inputs: Seq<Input>,
    txid: Seq<char>,
    polled: int,
)
    requires
        !state.known.contains(txid),
        !state.remote.contains(txid),
        stays_in_mempool(inputs, txid),
        never_received(state.relay_id, inputs, txid),
        0 <= polled < inputs.len(),
        inputs[polled] is Snapshot,
    ensures
        occurrences(announced_during(state, inputs), txid) == 1,
    decreases inputs.len(),
{
    let first = inputs[0];
    let rest = inputs.drop_first();
    let next = state_after(state, first);
    assert forall|k: int| 0 <= k < rest.len() implies ((#[trigger] rest[k]) matches Input::Snapshot(
        snapshot,
    ) ==> snapshot.contains(txid)) by {
        assert(rest[k] == inputs[k + 1]);
    }
    assert forall|k: int| 0 <= k < rest.len() implies !hands_on(
        state.relay_id,
        #[trigger] rest[k],
        txid,
    ) by {
        assert(rest[k] == inputs[k + 1]);
    }
    occurrences_of_concat(announced_on(state, first), announced_during(next, rest), txid);
    match first {
        Input::Snapshot(snapshot) => {
            assert(snapshot.contains(txid));
            tick_announces_new_local_once(snapshot, state.known, state.remote, txid);
            known_is_not_announced_again(next, rest, txid);
        },
        _ => {
            assert(!hands_on(state.relay_id, first, txid));
            assert(!next.remote.contains(txid));
            assert(rest[polled - 1] == inputs[polled]);
            local_is_announced_exactly_once(next, rest, txid, polled - 1);
        },
    }
}

/// A run without a successful poll leaves what the poller knows as it was.
pub proof fn known_changes_only_on_poll(state: EngineState, inputs: Seq<Input>)
    requires
        forall|k: int| 0 <= k < inputs.len() ==> !((#[trigger] inputs[k]) is Snapshot),
    ensures
        state_after_all(state, inputs).known == state.known,
    decreases inputs.len(),
{
    if inputs.len() > 0 {
        let rest = inputs.drop_first();
        assert(!(inputs[0] is Snapshot));
        assert forall|k: int| 0 <= k < rest.len() implies !((#[trigger] rest[k]) is Snapshot) by {
            assert(rest[k] == inputs[k + 1]);
        }
        known_changes_only_on_poll(state_after(state, inputs[0]), rest);
    }
}

/// What the poller knows is the snapshot of the most recent successful
/// poll: after any run of inputs whose last successful poll stands at
/// position `last`, exactly the transactions of that snapshot are known,
/// whatever events and failed polls came before or after it.
pub proof fn known_is_most_recent_snapshot(state: EngineState, inputs: Seq<Input>, last: int)
    requires
        0 <= last < inputs.len(),
        inputs[last] is Snapshot,
        forall|k: int| last < k < inputs.len() ==> !((#[trigger] inputs[k]) is Snapshot),
    ensures
        state_after_all(state, inputs).known == inputs[last]->Snapshot_0.to_set(),
    decreases inputs.len(),
{
    let rest = inputs.drop_first();
    let next = state_after(state, inputs[0]);
    if last == 0 {
        assert forall|k: int| 0 <= k < rest.len() implies !((#[trigger] rest[k]) is Snapshot) by {
            assert(rest[k] == inputs[k + 1]);
        }
        known_changes_only_on_poll(next, rest);
    } else {
        assert(rest[last - 1] == inputs[last]);
        assert forall|k: int| last - 1 < k < rest.len() implies !((#[trigger] rest[k]) is Snapshot) by {
            assert(rest[k] == inputs[k + 1]);
        }
        known_is_most_recent_snapshot(next, rest, last - 1);
    }
}

/// Nothing enters the origin set but what the ingress handler handed on
/// for submission: a transaction that is remote after a run was remote
/// before it, or some input of the run handed it on.
pub proof fn remote_only_by_ingress(state: EngineState, inputs: Seq<Input>, txid: Seq<char>)
    requires
        state_after_all(state, inputs).remote.contains(txid),
        !state.remote.contains(txid),
    ensures
        exists|k: int| 0 <= k < inputs.len() && hands_on(state.relay_id, #[trigger] inputs[k], txid),
    decreases inputs.len(),
{
    if inputs.len() > 0 {
        let first = inputs[0];
        let rest = inputs.drop_first();
        let next = state_after(state, first);
        if next.remote.contains(txid) {
            assert(hands_on(state.relay_id, inputs[0], txid));
        } else {
            remote_only_by_ingress(next, rest, txid);
            let k = choose|k: int|
                0 <= k < rest.len() && hands_on(next.relay_id, #[trigger] rest[k], txid);
            assert(rest[k] == inputs[k + 1]);
            assert(hands_on(state.relay_id, inputs[k + 1], txid));
        }
    }
}

} // verus!
