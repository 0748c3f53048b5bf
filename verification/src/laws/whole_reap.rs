//! What holds of a reap from the first poll to the last message.

use crate::daemon::PollResult;
use crate::laws::broadcasts::{
    law_reached, law_whole_broadcast, reached_positions, round_after, whole_broadcast,
};
use crate::laws::life::{law_uses_change_only_handles, Operation};
use crate::lifecycle::BroadcastActionView;
use crate::model::ContextModel;
use crate::protocol::announced;
use vstd::prelude::*;

verus! {

/// What the sends of one broadcast come to: for each subscriber, in turn, whether
/// the message reached it, and the channel to it after that.
pub struct Sends<S> {
    pub outcomes: Seq<bool>,
    pub channels: Seq<S>,
}

/// The state after whole broadcasts of `messages`, one after the other, of which
/// the sends come to `sends`.
pub open spec fn whole_broadcasts<P, S, M>(
    context: ContextModel<P, S>,
    messages: Seq<M>,
    sends: Seq<Sends<S>>,
) -> ContextModel<P, S>
    decreases messages.len(),
{
    if messages.len() == 0 {
        context
    } else {
        let last = messages.len() - 1;
        whole_broadcast(
            whole_broadcasts(context, messages.drop_last(), sends),
            messages[last],
            sends[last].outcomes,
            sends[last].channels,
        )
    }
}

/// Whether the sends are as many as there are: one for each message and each of
/// the subscribers that there are when its broadcast begins.
pub open spec fn sends_fit<P, S, M>(
    context: ContextModel<P, S>,
    messages: Seq<M>,
    sends: Seq<Sends<S>>,
) -> bool {
    &&& sends.len() == messages.len()
    &&& forall|k: int|
        #![trigger sends[k]]
        0 <= k < messages.len() ==> {
            let there = whole_broadcasts(context, messages.take(k), sends).subscribers.len();
            sends[k].outcomes.len() == there && sends[k].channels.len() == there
        }
}

/// Of `count` subscribers, the places of those who are left after the first
/// `rounds` broadcasts, in their order.
pub open spec fn places_left<S>(count: int, sends: Seq<Sends<S>>, rounds: int) -> Seq<int>
    decreases rounds,
{
    if rounds <= 0 {
        Seq::new(count as nat, |place: int| place)
    } else {
        let before = places_left(count, sends, rounds - 1);
        reached_positions(sends[rounds - 1].outcomes, before.len() as int).map_values(
            |position: int| before[position],
        )
    }
}

/// Whether each of the first `rounds` broadcasts has reached the subscriber who
/// had the place `place` before them.
pub open spec fn reached_by_all<S>(
    count: int,
    sends: Seq<Sends<S>>,
    rounds: int,
    place: int,
) -> bool
    decreases rounds,
{
    if rounds <= 0 {
        0 <= place < count
    } else {
        &&& reached_by_all(count, sends, rounds - 1, place)
        &&& sends[rounds - 1].outcomes[places_left(count, sends, rounds - 1).index_of(place)]
    }
}

/// The channel that the first `rounds` broadcasts have left to the subscriber who
/// then is at position `position`.
pub open spec fn channel_left<S>(
    subscribers: Seq<S>,
    sends: Seq<Sends<S>>,
    rounds: int,
    position: int,
) -> S {
    if rounds <= 0 {
        subscribers[position]
    } else {
        let last = sends[rounds - 1];
        last.channels[reached_positions(last.outcomes, last.outcomes.len() as int)[position]]
    }
}

/// Broadcasts one after the other change nothing but the subscribers. After some
/// of them those are left whom each of these has reached, in their order, and by
/// the channels that the last of these has left.
pub proof fn law_broadcasts<P, S, M>(
    context: ContextModel<P, S>,
    messages: Seq<M>,
    sends: Seq<Sends<S>>,
    rounds: int,
)
    requires
        context.subscribers.len() <= usize::MAX,
        sends_fit(context, messages, sends),
        0 <= rounds <= messages.len(),
    ensures
        ({
            let count = context.subscribers.len() as int;
            let left = places_left(count, sends, rounds);
            let after = whole_broadcasts(context, messages.take(rounds), sends);
            &&& after == (ContextModel { subscribers: after.subscribers, ..context })
            &&& after.subscribers.len() == left.len()
            &&& left.len() <= count
            &&& forall|i: int|
                0 <= i < left.len() ==> #[trigger] after.subscribers[i] == channel_left(
                    context.subscribers,
                    sends,
                    rounds,
                    i,
                )
            &&& forall|i: int, j: int| 0 <= i < j < left.len() ==> left[i] < left[j]
            &&& forall|place: int| #[trigger]
                left.contains(place) <==> reached_by_all(count, sends, rounds, place)
        }),
    decreases rounds,
{
    let count = context.subscribers.len() as int;
    let left = places_left(count, sends, rounds);
    if rounds == 0 {
        assert(messages.take(0) =~= Seq::empty());
        assert forall|place: int| #[trigger]
            left.contains(place) <==> reached_by_all(count, sends, rounds, place) by {
            if 0 <= place < count {
                assert(left[place] == place);
            }
        }
    } else {
        law_broadcasts(context, messages, sends, rounds - 1);
        let last = sends[rounds - 1];
        let before = places_left(count, sends, rounds - 1);
        let there = whole_broadcasts(context, messages.take(rounds - 1), sends);
        assert(messages.take(rounds).drop_last() =~= messages.take(rounds - 1));
        assert(last.outcomes.len() == before.len() && last.channels.len() == before.len());
        law_whole_broadcast(there, messages[rounds - 1], last.outcomes, last.channels);
        law_reached(last.channels, last.outcomes);
        let positions = reached_positions(last.outcomes, before.len() as int);
        lemma_few_positions(last.outcomes, before.len() as int);
        assert forall|i: int| 0 <= i < positions.len() implies 0 <= #[trigger] positions[i]
            < before.len() && last.outcomes[positions[i]] && left[i] == before[positions[i]] by {
            assert(positions.contains(positions[i]));
        }
        assert forall|i: int, j: int| 0 <= i < j < left.len() implies left[i] < left[j] by {
            assert(positions[i] < positions[j]);
        }
        assert forall|place: int| #[trigger]
            left.contains(place) <==> reached_by_all(count, sends, rounds, place) by {
            assert(before.contains(place) <==> reached_by_all(count, sends, rounds - 1, place));
            if left.contains(place) {
                let i = left.index_of(place);
                assert(left[i] == before[positions[i]]);
                assert(before.contains(place));
                let j = before.index_of(place);
                assert(before[j] == before[positions[i]]);
                assert(j == positions[i]);
            }
            if reached_by_all(count, sends, rounds, place) {
                let j = before.index_of(place);
                assert(before[j] == place);
                assert(positions.contains(j));
                let i = positions.index_of(j);
                assert(left[i] == place);
            }
        }
    }
}

proof fn lemma_few_positions(outcomes: Seq<bool>, count: int)
    requires
        0 <= count,
    ensures
        reached_positions(outcomes, count).len() <= count,
    decreases count,
{
    if count > 0 {
        lemma_few_positions(outcomes, count - 1);
    }
}

/// A whole reap: the handles of the running daemons are used for the polls, which
/// come to `polls`; then the deaths are noted, the events put into `texts`, where
/// `None` is one that could not be; and the texts that there are go out, one
/// broadcast after the other, of which the sends come to `sends`.
pub open spec fn whole_reap<P, S>(
    context: ContextModel<P, S>,
    uses: Seq<Operation<P, S, String>>,
    polls: Map<Seq<char>, PollResult>,
    texts: Seq<Option<String>>,
    sends: Seq<Sends<S>>,
) -> ContextModel<P, S> {
    whole_broadcasts(context.after_all(uses).after_reap(polls), announced(texts), sends)
}

/// If every event could be put into a text, there is one message for each death,
/// in the order of the events. In general a message is some event's text, and
/// each text is a message.
pub proof fn law_announced(texts: Seq<Option<String>>)
    ensures
        announced(texts).len() <= texts.len(),
        forall|message: String| #[trigger]
            announced(texts).contains(message) <==> texts.contains(Some(message)),
        (forall|i: int| 0 <= i < texts.len() ==> (#[trigger] texts[i]) is Some) ==> {
            &&& announced(texts).len() == texts.len()
            &&& forall|i: int| 0 <= i < texts.len() ==> texts[i] == Some(#[trigger] announced(texts)[i])
        },
    decreases texts.len(),
{
    if texts.len() > 0 {
        let rest = texts.drop_last();
        law_announced(rest);
        assert(texts =~= rest.push(texts.last()));
        assert forall|message: String| #[trigger]
            announced(texts).contains(message) <==> texts.contains(Some(message)) by {
            let before = announced(rest);
            let after = announced(texts);
            assert(before.contains(message) <==> rest.contains(Some(message)));
            if before.contains(message) {
                assert(after[before.index_of(message)] == message);
            }
            if rest.contains(Some(message)) {
                assert(texts[rest.index_of(Some(message))] == Some(message));
            }
            assert(texts[texts.len() - 1] == texts.last());
            if let Some(last) = texts.last() {
                assert(after[before.len() as int] == last);
            }
        }
        if forall|i: int| 0 <= i < texts.len() ==> (#[trigger] texts[i]) is Some {
            assert forall|i: int| 0 <= i < rest.len() implies (#[trigger] rest[i]) is Some by {
                assert(rest[i] == texts[i]);
            }
            assert(texts[texts.len() - 1] is Some);
        }
    }
}

/// A whole reap leaves the daemons as their deaths do, whatever becomes of the
/// sends: each that died has exited, and each death is told by an event, the same
/// as before the polls. The subscribers that are left are those whom every message
/// has reached, in their order.
pub proof fn law_whole_reap<P, S>(
    context: ContextModel<P, S>,
    uses: Seq<Operation<P, S, String>>,
    polls: Map<Seq<char>, PollResult>,
    texts: Seq<Option<String>>,
    sends: Seq<Sends<S>>,
)
    requires
        context.subscribers.len() <= usize::MAX,
        forall|i: int| 0 <= i < uses.len() ==> (#[trigger] uses[i]) is UseProcess,
        texts.len() == context.reap_events(polls).len(),
        sends_fit(context.after_all(uses).after_reap(polls), announced(texts), sends),
    ensures
        ({
            let reaped = context.after_all(uses).after_reap(polls);
            let after = whole_reap(context, uses, polls, texts, sends);
            let count = context.subscribers.len() as int;
            let rounds = announced(texts).len() as int;
            let left = places_left(count, sends, rounds);
            &&& context.after_all(uses).reap_events(polls) == context.reap_events(polls)
            &&& context.after_reap(polls).same_but_handles(reaped)
            &&& after == (ContextModel { subscribers: after.subscribers, ..reaped })
            &&& after.subscribers.len() == left.len()
            &&& forall|i: int|
                0 <= i < left.len() ==> #[trigger] after.subscribers[i] == channel_left(
                    context.subscribers,
                    sends,
                    rounds,
                    i,
                )
            &&& forall|i: int, j: int| 0 <= i < j < left.len() ==> left[i] < left[j]
            &&& forall|place: int| #[trigger]
                left.contains(place) <==> reached_by_all(count, sends, rounds, place)
        }),
{
    law_uses_change_only_handles(context, uses, polls);
    let reaped = context.after_all(uses).after_reap(polls);
    let messages = announced(texts);
    let rounds = messages.len() as int;
    law_broadcasts(reaped, messages, sends, rounds);
    assert(messages.take(rounds) =~= messages);
}

/// In a whole reap the messages go out in their order, each to every subscriber
/// whom all earlier ones have reached and to no other, in the order of the
/// subscribers and by the channel that the earlier sends have left: this is what
/// is done when `rounds` messages are out and the next has gone to `served`
/// subscribers.
pub proof fn law_whole_reap_tells_all<P, S>(
    context: ContextModel<P, S>,
    uses: Seq<Operation<P, S, String>>,
    polls: Map<Seq<char>, PollResult>,
    texts: Seq<Option<String>>,
    sends: Seq<Sends<S>>,
    rounds: int,
    served: int,
)
    requires
        context.subscribers.len() <= usize::MAX,
        forall|i: int| 0 <= i < uses.len() ==> (#[trigger] uses[i]) is UseProcess,
        texts.len() == context.reap_events(polls).len(),
        sends_fit(context.after_all(uses).after_reap(polls), announced(texts), sends),
        0 <= rounds < announced(texts).len(),
        0 <= served < places_left(context.subscribers.len() as int, sends, rounds).len(),
    ensures
        ({
            let count = context.subscribers.len() as int;
            let left = places_left(count, sends, rounds);
            let message = announced(texts)[rounds];
            let reaped = context.after_all(uses).after_reap(polls);
            let before = whole_broadcasts(reaped, announced(texts).take(rounds), sends);
            let outcomes = sends[rounds].outcomes.take(served);
            let round = round_after(message, outcomes);
            let now = whole_broadcast(before, message, outcomes, sends[rounds].channels);
            &&& now.broadcast_action(round) == BroadcastActionView::Send(round)
            &&& round.message == message
            &&& round.index == served
            &&& now.subscribers[served] == channel_left(context.subscribers, sends, rounds, served)
            &&& before.subscribers.len() == left.len()
            &&& reached_by_all(count, sends, rounds, left[served])
            &&& forall|i: int, j: int| 0 <= i < j < left.len() ==> left[i] < left[j]
            &&& forall|place: int| #[trigger]
                left.contains(place) <==> reached_by_all(count, sends, rounds, place)
        }),
{
    law_uses_change_only_handles(context, uses, polls);
    let reaped = context.after_all(uses).after_reap(polls);
    let messages = announced(texts);
    let left = places_left(context.subscribers.len() as int, sends, rounds);
    law_broadcasts(reaped, messages, sends, rounds);
    let before = whole_broadcasts(reaped, messages.take(rounds), sends);
    assert(sends[rounds].outcomes.len() == before.subscribers.len());
    law_whole_broadcast(
        before,
        messages[rounds],
        sends[rounds].outcomes.take(served),
        sends[rounds].channels,
    );
    assert(left.contains(left[served]));
}

} // verus!
