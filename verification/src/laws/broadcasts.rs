//! What holds of the event stream.

use crate::lifecycle::{BroadcastActionView, BroadcastView};
use crate::model::{without_closed, ContextModel};
use vstd::prelude::*;

verus! {

/// Where a broadcast of `message` stands when as many subscribers have been
/// served as `outcomes` is long, of which each says whether the message reached
/// the subscriber in that place.
pub open spec fn round_after<M>(message: M, outcomes: Seq<bool>) -> BroadcastView<M>
    decreases outcomes.len(),
{
    if outcomes.len() == 0 {
        BroadcastView { message, index: 0, closed: Seq::empty() }
    } else {
        round_after(message, outcomes.drop_last()).served(outcomes.last())
    }
}

/// Those of the subscribers that the message reached.
pub open spec fn reached<S>(subscribers: Seq<S>, outcomes: Seq<bool>) -> Seq<S>
    decreases subscribers.len(),
{
    if subscribers.len() == 0 {
        Seq::empty()
    } else {
        let rest = reached(subscribers.drop_last(), outcomes);
        if outcomes[subscribers.len() - 1] {
            rest.push(subscribers.last())
        } else {
            rest
        }
    }
}

proof fn lemma_round_after<M>(message: M, outcomes: Seq<bool>)
    requires
        outcomes.len() <= usize::MAX,
    ensures
        round_after(message, outcomes).message == message,
        round_after(message, outcomes).index == outcomes.len(),
        forall|i: usize| #[trigger]
            round_after(message, outcomes).closed.contains(i) <==> i < outcomes.len()
                && !outcomes[i as int],
    decreases outcomes.len(),
{
    if outcomes.len() > 0 {
        let rest = outcomes.drop_last();
        lemma_round_after(message, rest);
        let before = round_after(message, rest).closed;
        let after = round_after(message, outcomes).closed;
        let last = (outcomes.len() - 1) as usize;
        assert forall|i: usize| #[trigger]
            after.contains(i) <==> i < outcomes.len() && !outcomes[i as int] by {
            assert(before.contains(i) <==> i < rest.len() && !rest[i as int]);
            if !outcomes.last() {
                assert(after == before.push(last));
                assert(after[before.len() as int] == last);
                if before.contains(i) {
                    assert(after[before.index_of(i)] == i);
                }
            }
        }
    }
}

proof fn lemma_without_closed<S>(subscribers: Seq<S>, closed: Seq<usize>, outcomes: Seq<bool>)
    requires
        subscribers.len() <= outcomes.len() <= usize::MAX,
        forall|i: usize| #[trigger]
            closed.contains(i) <==> i < outcomes.len() && !outcomes[i as int],
    ensures
        without_closed(subscribers, closed) == reached(subscribers, outcomes),
    decreases subscribers.len(),
{
    if subscribers.len() > 0 {
        lemma_without_closed(subscribers.drop_last(), closed, outcomes);
        let last = (subscribers.len() - 1) as usize;
        assert(closed.contains(last) <==> !outcomes[last as int]);
    }
}

/// A broadcast serves the subscribers one by one, in the order in which they
/// came, each with the same message, and none of them goes before all have been
/// served.
pub proof fn law_broadcast_serves_all_in_turn<P, S, M>(
    context: ContextModel<P, S>,
    message: M,
    outcomes: Seq<bool>,
)
    requires
        outcomes.len() < context.subscribers.len() <= usize::MAX,
    ensures
        context.broadcast_action(round_after(message, outcomes)) matches BroadcastActionView::Send(
            round,
        ) && round == round_after(message, outcomes) && round.message == message && round.index
            == outcomes.len(),
        context.after_broadcast(round_after(message, outcomes)) == context,
{
    lemma_round_after(message, outcomes);
}

/// When all have been served the broadcast is over. The subscribers that the
/// message reached stay, in their order, and the others go; nothing else changes.
pub proof fn law_broadcast<P, S, M>(
    context: ContextModel<P, S>,
    message: M,
    outcomes: Seq<bool>,
)
    requires
        outcomes.len() == context.subscribers.len() <= usize::MAX,
    ensures
        context.broadcast_action(round_after(message, outcomes)) is Finish,
        context.after_broadcast(round_after(message, outcomes)) == (ContextModel {
            subscribers: reached(context.subscribers, outcomes),
            ..context
        }),
{
    lemma_round_after(message, outcomes);
    lemma_without_closed(
        context.subscribers,
        round_after(message, outcomes).closed,
        outcomes,
    );
}

/// The state in a broadcast of `message` when as many subscribers have been
/// served as `outcomes` is long: the channel to each was used, and is then as in
/// `channels`.
pub open spec fn whole_broadcast<P, S, M>(
    context: ContextModel<P, S>,
    message: M,
    outcomes: Seq<bool>,
    channels: Seq<S>,
) -> ContextModel<P, S>
    decreases outcomes.len(),
{
    if outcomes.len() == 0 {
        context.after_broadcast(round_after(message, outcomes))
    } else {
        let turn = outcomes.len() - 1;
        whole_broadcast(context, message, outcomes.drop_last(), channels).with_channel(
            turn,
            channels[turn],
        ).after_broadcast(round_after(message, outcomes))
    }
}

/// While a broadcast lasts, the next to be served is the first that was not, with
/// the same message, by the channel that it had when the broadcast began. Once
/// all have been served those that the message reached are left, in their order,
/// with the channels as the sends left them; nothing else has changed.
pub proof fn law_whole_broadcast<P, S, M>(
    context: ContextModel<P, S>,
    message: M,
    outcomes: Seq<bool>,
    channels: Seq<S>,
)
    requires
        outcomes.len() <= context.subscribers.len() <= usize::MAX,
        channels.len() == context.subscribers.len(),
    ensures
        ({
            let served = outcomes.len() as int;
            let after = whole_broadcast(context, message, outcomes, channels);
            if served < context.subscribers.len() {
                &&& after == (ContextModel {
                    subscribers: channels.take(served) + context.subscribers.skip(served),
                    ..context
                })
                &&& after.broadcast_action(round_after(message, outcomes))
                    == BroadcastActionView::Send(round_after(message, outcomes))
                &&& round_after(message, outcomes).message == message
                &&& round_after(message, outcomes).index == served
                &&& after.subscribers[served] == context.subscribers[served]
            } else {
                after == (ContextModel { subscribers: reached(channels, outcomes), ..context })
            }
        }),
    decreases outcomes.len(),
{
    lemma_round_after(message, outcomes);
    let served = outcomes.len() as int;
    let all = context.subscribers;
    if served == 0 {
        assert(channels.take(0) + all.skip(0) =~= all);
        if all.len() == 0 {
            law_broadcast(context, message, outcomes);
            assert(channels =~= all);
        }
    } else {
        let turn = served - 1;
        let before = whole_broadcast(context, message, outcomes.drop_last(), channels);
        law_whole_broadcast(context, message, outcomes.drop_last(), channels);
        let used = before.with_channel(turn, channels[turn]);
        assert(used.subscribers =~= channels.take(served) + all.skip(served));
        if served == all.len() {
            assert(used.subscribers =~= channels);
            law_broadcast(used, message, outcomes);
        }
    }
}

/// The positions, of the first `count`, at which a message reached its
/// subscriber.
pub open spec fn reached_positions(outcomes: Seq<bool>, count: int) -> Seq<int>
    decreases count,
{
    if count <= 0 {
        Seq::empty()
    } else {
        let rest = reached_positions(outcomes, count - 1);
        if outcomes[count - 1] {
            rest.push(count - 1)
        } else {
            rest
        }
    }
}

/// The subscribers that stay are those at the positions that the message reached,
/// in the order of the positions; no position that it failed to reach is among
/// them.
pub proof fn law_reached<S>(subscribers: Seq<S>, outcomes: Seq<bool>)
    requires
        outcomes.len() == subscribers.len(),
    ensures
        ({
            let positions = reached_positions(outcomes, subscribers.len() as int);
            &&& reached(subscribers, outcomes) == positions.map_values(
                |position: int| subscribers[position],
            )
            &&& forall|i: int, j: int| 0 <= i < j < positions.len() ==> positions[i] < positions[j]
            &&& forall|position: int| #[trigger]
                positions.contains(position) <==> 0 <= position < subscribers.len()
                    && outcomes[position]
        }),
{
    lemma_reached(subscribers, outcomes, subscribers.len() as int);
    assert(subscribers.take(subscribers.len() as int) =~= subscribers);
}

proof fn lemma_reached<S>(subscribers: Seq<S>, outcomes: Seq<bool>, count: int)
    requires
        0 <= count <= subscribers.len(),
        subscribers.len() == outcomes.len(),
    ensures
        ({
            let positions = reached_positions(outcomes, count);
            &&& reached(subscribers.take(count), outcomes) == positions.map_values(
                |position: int| subscribers[position],
            )
            &&& forall|i: int, j: int| 0 <= i < j < positions.len() ==> positions[i] < positions[j]
            &&& forall|position: int| #[trigger]
                positions.contains(position) <==> 0 <= position < count && outcomes[position]
        }),
    decreases count,
{
    let positions = reached_positions(outcomes, count);
    let at = |position: int| subscribers[position];
    if count > 0 {
        lemma_reached(subscribers, outcomes, count - 1);
        let rest = reached_positions(outcomes, count - 1);
        assert(subscribers.take(count).drop_last() =~= subscribers.take(count - 1));
        if outcomes[count - 1] {
            assert(positions == rest.push(count - 1));
            assert(positions.map_values(at) =~= rest.map_values(at).push(subscribers[count - 1]));
            assert forall|i: int, j: int| 0 <= i < j < positions.len() implies positions[i]
                < positions[j] by {
                if j == rest.len() {
                    assert(rest.contains(rest[i]));
                }
            }
            assert forall|position: int| #[trigger]
                positions.contains(position) <==> 0 <= position < count && outcomes[position] by {
                assert(positions[rest.len() as int] == count - 1);
                if rest.contains(position) {
                    assert(positions[rest.index_of(position)] == position);
                }
                assert(rest.contains(position) <==> 0 <= position < count - 1
                    && outcomes[position]);
            }
        }
    } else {
        assert(positions.map_values(at) =~= Seq::<S>::empty());
    }
}

/// A subscriber whose send failed is never written to again: a later broadcast
/// serves exactly those that the earlier one reached, once each and in the same
/// order, by the channels that the earlier one left, and after them those who
/// have joined since.
pub proof fn law_failed_subscriber_is_not_written_to_again<P, S, M>(
    context: ContextModel<P, S>,
    first: M,
    outcomes: Seq<bool>,
    channels: Seq<S>,
    later: ContextModel<P, S>,
    joined: Seq<S>,
    second: M,
    later_outcomes: Seq<bool>,
    later_channels: Seq<S>,
)
    requires
        outcomes.len() == context.subscribers.len() <= usize::MAX,
        channels.len() == context.subscribers.len(),
        later.subscribers == whole_broadcast(context, first, outcomes, channels).subscribers
            + joined,
        later_outcomes.len() <= later.subscribers.len() <= usize::MAX,
        later_channels.len() == later.subscribers.len(),
    ensures
        ({
            let positions = reached_positions(outcomes, outcomes.len() as int);
            let served = later_outcomes.len() as int;
            let round = round_after(second, later_outcomes);
            let now = whole_broadcast(later, second, later_outcomes, later_channels);
            &&& later.subscribers.len() == positions.len() + joined.len()
            &&& forall|i: int| 0 <= i < positions.len() ==> outcomes[#[trigger] positions[i]]
            &&& served < later.subscribers.len() ==> {
                &&& now.broadcast_action(round) == BroadcastActionView::Send(round)
                &&& round.index == served
                &&& round.message == second
                &&& now.subscribers[served] == (if served < positions.len() {
                    channels[positions[served]]
                } else {
                    joined[served - positions.len()]
                })
            }
        }),
{
    let positions = reached_positions(outcomes, outcomes.len() as int);
    law_whole_broadcast(context, first, outcomes, channels);
    law_reached(channels, outcomes);
    law_whole_broadcast(later, second, later_outcomes, later_channels);
    assert forall|i: int| 0 <= i < positions.len() implies outcomes[#[trigger] positions[i]] by {
        assert(positions.contains(positions[i]));
    }
}

/// If the message reached every subscriber, all stay.
pub proof fn law_reached_all_stay<S>(subscribers: Seq<S>, outcomes: Seq<bool>)
    requires
        outcomes.len() >= subscribers.len(),
        forall|i: int| 0 <= i < subscribers.len() ==> outcomes[i],
    ensures
        reached(subscribers, outcomes) == subscribers,
    decreases subscribers.len(),
{
    if subscribers.len() > 0 {
        law_reached_all_stay(subscribers.drop_last(), outcomes);
        assert(subscribers =~= subscribers.drop_last().push(subscribers.last()));
    }
}

/// If it reached none, none stays.
pub proof fn law_reached_none_stays<S>(subscribers: Seq<S>, outcomes: Seq<bool>)
    requires
        outcomes.len() >= subscribers.len(),
        forall|i: int| 0 <= i < subscribers.len() ==> !outcomes[i],
    ensures
        reached(subscribers, outcomes) == Seq::<S>::empty(),
    decreases subscribers.len(),
{
    if subscribers.len() > 0 {
        law_reached_none_stays(subscribers.drop_last(), outcomes);
    }
}

} // verus!
