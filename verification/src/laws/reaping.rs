//! What holds of taking note of deaths.

use crate::daemon::{ChildProcess, DaemonState, PollResult};
use crate::laws::commands::{whole_start, Polled};
use crate::lifecycle::StartEvent;
use crate::model::ContextModel;
use crate::protocol::{DaemonStatus, EventView};
use vstd::prelude::*;

verus! {

/// Filtering keeps exactly what passes, and repeats nothing that was not
/// repeated before.
proof fn lemma_filtered<A>(items: Seq<A>, keep: spec_fn(A) -> bool)
    ensures
        forall|item: A| #[trigger]
            items.filter(keep).contains(item) <==> items.contains(item) && keep(item),
        items.no_duplicates() ==> items.filter(keep).no_duplicates(),
    decreases items.len(),
{
    reveal(Seq::filter);
    if items.len() > 0 {
        let rest = items.drop_last();
        let kept = rest.filter(keep);
        lemma_filtered(rest, keep);
        assert(items =~= rest.push(items.last()));
        assert forall|item: A| #[trigger]
            items.filter(keep).contains(item) <==> items.contains(item) && keep(item) by {
            assert(items.contains(item) <==> rest.contains(item) || item == items.last()) by {
                if rest.contains(item) {
                    assert(items[rest.index_of(item)] == item);
                }
                assert(items[items.len() - 1] == items.last());
            }
            if keep(items.last()) {
                let all = kept.push(items.last());
                if kept.contains(item) {
                    assert(all[kept.index_of(item)] == item);
                }
                assert(all[kept.len() as int] == items.last());
            }
        }
        if items.no_duplicates() && keep(items.last()) {
            assert(!rest.contains(items.last()));
            assert(!kept.contains(items.last()));
        }
    }
}

/// The events of a reap are exactly the deaths: there is one for a daemon if and
/// only if it died, and it says how.
pub proof fn law_reap_tells_every_death<P, S>(
    context: ContextModel<P, S>,
    polls: Map<Seq<char>, PollResult>,
    event: EventView,
)
    requires
        context.valid(),
    ensures
        context.reap_events(polls).contains(event) <==> (event matches EventView::DaemonStopped {
            name,
            info,
        } && context.death_of(polls, name) == Some(info)),
{
    let dies = |name: Seq<char>| context.death_of(polls, name) is Some;
    let told = |name: Seq<char>|
        EventView::DaemonStopped { name, info: context.death_of(polls, name)->0 };
    let dead = context.names.filter(dies);
    lemma_filtered(context.names, dies);
    assert(context.reap_events(polls) == dead.map_values(told));
    if dead.map_values(told).contains(event) {
        let i = dead.map_values(told).index_of(event);
        assert(event == told(dead[i]));
        assert(dead.contains(dead[i]));
    }
    if let EventView::DaemonStopped { name, info } = event {
        if context.death_of(polls, name) == Some(info) {
            assert(context.names.to_set().contains(name));
            assert(dead.contains(name));
            let i = dead.index_of(name);
            assert(dead.map_values(told)[i] == event);
        }
    }
}

/// No death is told twice in one reap.
pub proof fn law_reap_tells_no_death_twice<P, S>(
    context: ContextModel<P, S>,
    polls: Map<Seq<char>, PollResult>,
)
    requires
        context.valid(),
    ensures
        context.reap_events(polls).no_duplicates(),
{
    let dies = |name: Seq<char>| context.death_of(polls, name) is Some;
    let told = |name: Seq<char>|
        EventView::DaemonStopped { name, info: context.death_of(polls, name)->0 };
    let dead = context.names.filter(dies);
    lemma_filtered(context.names, dies);
    assert forall|i: int, j: int| 0 <= i < j < dead.len() implies dead.map_values(told)[i]
        != dead.map_values(told)[j] by {
        assert(told(dead[i])->DaemonStopped_name == dead[i]);
        assert(told(dead[j])->DaemonStopped_name == dead[j]);
    }
    assert(context.reap_events(polls) == dead.map_values(told));
}

/// After a reap the daemons that died have exited, in the way that the events
/// tell, and a status report says so; all others are as they were.
pub proof fn law_reap<P, S>(
    context: ContextModel<P, S>,
    polls: Map<Seq<char>, PollResult>,
    name: Seq<char>,
    now: u64,
)
    requires
        context.daemons.contains_key(name),
    ensures
        ({
            let after = context.after_reap(polls);
            &&& after.daemons.contains_key(name)
            &&& after.daemons[name].config == context.daemons[name].config
            &&& match context.death_of(polls, name) {
                Some(info) => {
                    &&& context.is_running(name)
                    &&& polls[name] is Exited
                    &&& info.pid == context.child(name).pid
                    &&& info.exit_status == polls[name]->code
                    &&& info.signal == polls[name]->signal
                    &&& after.daemons[name].state == (DaemonState::<P>::Exited { info })
                    &&& after.status(now)[name] == (DaemonStatus::Exited { info })
                },
                None => after.daemons[name] == context.daemons[name],
            }
        }),
{
}

/// A death is told once: a daemon that has exited is in no later reap's events,
/// whatever the polls say, until it is started again.
pub proof fn law_death_is_told_once<P, S>(
    context: ContextModel<P, S>,
    polls: Map<Seq<char>, PollResult>,
    later: Map<Seq<char>, PollResult>,
    name: Seq<char>,
)
    requires
        context.death_of(polls, name) is Some,
    ensures
        context.after_reap(polls).death_of(later, name) is None,
{
}

/// A reap in which no running daemon turns out to have exited changes nothing
/// and tells nothing.
pub proof fn law_reap_without_deaths<P, S>(
    context: ContextModel<P, S>,
    polls: Map<Seq<char>, PollResult>,
)
    requires
        forall|name: Seq<char>| #[trigger]
            context.is_running(name) && polls.contains_key(name) ==> !(polls[name] is Exited),
    ensures
        context.after_reap(polls) == context,
        context.reap_events(polls) == Seq::<EventView>::empty(),
{
    let dies = |name: Seq<char>| context.death_of(polls, name) is Some;
    assert forall|name: Seq<char>| #[trigger] context.death_of(polls, name) is None by {
        assert(context.is_running(name) && polls.contains_key(name) ==> !(polls[name] is Exited));
    }
    assert(context.after_reap(polls).daemons =~= context.daemons);
    lemma_filtered(context.names, dies);
    assert(context.names.filter(dies).len() == 0) by {
        if context.names.filter(dies).len() > 0 {
            assert(context.names.filter(dies).contains(context.names.filter(dies)[0]));
        }
    }
    assert(context.reap_events(polls) =~= Seq::empty());
}

/// A second reap, with whatever new answers, changes nothing and tells nothing,
/// unless a daemon that still runs after the first turns out to have exited.
pub proof fn law_second_reap<P, S>(
    context: ContextModel<P, S>,
    polls: Map<Seq<char>, PollResult>,
    later: Map<Seq<char>, PollResult>,
)
    requires
        forall|name: Seq<char>| #[trigger]
            context.after_reap(polls).is_running(name) && later.contains_key(name) ==> !(
            later[name] is Exited),
    ensures
        context.after_reap(polls).after_reap(later) == context.after_reap(polls),
        context.after_reap(polls).reap_events(later) == Seq::<EventView>::empty(),
{
    law_reap_without_deaths(context.after_reap(polls), later);
}

/// In particular a second reap on the same answers changes nothing and tells
/// nothing.
pub proof fn law_reap_is_idempotent<P, S>(
    context: ContextModel<P, S>,
    polls: Map<Seq<char>, PollResult>,
)
    ensures
        context.after_reap(polls).after_reap(polls) == context.after_reap(polls),
        context.after_reap(polls).reap_events(polls) == Seq::<EventView>::empty(),
{
    law_second_reap(context, polls, polls);
}

/// The daemons that a reap has polled are exactly those that run.
pub proof fn law_running_lists_the_running<P, S>(context: ContextModel<P, S>, name: Seq<char>)
    requires
        context.valid(),
    ensures
        context.running().contains(name) <==> context.is_running(name),
        context.running().no_duplicates(),
{
    let is_running = |name: Seq<char>| context.is_running(name);
    lemma_filtered(context.names, is_running);
    assert(context.names.contains(name) <==> context.names.to_set().contains(name));
}

/// If every running daemon was polled and each process has exited, then after
/// the reap none runs.
pub proof fn law_reap_misses_none<P, S>(
    context: ContextModel<P, S>,
    polls: Map<Seq<char>, PollResult>,
    name: Seq<char>,
)
    requires
        context.is_running(name) ==> polls.contains_key(name) && polls[name] is Exited,
    ensures
        !context.after_reap(polls).is_running(name),
{
}

/// A daemon that has died and was reaped can be started again, and without a
/// look at the process that it had.
pub proof fn law_restart_after_death<P, S>(
    context: ContextModel<P, S>,
    polls: Map<Seq<char>, PollResult>,
    name: Seq<char>,
    polled: Polled<P>,
    child: ChildProcess<P>,
)
    requires
        context.death_of(polls, name) is Some,
    ensures
        ({
            let reaped = context.after_reap(polls);
            &&& reaped.start_action(name, StartEvent::Requested) is Spawn
            &&& whole_start(reaped, name, polled, Ok(child)).1 is Ok
            &&& whole_start(reaped, name, polled, Ok(child)).0.daemons[name].state == (
            DaemonState::Running { child })
        }),
{
}

} // verus!
