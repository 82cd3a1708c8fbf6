//! Runs of the dispatcher: what it does over a whole sequence of events, and
//! what holds of every run.

use vstd::prelude::*;
use crate::dispatch::{spec_step, ActionView, DispatchState, EventView, Rules, Stage};
use crate::message::InboundView;

verus! {

/// The state after a sequence of events, and the actions that were asked
/// for, one for each event.
pub open spec fn run(rules: Rules, start: DispatchState, events: Seq<EventView>) -> (
    DispatchState,
    Seq<ActionView>,
)
    decreases events.len(),
{
    if events.len() == 0 {
        (start, Seq::<ActionView>::empty())
    } else {
        let before = run(rules, start, events.drop_last());
        let next = spec_step(rules, before.0, events.last());
        (next.0, before.1.push(next.1))
    }
}

/// Some action after position `i` and before position `j` is the pause.
pub open spec fn pause_between(actions: Seq<ActionView>, delay: u64, i: int, j: int) -> bool {
    exists|k: int|
        0 <= k < actions.len() && i < k < j && (#[trigger] actions[k]) == ActionView::Sleep(delay)
}

/// Between any two sends of a trace lies a pause.
pub open spec fn sends_spaced(actions: Seq<ActionView>, delay: u64) -> bool {
    forall|i: int, j: int|
        0 <= i < j < actions.len() && (#[trigger] actions[i]) is Send && (#[trigger] actions[j]) is Send
            ==> pause_between(actions, delay, i, j)
}

/// Every send of a trace has a pause somewhere after it.
pub open spec fn sends_paused(actions: Seq<ActionView>, delay: u64) -> bool {
    forall|i: int|
        0 <= i < actions.len() && (#[trigger] actions[i]) is Send ==> pause_between(
            actions,
            delay,
            i,
            actions.len() as int,
        )
}

/// Adding an action to a trace keeps the pauses that it had.
proof fn lemma_pause_kept(actions: Seq<ActionView>, added: ActionView, delay: u64, i: int, j: int)
    requires
        pause_between(actions, delay, i, j),
    ensures
        pause_between(actions.push(added), delay, i, j),
        pause_between(actions.push(added), delay, i, actions.len() as int + 1),
{
    let k = choose|k: int|
        0 <= k < actions.len() && i < k < j && (#[trigger] actions[k]) == ActionView::Sleep(delay);
    assert(actions.push(added)[k] == ActionView::Sleep(delay));
}

/// In every run, whatever the events, a pause of the configured length is
/// asked for between any two sends; and unless a send is still out, after
/// every send.
pub proof fn lemma_sends_are_spaced(rules: Rules, start: DispatchState, events: Seq<EventView>)
    ensures
        sends_spaced(run(rules, start, events).1, rules.delay_millis),
        run(rules, start, events).0 != DispatchState::Processing(Stage::Sending) ==> sends_paused(
            run(rules, start, events).1,
            rules.delay_millis,
        ),
    decreases events.len(),
{
    if events.len() > 0 {
        lemma_sends_are_spaced(rules, start, events.drop_last());
        let delay = rules.delay_millis;
        let before = run(rules, start, events.drop_last());
        let next = spec_step(rules, before.0, events.last());
        let old_actions = before.1;
        let actions = old_actions.push(next.1);
        let n = old_actions.len() as int;
        assert(run(rules, start, events).1 == actions);
        assert forall|i: int, j: int|
            0 <= i < j < actions.len() && (#[trigger] actions[i]) is Send && (
            #[trigger] actions[j]) is Send implies pause_between(actions, delay, i, j) by {
            assert(old_actions[i] is Send);
            if j < n {
                assert(old_actions[j] is Send);
                lemma_pause_kept(old_actions, next.1, delay, i, j);
            } else {
                assert(before.0 == DispatchState::Idle);
                lemma_pause_kept(old_actions, next.1, delay, i, n);
            }
        }
        if next.0 != DispatchState::Processing(Stage::Sending) {
            assert forall|i: int| 0 <= i < actions.len() && (#[trigger] actions[i]) is Send implies pause_between(
                actions,
                delay,
                i,
                actions.len() as int,
            ) by {
                assert(i < n);
                assert(old_actions[i] is Send);
                if before.0 != DispatchState::Processing(Stage::Sending) {
                    lemma_pause_kept(old_actions, next.1, delay, i, n);
                } else {
                    assert(actions[n] == ActionView::Sleep(delay));
                }
            }
        }
    }
}

/// A run over two sequences of events, one after the other, is the run over
/// the first followed by the run over the second from where the first ended.
pub proof fn lemma_run_concat(
    rules: Rules,
    start: DispatchState,
    first: Seq<EventView>,
    second: Seq<EventView>,
)
    ensures
        run(rules, start, first + second).0 == run(rules, run(rules, start, first).0, second).0,
        run(rules, start, first + second).1 == run(rules, start, first).1 + run(
            rules,
            run(rules, start, first).0,
            second,
        ).1,
    decreases second.len(),
{
    let middle = run(rules, start, first);
    if second.len() == 0 {
        assert(first + second =~= first);
        assert(middle.1 + Seq::<ActionView>::empty() =~= middle.1);
    } else {
        lemma_run_concat(rules, start, first, second.drop_last());
        assert((first + second).drop_last() =~= first + second.drop_last());
        assert((first + second).last() == second.last());
        let rest = run(rules, middle.0, second.drop_last());
        let next = spec_step(rules, rest.0, second.last());
        assert((middle.1 + rest.1).push(next.1) =~= middle.1 + rest.1.push(next.1));
    }
}

/// The events of one whole cycle on a message: the message; the end of the
/// send, where the trigger fired; the end of the pause, where there was one.
pub open spec fn cycle_events(rules: Rules, message: InboundView, outcome: Result<(), Seq<char>>) -> Seq<
    EventView,
> {
    if rules.fires(message) {
        seq![
            EventView::Dequeued(message),
            EventView::SendFinished(outcome),
            EventView::DelayElapsed,
        ]
    } else if rules.sleep_every_cycle {
        seq![EventView::Dequeued(message), EventView::DelayElapsed]
    } else {
        seq![EventView::Dequeued(message)]
    }
}

/// The actions of one whole cycle on a message: one send of the answer if
/// the trigger fires and none if not, the pause after a send or after every
/// message, and the wait for the next message.
pub open spec fn cycle_actions(rules: Rules, message: InboundView) -> Seq<ActionView> {
    if rules.fires(message) {
        seq![
            ActionView::Send(rules.answer()),
            ActionView::Sleep(rules.delay_millis),
            ActionView::AwaitMessage,
        ]
    } else if rules.sleep_every_cycle {
        seq![ActionView::Sleep(rules.delay_millis), ActionView::AwaitMessage]
    } else {
        seq![ActionView::AwaitMessage]
    }
}

/// The events of the cycles on a sequence of messages, in their order, each
/// send ending as `outcomes` says.
pub open spec fn feed(rules: Rules, messages: Seq<InboundView>, outcomes: Seq<Result<(), Seq<char>>>) -> Seq<
    EventView,
>
    decreases messages.len(),
{
    if messages.len() == 0 {
        Seq::<EventView>::empty()
    } else {
        feed(rules, messages.drop_last(), outcomes.drop_last()) + cycle_events(
            rules,
            messages.last(),
            outcomes.last(),
        )
    }
}

/// The actions of the cycles on a sequence of messages, in their order.
pub open spec fn answers(rules: Rules, messages: Seq<InboundView>) -> Seq<ActionView>
    decreases messages.len(),
{
    if messages.len() == 0 {
        Seq::<ActionView>::empty()
    } else {
        answers(rules, messages.drop_last()) + cycle_actions(rules, messages.last())
    }
}

/// One whole cycle leads from waiting back to waiting, with the cycle's
/// actions, however the send ended.
pub proof fn lemma_cycle(rules: Rules, message: InboundView, outcome: Result<(), Seq<char>>)
    ensures
        run(rules, DispatchState::Idle, cycle_events(rules, message, outcome)) == (
            DispatchState::Idle,
            cycle_actions(rules, message),
        ),
{
    let events = cycle_events(rules, message, outcome);
    let idle = DispatchState::Idle;
    let one = seq![EventView::Dequeued(message)];
    assert(one.drop_last() =~= Seq::<EventView>::empty());
    assert(run(rules, idle, one.drop_last()) == (idle, Seq::<ActionView>::empty()));
    let first = spec_step(rules, idle, EventView::Dequeued(message));
    assert(run(rules, idle, one).0 == first.0);
    assert(run(rules, idle, one).1 =~= seq![first.1]);
    if rules.fires(message) {
        let two = seq![EventView::Dequeued(message), EventView::SendFinished(outcome)];
        assert(two.drop_last() =~= one);
        assert(run(rules, idle, two).0 == DispatchState::Processing(Stage::Delaying));
        assert(run(rules, idle, two).1 =~= seq![first.1, ActionView::Sleep(rules.delay_millis)]);
        assert(events.drop_last() =~= two);
        assert(run(rules, idle, events).1 =~= cycle_actions(rules, message));
    } else if rules.sleep_every_cycle {
        assert(events.drop_last() =~= one);
        assert(run(rules, idle, events).1 =~= cycle_actions(rules, message));
    } else {
        assert(events =~= one);
        assert(run(rules, idle, events).1 =~= cycle_actions(rules, message));
    }
}

/// The dispatcher handles the messages in the order in which the queue gave
/// them, one cycle each, and a send that failed changes nothing for the
/// messages after it: whatever the outcomes, the run over the cycles of
/// `messages` asks for exactly the actions of their cycles, in their order,
/// and ends waiting for the next message.
pub proof fn lemma_messages_in_order(
    rules: Rules,
    messages: Seq<InboundView>,
    outcomes: Seq<Result<(), Seq<char>>>,
)
    requires
        outcomes.len() == messages.len(),
    ensures
        run(rules, DispatchState::Idle, feed(rules, messages, outcomes)) == (
            DispatchState::Idle,
            answers(rules, messages),
        ),
    decreases messages.len(),
{
    if messages.len() > 0 {
        lemma_messages_in_order(rules, messages.drop_last(), outcomes.drop_last());
        lemma_cycle(rules, messages.last(), outcomes.last());
        lemma_run_concat(
            rules,
            DispatchState::Idle,
            feed(rules, messages.drop_last(), outcomes.drop_last()),
            cycle_events(rules, messages.last(), outcomes.last()),
        );
    }
}

/// A message without text fires no trigger but the empty one: nothing is
/// sent for it, and the cycle ends with the pause or at once, as the policy
/// says.
pub proof fn lemma_absent_text_sends_nothing(rules: Rules, sender: Seq<char>)
    requires
        rules.trigger.len() > 0,
    ensures
        spec_step(
            rules,
            DispatchState::Idle,
            EventView::Dequeued(InboundView { sender, text: None }),
        ) == if rules.sleep_every_cycle {
            (DispatchState::Processing(Stage::Delaying), ActionView::Sleep(rules.delay_millis))
        } else {
            (DispatchState::Idle, ActionView::AwaitMessage)
        },
{
}

/// A send that failed is followed by the same pause as one that succeeded,
/// and after the pause the next message is taken up as from a fresh start.
pub proof fn lemma_failure_does_not_stall(rules: Rules, detail: Seq<char>, following: InboundView)
    ensures
        spec_step(
            rules,
            DispatchState::Processing(Stage::Sending),
            EventView::SendFinished(Err(detail)),
        ) == spec_step(rules, DispatchState::Processing(Stage::Sending), EventView::SendFinished(Ok(()))),
        run(
            rules,
            DispatchState::Processing(Stage::Sending),
            seq![EventView::SendFinished(Err(detail)), EventView::DelayElapsed],
        ).0 == DispatchState::Idle,
        spec_step(rules, DispatchState::Idle, EventView::Dequeued(following)).1 != ActionView::Ignore,
{
    let sending = DispatchState::Processing(Stage::Sending);
    let two = seq![EventView::SendFinished(Err(detail)), EventView::DelayElapsed];
    let one = seq![EventView::SendFinished(Err::<(), Seq<char>>(detail))];
    assert(two.drop_last() =~= one);
    assert(one.drop_last() =~= Seq::<EventView>::empty());
    assert(run(rules, sending, one.drop_last()).0 == sending);
    assert(run(rules, sending, one).0 == DispatchState::Processing(Stage::Delaying));
}

} // verus!
