//! What holds of every run of the serving loop.
//!
//! A run is a sequence of events that the driver reported, taken by the loop
//! one after the other. What the outside world holds at any time, clients
//! and open devices, is counted from the events alone; the statements below
//! tie those counts to the phase that the loop is in.

use vstd::prelude::*;
use crate::acceptor::{
    action_of, next, severity_of, turn, Action, Event, Notice, Phase, SessionOutcome, Severity,
    Transition,
};
use crate::recovery::{recovery_of, Recovery};
use crate::recovery::ExhaustionCodes;

verus! {

/// The phase reached from `phase` when the loop takes `events` in order;
/// `None` where it refuses one of them.
pub open spec fn run(phase: Phase, events: Seq<Event>, codes: ExhaustionCodes) -> Option<Phase>
    decreases events.len(),
{
    if events.len() == 0 {
        Some(phase)
    } else {
        match next(phase, events[0], codes) {
            Some(transition) => run(transition.phase, events.skip(1), codes),
            None => None,
        }
    }
}

/// The turns that the loop answers `events` with, up to the first event that
/// it refuses.
pub open spec fn replies(phase: Phase, events: Seq<Event>, codes: ExhaustionCodes) -> Seq<
    Transition,
>
    decreases events.len(),
{
    if events.len() == 0 {
        Seq::empty()
    } else {
        match next(phase, events[0], codes) {
            Some(transition) => seq![transition] + replies(
                transition.phase,
                events.skip(1),
                codes,
            ),
            None => Seq::empty(),
        }
    }
}

/// By how many the clients that the server holds change with `event`: an
/// accepted client is held until the device fails to open for it or its
/// session ends.
pub open spec fn client_change(event: Event) -> int {
    match event {
        Event::Accepted => 1,
        Event::DeviceFailed => -1,
        Event::SessionEnded(_) => -1,
        _ => 0,
    }
}

/// By how many the open devices change with `event`: a device is open from
/// the moment it was opened until its session ends.
pub open spec fn device_change(event: Event) -> int {
    match event {
        Event::DeviceOpened => 1,
        Event::SessionEnded(_) => -1,
        _ => 0,
    }
}

/// The clients gained over `events`, those let go taken off.
pub open spec fn clients_gained(events: Seq<Event>) -> int
    decreases events.len(),
{
    if events.len() == 0 {
        0
    } else {
        client_change(events[0]) + clients_gained(events.skip(1))
    }
}

/// The open devices gained over `events`, those closed taken off.
pub open spec fn devices_gained(events: Seq<Event>) -> int
    decreases events.len(),
{
    if events.len() == 0 {
        0
    } else {
        device_change(events[0]) + devices_gained(events.skip(1))
    }
}

/// The clients that the loop accounts for in `phase`.
pub open spec fn clients_held(phase: Phase) -> int {
    match phase {
        Phase::Opening | Phase::Bridging => 1,
        _ => 0,
    }
}

/// The open devices that the loop accounts for in `phase`.
pub open spec fn devices_held(phase: Phase) -> int {
    match phase {
        Phase::Bridging => 1,
        _ => 0,
    }
}

/// `rounds` clients in a row for each of which the device failed to open.
pub open spec fn failed_opens(rounds: nat) -> Seq<Event>
    decreases rounds,
{
    if rounds == 0 {
        Seq::empty()
    } else {
        seq![Event::Accepted, Event::DeviceFailed] + failed_opens((rounds - 1) as nat)
    }
}

/// Running two sequences in a row is running the first, then the second from
/// where the first ended; the replies follow each other likewise.
pub proof fn lemma_run_append(
    phase: Phase,
    first: Seq<Event>,
    second: Seq<Event>,
    codes: ExhaustionCodes,
)
    ensures
        run(phase, first + second, codes) == match run(phase, first, codes) {
            Some(reached) => run(reached, second, codes),
            None => None,
        },
        replies(phase, first + second, codes) == match run(phase, first, codes) {
            Some(reached) => replies(phase, first, codes) + replies(reached, second, codes),
            None => replies(phase, first, codes),
        },
    decreases first.len(),
{
    if first.len() == 0 {
        assert(first + second =~= second);
        assert(Seq::<Transition>::empty() + replies(phase, second, codes) =~= replies(
            phase,
            second,
            codes,
        ));
    } else {
        let whole = first + second;
        assert(whole[0] == first[0]);
        assert(whole.skip(1) =~= first.skip(1) + second);
        match next(phase, first[0], codes) {
            Some(transition) => {
                lemma_run_append(transition.phase, first.skip(1), second, codes);
                match run(transition.phase, first.skip(1), codes) {
                    Some(reached) => {
                        assert(seq![transition] + (replies(
                            transition.phase,
                            first.skip(1),
                            codes,
                        ) + replies(reached, second, codes)) =~= (seq![transition] + replies(
                            transition.phase,
                            first.skip(1),
                            codes,
                        )) + replies(reached, second, codes));
                    },
                    None => {},
                }
            },
            None => {},
        }
    }
}

/// A run that the loop takes whole, it takes up to any point.
pub proof fn lemma_run_prefix(phase: Phase, events: Seq<Event>, codes: ExhaustionCodes, upto: int)
    requires
        run(phase, events, codes).is_some(),
        0 <= upto <= events.len(),
    ensures
        run(phase, events.take(upto), codes).is_some(),
{
    assert(events.take(upto) + events.skip(upto) =~= events);
    lemma_run_append(phase, events.take(upto), events.skip(upto), codes);
}

/// The loop's books agree with the world: over any run that it takes, the
/// clients it holds change by the clients gained, and the open devices by
/// the devices gained.
pub proof fn lemma_books_balance(phase: Phase, events: Seq<Event>, codes: ExhaustionCodes)
    requires
        run(phase, events, codes).is_some(),
    ensures
        clients_held(run(phase, events, codes).unwrap()) == clients_held(phase) + clients_gained(
            events,
        ),
        devices_held(run(phase, events, codes).unwrap()) == devices_held(phase) + devices_gained(
            events,
        ),
    decreases events.len(),
{
    if events.len() > 0 {
        let transition = next(phase, events[0], codes).unwrap();
        lemma_books_balance(transition.phase, events.skip(1), codes);
    }
}

/// One session at a time. At every point of a run from a listening server,
/// at most one client is held and at most one device is open, a device is
/// open only for a client that is held, a session runs exactly while a
/// device is open, and the server accepts or rests only while it holds
/// neither: the next client waits until the one before is let go.
pub proof fn lemma_one_session_at_a_time(events: Seq<Event>, codes: ExhaustionCodes, upto: int)
    requires
        run(Phase::Listening, events, codes).is_some(),
        0 <= upto <= events.len(),
    ensures
        run(Phase::Listening, events.take(upto), codes).is_some(),
        0 <= devices_gained(events.take(upto)) <= clients_gained(events.take(upto)) <= 1,
        devices_gained(events.take(upto)) == 1 <==> run(
            Phase::Listening,
            events.take(upto),
            codes,
        ) == Some(Phase::Bridging),
        ({
            let action = action_of(run(Phase::Listening, events.take(upto), codes).unwrap());
            action == Action::Accept || action is Sleep
        }) ==> clients_gained(events.take(upto)) == 0,
        action_of(run(Phase::Listening, events.take(upto), codes).unwrap()) == Action::OpenDevice
            ==> clients_gained(events.take(upto)) == 1 && devices_gained(events.take(upto)) == 0,
{
    lemma_run_prefix(Phase::Listening, events, codes, upto);
    lemma_books_balance(Phase::Listening, events.take(upto), codes);
}

/// Only `accept` can stop the server. The loop stops on an `accept` error
/// that is neither an aborted connection nor a full descriptor table, and on
/// nothing else; once stopped it takes no event.
pub proof fn lemma_only_accept_stops(phase: Phase, event: Event, codes: ExhaustionCodes)
    ensures
        phase == Phase::Stopped ==> next(phase, event, codes).is_none(),
        next(phase, event, codes).is_some() && next(phase, event, codes).unwrap().phase
            == Phase::Stopped <==> phase == Phase::Listening && event is AcceptFailed
            && recovery_of(event->AcceptFailed_0, codes) == Recovery::Propagate,
{
}

/// No failure of the device or of a session passes unseen or stops the
/// server: each is answered with a warning, and the server listens again.
pub proof fn lemma_failures_are_warned_of(phase: Phase, event: Event, codes: ExhaustionCodes)
    requires
        next(phase, event, codes).is_some(),
        event == Event::DeviceFailed || event == Event::SessionEnded(SessionOutcome::Failed),
    ensures
        next(phase, event, codes).unwrap().phase == Phase::Listening,
        next(phase, event, codes).unwrap().action == Action::Accept,
        severity_of(next(phase, event, codes).unwrap().notice) == Some(Severity::Warning),
{
}

/// Failed opens leave no trace in the loop.
pub proof fn lemma_failed_opens_return(rounds: nat, codes: ExhaustionCodes)
    ensures
        failed_opens(rounds).len() == 2 * rounds,
        run(Phase::Listening, failed_opens(rounds), codes) == Some(Phase::Listening),
        clients_gained(failed_opens(rounds)) == 0,
        devices_gained(failed_opens(rounds)) == 0,
        forall|i: int|
            0 <= i < 2 * rounds ==> #[trigger] replies(
                Phase::Listening,
                failed_opens(rounds),
                codes,
            )[i] == if i % 2 == 0 {
                turn(Phase::Opening, Notice::ClientAccepted)
            } else {
                turn(Phase::Listening, Notice::DeviceUnavailable)
            },
        replies(Phase::Listening, failed_opens(rounds), codes).len() == 2 * rounds,
    decreases rounds,
{
    if rounds > 0 {
        let round = seq![Event::Accepted, Event::DeviceFailed];
        let others = failed_opens((rounds - 1) as nat);
        lemma_failed_opens_return((rounds - 1) as nat, codes);
        assert(round.skip(1) =~= seq![Event::DeviceFailed]);
        assert(round.skip(1).skip(1) =~= Seq::<Event>::empty());
        assert(run(Phase::Listening, round, codes) == Some(Phase::Listening)) by {
            reveal_with_fuel(run, 3);
        }
        assert(replies(Phase::Listening, round, codes) =~= seq![
            turn(Phase::Opening, Notice::ClientAccepted),
            turn(Phase::Listening, Notice::DeviceUnavailable),
        ]) by {
            reveal_with_fuel(replies, 3);
        }
        lemma_run_append(Phase::Listening, round, others, codes);
        lemma_books_balance(Phase::Listening, failed_opens(rounds), codes);
        let all = replies(Phase::Listening, failed_opens(rounds), codes);
        assert forall|i: int| 0 <= i < 2 * rounds implies #[trigger] all[i] == if i % 2 == 0 {
            turn(Phase::Opening, Notice::ClientAccepted)
        } else {
            turn(Phase::Listening, Notice::DeviceUnavailable)
        } by {
            if i >= 2 {
                assert(all[i] == replies(Phase::Listening, others, codes)[i - 2]);
            }
        }
    }
}

/// Recovery from a failed open is complete. However many clients in a row
/// find the device missing, and whenever in a run that happens while the
/// server listens, the server listens again as before: what follows is
/// answered turn for turn as if those clients had never come.
pub proof fn lemma_failed_opens_are_forgotten(
    before: Seq<Event>,
    rounds: nat,
    after: Seq<Event>,
    codes: ExhaustionCodes,
)
    requires
        run(Phase::Listening, before, codes) == Some(Phase::Listening),
    ensures
        run(Phase::Listening, before + failed_opens(rounds), codes) == Some(Phase::Listening),
        run(Phase::Listening, before + failed_opens(rounds) + after, codes) == run(
            Phase::Listening,
            before + after,
            codes,
        ),
        replies(Phase::Listening, before + failed_opens(rounds) + after, codes) == replies(
            Phase::Listening,
            before,
            codes,
        ) + replies(Phase::Listening, failed_opens(rounds), codes) + replies(
            Phase::Listening,
            after,
            codes,
        ),
        replies(Phase::Listening, before + after, codes) == replies(
            Phase::Listening,
            before,
            codes,
        ) + replies(Phase::Listening, after, codes),
{
    lemma_failed_opens_return(rounds, codes);
    lemma_run_append(Phase::Listening, before, failed_opens(rounds), codes);
    lemma_run_append(Phase::Listening, before + failed_opens(rounds), after, codes);
    lemma_run_append(Phase::Listening, before, after, codes);
}

} // verus!
