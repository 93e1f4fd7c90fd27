//! What holds of every session.
//!
//! A session is a sequence of signals that the bridge takes one after the
//! other. What a copy received is read off the signals alone; what it
//! delivered is what the writes took from the bytes that the bridge handed
//! out for them.

use vstd::prelude::*;
use crate::acceptor::SessionOutcome;
use crate::bridge::{BridgeView, Demand, Direction, Progress, Signal};

verus! {

/// The state reached from `view` when the bridge takes `signals` in order;
/// `None` where it refuses one of them.
pub open spec fn relay(view: BridgeView, signals: Seq<Signal>) -> Option<BridgeView>
    decreases signals.len(),
{
    if signals.len() == 0 {
        Some(view)
    } else {
        match view.advance(signals[0]) {
            Some(after) => relay(after, signals.skip(1)),
            None => None,
        }
    }
}

/// The bytes that `signal` reports as read by the copy.
pub open spec fn read_by(signal: Signal, direction: Direction) -> Seq<u8> {
    match signal {
        Signal::Read(of, chunk) => if of == direction {
            chunk
        } else {
            Seq::empty()
        },
        _ => Seq::empty(),
    }
}

/// The bytes that `signal` reports as written by the copy, when the bridge
/// is in `view`: the front of what the copy holds.
pub open spec fn written_by(view: BridgeView, signal: Signal, direction: Direction) -> Seq<u8> {
    match signal {
        Signal::Wrote(of, count) => if of == direction {
            view.unsent(direction).take(count as int)
        } else {
            Seq::empty()
        },
        _ => Seq::empty(),
    }
}

/// All that the copy's source gave over `signals`, in order.
pub open spec fn received(signals: Seq<Signal>, direction: Direction) -> Seq<u8>
    decreases signals.len(),
{
    if signals.len() == 0 {
        Seq::empty()
    } else {
        read_by(signals[0], direction) + received(signals.skip(1), direction)
    }
}

/// All that the copy's sink took over `signals`, in order, from `view` on and
/// up to the first signal that the bridge refuses.
pub open spec fn delivered(view: BridgeView, signals: Seq<Signal>, direction: Direction) -> Seq<u8>
    decreases signals.len(),
{
    if signals.len() == 0 {
        Seq::empty()
    } else {
        match view.advance(signals[0]) {
            Some(after) => written_by(view, signals[0], direction) + delivered(
                after,
                signals.skip(1),
                direction,
            ),
            None => Seq::empty(),
        }
    }
}

/// The signal of a source at its end.
pub open spec fn closing(direction: Direction) -> Signal {
    Signal::Read(direction, Seq::empty())
}

/// Taking two sequences in a row is taking the first, then the second from
/// where the first ended; what was delivered adds up likewise.
pub proof fn lemma_relay_append(
    view: BridgeView,
    first: Seq<Signal>,
    second: Seq<Signal>,
    direction: Direction,
)
    ensures
        relay(view, first + second) == match relay(view, first) {
            Some(reached) => relay(reached, second),
            None => None,
        },
        delivered(view, first + second, direction) == match relay(view, first) {
            Some(reached) => delivered(view, first, direction) + delivered(
                reached,
                second,
                direction,
            ),
            None => delivered(view, first, direction),
        },
    decreases first.len(),
{
    if first.len() == 0 {
        assert(first + second =~= second);
        assert(Seq::<u8>::empty() + delivered(view, second, direction) =~= delivered(
            view,
            second,
            direction,
        ));
    } else {
        let whole = first + second;
        assert(whole[0] == first[0]);
        assert(whole.skip(1) =~= first.skip(1) + second);
        match view.advance(first[0]) {
            Some(after) => {
                lemma_relay_append(after, first.skip(1), second, direction);
                let front = written_by(view, first[0], direction);
                match relay(after, first.skip(1)) {
                    Some(reached) => {
                        assert(front + (delivered(after, first.skip(1), direction) + delivered(
                            reached,
                            second,
                            direction,
                        )) =~= (front + delivered(after, first.skip(1), direction)) + delivered(
                            reached,
                            second,
                            direction,
                        ));
                    },
                    None => {},
                }
            },
            None => {},
        }
    }
}

/// Nothing is lost, doubled, changed or reordered on the way. Over any
/// signals that the bridge takes, what a copy held at first and then
/// received is what it delivered and still holds, byte for byte.
pub proof fn lemma_conservation(view: BridgeView, signals: Seq<Signal>, direction: Direction)
    requires
        relay(view, signals).is_some(),
    ensures
        view.unsent(direction) + received(signals, direction) == delivered(
            view,
            signals,
            direction,
        ) + relay(view, signals).unwrap().unsent(direction),
    decreases signals.len(),
{
    let held = view.unsent(direction);
    if signals.len() == 0 {
        assert(held + Seq::<u8>::empty() =~= Seq::<u8>::empty() + held);
    } else {
        let after = view.advance(signals[0]).unwrap();
        let rest = signals.skip(1);
        lemma_conservation(after, rest, direction);
        let end = relay(view, signals).unwrap().unsent(direction);
        let read = read_by(signals[0], direction);
        let wrote = written_by(view, signals[0], direction);
        assert(held + read =~= wrote + after.unsent(direction));
        assert(held + (read + received(rest, direction)) =~= (held + read) + received(
            rest,
            direction,
        ));
        assert((wrote + after.unsent(direction)) + received(rest, direction) =~= wrote + (
        after.unsent(direction) + received(rest, direction)));
        assert(wrote + (delivered(after, rest, direction) + end) =~= (wrote + delivered(
            after,
            rest,
            direction,
        )) + end);
    }
}

/// Byte fidelity. In a session that the bridge takes from its start, what
/// a copy has delivered is at every point the front of what it received, and
/// the rest is what it holds. When its own source comes to its end, it has
/// delivered all that it received.
pub proof fn lemma_fidelity(signals: Seq<Signal>, direction: Direction)
    requires
        relay(BridgeView::fresh(), signals).is_some(),
    ensures
        received(signals, direction) == delivered(BridgeView::fresh(), signals, direction) + relay(
            BridgeView::fresh(),
            signals,
        ).unwrap().unsent(direction),
        delivered(BridgeView::fresh(), signals, direction).is_prefix_of(
            received(signals, direction),
        ),
        signals.len() > 0 && signals.last() == closing(direction) ==> delivered(
            BridgeView::fresh(),
            signals,
            direction,
        ) == received(signals, direction),
{
    let fresh = BridgeView::fresh();
    let sent = delivered(fresh, signals, direction);
    let held = relay(fresh, signals).unwrap().unsent(direction);
    lemma_conservation(fresh, signals, direction);
    assert(fresh.unsent(direction) + received(signals, direction) =~= received(
        signals,
        direction,
    ));
    assert(sent =~= (sent + held).subrange(0, sent.len() as int));
    if signals.len() > 0 && signals.last() == closing(direction) {
        let before = signals.drop_last();
        assert(before + seq![signals.last()] =~= signals);
        lemma_relay_append(fresh, before, seq![signals.last()], direction);
        let reached = relay(fresh, before).unwrap();
        assert(seq![signals.last()].skip(1) =~= Seq::<Signal>::empty());
        assert(relay(reached, seq![signals.last()]) == reached.advance(signals.last())) by {
            reveal_with_fuel(relay, 2);
        }
        assert(held =~= Seq::<u8>::empty());
        assert(sent + held =~= sent);
    }
}

/// An ended session takes no signal and delivers nothing more.
pub proof fn lemma_nothing_after_the_end(
    view: BridgeView,
    later: Seq<Signal>,
    direction: Direction,
)
    requires
        view.ended.is_some(),
    ensures
        delivered(view, later, direction) == Seq::<u8>::empty(),
        later.len() > 0 ==> relay(view, later).is_none(),
{
}

/// The first copy to finish ends the session, and the other is abandoned.
/// When a source comes to its end after `signals`, the session ends without
/// error, whatever the other copy holds; and whatever the driver reports
/// later, neither copy delivers another byte: what the other copy held is
/// never delivered.
pub proof fn lemma_close_abandons_the_rest(
    signals: Seq<Signal>,
    closed: Direction,
    later: Seq<Signal>,
    direction: Direction,
)
    requires
        relay(BridgeView::fresh(), signals).is_some(),
        relay(BridgeView::fresh(), signals).unwrap().demand(closed) == Demand::Read,
    ensures
        relay(BridgeView::fresh(), signals + seq![closing(closed)]) == Some(
            relay(BridgeView::fresh(), signals).unwrap().ending(SessionOutcome::Completed),
        ),
        relay(BridgeView::fresh(), signals + seq![closing(closed)]).unwrap().progress()
            == Progress::Ended(SessionOutcome::Completed),
        delivered(BridgeView::fresh(), signals + seq![closing(closed)] + later, direction)
            == delivered(BridgeView::fresh(), signals, direction),
        received(signals, direction) == delivered(
            BridgeView::fresh(),
            signals + seq![closing(closed)] + later,
            direction,
        ) + relay(BridgeView::fresh(), signals).unwrap().unsent(direction),
{
    let fresh = BridgeView::fresh();
    let reached = relay(fresh, signals).unwrap();
    let close = seq![closing(closed)];
    let ended = reached.ending(SessionOutcome::Completed);
    assert(close.skip(1) =~= Seq::<Signal>::empty());
    assert(relay(reached, close) == Some(ended)) by {
        reveal_with_fuel(relay, 2);
    }
    assert(delivered(reached, close, direction) =~= Seq::<u8>::empty()) by {
        reveal_with_fuel(delivered, 2);
    }
    lemma_relay_append(fresh, signals, close, direction);
    lemma_relay_append(fresh, signals + close, later, direction);
    lemma_nothing_after_the_end(ended, later, direction);
    let sent = delivered(fresh, signals, direction);
    assert(sent + Seq::<u8>::empty() =~= sent);
    lemma_fidelity(signals, direction);
}

} // verus!
