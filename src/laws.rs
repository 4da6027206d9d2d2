use vstd::prelude::*;

use crate::event::{Direction, SMBusProtocolError};
use crate::state::{BusState, ReadReplies, RECEIVE_BUFFER_SIZE};

verus! {

/// A bus event as the transaction model sees it: `RequestedByte` without
/// the place its byte goes.
#[derive(Debug, Clone, Copy, PartialEq, Eq, Structural)]
pub enum BusEvent {
    Initiated(Direction),
    ReceivedByte(u8),
    RequestedByte,
    Stopped,
}

/// One event, given what the handler answered to the step's read queries
/// and whether it accepted the step's write.
pub open spec fn step(s: BusState, e: BusEvent, replies: ReadReplies, accepted: bool) -> (
    BusState,
    Result<(), SMBusProtocolError>,
) {
    match e {
        BusEvent::Initiated(d) => (s.initiated(d), Ok(())),
        BusEvent::ReceivedByte(b) => s.received(b),
        BusEvent::RequestedByte => {
            let (next, out) = s.requested(replies);
            (
                next,
                match out {
                    Ok(_) => Ok(()),
                    Err(err) => Err(err),
                },
            )
        },
        BusEvent::Stopped => (BusState::initial(), s.stop_result(accepted)),
    }
}

/// The state after `events`, the `i`-th of which met the handler answers
/// `replies[i]` and `accepted[i]`.
pub open spec fn run(
    s: BusState,
    events: Seq<BusEvent>,
    replies: Seq<ReadReplies>,
    accepted: Seq<bool>,
) -> BusState
    decreases events.len(),
{
    if events.len() == 0 {
        s
    } else {
        let i = events.len() - 1;
        step(run(s, events.drop_last(), replies, accepted), events[i], replies[i], accepted[i]).0
    }
}

/// The state after receiving `bytes`, one `ReceivedByte` each.
pub open spec fn receive_all(s: BusState, bytes: Seq<u8>) -> BusState
    decreases bytes.len(),
{
    if bytes.len() == 0 {
        s
    } else {
        receive_all(s, bytes.drop_last()).received(bytes.last()).0
    }
}

/// Whatever happened before, a transaction that ends in `Stopped` leaves
/// the state as it was at the start: cursor 0, buffer all zero, no
/// direction, no read in progress.
pub proof fn lemma_stop_resets(
    s: BusState,
    events: Seq<BusEvent>,
    replies: Seq<ReadReplies>,
    accepted: Seq<bool>,
)
    requires
        events.len() > 0,
        events.last() == BusEvent::Stopped,
        replies.len() == events.len(),
        accepted.len() == events.len(),
    ensures
        run(s, events, replies, accepted) == BusState::initial(),
{
}

/// Until some `Initiated { direction: SlaveToMaster }` arrives, every
/// requested byte is refused with `WrongDirection`, and the state is kept.
pub proof fn lemma_read_needs_slave_to_master(
    s: BusState,
    events: Seq<BusEvent>,
    replies: Seq<ReadReplies>,
    accepted: Seq<bool>,
    read_replies: ReadReplies,
)
    requires
        s.direction != Some(Direction::SlaveToMaster),
        forall|i: int|
            0 <= i < events.len() ==> events[i] != BusEvent::Initiated(Direction::SlaveToMaster),
        replies.len() == events.len(),
        accepted.len() == events.len(),
    ensures
        ({
            let before = run(s, events, replies, accepted);
            before.requested(read_replies) == (
                before,
                Err::<Option<u8>, _>(SMBusProtocolError::WrongDirection(before.direction)),
            )
        }),
{
    lemma_direction_kept(s, events, replies, accepted);
}

proof fn lemma_direction_kept(
    s: BusState,
    events: Seq<BusEvent>,
    replies: Seq<ReadReplies>,
    accepted: Seq<bool>,
)
    requires
        s.direction != Some(Direction::SlaveToMaster),
        forall|i: int|
            0 <= i < events.len() ==> events[i] != BusEvent::Initiated(Direction::SlaveToMaster),
    ensures
        run(s, events, replies, accepted).direction != Some(Direction::SlaveToMaster),
    decreases events.len(),
{
    if events.len() > 0 {
        let prefix = events.drop_last();
        assert forall|i: int| 0 <= i < prefix.len() implies prefix[i] != BusEvent::Initiated(
            Direction::SlaveToMaster,
        ) by {
            assert(prefix[i] == events[i]);
        }
        lemma_direction_kept(s, prefix, replies, accepted);
    }
}

/// Starting from an empty buffer, `bytes` are all stored in order while
/// they fit.
proof fn lemma_receive_fills(s: BusState, bytes: Seq<u8>)
    requires
        s.wf(),
        s.cursor == 0,
        bytes.len() <= RECEIVE_BUFFER_SIZE,
    ensures
        receive_all(s, bytes).wf(),
        receive_all(s, bytes).cursor == bytes.len(),
        receive_all(s, bytes).buffer.subrange(0, bytes.len() as int) == bytes,
        receive_all(s, bytes).direction == s.direction,
    decreases bytes.len(),
{
    if bytes.len() > 0 {
        let prefix = bytes.drop_last();
        lemma_receive_fills(s, prefix);
        let t = receive_all(s, prefix);
        assert(t.buffer.subrange(0, prefix.len() as int) == prefix);
        let u = receive_all(s, bytes);
        assert(u.buffer.subrange(0, bytes.len() as int) =~= bytes) by {
            assert forall|i: int| 0 <= i < prefix.len() implies u.buffer[i] == bytes[i] by {
                assert(t.buffer.subrange(0, prefix.len() as int)[i] == prefix[i]);
            }
        }
    }
}

/// From an empty buffer, the first `RECEIVE_BUFFER_SIZE` received bytes are
/// accepted and stored; one byte more, whatever its value, is refused with
/// `InvalidWriteBound` and the whole state starts over.
pub proof fn lemma_overflow_resets(s: BusState, bytes: Seq<u8>)
    requires
        s.wf(),
        s.cursor == 0,
        bytes.len() == RECEIVE_BUFFER_SIZE + 1,
    ensures
        forall|k: int|
            0 <= k < RECEIVE_BUFFER_SIZE ==> (#[trigger] receive_all(s, bytes.take(k))).received(
                bytes[k],
            ).1 == Ok::<(), SMBusProtocolError>(()),
        receive_all(s, bytes.take(RECEIVE_BUFFER_SIZE as int)).buffer == bytes.take(
            RECEIVE_BUFFER_SIZE as int,
        ),
        receive_all(s, bytes.take(RECEIVE_BUFFER_SIZE as int)).received(
            bytes[RECEIVE_BUFFER_SIZE as int],
        ) == (BusState::initial(), Err::<(), _>(SMBusProtocolError::InvalidWriteBound(32))),
{
    assert forall|k: int| 0 <= k < RECEIVE_BUFFER_SIZE implies (#[trigger] receive_all(
        s,
        bytes.take(k),
    )).received(bytes[k]).1 == Ok::<(), SMBusProtocolError>(()) by {
        lemma_receive_fills(s, bytes.take(k));
    }
    let full = bytes.take(RECEIVE_BUFFER_SIZE as int);
    lemma_receive_fills(s, full);
    assert(receive_all(s, full).buffer =~= receive_all(s, full).buffer.subrange(0, full.len() as int));
}

} // verus!
