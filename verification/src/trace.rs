//! What holds of every course that a session can take.
//!
//! A course is what a session went through: the state it reached and the
//! answers it gave, in order. The laws below are stated over `transition`, the
//! function that `Session::step` is held to, so they hold of every session
//! that is driven through `step`.

use crate::diagnostic::DiagnosticView;
use crate::session::{
    echoes, on_chunk, quiet, transition, ActionView, CloseReason, EventView, ReplyView, Rules,
    SessionState,
};
use vstd::prelude::*;

verus! {

/// The state that a session reached and the answers that it gave on the way.
pub struct Course {
    pub state: SessionState,
    pub replies: Seq<ReplyView>,
}

/// The course of a session that is in `state` and has answered nothing yet.
pub open spec fn fresh(state: SessionState) -> Course {
    Course { state, replies: Seq::empty() }
}

/// A course after one more event. A refused event leaves the course as it is.
pub open spec fn deliver(rules: Rules, course: Course, event: EventView) -> Course {
    match transition(rules, course.state, event) {
        Ok((next, reply)) => Course { state: next, replies: course.replies.push(reply) },
        Err(_) => course,
    }
}

/// A course after more events, delivered in order.
pub open spec fn advance(rules: Rules, course: Course, events: Seq<EventView>) -> Course
    decreases events.len(),
{
    if events.len() == 0 {
        course
    } else {
        deliver(rules, advance(rules, course, events.drop_last()), events.last())
    }
}

/// The byte strings that the answers ask to write, in order.
pub open spec fn written(replies: Seq<ReplyView>) -> Seq<Seq<u8>>
    decreases replies.len(),
{
    if replies.len() == 0 {
        Seq::empty()
    } else {
        match replies.last().action {
            ActionView::Write(bytes) => written(replies.drop_last()).push(bytes),
            _ => written(replies.drop_last()),
        }
    }
}

/// Whether an answer puts a failure in the log.
pub open spec fn tells_failure(reply: ReplyView) -> bool {
    match reply.log {
        Some(d) => d.is_failure(),
        None => false,
    }
}

/// Whether some answer puts a failure in the log.
pub open spec fn reports_failure(replies: Seq<ReplyView>) -> bool {
    exists|i: int| 0 <= i < replies.len() && tells_failure(#[trigger] replies[i])
}

/// What happens on a connection between the arrival of one chunk and the next
/// read, when nothing fails: the chunk arrives, the wait passes if there is
/// one, and the write goes through.
pub open spec fn exchange(rules: Rules, chunk: Seq<u8>) -> Seq<EventView> {
    if rules.delay_ms > 0 {
        seq![EventView::Received(chunk), EventView::DelayElapsed, EventView::Written]
    } else {
        seq![EventView::Received(chunk), EventView::Written]
    }
}

/// One exchange after the other, a chunk each.
pub open spec fn exchanges(rules: Rules, chunks: Seq<Seq<u8>>) -> Seq<EventView>
    decreases chunks.len(),
{
    if chunks.len() == 0 {
        Seq::empty()
    } else {
        exchanges(rules, chunks.drop_last()) + exchange(rules, chunks.last())
    }
}

/// Delivering two runs of events in a row is delivering them as one.
pub proof fn advance_in_two(rules: Rules, course: Course, first: Seq<EventView>, then: Seq<EventView>)
    ensures
        advance(rules, course, first + then) == advance(
            rules,
            advance(rules, course, first),
            then,
        ),
    decreases then.len(),
{
    if then.len() == 0 {
        assert(first + then =~= first);
    } else {
        assert((first + then).drop_last() =~= first + then.drop_last());
        assert((first + then).last() == then.last());
        advance_in_two(rules, course, first, then.drop_last());
    }
}

/// A course that got one more answer has written what it had written, and the
/// bytes of the answer if it asks for a write.
pub proof fn written_after_push(replies: Seq<ReplyView>, reply: ReplyView)
    ensures
        written(replies.push(reply)) == match reply.action {
            ActionView::Write(bytes) => written(replies).push(bytes),
            _ => written(replies),
        },
{
    assert(replies.push(reply).drop_last() =~= replies);
    assert(replies.push(reply).last() == reply);
}

/// A course that got one more answer reports a failure if it did before or if
/// the answer does.
pub proof fn failure_after_push(replies: Seq<ReplyView>, reply: ReplyView)
    ensures
        reports_failure(replies.push(reply)) == (reports_failure(replies) || tells_failure(reply)),
{
    let longer = replies.push(reply);
    if reports_failure(replies) {
        let i = choose|i: int| 0 <= i < replies.len() && tells_failure(#[trigger] replies[i]);
        assert(longer[i] == replies[i]);
    }
    if tells_failure(reply) {
        assert(longer[replies.len() as int] == reply);
    }
    if reports_failure(longer) {
        let i = choose|i: int| 0 <= i < longer.len() && tells_failure(#[trigger] longer[i]);
        if i < replies.len() {
            assert(replies[i] == longer[i]);
        }
    }
}

/// Echo fidelity, for any course: a session that reads and echoes, and gets a
/// chunk of at least one byte and at most its capacity, writes exactly that
/// chunk and nothing else before it reads again.
pub proof fn exchange_writes_the_chunk(rules: Rules, course: Course, chunk: Seq<u8>)
    requires
        echoes(rules),
        course.state == SessionState::Reading,
        0 < chunk.len() <= rules.capacity,
    ensures
        advance(rules, course, exchange(rules, chunk)).state == SessionState::Reading,
        written(advance(rules, course, exchange(rules, chunk)).replies) == written(
            course.replies,
        ).push(chunk),
        reports_failure(advance(rules, course, exchange(rules, chunk)).replies)
            == reports_failure(course.replies),
{
    let none = Seq::<EventView>::empty();
    let received = EventView::Received(chunk);
    assert((rules.respond)(chunk) == chunk);
    assert(advance(rules, course, none) == course);
    let c1 = deliver(rules, course, received);
    assert(none.push(received).drop_last() =~= none);
    assert(advance(rules, course, none.push(received)) == c1);
    assert(c1.replies == course.replies.push(on_chunk(rules, chunk).1));
    written_after_push(course.replies, on_chunk(rules, chunk).1);
    let back = quiet(ActionView::Read { capacity: rules.capacity });
    if rules.delay_ms > 0 {
        let c2 = deliver(rules, c1, EventView::DelayElapsed);
        let c3 = deliver(rules, c2, EventView::Written);
        let e2 = none.push(received).push(EventView::DelayElapsed);
        let e3 = e2.push(EventView::Written);
        assert(e2.drop_last() =~= none.push(received));
        assert(e3.drop_last() =~= e2);
        assert(exchange(rules, chunk) =~= e3);
        assert(advance(rules, course, e2) == c2);
        assert(advance(rules, course, e3) == c3);
        assert(c2.replies == c1.replies.push(quiet(ActionView::Write(chunk))));
        assert(c3.replies == c2.replies.push(back));
        written_after_push(c1.replies, quiet(ActionView::Write(chunk)));
        written_after_push(c2.replies, back);
        failure_after_push(course.replies, on_chunk(rules, chunk).1);
        failure_after_push(c1.replies, quiet(ActionView::Write(chunk)));
        failure_after_push(c2.replies, back);
    } else {
        let c2 = deliver(rules, c1, EventView::Written);
        let e2 = none.push(received).push(EventView::Written);
        assert(e2.drop_last() =~= none.push(received));
        assert(exchange(rules, chunk) =~= e2);
        assert(advance(rules, course, e2) == c2);
        assert(c2.replies == c1.replies.push(back));
        written_after_push(c1.replies, back);
        failure_after_push(course.replies, on_chunk(rules, chunk).1);
        failure_after_push(c1.replies, back);
    }
}

/// Echo fidelity: a session that reads and echoes, and gets a chunk of at
/// least one byte and at most its capacity, writes exactly that chunk, byte
/// for byte, reports no failure and reads again.
pub proof fn echo_is_faithful(rules: Rules, chunk: Seq<u8>)
    requires
        echoes(rules),
        0 < chunk.len() <= rules.capacity,
    ensures
        ({
            let end = advance(rules, fresh(SessionState::Reading), exchange(rules, chunk));
            &&& end.state == SessionState::Reading
            &&& written(end.replies) == seq![chunk]
            &&& !reports_failure(end.replies)
        }),
{
    let start = fresh(SessionState::Reading);
    exchange_writes_the_chunk(rules, start, chunk);
    assert(written(start.replies).push(chunk) =~= seq![chunk]);
}

/// The chunking boundary: a payload that arrives as any number of chunks, each
/// of at least one byte and at most the capacity, comes back as the same
/// chunks in the same order. So every chunk written is within the capacity,
/// the chunks written, put end to end, are the payload, and a payload that is
/// longer than the capacity comes back in more chunks than one.
pub proof fn chunks_come_back_in_order(rules: Rules, chunks: Seq<Seq<u8>>)
    requires
        echoes(rules),
        forall|i: int| 0 <= i < chunks.len() ==> 0 < (#[trigger] chunks[i]).len() <= rules.capacity,
    ensures
        ({
            let end = advance(rules, fresh(SessionState::Reading), exchanges(rules, chunks));
            &&& end.state == SessionState::Reading
            &&& written(end.replies) == chunks
            &&& written(end.replies).flatten() == chunks.flatten()
            &&& forall|i: int|
                0 <= i < written(end.replies).len() ==> (#[trigger] written(end.replies)[i]).len()
                    <= rules.capacity
            &&& chunks.flatten().len() > rules.capacity ==> written(end.replies).len() >= 2
            &&& !reports_failure(end.replies)
        }),
    decreases chunks.len(),
{
    let start = fresh(SessionState::Reading);
    assert(chunks.flatten().len() > rules.capacity ==> chunks.len() >= 2) by {
        chunks.lemma_flatten_and_flatten_alt_are_equivalent();
        chunks.lemma_flatten_length_le_mul(rules.capacity as int);
        if chunks.len() <= 1 {
            assert(chunks.len() * rules.capacity <= rules.capacity) by (nonlinear_arith)
                requires
                    0 <= chunks.len() <= 1,
            ;
        }
    }
    if chunks.len() == 0 {
        assert(written(start.replies) =~= chunks);
    } else {
        let before = chunks.drop_last();
        chunks_come_back_in_order(rules, before);
        let mid = advance(rules, start, exchanges(rules, before));
        advance_in_two(rules, start, exchanges(rules, before), exchange(rules, chunks.last()));
        exchange_writes_the_chunk(rules, mid, chunks.last());
        assert(before.push(chunks.last()) =~= chunks);
    }
}

/// A closed session stays closed and answers nothing, whatever it is told.
pub proof fn closed_is_final(rules: Rules, course: Course, events: Seq<EventView>)
    requires
        course.state == SessionState::Closed,
    ensures
        advance(rules, course, events) == course,
    decreases events.len(),
{
    if events.len() > 0 {
        closed_is_final(rules, course, events.drop_last());
    }
}

/// The graceful close: when the peer closes after any number of chunks, the
/// session closes with the peer's close as the reason and with nothing for the
/// log; and whatever it is told after that, it reports no failure and asks for
/// no further write.
pub proof fn close_is_silent(rules: Rules, chunks: Seq<Seq<u8>>, later: Seq<EventView>)
    requires
        echoes(rules),
        forall|i: int| 0 <= i < chunks.len() ==> 0 < (#[trigger] chunks[i]).len() <= rules.capacity,
    ensures
        ({
            let open = advance(rules, fresh(SessionState::Reading), exchanges(rules, chunks));
            let shut = deliver(rules, open, EventView::Received(Seq::empty()));
            let end = advance(rules, shut, later);
            &&& shut.state == SessionState::Closed
            &&& shut.replies == open.replies.push(
                quiet(ActionView::Close(CloseReason::PeerClosed)),
            )
            &&& end == shut
            &&& written(end.replies) == chunks
            &&& !reports_failure(end.replies)
        }),
{
    chunks_come_back_in_order(rules, chunks);
    let open = advance(rules, fresh(SessionState::Reading), exchanges(rules, chunks));
    let bye = quiet(ActionView::Close(CloseReason::PeerClosed));
    let shut = deliver(rules, open, EventView::Received(Seq::empty()));
    assert(Seq::<u8>::empty().len() == 0);
    closed_is_final(rules, shut, later);
    written_after_push(open.replies, bye);
    failure_after_push(open.replies, bye);
}

/// Failures and endings go together. An answer puts a failure in the log
/// exactly when it closes the session for another reason than the peer's
/// close; an answer closes the session exactly when the session is closed
/// after it; and the failure in the log is the one that the event told of.
pub proof fn failure_closes(rules: Rules, state: SessionState, event: EventView)
    ensures
        transition(rules, state, event) matches Ok((next, reply)) ==> {
            &&& tells_failure(reply) <==> (reply.action is Close && reply.action
                != ActionView::Close(CloseReason::PeerClosed))
            &&& reply.action is Close <==> next == SessionState::Closed
            &&& reply.log == Some(DiagnosticView::ReadFailed) <==> event == EventView::ReadFailed
            &&& reply.log == Some(DiagnosticView::WriteFailed) <==> event == EventView::WriteFailed
        },
{
}

} // verus!
