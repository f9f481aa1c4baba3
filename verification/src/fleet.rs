//! Many connections at once.
//!
//! A server runs one session per connection, and the sessions share nothing.
//! This module says what that buys: whatever happens on one connection, every
//! other connection takes the course that it would have taken alone.

use crate::session::{echoes, EventView, Rules, SessionState};
use crate::trace::{advance, deliver, exchange, exchange_writes_the_chunk, written, Course};
use vstd::prelude::*;

verus! {

/// One connection among many: its rules and its course so far.
pub struct Task {
    pub rules: Rules,
    pub course: Course,
}

/// An event and the number of the connection on which it happened.
pub struct Tagged {
    pub connection: int,
    pub event: EventView,
}

/// The events of one connection, picked out of the events of all.
pub open spec fn own(events: Seq<Tagged>, connection: int) -> Seq<EventView>
    decreases events.len(),
{
    if events.len() == 0 {
        Seq::empty()
    } else if events.last().connection == connection {
        own(events.drop_last(), connection).push(events.last().event)
    } else {
        own(events.drop_last(), connection)
    }
}

/// The events `events`, all on one connection.
pub open spec fn on_connection(connection: int, events: Seq<EventView>) -> Seq<Tagged> {
    Seq::new(events.len(), |i: int| Tagged { connection, event: events[i] })
}

/// The connections after one more event: the event goes to the session of its
/// connection and to no other. An event on no connection at all goes nowhere.
pub open spec fn fleet_deliver(fleet: Seq<Task>, tagged: Tagged) -> Seq<Task> {
    let k = tagged.connection;
    if 0 <= k < fleet.len() {
        fleet.update(
            k,
            Task { rules: fleet[k].rules, course: deliver(fleet[k].rules, fleet[k].course, tagged.event) },
        )
    } else {
        fleet
    }
}

/// The connections after more events, delivered in the order in which they
/// happened.
pub open spec fn fleet_advance(fleet: Seq<Task>, events: Seq<Tagged>) -> Seq<Task>
    decreases events.len(),
{
    if events.len() == 0 {
        fleet
    } else {
        fleet_deliver(fleet_advance(fleet, events.drop_last()), events.last())
    }
}

/// Connections do not interfere: however the events of many connections are
/// interleaved, each connection takes the course that its own events alone
/// give it.
pub proof fn connections_do_not_interfere(fleet: Seq<Task>, events: Seq<Tagged>, j: int)
    requires
        0 <= j < fleet.len(),
    ensures
        fleet_advance(fleet, events).len() == fleet.len(),
        fleet_advance(fleet, events)[j].rules == fleet[j].rules,
        fleet_advance(fleet, events)[j].course == advance(
            fleet[j].rules,
            fleet[j].course,
            own(events, j),
        ),
    decreases events.len(),
{
    if events.len() > 0 {
        let before = events.drop_last();
        connections_do_not_interfere(fleet, before, j);
        if events.last().connection == j {
            let mine = own(before, j);
            assert(mine.push(events.last().event).drop_last() =~= mine);
        } else {
            let k = events.last().connection;
            if 0 <= k < fleet.len() {
                connections_do_not_interfere(fleet, before, k);
            }
        }
    }
}

/// Failures are contained: two histories that differ only in what happened on
/// other connections, a broken socket among them, leave a connection with the
/// same state and the same answers, and so with the same echoes.
pub proof fn failure_is_contained(fleet: Seq<Task>, calm: Seq<Tagged>, stormy: Seq<Tagged>, j: int)
    requires
        0 <= j < fleet.len(),
        own(calm, j) == own(stormy, j),
    ensures
        fleet_advance(fleet, calm)[j] == fleet_advance(fleet, stormy)[j],
{
    connections_do_not_interfere(fleet, calm, j);
    connections_do_not_interfere(fleet, stormy, j);
}

/// The events of one connection, tagged and picked out again, are those
/// events; picked out for another connection, they are none.
pub proof fn own_of_one_connection(events: Seq<EventView>, k: int, j: int)
    ensures
        own(on_connection(k, events), j) == if j == k {
            events
        } else {
            Seq::empty()
        },
    decreases events.len(),
{
    let tagged = on_connection(k, events);
    if events.len() > 0 {
        assert(tagged.drop_last() =~= on_connection(k, events.drop_last()));
        own_of_one_connection(events.drop_last(), k, j);
        if j == k {
            assert(events.drop_last().push(events.last()) =~= events);
        }
    } else {
        assert(events =~= Seq::empty());
    }
}

/// A wait holds up no one: while one connection waits for its delay to pass,
/// another that reads and echoes goes through a whole exchange. It writes its
/// chunk and reads again, and the first connection still waits.
pub proof fn a_wait_holds_up_no_one(fleet: Seq<Task>, waiting: int, busy: int, chunk: Seq<u8>)
    requires
        0 <= waiting < fleet.len(),
        0 <= busy < fleet.len(),
        waiting != busy,
        fleet[waiting].course.state is Delaying,
        fleet[busy].course.state == SessionState::Reading,
        echoes(fleet[busy].rules),
        0 < chunk.len() <= fleet[busy].rules.capacity,
    ensures
        ({
            let events = on_connection(busy, exchange(fleet[busy].rules, chunk));
            let after = fleet_advance(fleet, events);
            &&& after[waiting] == fleet[waiting]
            &&& after[busy].course.state == SessionState::Reading
            &&& written(after[busy].course.replies) == written(fleet[busy].course.replies).push(
                chunk,
            )
        }),
{
    let events = on_connection(busy, exchange(fleet[busy].rules, chunk));
    connections_do_not_interfere(fleet, events, waiting);
    connections_do_not_interfere(fleet, events, busy);
    own_of_one_connection(exchange(fleet[busy].rules, chunk), busy, waiting);
    own_of_one_connection(exchange(fleet[busy].rules, chunk), busy, busy);
    exchange_writes_the_chunk(fleet[busy].rules, fleet[busy].course, chunk);
}

} // verus!
