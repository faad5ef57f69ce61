//! What a worker does over a whole run of arrivals: which frames end up
//! with the consumer, and in what order.

use vstd::prelude::*;
use crate::websocket::intraday::worker::{advance, Action, Event, Stage, WorkerState};

verus! {

/// What one read of the connection comes to.
pub enum Arrival {
    /// No frame could be read.
    Failure,
    /// A frame came in.
    Frame {
        /// The text of the frame.
        text: String,
        /// Whether the text is a message of the subscription.
        decodes: bool,
        /// Whether the consumer is still there to take a message.
        taken: bool,
    },
}

impl Arrival {
    /// Whether the arrival is a message that is handed to the consumer.
    pub open spec fn offered(self) -> bool {
        self matches Arrival::Frame { text, decodes, taken } && text@.len() > 0 && decodes
    }

    /// The events that the worker hears of for this arrival when every
    /// action it asks for is carried out, from the look at the stop flag on.
    pub open spec fn events(self) -> Seq<Event> {
        match self {
            Arrival::Failure => seq![Event::Running, Event::ReadFailed],
            Arrival::Frame { text, decodes, taken } => if text@.len() == 0 {
                seq![Event::Running, Event::Frame(text)]
            } else if !decodes {
                seq![Event::Running, Event::Frame(text), Event::DecodeFailed]
            } else if taken {
                seq![Event::Running, Event::Frame(text), Event::Decoded, Event::Forwarded]
            } else {
                seq![Event::Running, Event::Frame(text), Event::Decoded, Event::ReceiverGone]
            },
        }
    }
}

/// The events of a run of arrivals, one after the other.
pub open spec fn script(arrivals: Seq<Arrival>) -> Seq<Event>
    decreases arrivals.len(),
{
    if arrivals.len() == 0 {
        Seq::empty()
    } else {
        script(arrivals.drop_last()) + arrivals.last().events()
    }
}

/// The texts of the messages among the arrivals, in the order of arrival.
pub open spec fn messages(arrivals: Seq<Arrival>) -> Seq<Seq<char>>
    decreases arrivals.len(),
{
    if arrivals.len() == 0 {
        Seq::empty()
    } else if arrivals.last().offered() {
        messages(arrivals.drop_last()).push(arrivals.last()->text@)
    } else {
        messages(arrivals.drop_last())
    }
}

/// A worker under way: its state, the text of the frame that was read last,
/// and the texts that it asked to hand to the consumer so far.
pub struct Progress {
    pub state: WorkerState,
    pub held: Seq<char>,
    pub handed: Seq<Seq<char>>,
}

/// The worker after one more event: a frame that arrives is held, and where
/// the worker asks for it in turn, what is held is handed on.
pub open spec fn after(progress: Progress, event: Event) -> Progress {
    let (state, step) = advance(progress.state, event);
    let held = if progress.state.stage == Stage::Receiving && event is Frame {
        event->Frame_0@
    } else {
        progress.held
    };
    let handed = if step.action == Action::Forward && progress.state.stage == Stage::Decoding {
        progress.handed.push(held)
    } else {
        progress.handed
    };
    Progress { state, held, handed }
}

/// The worker after a run of events.
pub open spec fn run(progress: Progress, events: Seq<Event>) -> Progress
    decreases events.len(),
{
    if events.len() == 0 {
        progress
    } else {
        after(run(progress, events.drop_last()), events.last())
    }
}

/// Running over one more event is taking it in where the run before ended.
pub proof fn lemma_run_one_more(progress: Progress, events: Seq<Event>, event: Event)
    ensures
        run(progress, events.push(event)) == after(run(progress, events), event),
{
    assert(events.push(event).drop_last() =~= events);
}

/// Running over two runs of events, one after the other, is running over
/// the second from where the first ended.
pub proof fn lemma_run_in_two(progress: Progress, first: Seq<Event>, second: Seq<Event>)
    ensures
        run(progress, first + second) == run(run(progress, first), second),
    decreases second.len(),
{
    if second.len() == 0 {
        assert(first + second =~= first);
    } else {
        lemma_run_in_two(progress, first, second.drop_last());
        assert((first + second).drop_last() =~= first + second.drop_last());
        assert((first + second).last() == second.last());
    }
}

/// One arrival takes a worker from one look at the stop flag to the next,
/// and hands the consumer its text exactly if it is a message.
pub proof fn lemma_one_arrival(progress: Progress, arrival: Arrival)
    requires
        progress.state.stage == Stage::Polling,
    ensures
        run(progress, arrival.events()).state.stage == Stage::Polling,
        run(progress, arrival.events()).handed == if arrival.offered() {
            progress.handed.push(arrival->text@)
        } else {
            progress.handed
        },
{
    let none = Seq::<Event>::empty();
    assert(run(progress, none) == progress);
    match arrival {
        Arrival::Failure => {
            lemma_run_one_more(progress, none, Event::Running);
            lemma_run_one_more(progress, none.push(Event::Running), Event::ReadFailed);
            assert(arrival.events() =~= none.push(Event::Running).push(Event::ReadFailed));
        },
        Arrival::Frame { text, decodes, taken } => {
            let read = none.push(Event::Running).push(Event::Frame(text));
            lemma_run_one_more(progress, none, Event::Running);
            lemma_run_one_more(progress, none.push(Event::Running), Event::Frame(text));
            if text@.len() == 0 {
                assert(arrival.events() =~= read);
            } else if !decodes {
                lemma_run_one_more(progress, read, Event::DecodeFailed);
                assert(arrival.events() =~= read.push(Event::DecodeFailed));
            } else {
                let last = if taken {
                    Event::Forwarded
                } else {
                    Event::ReceiverGone
                };
                lemma_run_one_more(progress, read, Event::Decoded);
                lemma_run_one_more(progress, read.push(Event::Decoded), last);
                assert(arrival.events() =~= read.push(Event::Decoded).push(last));
            }
        },
    }
}

/// Over any run of arrivals, the consumer is handed the messages among them,
/// each once and in the order of arrival, and nothing else: neither an empty
/// frame, nor a malformed one, nor a failed read adds to them or ends the
/// worker.
pub proof fn lemma_messages_in_order(progress: Progress, arrivals: Seq<Arrival>)
    requires
        progress.state.stage == Stage::Polling,
    ensures
        run(progress, script(arrivals)).state.stage == Stage::Polling,
        run(progress, script(arrivals)).handed == progress.handed + messages(arrivals),
    decreases arrivals.len(),
{
    if arrivals.len() == 0 {
        assert(progress.handed + messages(arrivals) =~= progress.handed);
    } else {
        let before = arrivals.drop_last();
        let last = arrivals.last();
        lemma_messages_in_order(progress, before);
        lemma_run_in_two(progress, script(before), last.events());
        let midway = run(progress, script(before));
        lemma_one_arrival(midway, last);
        if last.offered() {
            assert((progress.handed + messages(before)).push(last->text@) =~= progress.handed
                + messages(arrivals));
        }
    }
}

} // verus!
