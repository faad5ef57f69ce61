//! The intraday session and its workers.

pub mod trace;
pub mod worker;

use vstd::prelude::*;
use vstd::string::StringExecFns;
use crate::errors::FugleError;
use crate::text::{bool_string, bool_text};

verus! {

pub const INTRADAY_CHART: &'static str = "wss://api.fugle.tw/realtime/v0.3/intraday/chart";

pub const INTRADAY_QUOTE: &'static str = "wss://api.fugle.tw/realtime/v0.3/intraday/quote";

pub const INTRADAY_META: &'static str = "wss://api.fugle.tw/realtime/v0.3/intraday/meta";

/// A stream that a session can subscribe to.
#[derive(Clone, Copy, Debug, PartialEq, Eq, Structural)]
pub enum Stream {
    Chart,
    Quote,
    Meta,
}

impl Stream {
    /// The address of the stream, without parameters.
    pub open spec fn endpoint_spec(self) -> Seq<char> {
        match self {
            Stream::Chart => INTRADAY_CHART@,
            Stream::Quote => INTRADAY_QUOTE@,
            Stream::Meta => INTRADAY_META@,
        }
    }

    pub fn endpoint(&self) -> (url: &'static str)
        ensures
            url@ == self.endpoint_spec(),
    {
        match *self {
            Stream::Chart => INTRADAY_CHART,
            Stream::Quote => INTRADAY_QUOTE,
            Stream::Meta => INTRADAY_META,
        }
    }
}

/// Accumulates the options of a session.
pub struct IntradayBuilder<'a> {
    token: &'a str,
    symbol_id: &'a str,
    is_odd_lot: bool,
}

/// The options of a session: the token, the symbol that its streams are
/// about, and whether they are about odd lots.
pub struct StreamOptions {
    pub token: Seq<char>,
    pub symbol_id: Seq<char>,
    pub odd_lot: bool,
}

impl View for IntradayBuilder<'_> {
    type V = StreamOptions;

    closed spec fn view(&self) -> StreamOptions {
        StreamOptions { token: self.token@, symbol_id: self.symbol_id@, odd_lot: self.is_odd_lot }
    }
}

/// The parameters with which every stream of a session is opened.
pub open spec fn stream_query(options: StreamOptions) -> Seq<char> {
    "symbolId="@ + options.symbol_id + "&apiToken="@ + options.token + "&oddLot="@ + bool_text(
        options.odd_lot,
    )
}

impl<'a> Default for IntradayBuilder<'a> {
    fn default() -> (b: IntradayBuilder<'a>)
        ensures
            b@ == (StreamOptions { token: "demo"@, symbol_id: ""@, odd_lot: false }),
    {
        IntradayBuilder::new()
    }
}

impl<'a> IntradayBuilder<'a> {
    /// A builder with the vendor's demo token, no symbol and whole lots.
    pub fn new() -> (b: IntradayBuilder<'a>)
        ensures
            b@ == (StreamOptions { token: "demo"@, symbol_id: ""@, odd_lot: false }),
    {
        IntradayBuilder { token: "demo", symbol_id: "", is_odd_lot: false }
    }

    /// Sets the personal token.
    pub fn token(self, token: &'a str) -> (b: IntradayBuilder<'a>)
        ensures
            b@ == (StreamOptions { token: token@, ..self@ }),
    {
        IntradayBuilder { token, ..self }
    }

    /// Sets the symbol that the streams are about.
    pub fn symbol_id(self, symbol_id: &'a str) -> (b: IntradayBuilder<'a>)
        ensures
            b@ == (StreamOptions { symbol_id: symbol_id@, ..self@ }),
    {
        IntradayBuilder { symbol_id, ..self }
    }

    /// Asks for odd lots.
    pub fn odd_lot(self) -> (b: IntradayBuilder<'a>)
        ensures
            b@ == (StreamOptions { odd_lot: true, ..self@ }),
    {
        IntradayBuilder { is_odd_lot: true, ..self }
    }

    /// A running session without workers.
    pub fn build(self) -> (session: Intraday)
        ensures
            session@ == (Session {
                uri: stream_query(self@),
                stopped: false,
                workers: Seq::empty(),
            }),
    {
        let mut uri = String::from_str("symbolId=");
        uri.append(self.symbol_id);
        uri.append("&apiToken=");
        uri.append(self.token);
        uri.append("&oddLot=");
        let flag = bool_string(self.is_odd_lot);
        uri.append(flag.as_str());
        Intraday { uri, workers: Vec::new(), done: false }
    }
}

/// What a session knows of one worker.
#[derive(Clone, Copy, Debug, PartialEq, Eq, Structural)]
pub struct Slot {
    /// The stream that the worker reads.
    pub stream: Stream,
    /// Whether the worker's handle is still to be waited for.
    pub pending: bool,
}

/// A session as plain values.
pub struct Session {
    pub uri: Seq<char>,
    pub stopped: bool,
    pub workers: Seq<Slot>,
}

/// The session that supervises the workers of its subscriptions. It keeps no
/// thread and no connection itself: it decides what is opened, which worker
/// is registered, and which handles a teardown has to wait for.
pub struct Intraday {
    uri: String,
    workers: Vec<Slot>,
    done: bool,
}

impl View for Intraday {
    type V = Session;

    closed spec fn view(&self) -> Session {
        Session { uri: self.uri@, stopped: self.done, workers: self.workers@ }
    }
}

/// The slot of a worker whose handle was waited for.
pub open spec fn joined(slot: Slot) -> Slot {
    Slot { pending: false, ..slot }
}

/// The numbers of the workers among the first `n` whose handles are still to
/// be waited for, in the order in which they were registered.
pub open spec fn pending_ids(workers: Seq<Slot>, n: nat) -> Seq<usize>
    decreases n,
{
    if n == 0 || n > workers.len() {
        Seq::empty()
    } else {
        let before = pending_ids(workers, (n - 1) as nat);
        if workers[n - 1].pending {
            before.push((n - 1) as usize)
        } else {
            before
        }
    }
}

/// The slots of the same workers once every handle was waited for.
pub open spec fn all_joined(workers: Seq<Slot>) -> Seq<Slot> {
    workers.map_values(|slot: Slot| joined(slot))
}

/// The session after a teardown: stopped, with no handle left to wait for.
pub open spec fn torn_down(session: Session) -> Session {
    Session { stopped: true, workers: all_joined(session.workers), ..session }
}

/// The session after a subscription whose handshake had this outcome.
pub open spec fn subscribed(session: Session, stream: Stream, connected: bool) -> Session {
    if connected {
        Session { workers: session.workers.push(Slot { stream, pending: true }), ..session }
    } else {
        session
    }
}

impl Intraday {
    /// The address at which a stream of this session is opened.
    pub fn url(&self, stream: Stream) -> (url: String)
        ensures
            url@ == stream.endpoint_spec() + "?"@ + self@.uri,
    {
        let mut url = String::from_str(stream.endpoint());
        url.append("?");
        url.append(self.uri.as_str());
        url
    }

    pub fn is_stopped(&self) -> (stopped: bool)
        ensures
            stopped == self@.stopped,
    {
        self.done
    }

    /// Registers the worker of a subscription once its handshake is over. A
    /// failed handshake is handed back as it is and registers nothing; after
    /// a successful one the worker's number is returned.
    pub fn subscribe(&mut self, stream: Stream, handshake: Result<(), FugleError>) -> (r: Result<
        usize,
        FugleError,
    >)
        ensures
            final(self)@ == subscribed(old(self)@, stream, handshake is Ok),
            match handshake {
                Ok(_) => r == Ok::<usize, FugleError>(old(self)@.workers.len() as usize),
                Err(cause) => r == Err::<usize, FugleError>(cause),
            },
    {
        match handshake {
            Ok(_) => {
                let id = self.workers.len();
                self.workers.push(Slot { stream, pending: true });
                Ok(id)
            },
            Err(cause) => Err(cause),
        }
    }

    /// Subscribes to the chart stream.
    pub fn chart(&mut self, handshake: Result<(), FugleError>) -> (r: Result<usize, FugleError>)
        ensures
            final(self)@ == subscribed(old(self)@, Stream::Chart, handshake is Ok),
            match handshake {
                Ok(_) => r == Ok::<usize, FugleError>(old(self)@.workers.len() as usize),
                Err(cause) => r == Err::<usize, FugleError>(cause),
            },
    {
        self.subscribe(Stream::Chart, handshake)
    }

    /// Subscribes to the meta stream.
    pub fn meta(&mut self, handshake: Result<(), FugleError>) -> (r: Result<usize, FugleError>)
        ensures
            final(self)@ == subscribed(old(self)@, Stream::Meta, handshake is Ok),
            match handshake {
                Ok(_) => r == Ok::<usize, FugleError>(old(self)@.workers.len() as usize),
                Err(cause) => r == Err::<usize, FugleError>(cause),
            },
    {
        self.subscribe(Stream::Meta, handshake)
    }

    /// Subscribes to the quote stream.
    pub fn quote(&mut self, handshake: Result<(), FugleError>) -> (r: Result<usize, FugleError>)
        ensures
            final(self)@ == subscribed(old(self)@, Stream::Quote, handshake is Ok),
            match handshake {
                Ok(_) => r == Ok::<usize, FugleError>(old(self)@.workers.len() as usize),
                Err(cause) => r == Err::<usize, FugleError>(cause),
            },
    {
        self.subscribe(Stream::Quote, handshake)
    }

    /// Stops the session and names the workers to wait for: each one whose
    /// handle was not waited for yet, once, in the order of registration.
    pub fn teardown(&mut self) -> (ids: Vec<usize>)
        ensures
            final(self)@ == torn_down(old(self)@),
            ids@ == pending_ids(old(self)@.workers, old(self)@.workers.len()),
    {
        self.done = true;
        let mut ids: Vec<usize> = Vec::new();
        let mut slots: Vec<Slot> = Vec::new();
        let mut i: usize = 0;
        while i < self.workers.len()
            invariant
                i <= self.workers.len(),
                self.workers@ == old(self).workers@,
                self.uri == old(self).uri,
                self.done,
                slots@ == self.workers@.take(i as int).map_values(|slot: Slot| joined(slot)),
                ids@ == pending_ids(self.workers@, i as nat),
            decreases self.workers.len() - i,
        {
            let slot = self.workers[i];
            if slot.pending {
                ids.push(i);
            }
            slots.push(Slot { stream: slot.stream, pending: false });
            i += 1;
            proof {
                assert(slots@ =~= self.workers@.take(i as int).map_values(|slot: Slot| joined(slot)));
            }
        }
        proof {
            assert(self.workers@.take(i as int) =~= self.workers@);
        }
        self.workers = slots;
        ids
    }
}

/// Tearing a session down a second time changes nothing and names no worker
/// to wait for: no handle is waited for twice.
pub proof fn lemma_teardown_is_idempotent(session: Session)
    ensures
        torn_down(torn_down(session)) == torn_down(session),
        pending_ids(torn_down(session).workers, torn_down(session).workers.len())
            == Seq::<usize>::empty(),
{
    let once = torn_down(session);
    assert(torn_down(once).workers =~= once.workers);
    lemma_none_pending(once.workers, once.workers.len());
}

/// Where no handle is left to wait for, none is named.
pub proof fn lemma_none_pending(workers: Seq<Slot>, n: nat)
    requires
        forall|i: int| 0 <= i < workers.len() ==> !workers[i].pending,
    ensures
        pending_ids(workers, n) == Seq::<usize>::empty(),
    decreases n,
{
    if n > 0 && n <= workers.len() {
        lemma_none_pending(workers, (n - 1) as nat);
    }
}

/// A teardown names every worker whose handle is still to be waited for,
/// names no other, and names none twice: the numbers come in rising order.
/// After it no handle is left to wait for.
pub proof fn lemma_teardown_names_the_pending(workers: Seq<Slot>, n: nat)
    requires
        n <= workers.len() <= usize::MAX,
    ensures
        forall|i: int|
            0 <= i < n && workers[i].pending ==> pending_ids(workers, n).contains(i as usize),
        forall|k: int|
            0 <= k < pending_ids(workers, n).len() ==> (#[trigger] pending_ids(workers, n)[k]) < n
                && workers[pending_ids(workers, n)[k] as int].pending,
        forall|j: int, k: int|
            0 <= j < k < pending_ids(workers, n).len() ==> pending_ids(workers, n)[j]
                < pending_ids(workers, n)[k],
        forall|i: int|
            0 <= i < workers.len() ==> !(#[trigger] all_joined(workers)[i]).pending,
    decreases n,
{
    if n > 0 {
        lemma_teardown_names_the_pending(workers, (n - 1) as nat);
        let before = pending_ids(workers, (n - 1) as nat);
        let ids = pending_ids(workers, n);
        if workers[n - 1].pending {
            assert(ids == before.push((n - 1) as usize));
            assert(ids[ids.len() - 1] == (n - 1) as usize);
            assert forall|i: int| 0 <= i < n && workers[i].pending implies ids.contains(
                i as usize,
            ) by {
                if i < n - 1 {
                    let k = choose|k: int| 0 <= k < before.len() && before[k] == i as usize;
                    assert(ids[k] == i as usize);
                }
            }
        }
    }
}

/// Once a session is stopped it stays stopped, whatever is done with it.
pub proof fn lemma_stop_is_final(session: Session, stream: Stream, connected: bool)
    ensures
        torn_down(session).stopped,
        session.stopped ==> subscribed(session, stream, connected).stopped,
{
}

} // verus!
