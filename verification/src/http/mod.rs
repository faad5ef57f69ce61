//! Query descriptors and the decisions of the request dispatcher.

pub mod intraday;
pub mod marketdata;

use vstd::prelude::*;
use vstd::string::StringExecFns;
use crate::errors::{classify, classify_spec, ErrorResponse, FugleError};

verus! {

/// One name/value pair of a query string.
pub struct Query {
    pub param: String,
    pub value: String,
}

impl View for Query {
    type V = (Seq<char>, Seq<char>);

    open spec fn view(&self) -> (Seq<char>, Seq<char>) {
        (self.param@, self.value@)
    }
}

/// A list of query parameters as plain name/value pairs.
pub open spec fn query_list(queries: Seq<Query>) -> Seq<(Seq<char>, Seq<char>)> {
    queries.map_values(|q: Query| q@)
}

/// No parameter name occurs twice in the list.
pub open spec fn distinct_params(queries: Seq<(Seq<char>, Seq<char>)>) -> bool {
    forall|i: int, j: int| 0 <= i < j < queries.len() ==> queries[i].0 != queries[j].0
}

/// A description of one endpoint: where it lives and which parameters the
/// options of a request turn into.
pub trait Request {
    const REQUEST_URL: &'static str;

    /// The parameters of this request, in the order in which they are sent.
    spec fn queries_spec(&self) -> Seq<(Seq<char>, Seq<char>)>;

    fn queries(&self) -> (ret: Vec<Query>)
        ensures
            query_list(ret@) == self.queries_spec(),
            distinct_params(self.queries_spec()),
    ;
}

/// Accumulates the credentials with which requests are sent.
pub struct RestfulBuilder<'a> {
    token: &'a str,
    read_timeout_sec: u64,
}

/// The credentials of a dispatcher: the token that is sent along with every
/// request, and the read timeout in seconds.
pub struct Credentials {
    pub token: Seq<char>,
    pub read_timeout_sec: u64,
}

impl View for RestfulBuilder<'_> {
    type V = Credentials;

    closed spec fn view(&self) -> Credentials {
        Credentials { token: self.token@, read_timeout_sec: self.read_timeout_sec }
    }
}

impl<'a> Default for RestfulBuilder<'a> {
    fn default() -> (b: RestfulBuilder<'a>)
        ensures
            b@ == (Credentials { token: "demo"@, read_timeout_sec: 3 }),
    {
        RestfulBuilder::new()
    }
}

impl<'a> RestfulBuilder<'a> {
    /// A builder with the vendor's demo token and a read timeout of three
    /// seconds.
    pub fn new() -> (b: RestfulBuilder<'a>)
        ensures
            b@ == (Credentials { token: "demo"@, read_timeout_sec: 3 }),
    {
        RestfulBuilder { token: "demo", read_timeout_sec: 3 }
    }

    /// Sets the personal token.
    pub fn token(self, token: &'a str) -> (b: RestfulBuilder<'a>)
        ensures
            b@ == (Credentials { token: token@, ..self@ }),
    {
        RestfulBuilder { token, ..self }
    }

    /// Sets the read timeout, in seconds.
    pub fn read_timeout_sec(self, sec: u64) -> (b: RestfulBuilder<'a>)
        ensures
            b@ == (Credentials { read_timeout_sec: sec, ..self@ }),
    {
        RestfulBuilder { read_timeout_sec: sec, ..self }
    }

    /// The token as it was set.
    pub fn api_token(&self) -> (token: &'a str)
        ensures
            token@ == self@.token,
    {
        self.token
    }

    /// The read timeout as it was set, in seconds.
    pub fn read_timeout(&self) -> (sec: u64)
        ensures
            sec == self@.read_timeout_sec,
    {
        self.read_timeout_sec
    }
}

/// What goes out for one request: the endpoint and the full parameter list.
pub struct Outbound {
    pub url: &'static str,
    pub queries: Vec<Query>,
}

/// The parameters that go out for a request: the token first, then the
/// request's own parameters in their order.
pub open spec fn outbound_queries(
    token: Seq<char>,
    queries: Seq<(Seq<char>, Seq<char>)>,
) -> Seq<(Seq<char>, Seq<char>)> {
    seq![("apiToken"@, token)] + queries
}

/// Builds what goes out for `request` under `token`.
pub fn prepare<R: Request>(token: &str, request: &R) -> (out: Outbound)
    ensures
        out.url@ == R::REQUEST_URL@,
        query_list(out.queries@) == outbound_queries(token@, request.queries_spec()),
{
    let mut queries = Vec::new();
    queries.push(Query { param: String::from_str("apiToken"), value: String::from_str(token) });
    let mut own = request.queries();
    let ghost own_before = own@;
    queries.append(&mut own);
    proof {
        assert(query_list(queries@) =~= outbound_queries(token@, query_list(own_before)));
    }
    Outbound { url: R::REQUEST_URL, queries }
}

/// Whether a reply with this status carries the response that was asked for.
pub open spec fn is_success(status: u16) -> bool {
    200 <= status < 300
}

/// What a call comes to once the body of the reply was decoded as a
/// response.
pub open spec fn response_outcome<T>(decoded: Result<T, serde_json::Error>) -> Result<
    T,
    FugleError,
> {
    match decoded {
        Ok(value) => Ok(value),
        Err(cause) => Err(FugleError::SerdeJson(cause)),
    }
}

/// Turns a reply into the result of the call. A reply with a success status
/// is decoded as the response, and a failure to decode it is an error of
/// its own; any other reply is decoded as the vendor's error payload and
/// classified by its status.
pub fn settle<T, D, E>(status: u16, body: &str, decode: D, decode_error: E) -> (r: Result<
    T,
    FugleError,
>) where
    D: FnOnce(&str) -> Result<T, serde_json::Error>,
    E: FnOnce(&str) -> Result<ErrorResponse, serde_json::Error>,

    requires
        call_requires(decode, (body,)),
        call_requires(decode_error, (body,)),
    ensures
        is_success(status) ==> exists|decoded: Result<T, serde_json::Error>|
            call_ensures(decode, (body,), decoded) && r == response_outcome(decoded),
        !is_success(status) ==> exists|decoded: Result<ErrorResponse, serde_json::Error>|
            call_ensures(decode_error, (body,), decoded) && r == Err::<T, FugleError>(
                classify_spec(status, decoded),
            ),
{
    if 200 <= status && status < 300 {
        let decoded = decode(body);
        let ghost seen = decoded;
        let r = match decoded {
            Ok(value) => Ok(value),
            Err(cause) => Err(FugleError::SerdeJson(cause)),
        };
        proof {
            assert(call_ensures(decode, (body,), seen) && r == response_outcome(seen));
        }
        r
    } else {
        let decoded = decode_error(body);
        Err(classify(status, decoded))
    }
}

/// What came back for a request: the status and the body as text.
pub struct Reply<'a> {
    pub status: u16,
    pub body: &'a str,
}

/// Turns what an exchange came to into the result of the call. An exchange
/// that failed ends the call with its cause, and nothing is decoded; a
/// reply is settled by its status.
pub fn conclude<'a, T, D, E>(
    exchange: Result<Reply<'a>, FugleError>,
    decode: D,
    decode_error: E,
) -> (r: Result<T, FugleError>) where
    D: FnOnce(&str) -> Result<T, serde_json::Error>,
    E: FnOnce(&str) -> Result<ErrorResponse, serde_json::Error>,

    requires
        exchange matches Ok(reply) ==> call_requires(decode, (reply.body,)) && call_requires(
            decode_error,
            (reply.body,),
        ),
    ensures
        match exchange {
            Err(cause) => r == Err::<T, FugleError>(cause),
            Ok(reply) => {
                &&& is_success(reply.status) ==> exists|decoded: Result<T, serde_json::Error>|
                    call_ensures(decode, (reply.body,), decoded) && r == response_outcome(decoded)
                &&& !is_success(reply.status) ==> exists|
                    decoded: Result<ErrorResponse, serde_json::Error>,
                |
                    call_ensures(decode_error, (reply.body,), decoded) && r == Err::<
                        T,
                        FugleError,
                    >(classify_spec(reply.status, decoded))
            },
        },
{
    match exchange {
        Err(cause) => Err(cause),
        Ok(reply) => settle(reply.status, reply.body, decode, decode_error),
    }
}

/// The parameter names that the endpoints use differ from one another.
pub proof fn lemma_param_names_differ()
    ensures
        "apiToken"@ != "symbolId"@,
        "apiToken"@ != "oddLot"@,
        "apiToken"@ != "limit"@,
        "apiToken"@ != "offset"@,
        "apiToken"@ != "from"@,
        "apiToken"@ != "to"@,
        "apiToken"@ != "fields"@,
        "symbolId"@ != "oddLot"@,
        "symbolId"@ != "limit"@,
        "symbolId"@ != "offset"@,
        "symbolId"@ != "from"@,
        "symbolId"@ != "to"@,
        "symbolId"@ != "fields"@,
        "oddLot"@ != "limit"@,
        "oddLot"@ != "offset"@,
        "oddLot"@ != "from"@,
        "oddLot"@ != "to"@,
        "oddLot"@ != "fields"@,
        "limit"@ != "offset"@,
        "limit"@ != "from"@,
        "limit"@ != "to"@,
        "limit"@ != "fields"@,
        "offset"@ != "from"@,
        "offset"@ != "to"@,
        "offset"@ != "fields"@,
        "from"@ != "to"@,
        "from"@ != "fields"@,
        "to"@ != "fields"@,
{
    reveal_strlit("apiToken");
    reveal_strlit("symbolId");
    reveal_strlit("oddLot");
    reveal_strlit("limit");
    reveal_strlit("offset");
    reveal_strlit("from");
    reveal_strlit("to");
    reveal_strlit("fields");
    assert("apiToken"@.len() == 8 && "apiToken"@[0] == 'a' && "apiToken"@[1] == 'p');
    assert("symbolId"@.len() == 8 && "symbolId"@[0] == 's' && "symbolId"@[1] == 'y');
    assert("oddLot"@.len() == 6 && "oddLot"@[0] == 'o' && "oddLot"@[1] == 'd');
    assert("limit"@.len() == 5 && "limit"@[0] == 'l' && "limit"@[1] == 'i');
    assert("offset"@.len() == 6 && "offset"@[0] == 'o' && "offset"@[1] == 'f');
    assert("from"@.len() == 4 && "from"@[0] == 'f' && "from"@[1] == 'r');
    assert("to"@.len() == 2 && "to"@[0] == 't' && "to"@[1] == 'o');
    assert("fields"@.len() == 6 && "fields"@[0] == 'f' && "fields"@[1] == 'i');
}

} // verus!
