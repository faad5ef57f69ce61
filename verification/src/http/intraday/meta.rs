use vstd::prelude::*;
use vstd::string::StringExecFns;
use crate::http::{lemma_param_names_differ, query_list, Query, Request};
use crate::http::intraday::IntradayOptions;
use crate::text::{bool_string, bool_text};

verus! {

/// Fetching today's basic informations.
pub struct MetaRequest<'a> {
    odd_lot: bool,
    symbol_id: &'a str,
}

impl View for MetaRequest<'_> {
    type V = IntradayOptions;

    closed spec fn view(&self) -> IntradayOptions {
        IntradayOptions { symbol_id: self.symbol_id@, odd_lot: self.odd_lot }
    }
}

impl Default for MetaRequest<'_> {
    fn default() -> (r: Self)
        ensures
            r@.symbol_id == "2884"@,
            !r@.odd_lot,
    {
        MetaRequest::new()
    }
}

impl<'a> MetaRequest<'a> {
    pub fn new() -> (r: Self)
        ensures
            r@.symbol_id == "2884"@,
            !r@.odd_lot,
    {
        MetaRequest { symbol_id: "2884", odd_lot: false }
    }

    pub fn symbol_id(self, symbol_id: &'a str) -> (r: Self)
        ensures
            r@ == (IntradayOptions { symbol_id: symbol_id@, ..self@ }),
    {
        MetaRequest { symbol_id, ..self }
    }

    pub fn odd_lot(self, odd_lot: bool) -> (r: Self)
        ensures
            r@ == (IntradayOptions { odd_lot, ..self@ }),
    {
        MetaRequest { odd_lot, ..self }
    }

    /// Two requests with the same options ask with the same parameters, in
    /// the same order.
    pub proof fn lemma_queries_follow_options(self, other: Self)
        requires
            self@ == other@,
        ensures
            self.queries_spec() == other.queries_spec(),
    {
    }
}

impl Request for MetaRequest<'_> {
    const REQUEST_URL: &'static str = "https://api.fugle.tw/realtime/v0.3/intraday/meta";

    /// The symbol and the odd-lot flag, both always present.
    open spec fn queries_spec(&self) -> Seq<(Seq<char>, Seq<char>)> {
        seq![("symbolId"@, self@.symbol_id), ("oddLot"@, bool_text(self@.odd_lot))]
    }

    fn queries(&self) -> (ret: Vec<Query>) {
        let mut ret = Vec::with_capacity(2);
        ret.push(
            Query { param: String::from_str("symbolId"), value: String::from_str(self.symbol_id) },
        );
        ret.push(Query { param: String::from_str("oddLot"), value: bool_string(self.odd_lot) });
        proof {
            lemma_param_names_differ();
            assert(query_list(ret@) =~= self.queries_spec());
        }
        ret
    }
}

} // verus!
