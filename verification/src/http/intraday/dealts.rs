use vstd::prelude::*;
use vstd::string::StringExecFns;
use crate::http::{lemma_param_names_differ, query_list, Query, Request};
use crate::text::{bool_string, bool_text, decimal_string, decimal_text};

verus! {

/// Fetching today's advantage information.
pub struct DealtsRequest<'a> {
    symbol_id: &'a str,
    odd_lot: bool,
    limit: usize,
    offset: usize,
}

/// The options of a request for dealts: those of every intraday request and
/// the window of the page asked for.
pub struct DealtsOptions {
    pub symbol_id: Seq<char>,
    pub odd_lot: bool,
    pub limit: nat,
    pub offset: nat,
}

impl View for DealtsRequest<'_> {
    type V = DealtsOptions;

    closed spec fn view(&self) -> DealtsOptions {
        DealtsOptions {
            symbol_id: self.symbol_id@,
            odd_lot: self.odd_lot,
            limit: self.limit as nat,
            offset: self.offset as nat,
        }
    }
}

impl Default for DealtsRequest<'_> {
    fn default() -> (r: Self)
        ensures
            r@ == (DealtsOptions { symbol_id: "2884"@, odd_lot: false, limit: 0, offset: 0 }),
    {
        DealtsRequest::new()
    }
}

impl<'a> DealtsRequest<'a> {
    pub fn new() -> (r: Self)
        ensures
            r@ == (DealtsOptions { symbol_id: "2884"@, odd_lot: false, limit: 0, offset: 0 }),
    {
        DealtsRequest { symbol_id: "2884", odd_lot: false, limit: 0, offset: 0 }
    }

    pub fn symbol_id(self, symbol_id: &'a str) -> (r: Self)
        ensures
            r@ == (DealtsOptions { symbol_id: symbol_id@, ..self@ }),
    {
        DealtsRequest { symbol_id, ..self }
    }

    pub fn odd_lot(self, odd_lot: bool) -> (r: Self)
        ensures
            r@ == (DealtsOptions { odd_lot, ..self@ }),
    {
        DealtsRequest { odd_lot, ..self }
    }

    pub fn limit(self, limit: usize) -> (r: Self)
        ensures
            r@ == (DealtsOptions { limit: limit as nat, ..self@ }),
    {
        DealtsRequest { limit, ..self }
    }

    pub fn offset(self, offset: usize) -> (r: Self)
        ensures
            r@ == (DealtsOptions { offset: offset as nat, ..self@ }),
    {
        DealtsRequest { offset, ..self }
    }

    /// Two requests with the same options ask with the same parameters, in
    /// the same order.
    pub proof fn lemma_queries_follow_options(self, other: Self)
        requires
            self@ == other@,
        ensures
            self.queries_spec() == other.queries_spec(),
    {
    }
}

impl Request for DealtsRequest<'_> {
    const REQUEST_URL: &'static str = "https://api.fugle.tw/realtime/v0.3/intraday/dealts";

    /// The symbol, the odd-lot flag, the limit and the offset, all four
    /// always present, the two numbers as decimal numerals.
    open spec fn queries_spec(&self) -> Seq<(Seq<char>, Seq<char>)> {
        seq![
            ("symbolId"@, self@.symbol_id),
            ("oddLot"@, bool_text(self@.odd_lot)),
            ("limit"@, decimal_text(self@.limit)),
            ("offset"@, decimal_text(self@.offset)),
        ]
    }

    fn queries(&self) -> (ret: Vec<Query>) {
        let mut ret = Vec::with_capacity(4);
        ret.push(
            Query { param: String::from_str("symbolId"), value: String::from_str(self.symbol_id) },
        );
        ret.push(Query { param: String::from_str("oddLot"), value: bool_string(self.odd_lot) });
        ret.push(
            Query { param: String::from_str("limit"), value: decimal_string(self.limit as u64) },
        );
        ret.push(
            Query { param: String::from_str("offset"), value: decimal_string(self.offset as u64) },
        );
        proof {
            lemma_param_names_differ();
            assert(query_list(ret@) =~= self.queries_spec());
        }
        ret
    }
}

} // verus!
