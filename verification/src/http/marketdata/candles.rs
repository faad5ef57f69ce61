use vstd::prelude::*;
use vstd::string::StringExecFns;
use crate::http::{lemma_param_names_differ, query_list, Query, Request};
use crate::text::{join, join_text, texts};

verus! {

/// Fetching history stock information.
pub struct CandlesRequest<'a> {
    from: &'a str,
    to: &'a str,
    symbol_id: &'a str,
    fields: u8,
}

/// The options of a request for candles: the symbol, the two ends of the
/// date range and the selected fields, one bit for each.
pub struct CandlesOptions {
    pub symbol_id: Seq<char>,
    pub from: Seq<char>,
    pub to: Seq<char>,
    pub fields: u8,
}

impl View for CandlesRequest<'_> {
    type V = CandlesOptions;

    closed spec fn view(&self) -> CandlesOptions {
        CandlesOptions {
            symbol_id: self.symbol_id@,
            from: self.from@,
            to: self.to@,
            fields: self.fields,
        }
    }
}

impl Default for CandlesRequest<'_> {
    fn default() -> (r: Self)
        ensures
            r@ == (CandlesOptions { symbol_id: "2884"@, from: ""@, to: ""@, fields: 0 }),
    {
        CandlesRequest::new()
    }
}

/// A field of a candle that a request can select.
#[derive(Clone, Copy, Debug, PartialEq, Eq, Structural)]
pub enum CandleField {
    Open,
    High,
    Low,
    Close,
    Volume,
    Turnover,
    Change,
}

impl CandleField {
    /// The bit that stands for the field in a selection.
    pub open spec fn value_spec(self) -> u8 {
        match self {
            CandleField::Open => 2,
            CandleField::High => 4,
            CandleField::Low => 8,
            CandleField::Close => 16,
            CandleField::Volume => 32,
            CandleField::Turnover => 64,
            CandleField::Change => 128,
        }
    }

    /// The field's name as the vendor spells it.
    pub open spec fn name(self) -> Seq<char> {
        match self {
            CandleField::Open => "open"@,
            CandleField::High => "high"@,
            CandleField::Low => "low"@,
            CandleField::Close => "close"@,
            CandleField::Volume => "volume"@,
            CandleField::Turnover => "turnover"@,
            CandleField::Change => "change"@,
        }
    }

    /// Every field, in the order in which a request lists them.
    pub open spec fn all() -> Seq<CandleField> {
        seq![
            CandleField::Open,
            CandleField::High,
            CandleField::Low,
            CandleField::Close,
            CandleField::Volume,
            CandleField::Turnover,
            CandleField::Change,
        ]
    }

    pub fn value(&self) -> (v: u8)
        ensures
            v == self.value_spec(),
    {
        match *self {
            CandleField::Open => 2,
            CandleField::High => 4,
            CandleField::Low => 8,
            CandleField::Close => 16,
            CandleField::Volume => 32,
            CandleField::Turnover => 64,
            CandleField::Change => 128,
        }
    }

    pub fn iterator() -> (fields: Vec<CandleField>)
        ensures
            fields@ == Self::all(),
    {
        let mut fields = Vec::with_capacity(7);
        fields.push(CandleField::Open);
        fields.push(CandleField::High);
        fields.push(CandleField::Low);
        fields.push(CandleField::Close);
        fields.push(CandleField::Volume);
        fields.push(CandleField::Turnover);
        fields.push(CandleField::Change);
        proof {
            assert(fields@ =~= Self::all());
        }
        fields
    }

    pub fn to_string(&self) -> (s: String)
        ensures
            s@ == self.name(),
    {
        match *self {
            CandleField::Open => String::from_str("open"),
            CandleField::High => String::from_str("high"),
            CandleField::Low => String::from_str("low"),
            CandleField::Close => String::from_str("close"),
            CandleField::Volume => String::from_str("volume"),
            CandleField::Turnover => String::from_str("turnover"),
            CandleField::Change => String::from_str("change"),
        }
    }
}

/// Whether the selection `fields` holds the bit of `field`.
pub open spec fn selected(fields: u8, field: CandleField) -> bool {
    fields & field.value_spec() != 0
}

/// The names of the selected ones among the first `n` fields, in order.
pub open spec fn selected_names(fields: u8, n: nat) -> Seq<Seq<char>>
    decreases n,
{
    if n == 0 || n > CandleField::all().len() {
        Seq::empty()
    } else {
        let before = selected_names(fields, (n - 1) as nat);
        let field = CandleField::all()[n - 1];
        if selected(fields, field) {
            before.push(field.name())
        } else {
            before
        }
    }
}

/// The parameter `name` with `value`, left out where the value is empty.
pub open spec fn optional_param(name: Seq<char>, value: Seq<char>) -> Seq<(Seq<char>, Seq<char>)> {
    if value.len() > 0 {
        seq![(name, value)]
    } else {
        Seq::empty()
    }
}

/// The parameter that lists the selected fields, left out where none is
/// selected.
pub open spec fn fields_param(fields: u8) -> Seq<(Seq<char>, Seq<char>)> {
    let names = selected_names(fields, 7);
    if names.len() > 0 {
        seq![("fields"@, join_text(names, ","@))]
    } else {
        Seq::empty()
    }
}

impl<'a> CandlesRequest<'a> {
    pub fn new() -> (r: Self)
        ensures
            r@ == (CandlesOptions { symbol_id: "2884"@, from: ""@, to: ""@, fields: 0 }),
    {
        CandlesRequest { symbol_id: "2884", from: "", to: "", fields: 0 }
    }

    pub fn symbol_id(self, symbol_id: &'a str) -> (r: Self)
        ensures
            r@ == (CandlesOptions { symbol_id: symbol_id@, ..self@ }),
    {
        CandlesRequest { symbol_id, ..self }
    }

    pub fn from(self, day: &'a str) -> (r: Self)
        ensures
            r@ == (CandlesOptions { from: day@, ..self@ }),
    {
        CandlesRequest { from: day, ..self }
    }

    pub fn to(self, day: &'a str) -> (r: Self)
        ensures
            r@ == (CandlesOptions { to: day@, ..self@ }),
    {
        CandlesRequest { to: day, ..self }
    }

    /// Selects `field` and leaves every other field as it was.
    pub fn set_field(self, field: CandleField) -> (r: Self)
        ensures
            r@ == (CandlesOptions { fields: self@.fields | field.value_spec(), ..self@ }),
            selected(r@.fields, field),
            forall|other: CandleField|
                other != field ==> selected(r@.fields, other) == selected(self@.fields, other),
    {
        let bit = field.value();
        proof {
            lemma_set_field(self.fields, field);
        }
        CandlesRequest { fields: self.fields | bit, ..self }
    }

    /// Narrows the selection to `field` alone and then flips it: afterwards
    /// `field` is selected exactly if it was not before, and no other field
    /// is selected.
    pub fn unset_field(self, field: CandleField) -> (r: Self)
        ensures
            r@ == (CandlesOptions {
                fields: (self@.fields & field.value_spec()) ^ field.value_spec(),
                ..self@
            }),
            selected(r@.fields, field) == !selected(self@.fields, field),
            forall|other: CandleField| other != field ==> !selected(r@.fields, other),
    {
        let bit = field.value();
        proof {
            lemma_unset_field(self.fields, field);
        }
        CandlesRequest { fields: (self.fields & bit) ^ bit, ..self }
    }

    /// Two requests with the same options ask with the same parameters, in
    /// the same order.
    pub proof fn lemma_queries_follow_options(self, other: Self)
        requires
            self@ == other@,
        ensures
            self.queries_spec() == other.queries_spec(),
    {
    }
}

proof fn lemma_set_field(fields: u8, field: CandleField)
    ensures
        selected(fields | field.value_spec(), field),
        forall|other: CandleField|
            other != field ==> selected(fields | field.value_spec(), other) == selected(
                fields,
                other,
            ),
{
    let bit = field.value_spec();
    assert forall|other: CandleField| other != field implies selected(fields | bit, other)
        == selected(fields, other) by {
        let o = other.value_spec();
        assert((bit == 2 || bit == 4 || bit == 8 || bit == 16 || bit == 32 || bit == 64 || bit == 128)
            && (o == 2 || o == 4 || o == 8 || o == 16 || o == 32 || o == 64 || o == 128) && o != bit
            ==> (((fields | bit) & o) != 0) == ((fields & o) != 0)) by (bit_vector);
    }
    assert((bit == 2 || bit == 4 || bit == 8 || bit == 16 || bit == 32 || bit == 64 || bit == 128)
        ==> ((fields | bit) & bit) != 0) by (bit_vector);
}

proof fn lemma_unset_field(fields: u8, field: CandleField)
    ensures
        selected((fields & field.value_spec()) ^ field.value_spec(), field) == !selected(
            fields,
            field,
        ),
        forall|other: CandleField|
            other != field ==> !selected((fields & field.value_spec()) ^ field.value_spec(), other),
{
    let bit = field.value_spec();
    assert forall|other: CandleField| other != field implies !selected(
        (fields & bit) ^ bit,
        other,
    ) by {
        let o = other.value_spec();
        assert((bit == 2 || bit == 4 || bit == 8 || bit == 16 || bit == 32 || bit == 64 || bit == 128)
            && (o == 2 || o == 4 || o == 8 || o == 16 || o == 32 || o == 64 || o == 128) && o != bit
            ==> (((fields & bit) ^ bit) & o) == 0) by (bit_vector);
    }
    assert((bit == 2 || bit == 4 || bit == 8 || bit == 16 || bit == 32 || bit == 64 || bit == 128)
        ==> ((((fields & bit) ^ bit) & bit) != 0) == ((fields & bit) == 0)) by (bit_vector);
}

impl Request for CandlesRequest<'_> {
    const REQUEST_URL: &'static str = "https://api.fugle.tw/marketdata/v0.3/candles";

    /// The symbol, the start and the end of the range, each left out where
    /// it is empty, then the names of the selected fields, separated by
    /// commas, left out where no field is selected.
    open spec fn queries_spec(&self) -> Seq<(Seq<char>, Seq<char>)> {
        optional_param("symbolId"@, self@.symbol_id) + optional_param("from"@, self@.from)
            + optional_param("to"@, self@.to) + fields_param(self@.fields)
    }

    fn queries(&self) -> (ret: Vec<Query>) {
        let mut ret = Vec::with_capacity(4);
        if !self.symbol_id.is_empty() {
            ret.push(
                Query { param: String::from_str("symbolId"), value: String::from_str(self.symbol_id) },
            );
        }
        if !self.from.is_empty() {
            ret.push(Query { param: String::from_str("from"), value: String::from_str(self.from) });
        }
        if !self.to.is_empty() {
            ret.push(Query { param: String::from_str("to"), value: String::from_str(self.to) });
        }
        let all = CandleField::iterator();
        let mut fields: Vec<String> = Vec::new();
        let mut i: usize = 0;
        while i < all.len()
            invariant
                i <= all.len(),
                all@ == CandleField::all(),
                texts(fields@) == selected_names(self.fields, i as nat),
            decreases all.len() - i,
        {
            let field = all[i];
            if self.fields & field.value() != 0 {
                fields.push(field.to_string());
            }
            i += 1;
            proof {
                assert(texts(fields@) =~= selected_names(self.fields, i as nat));
            }
        }
        if !fields.is_empty() {
            ret.push(Query { param: String::from_str("fields"), value: join(&fields, ",") });
        }
        proof {
            lemma_param_names_differ();
            assert(query_list(ret@) =~= self.queries_spec());
        }
        ret
    }
}

} // verus!
