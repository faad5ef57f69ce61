use fugle::errors::{ErrorDetail, ErrorKind, ErrorResponse, FugleError};
use fugle::http::intraday::{ChartRequest, DealtsRequest, MetaRequest, QuoteRequest, VolumesRequest};
use fugle::http::marketdata::{CandleField, CandlesRequest};
use fugle::http::{conclude, prepare, settle, Outbound, Reply, Request, RestfulBuilder};

/// What the tests read out of a response.
#[derive(Debug)]
struct Answer {
    symbol_id: String,
    typ: String,
    turnover: u64,
    volume: u64,
}

fn shape_error(text: &str) -> serde_json::Error {
    <serde_json::Error as serde::de::Error>::custom(text)
}

fn text_at<'a>(value: &'a serde_json::Value, name: &str) -> Result<&'a str, serde_json::Error> {
    value.get(name).and_then(|v| v.as_str()).ok_or_else(|| shape_error("a text is missing"))
}

fn decode_intraday(body: &str) -> Result<Answer, serde_json::Error> {
    let value: serde_json::Value = serde_json::from_str(body)?;
    let info = value
        .get("data")
        .and_then(|v| v.get("info"))
        .ok_or_else(|| shape_error("info is missing"))?;
    Ok(Answer {
        symbol_id: text_at(info, "symbolId")?.to_string(),
        typ: text_at(info, "type")?.to_string(),
        turnover: 0,
        volume: 0,
    })
}

fn decode_candles(body: &str) -> Result<Answer, serde_json::Error> {
    let value: serde_json::Value = serde_json::from_str(body)?;
    let first = value
        .get("candles")
        .and_then(|v| v.get(0))
        .ok_or_else(|| shape_error("no candle"))?;
    Ok(Answer {
        symbol_id: text_at(&value, "symbol")?.to_string(),
        typ: text_at(&value, "type")?.to_string(),
        turnover: first.get("turnover").and_then(|v| v.as_u64()).unwrap_or(0),
        volume: first.get("volume").and_then(|v| v.as_u64()).unwrap_or(0),
    })
}

fn decode_error(body: &str) -> Result<ErrorResponse, serde_json::Error> {
    let value: serde_json::Value = serde_json::from_str(body)?;
    let version = value.get("apiVersion").and_then(|v| v.as_str());
    let detail = value.get("error");
    if let (Some(version), Some(detail)) = (version, detail) {
        let code = detail.get("code").and_then(|v| v.as_i64()).unwrap_or(0);
        let message = detail.get("message").and_then(|v| v.as_str()).unwrap_or("");
        return Ok(ErrorResponse::IntradayError {
            api_version: version.to_string(),
            error: ErrorDetail { code: code as i32, message: message.to_string() },
        });
    }
    let code = value.get("statusCode").and_then(|v| v.as_i64());
    let message = value.get("message").and_then(|v| v.as_str());
    if let (Some(code), Some(message)) = (code, message) {
        return Ok(ErrorResponse::MarketdataError {
            status_code: code as i32,
            message: message.to_string(),
        });
    }
    Err(shape_error("data did not match any variant of ErrorResponse"))
}

/// A stand-in for the vendor: it answers from the parameters that go out.
struct Vendor {
    served: usize,
    quota: usize,
}

fn param<'a>(out: &'a Outbound, name: &str) -> Option<&'a str> {
    out.queries.iter().find(|q| q.param == name).map(|q| q.value.as_str())
}

fn intraday_error(code: u16, message: &str) -> (u16, String) {
    let body = format!(
        "{{\"apiVersion\":\"0.3.0\",\"error\":{{\"code\":{},\"message\":\"{}\"}}}}",
        code, message
    );
    (code, body)
}

fn marketdata_error(code: u16, message: &str) -> (u16, String) {
    (code, format!("{{\"statusCode\":{},\"message\":\"{}\"}}", code, message))
}

impl Vendor {
    fn new() -> Vendor {
        Vendor { served: 0, quota: 60 }
    }

    fn with_quota(quota: usize) -> Vendor {
        Vendor { served: 0, quota }
    }

    fn reply(&mut self, out: &Outbound) -> (u16, String) {
        let candles = out.url.ends_with("/candles");
        let token = param(out, "apiToken").unwrap_or("");
        let symbol = param(out, "symbolId").unwrap_or("");
        if token.is_empty() {
            return if candles {
                marketdata_error(401, "Unauthorized")
            } else {
                intraday_error(401, "Unauthorized")
            };
        }
        if self.served >= self.quota {
            return if candles {
                marketdata_error(403, "Rate limit exceeded")
            } else {
                intraday_error(403, "Rate limit exceeded")
            };
        }
        self.served += 1;
        if symbol.is_empty() {
            return if candles {
                marketdata_error(401, "Unauthorized")
            } else {
                intraday_error(400, "symbolId is required")
            };
        }
        if candles {
            let body = format!(
                "{{\"symbol\":\"{}\",\"type\":\"EQUITY\",\"exchange\":\"TWSE\",\"market\":\"TSE\",\
                 \"candles\":[{{\"date\":\"2022-08-08\",\"open\":26.5,\"volume\":36634330,\
                 \"turnover\":970000000}}]}}",
                symbol
            );
            return (200, body);
        }
        let typ = if param(out, "oddLot") == Some("true") { "ODDLOT" } else { "EQUITY" };
        let body = format!(
            "{{\"apiVersion\":\"0.3.0\",\"data\":{{\"info\":{{\"date\":\"2022-08-08\",\
             \"type\":\"{}\",\"exchange\":\"TWSE\",\"market\":\"TSE\",\"symbolId\":\"{}\"}}}}}}",
            typ, symbol
        );
        (200, body)
    }
}

/// A dispatcher whose exchange is answered by the stand-in.
struct Client {
    token: String,
    vendor: Vendor,
}

impl Client {
    fn build(builder: RestfulBuilder) -> Client {
        Client { token: builder.api_token().to_string(), vendor: Vendor::new() }
    }

    fn call<R: Request>(&mut self, request: R) -> Result<Answer, FugleError> {
        let out = prepare(&self.token, &request);
        let (status, body) = self.vendor.reply(&out);
        if out.url.ends_with("/candles") {
            settle(status, &body, decode_candles, decode_error)
        } else {
            settle(status, &body, decode_intraday, decode_error)
        }
    }
}

#[test]
fn intraday_test_test_intraday_chart_pass() {
    let mut it = Client::build(RestfulBuilder::new());
    let chart = it.call(ChartRequest::new()).unwrap();
    assert_eq!(chart.symbol_id, "2884");
    assert_eq!(chart.typ, "EQUITY");

    let chart = it.call(ChartRequest::default().odd_lot(true)).unwrap();
    assert_eq!(chart.symbol_id, "2884");
    assert_eq!(chart.typ, "ODDLOT");
}

#[test]
fn intraday_test_test_intraday_chart_400_failed() {
    let mut it = Client::build(RestfulBuilder::default());
    match it.call(ChartRequest::new().symbol_id("")) {
        Err(FugleError::General(_)) => (),
        ref e => panic!("expected: Err(FugleError::General(_)) but got: {:?}", e),
    }
}

#[test]
fn intraday_test_test_intraday_chart_401_failed() {
    let mut it = Client::build(RestfulBuilder::new().token(""));
    match it.call(ChartRequest::new()) {
        Err(FugleError::Unauthorized) => (),
        ref e => panic!("expected: Err(FugleError::Unauthorized) but got: {:?}", e),
    }
}

#[test]
fn intraday_test_test_intraday_quote_pass() {
    let mut it = Client::build(RestfulBuilder::new());
    let quote = it.call(QuoteRequest::new()).unwrap();
    assert_eq!(quote.symbol_id, "2884");
    assert_eq!(quote.typ, "EQUITY");

    let quote = it.call(QuoteRequest::default().odd_lot(true)).unwrap();
    assert_eq!(quote.symbol_id, "2884");
    assert_eq!(quote.typ, "ODDLOT");
}

#[test]
fn intraday_test_test_intraday_quote_400_failed() {
    let mut it = Client::build(RestfulBuilder::default());
    match it.call(QuoteRequest::new().symbol_id("")) {
        Err(FugleError::General(_)) => (),
        ref e => panic!("expected: Err(FugleError::General(_)) but got: {:?}", e),
    }
}

#[test]
fn intraday_test_test_intraday_quote_401_failed() {
    let mut it = Client::build(RestfulBuilder::new().token(""));
    match it.call(QuoteRequest::new()) {
        Err(FugleError::Unauthorized) => (),
        ref e => panic!("expected: Err(FugleError::Unauthorized) but got: {:?}", e),
    }
}

#[test]
fn intraday_test_test_intraday_meta_pass() {
    let mut it = Client::build(RestfulBuilder::new());
    let meta = it.call(MetaRequest::new()).unwrap();
    assert_eq!(meta.symbol_id, "2884");
    assert_eq!(meta.typ, "EQUITY");

    let meta = it.call(MetaRequest::default().odd_lot(true)).unwrap();
    assert_eq!(meta.symbol_id, "2884");
    assert_eq!(meta.typ, "ODDLOT");
}

#[test]
fn intraday_test_test_intraday_meta_400_failed() {
    let mut it = Client::build(RestfulBuilder::default());
    match it.call(MetaRequest::new().symbol_id("")) {
        Err(FugleError::General(_)) => (),
        ref e => panic!("expected: Err(FugleError::General(_)) but got: {:?}", e),
    }
}

#[test]
fn intraday_test_test_intraday_meta_401_failed() {
    let mut it = Client::build(RestfulBuilder::new().token(""));
    match it.call(MetaRequest::new()) {
        Err(FugleError::Unauthorized) => (),
        ref e => panic!("expected: Err(FugleError::Unauthorized) but got: {:?}", e),
    }
}

#[test]
fn intraday_test_test_intraday_dealts_pass() {
    let mut it = Client::build(RestfulBuilder::new());
    let dealts = it.call(DealtsRequest::new().limit(9).offset(1)).unwrap();
    assert_eq!(dealts.symbol_id, "2884");
    assert_eq!(dealts.typ, "EQUITY");

    let dealts = it.call(DealtsRequest::default().odd_lot(true).limit(9).offset(1)).unwrap();
    assert_eq!(dealts.symbol_id, "2884");
    assert_eq!(dealts.typ, "ODDLOT");
}

#[test]
fn intraday_test_test_intraday_dealts_400_failed() {
    let mut it = Client::build(RestfulBuilder::default());
    match it.call(DealtsRequest::new().symbol_id("")) {
        Err(FugleError::General(_)) => (),
        ref e => panic!("expected: Err(FugleError::General(_)) but got: {:?}", e),
    }
}

#[test]
fn intraday_test_test_intraday_dealts_401_failed() {
    let mut it = Client::build(RestfulBuilder::new().token(""));
    match it.call(DealtsRequest::new()) {
        Err(FugleError::Unauthorized) => (),
        ref e => panic!("expected: Err(FugleError::Unauthorized) but got: {:?}", e),
    }
}

#[test]
fn intraday_test_test_intraday_volumes_pass() {
    let mut it = Client::build(RestfulBuilder::new());
    let volumes = it.call(VolumesRequest::new()).unwrap();
    assert_eq!(volumes.symbol_id, "2884");
    assert_eq!(volumes.typ, "EQUITY");

    let volumes = it.call(VolumesRequest::default().odd_lot(true)).unwrap();
    assert_eq!(volumes.symbol_id, "2884");
    assert_eq!(volumes.typ, "ODDLOT");
}

#[test]
fn intraday_test_test_intraday_volumes_400_failed() {
    let mut it = Client::build(RestfulBuilder::default());
    match it.call(VolumesRequest::new().symbol_id("")) {
        Err(FugleError::General(_)) => (),
        ref e => panic!("expected: Err(FugleError::General(_)) but got: {:?}", e),
    }
}

#[test]
fn intraday_test_test_intraday_volumes_401_failed() {
    let mut it = Client::build(RestfulBuilder::new().token(""));
    match it.call(VolumesRequest::new()) {
        Err(FugleError::Unauthorized) => (),
        ref e => panic!("expected: Err(FugleError::Unauthorized) but got: {:?}", e),
    }
}

#[test]
fn intraday_test_test_error_rate_limit_exceeded() {
    let mut it = Client::build(RestfulBuilder::new());
    it.vendor = Vendor::with_quota(5);
    let mut limited = false;
    for _ in 0..9 {
        let res = it.call(DealtsRequest::new());
        match res {
            Ok(_) => continue,
            Err(e) => match e {
                FugleError::RateLimitExceeded => {
                    limited = true;
                    break;
                }
                _ => panic!("error: {}", e.to_string()),
            },
        }
    }
    assert!(limited);
    assert_eq!(it.vendor.served, 5);
}

#[test]
fn test_marketdata_candles_pass() {
    let mut client = Client::build(RestfulBuilder::default().read_timeout_sec(3));
    let candles = client
        .call(
            CandlesRequest::new()
                .from("2022-08-01")
                .to("2022-08-08")
                .unset_field(CandleField::Open)
                .unset_field(CandleField::High)
                .unset_field(CandleField::Low)
                .unset_field(CandleField::Close)
                .unset_field(CandleField::Volume)
                .unset_field(CandleField::Turnover)
                .unset_field(CandleField::Change)
                .set_field(CandleField::Open)
                .set_field(CandleField::High)
                .set_field(CandleField::Low)
                .set_field(CandleField::Close)
                .set_field(CandleField::Volume)
                .set_field(CandleField::Turnover)
                .set_field(CandleField::Change),
        )
        .unwrap();
    assert_eq!(candles.symbol_id, "2884");
    assert_eq!(candles.typ, "EQUITY");
    assert_ne!(candles.turnover, 0);
    assert_ne!(candles.volume, 0);
}

#[test]
fn test_marketdata_candles_401_failed() {
    let mut client = Client::build(RestfulBuilder::new().token(""));
    match client.call(CandlesRequest::default()) {
        Err(FugleError::Unauthorized) => (),
        ref e => panic!("expected: Err(FugleError::Unauthorized) but got: {:?}", e),
    }

    let mut client = Client::build(RestfulBuilder::new());
    match client.call(CandlesRequest::default().symbol_id("")) {
        Err(FugleError::Unauthorized) => (),
        ref e => panic!("expected: Err(FugleError::Unauthorized) but got: {:?}", e),
    }
}

#[test]
fn marketdata_test_test_error_rate_limit_exceeded() {
    let mut client = Client::build(RestfulBuilder::default());
    client.vendor = Vendor::with_quota(3);
    let mut limited = false;
    for _ in 0..9 {
        let res = client.call(CandlesRequest::new().from("2022-08-01").to("2022-08-08"));
        match res {
            Ok(_) => continue,
            Err(e) => match e {
                FugleError::RateLimitExceeded => {
                    limited = true;
                    break;
                }
                _ => panic!("error: {}", e.to_string()),
            },
        }
    }
    assert!(limited);
}

#[test]
fn success_reply_for_symbol_2884() {
    let out = prepare("demo", &ChartRequest::new().symbol_id("2884"));
    let (status, body) = Vendor::new().reply(&out);
    assert_eq!(status, 200);
    let chart = settle(status, &body, decode_intraday, decode_error).unwrap();
    assert_eq!(chart.symbol_id, "2884");
}

#[test]
fn reply_with_status_401_is_unauthorized() {
    let (status, body) = intraday_error(401, "Unauthorized");
    let got = settle(status, &body, decode_intraday, decode_error);
    assert!(matches!(got, Err(FugleError::Unauthorized)));
}

#[test]
fn reply_with_status_403_is_rate_limited() {
    let (status, body) = intraday_error(403, "Rate limit exceeded");
    let got = settle(status, &body, decode_intraday, decode_error);
    assert!(matches!(got, Err(FugleError::RateLimitExceeded)));
    let (status, body) = marketdata_error(403, "Rate limit exceeded");
    let got = settle(status, &body, decode_candles, decode_error);
    assert!(matches!(got, Err(FugleError::RateLimitExceeded)));
}

#[test]
fn reply_with_status_404_is_not_found() {
    let (status, body) = intraday_error(404, "Resource Not Found");
    let got = settle(status, &body, decode_intraday, decode_error);
    assert!(matches!(got, Err(FugleError::ResourceNotFound)));
}

#[test]
fn reply_with_status_400_keeps_the_vendor_message() {
    let (status, body) = intraday_error(400, "symbolId is required");
    match settle(status, &body, decode_intraday, decode_error) {
        Err(FugleError::General(ErrorResponse::IntradayError { api_version, error })) => {
            assert_eq!(api_version, "0.3.0");
            assert_eq!(error.code, 400);
            assert_eq!(error.message, "symbolId is required");
        }
        other => panic!("unexpected: {:?}", other),
    }
}

#[test]
fn reply_with_any_other_status_is_an_unknown_vendor_error() {
    for status in [100u16, 199, 300, 302, 402, 405, 418, 500, 503, 599] {
        let (_, body) = intraday_error(status, "whatever");
        let got = settle(status, &body, decode_intraday, decode_error);
        match got {
            Err(e) => assert_eq!(e.kind(), ErrorKind::UnknownVendorError),
            Ok(answer) => panic!("unexpected: {:?}", answer),
        }
    }
}

#[test]
fn every_success_status_is_decoded_as_the_response() {
    let out = prepare("demo", &MetaRequest::new());
    let (_, body) = Vendor::new().reply(&out);
    for status in [200u16, 201, 204, 299] {
        let meta = settle(status, &body, decode_intraday, decode_error).unwrap();
        assert_eq!(meta.symbol_id, "2884");
    }
}

#[test]
fn success_reply_that_does_not_decode_is_a_decode_failure() {
    let got = settle(200, "{\"data\":{}}", decode_intraday, decode_error);
    match got {
        Err(e) => {
            assert!(matches!(e, FugleError::SerdeJson(_)));
            assert_eq!(e.kind(), ErrorKind::DecodeFailure);
        }
        Ok(answer) => panic!("unexpected: {:?}", answer),
    }
    let got = settle(200, "<html>", decode_intraday, decode_error);
    assert!(matches!(got, Err(FugleError::SerdeJson(_))));
}

#[test]
fn error_reply_that_does_not_decode_is_a_decode_failure() {
    let got = settle(401, "<html>", decode_intraday, decode_error);
    assert!(matches!(got, Err(FugleError::SerdeJson(_))));
    let got = settle(500, "{\"data\":{}}", decode_intraday, decode_error);
    assert!(matches!(got, Err(FugleError::SerdeJson(_))));
}

#[test]
fn error_reply_is_never_decoded_as_the_response() {
    let out = prepare("demo", &ChartRequest::new());
    let (_, body) = Vendor::new().reply(&out);
    let got = settle(401, &body, decode_intraday, decode_error);
    assert!(matches!(got, Err(FugleError::SerdeJson(_))));
}

#[test]
fn symbol_of_the_options_comes_back_in_the_response() {
    for symbol in ["2884", "2330", "0050", "00631L"] {
        let mut it = Client::build(RestfulBuilder::new());
        assert_eq!(it.call(ChartRequest::new().symbol_id(symbol)).unwrap().symbol_id, symbol);
        assert_eq!(it.call(QuoteRequest::new().symbol_id(symbol)).unwrap().symbol_id, symbol);
        assert_eq!(it.call(MetaRequest::new().symbol_id(symbol)).unwrap().symbol_id, symbol);
        assert_eq!(it.call(DealtsRequest::new().symbol_id(symbol)).unwrap().symbol_id, symbol);
        assert_eq!(it.call(VolumesRequest::new().symbol_id(symbol)).unwrap().symbol_id, symbol);
        assert_eq!(it.call(CandlesRequest::new().symbol_id(symbol)).unwrap().symbol_id, symbol);
    }
}

#[test]
fn exchange_that_failed_ends_the_call_with_its_cause() {
    let refused =
        ureq::AgentBuilder::new().build().get("not-exists-endpoint").call().unwrap_err();
    let got = conclude(Err(FugleError::from(refused)), decode_intraday, decode_error);
    match got {
        Err(e) => {
            assert!(matches!(e, FugleError::Ureq(_)));
            assert_eq!(e.kind(), ErrorKind::TransportFailure);
        }
        Ok(answer) => panic!("unexpected: {:?}", answer),
    }
    let got = conclude(Err(FugleError::ResourceNotFound), decode_intraday, decode_error);
    assert!(matches!(got, Err(FugleError::ResourceNotFound)));
}

#[test]
fn exchange_that_was_answered_is_settled_by_its_status() {
    let out = prepare("demo", &QuoteRequest::new().symbol_id("2330"));
    let (status, body) = Vendor::new().reply(&out);
    let quote =
        conclude(Ok(Reply { status, body: &body }), decode_intraday, decode_error).unwrap();
    assert_eq!(quote.symbol_id, "2330");
    let (status, body) = intraday_error(404, "Resource Not Found");
    let got = conclude(Ok(Reply { status, body: &body }), decode_intraday, decode_error);
    assert!(matches!(got, Err(FugleError::ResourceNotFound)));
}
