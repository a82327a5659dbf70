//! Unit-level checks of the single fragments: patterns, query rendering,
//! header merging, body and response dispatch.

use hadorn::contract::body::{BodyFormat, BodyPlan};
use hadorn::contract::headers::HeaderPlan;
use hadorn::contract::path::PathParams;
use hadorn::contract::query::{query_string, QueryPlan};
use hadorn::contract::response::{Outcome, RequestError, ResponsePlan};
use hadorn::meta::{AttrForm, Kind, PatMeta, PatMetas, RawAttr, RawParam};
use hadorn::util::{Arg, StrTuple};
use hadorn::HadornClient;

fn s(x: &str) -> String {
    x.to_string()
}

fn metas_of(params: Vec<RawParam>) -> PatMetas {
    PatMetas::new(&params).unwrap()
}

fn qparam(ident: &str, rename: Option<&str>, optional: bool) -> RawParam {
    let mut attrs = vec![match rename {
        Some(r) => RawAttr { name: s("query"), form: AttrForm::Lit(s(r)) },
        None => RawAttr { name: s("query"), form: AttrForm::Bare },
    }];
    if optional {
        attrs.push(RawAttr { name: s("optional"), form: AttrForm::Bare });
    }
    RawParam { ident: s(ident), ty: s("usize"), attrs }
}

#[test]
fn format_pattern_basic() {
    assert_eq!(PathParams::get_format_pattern("/api/<version>/crates"), "/api/{}/crates");
}

#[test]
fn format_pattern_drops_empty_segments() {
    assert_eq!(PathParams::get_format_pattern("//api///<v>/"), "/api/{}");
}

#[test]
fn format_pattern_keeps_prefix_and_query() {
    assert_eq!(
        PathParams::get_format_pattern("https://crates.io/api/<v>?page=1"),
        "https://crates.io/api/{}?page=1"
    );
}

#[test]
fn format_pattern_empty_template() {
    assert_eq!(PathParams::get_format_pattern(""), "");
}

#[test]
fn classification_reads_all_marks() {
    let p = RawParam {
        ident: s("page"),
        ty: s("&u32"),
        attrs: vec![
            RawAttr { name: s("optional"), form: AttrForm::Bare },
            RawAttr { name: s("query"), form: AttrForm::Lit(s("p")) },
        ],
    };
    let m = PatMeta::classify(&p).unwrap();
    assert_eq!(m.kind, Kind::Query);
    assert!(m.optional);
    assert_eq!(m.rename.as_deref(), Some("p"));
    assert!(m.reference);
    assert_eq!(m.resolved().as_str(), "p");
}

#[test]
fn role_marker_priority() {
    let p = RawParam {
        ident: s("x"),
        ty: s("usize"),
        attrs: vec![
            RawAttr { name: s("path"), form: AttrForm::Bare },
            RawAttr { name: s("query"), form: AttrForm::Bare },
        ],
    };
    let m = PatMeta::classify(&p).unwrap();
    assert_eq!(m.kind, Kind::Query);
}

#[test]
fn kind_symbols() {
    assert_eq!(Kind::Path.symbol(), "path");
    assert_eq!(Kind::Query.symbol(), "query");
    assert_eq!(Kind::Header.symbol(), "header");
    assert_eq!(Kind::Body.symbol(), "body");
}

#[test]
fn query_pairs_use_resolved_names() {
    let metas = metas_of(vec![
        qparam("page", None, false),
        qparam("page_size", Some("per_page"), false),
        qparam("keyword", Some("q"), true),
    ]);
    let plan = QueryPlan::new(&metas);
    let args = vec![
        Arg { ident: s("page"), value: Some(s("1")) },
        Arg { ident: s("page_size"), value: Some(s("10")) },
        Arg { ident: s("keyword"), value: None },
    ];
    let pairs = plan.pairs(&args);
    assert_eq!(pairs.len(), 2);
    assert_eq!(pairs[0].0, "page");
    assert_eq!(pairs[0].1, "1");
    assert_eq!(pairs[1].0, "per_page");
    assert_eq!(pairs[1].1, "10");
    assert_eq!(query_string(&pairs), "page=1&per_page=10");
}

#[test]
fn query_string_empty_and_single() {
    assert_eq!(query_string(&vec![]), "");
    assert_eq!(query_string(&vec![StrTuple(s("a"), s("b"))]), "a=b");
}

#[test]
fn literal_headers_override_defaults() {
    let metas = metas_of(vec![]);
    let plan = HeaderPlan::new(&metas, vec![StrTuple(s("user-agent"), s("custom"))]);
    let defaults = Some(vec![
        StrTuple(s("accept"), s("application/json")),
        StrTuple(s("user-agent"), s("default")),
    ]);
    let headers = plan.apply(&defaults, &vec![]);
    assert_eq!(headers.len(), 2);
    assert_eq!(headers[0].0, "accept");
    assert_eq!(headers[0].1, "application/json");
    assert_eq!(headers[1].0, "user-agent");
    assert_eq!(headers[1].1, "custom");
}

#[test]
fn header_params_attached_after_static() {
    let metas = metas_of(vec![RawParam {
        ident: s("token"),
        ty: s("&str"),
        attrs: vec![RawAttr { name: s("header"), form: AttrForm::Lit(s("x-token")) }],
    }]);
    let plan = HeaderPlan::new(&metas, vec![]);
    let args = vec![Arg { ident: s("token"), value: Some(s("abc")) }];
    let headers = plan.apply(&None, &args);
    assert_eq!(headers.len(), 1);
    assert_eq!(headers[0].0, "x-token");
    assert_eq!(headers[0].1, "abc");
}

#[test]
fn body_format_dispatch() {
    let metas = metas_of(vec![RawParam {
        ident: s("payload"),
        ty: s("Data"),
        attrs: vec![RawAttr { name: s("body"), form: AttrForm::Bare }],
    }]);
    let args = vec![Arg { ident: s("payload"), value: Some(s("x")) }];

    let json = BodyPlan::new(&metas, Some(s("Json")));
    assert_eq!(json.apply(&args).unwrap().format, BodyFormat::Json);
    let form = BodyPlan::new(&metas, Some(s("FormData")));
    assert_eq!(form.apply(&args).unwrap().format, BodyFormat::FormData);
    let multi = BodyPlan::new(&metas, Some(s("Multipart")));
    assert_eq!(multi.apply(&args).unwrap().format, BodyFormat::Multipart);
    let other = BodyPlan::new(&metas, Some(s("Whatever")));
    assert_eq!(other.apply(&args).unwrap().format, BodyFormat::Raw);
    let untagged = BodyPlan::new(&metas, None);
    assert_eq!(untagged.apply(&args).unwrap().format, BodyFormat::Raw);

    let bodyless = BodyPlan::new(&metas_of(vec![]), Some(s("Json")));
    assert!(bodyless.apply(&vec![]).is_none());
}

#[test]
fn response_format_dispatch() {
    let payload = vec![1u8, 2, 3];
    let json = ResponsePlan::new(Some(s("Json")));
    assert!(matches!(json.interpret(204, payload.clone()).unwrap(), Outcome::Json(_)));
    let text = ResponsePlan::new(Some(s("Text")));
    assert!(matches!(text.interpret(200, payload.clone()).unwrap(), Outcome::Text(_)));
    let bytes = ResponsePlan::new(Some(s("Bytes")));
    assert!(matches!(bytes.interpret(200, payload.clone()).unwrap(), Outcome::Bytes(_)));
    let pass = ResponsePlan::new(Some(s("Response")));
    assert!(matches!(pass.interpret(201, payload.clone()).unwrap(), Outcome::Response(201, _)));
    let unit = ResponsePlan::new(Some(s("Whatever")));
    assert!(matches!(unit.interpret(200, payload.clone()).unwrap(), Outcome::Unit));
    let untagged = ResponsePlan::new(None);
    assert!(matches!(untagged.interpret(200, payload.clone()).unwrap(), Outcome::Unit));
}

#[test]
fn non_success_statuses_fail() {
    let plan = ResponsePlan::new(Some(s("Json")));
    assert!(matches!(plan.interpret(199, vec![]).unwrap_err(), RequestError::Status(199)));
    assert!(matches!(plan.interpret(301, vec![]).unwrap_err(), RequestError::Status(301)));
    assert!(matches!(plan.interpret(404, vec![]).unwrap_err(), RequestError::Status(404)));
    assert!(plan.interpret(299, vec![]).is_ok());
}

#[test]
fn client_builders_keep_state() {
    let c = HadornClient::new(reqwest::Client::new())
        .with_base_url(s("https://crates.io"))
        .with_default_headers(vec![StrTuple(s("user-agent"), s("hadorn-rs"))]);
    assert_eq!(c.base_url.as_deref(), Some("https://crates.io"));
    let dh = c.default_headers.as_ref().unwrap();
    assert_eq!(dh.len(), 1);
    assert_eq!(dh[0].0, "user-agent");
}
