//! End-to-end scenarios: a whole annotated trait assembled into plans, and
//! the plans evaluated against runtime values.

use hadorn::contract::body::BodyFormat;
use hadorn::contract::path::PathParams;
use hadorn::contract::response::{Outcome, RequestError};
use hadorn::contract::{Contract, Directive, MethodSig};
use hadorn::meta::{AttrForm, RawAttr, RawParam};
use hadorn::resource::{MethodModel, Resource, TraitModel};
use hadorn::util::{Arg, DirectiveValue, GenError, StrTuple};
use hadorn::{Hadorn, HadornClient};

fn s(x: &str) -> String {
    x.to_string()
}

fn bare(name: &str) -> RawAttr {
    RawAttr { name: s(name), form: AttrForm::Bare }
}

fn lit(name: &str, v: &str) -> RawAttr {
    RawAttr { name: s(name), form: AttrForm::Lit(s(v)) }
}

fn param(ident: &str, ty: &str, attrs: Vec<RawAttr>) -> RawParam {
    RawParam { ident: s(ident), ty: s(ty), attrs }
}

fn dir_lit(name: &str, v: &str) -> Directive {
    Directive { name: s(name), value: DirectiveValue::Lit(s(v)) }
}

fn dir_ident(name: &str, v: &str) -> Directive {
    Directive { name: s(name), value: DirectiveValue::Ident(s(v)) }
}

fn arg(ident: &str, v: &str) -> Arg {
    Arg { ident: s(ident), value: Some(s(v)) }
}

fn absent(ident: &str) -> Arg {
    Arg { ident: s(ident), value: None }
}

fn crates_trait() -> TraitModel {
    TraitModel {
        ident: s("Crates"),
        methods: vec![MethodModel {
            verb: Some(s("GET")),
            directives: vec![dir_lit("path", "/api/<version>/crates")],
            sig: MethodSig {
                ident: s("list"),
                is_async: true,
                has_default: false,
                inputs: vec![
                    param("version", "&str", vec![bare("path")]),
                    param("page", "usize", vec![bare("query")]),
                    param("page_size", "usize", vec![lit("query", "per_page")]),
                    param("keyword", "&str", vec![bare("optional"), lit("query", "q")]),
                ],
            },
        }],
    }
}

fn crates_resource() -> Resource {
    Resource::parse(&vec![dir_ident("serialized", "Json"), dir_ident("deserialized", "Json")])
        .unwrap()
}

#[test]
fn scenario_full_query() {
    let plan = crates_resource().expand(&crates_trait()).unwrap();
    assert_eq!(plan.client_name, "CratesClient");
    assert_eq!(plan.methods.len(), 1);
    let m = &plan.methods[0];
    assert_eq!(m.url.pattern, "/api/{}/crates");
    let args = vec![
        arg("version", "v1"),
        arg("page", "1"),
        arg("page_size", "10"),
        arg("keyword", "reqwest"),
    ];
    let client = HadornClient::new(reqwest::Client::new())
        .with_base_url(s("https://crates.io"))
        .with_default_headers(vec![StrTuple(s("user-agent"), s("hadorn-rs"))]);
    let base = client.base_url().cloned();
    let defaults = client.default_headers().map(hadorn::util::clone_pairs);
    let req = m.execute(&args, &base, &defaults);
    assert_eq!(req.method, "GET");
    assert_eq!(req.url, "https://crates.io/api/v1/crates");
    assert_eq!(req.full_url(), "https://crates.io/api/v1/crates?page=1&per_page=10&q=reqwest");
    assert_eq!(req.headers.len(), 1);
    assert_eq!(req.headers[0].0, "user-agent");
    assert_eq!(req.headers[0].1, "hadorn-rs");
    assert!(req.body.is_none());
}

#[test]
fn scenario_absent_optional_omitted() {
    let plan = crates_resource().expand(&crates_trait()).unwrap();
    let m = &plan.methods[0];
    let args = vec![
        arg("version", "v1"),
        arg("page", "1"),
        arg("page_size", "10"),
        absent("keyword"),
    ];
    let base = Some(s("https://crates.io"));
    let req = m.execute(&args, &base, &None);
    assert_eq!(req.full_url(), "https://crates.io/api/v1/crates?page=1&per_page=10");
}

#[test]
fn scenario_json_body_post() {
    let t = TraitModel {
        ident: s("Crates"),
        methods: vec![MethodModel {
            verb: Some(s("POST")),
            directives: vec![dir_lit("path", "/api/crates"), dir_ident("serialized", "Json"),
                dir_ident("deserialized", "Json")],
            sig: MethodSig {
                ident: s("publish"),
                is_async: true,
                has_default: false,
                inputs: vec![param("payload", "NewCrate", vec![bare("body")])],
            },
        }],
    };
    let res = Resource::parse(&vec![]).unwrap();
    let plan = res.expand(&t).unwrap();
    let m = &plan.methods[0];
    let args = vec![arg("payload", "{\"name\":\"demo\"}")];
    let req = m.execute(&args, &None, &None);
    assert_eq!(req.method, "POST");
    assert_eq!(req.url, "/api/crates");
    let body = req.body.unwrap();
    assert_eq!(body.format, BodyFormat::Json);
    assert_eq!(body.value, "{\"name\":\"demo\"}");

    // A non-success status short-circuits before any decoding.
    let err = m.response.interpret(500, vec![1, 2, 3]).unwrap_err();
    assert!(matches!(err, RequestError::Status(500)));
    // A success is handed over for structured decoding.
    let ok = m.response.interpret(200, vec![b'{', b'}']).unwrap();
    assert!(matches!(ok, Outcome::Json(ref v) if v == &vec![b'{', b'}']));
}

#[test]
fn trait_defaults_do_not_override_method_tags() {
    let t = TraitModel {
        ident: s("Api"),
        methods: vec![MethodModel {
            verb: Some(s("POST")),
            directives: vec![dir_lit("path", "/x"), dir_ident("serialized", "Multipart")],
            sig: MethodSig {
                ident: s("push"),
                is_async: true,
                has_default: false,
                inputs: vec![param("payload", "Data", vec![bare("body")])],
            },
        }],
    };
    let res =
        Resource::parse(&vec![dir_ident("serialized", "Json"), dir_ident("client", "MyClient")])
            .unwrap();
    let plan = res.expand(&t).unwrap();
    assert_eq!(plan.client_name, "MyClient");
    let m = &plan.methods[0];
    assert_eq!(m.body.serialized.as_deref(), Some("Multipart"));
    let req = m.execute(&vec![arg("payload", "blob")], &None, &None);
    assert_eq!(req.body.unwrap().format, BodyFormat::Multipart);
}

#[test]
fn undefined_path_param_rejected() {
    let mut c = Contract::parse(&vec![dir_lit("path", "/api/<version>/crates")]).unwrap();
    c.method = Some(s("GET"));
    let sig = MethodSig { ident: s("list"), is_async: true, has_default: false, inputs: vec![] };
    let e = c.expand(&sig).unwrap_err();
    assert_eq!(e.message(), "undefined path param: `version`");
}

#[test]
fn missing_path_param_rejected() {
    let mut c = Contract::parse(&vec![dir_lit("path", "/api/crates")]).unwrap();
    c.method = Some(s("GET"));
    let sig = MethodSig {
        ident: s("list"),
        is_async: true,
        has_default: false,
        inputs: vec![param("version", "&str", vec![bare("path")])],
    };
    let e = c.expand(&sig).unwrap_err();
    assert_eq!(e.message(), "missing path param: `version`");
}

#[test]
fn first_unmatched_placeholder_is_named() {
    let mut c = Contract::parse(&vec![dir_lit("path", "/x/<a>/<b>")]).unwrap();
    c.method = Some(s("GET"));
    let sig = MethodSig { ident: s("go"), is_async: true, has_default: false, inputs: vec![] };
    let e = c.expand(&sig).unwrap_err();
    assert_eq!(e.message(), "undefined path param: `a`");
}

#[test]
fn first_unused_path_param_is_named() {
    let mut c = Contract::parse(&vec![dir_lit("path", "/x")]).unwrap();
    c.method = Some(s("GET"));
    let sig = MethodSig {
        ident: s("go"),
        is_async: true,
        has_default: false,
        inputs: vec![
            param("c", "&str", vec![bare("path")]),
            param("d", "&str", vec![bare("path")]),
        ],
    };
    let e = c.expand(&sig).unwrap_err();
    assert_eq!(e.message(), "missing path param: `c`");
}

#[test]
fn renamed_path_param_matches_placeholder() {
    let mut c = Contract::parse(&vec![dir_lit("path", "/api/<ver>/crates")]).unwrap();
    c.method = Some(s("GET"));
    let sig = MethodSig {
        ident: s("list"),
        is_async: true,
        has_default: false,
        inputs: vec![param("version", "&str", vec![lit("path", "ver")])],
    };
    let m = c.expand(&sig).unwrap();
    let req = m.execute(&vec![arg("version", "v2")], &None, &None);
    assert_eq!(req.url, "/api/v2/crates");
}

#[test]
fn substitution_is_name_based() {
    let mut c = Contract::parse(&vec![dir_lit("path", "/pair/<a>/<b>")]).unwrap();
    c.method = Some(s("GET"));
    let sig = MethodSig {
        ident: s("pair"),
        is_async: true,
        has_default: false,
        inputs: vec![
            param("b", "&str", vec![bare("path")]),
            param("a", "&str", vec![bare("path")]),
        ],
    };
    let m = c.expand(&sig).unwrap();
    let req = m.execute(&vec![arg("b", "two"), arg("a", "one")], &None, &None);
    assert_eq!(req.url, "/pair/one/two");
}

#[test]
fn missing_role_marker_rejected() {
    let mut c = Contract::parse(&vec![dir_lit("path", "/x")]).unwrap();
    c.method = Some(s("GET"));
    let sig = MethodSig {
        ident: s("go"),
        is_async: true,
        has_default: false,
        inputs: vec![param("page", "usize", vec![bare("optional")])],
    };
    let e = c.expand(&sig).unwrap_err();
    assert_eq!(e.message(), "missing kind attribute");
}

#[test]
fn duplicate_path_directive_rejected() {
    let e = Contract::parse(&vec![dir_lit("path", "/a"), dir_lit("path", "/b")]).unwrap_err();
    assert_eq!(e.message(), "duplicate attribute `path`");
}

#[test]
fn duplicate_trait_directive_rejected() {
    let e = Resource::parse(&vec![dir_ident("serialized", "Json"), dir_ident(
        "serialized",
        "Json",
    )])
    .unwrap_err();
    assert_eq!(e.message(), "duplicate attribute `serialized`");
}

#[test]
fn rename_forms_rejected() {
    let mut c = Contract::parse(&vec![dir_lit("path", "/x")]).unwrap();
    c.method = Some(s("GET"));
    let sig = MethodSig {
        ident: s("go"),
        is_async: true,
        has_default: false,
        inputs: vec![RawParam {
            ident: s("q"),
            ty: s("&str"),
            attrs: vec![RawAttr { name: s("query"), form: AttrForm::List }],
        }],
    };
    let e = c.expand(&sig).unwrap_err();
    assert_eq!(e.message(), "attribute `rename` unsupported meta list");

    let mut c2 = Contract::parse(&vec![dir_lit("path", "/x")]).unwrap();
    c2.method = Some(s("GET"));
    let sig2 = MethodSig {
        ident: s("go"),
        is_async: true,
        has_default: false,
        inputs: vec![RawParam {
            ident: s("q"),
            ty: s("&str"),
            attrs: vec![RawAttr { name: s("query"), form: AttrForm::NonLit }],
        }],
    };
    let e2 = c2.expand(&sig2).unwrap_err();
    assert_eq!(e2.message(), "attribute `rename` only supports literal strings");
}

#[test]
fn applicability_checks() {
    let mut c = Contract::parse(&vec![dir_lit("path", "/x")]).unwrap();
    c.method = Some(s("GET"));
    let sig = MethodSig { ident: s("go"), is_async: false, has_default: false, inputs: vec![] };
    let e = c.expand(&sig).unwrap_err();
    assert_eq!(e.message(), "hadorn macros only can applied to async function");

    let mut c2 = Contract::parse(&vec![dir_lit("path", "/x")]).unwrap();
    c2.method = Some(s("GET"));
    let sig2 = MethodSig { ident: s("go"), is_async: true, has_default: true, inputs: vec![] };
    let e2 = c2.expand(&sig2).unwrap_err();
    assert_eq!(e2.message(), "hadorn macros can not be applied to default function");
}

#[test]
fn missing_mandatory_directives() {
    let c = Contract::parse(&vec![dir_lit("path", "/x")]).unwrap();
    let sig = MethodSig { ident: s("go"), is_async: true, has_default: false, inputs: vec![] };
    let e = c.expand(&sig).unwrap_err();
    assert_eq!(e.message(), "missing attribute: `method`");

    let mut c2 = Contract::parse(&vec![]).unwrap();
    c2.method = Some(s("GET"));
    let e2 = c2.expand(&sig).unwrap_err();
    assert_eq!(e2.message(), "missing attribute: `path`");
}

#[test]
fn invalid_directive_values() {
    let e = Contract::parse(&vec![Directive { name: s("path"), value: DirectiveValue::Other }])
        .unwrap_err();
    assert_eq!(e.message(), "invalid attribute: `path`");

    let e2 = Contract::parse(&vec![Directive {
        name: s("serialized"),
        value: DirectiveValue::Other,
    }])
    .unwrap_err();
    assert_eq!(e2.message(), "only identifier or string literal allowed");
}

#[test]
fn unrecognized_directives_skipped() {
    let c = Contract::parse(&vec![dir_lit("path", "/x"), dir_ident("whatever", "Foo")]).unwrap();
    assert_eq!(c.path.as_deref(), Some("/x"));
    assert!(c.serialized.is_none());
}

#[test]
fn rewritten_signature_wraps_optional() {
    let plan = crates_resource().expand(&crates_trait()).unwrap();
    let m = &plan.methods[0];
    assert_eq!(m.inputs.len(), 4);
    assert_eq!(m.inputs[3].ident, "keyword");
    assert_eq!(m.inputs[3].ty, "Option<&str>");
    assert_eq!(m.inputs[0].ty, "&str");
}

#[test]
fn placeholder_names_in_order() {
    let p = PathParams::new("/api/<a>/x/<b>?tail=<c>");
    assert_eq!(p.len(), 2);
    let names = p.names();
    assert_eq!(names.len(), 2);
    assert_eq!(names[0], "a");
    assert_eq!(names[1], "b");
}

#[test]
fn query_suffix_kept_and_extended() {
    let mut c = Contract::parse(&vec![dir_lit("path", "/s?fixed=1")]).unwrap();
    c.method = Some(s("GET"));
    let sig = MethodSig {
        ident: s("go"),
        is_async: true,
        has_default: false,
        inputs: vec![param("p", "usize", vec![bare("query")])],
    };
    let m = c.expand(&sig).unwrap();
    let req = m.execute(&vec![arg("p", "2")], &None, &None);
    assert_eq!(req.url, "/s?fixed=1");
    assert_eq!(req.full_url(), "/s?fixed=1&p=2");
}

#[test]
fn role_marker_error_reports_first_failure() {
    let mut c = Contract::parse(&vec![dir_lit("path", "/x")]).unwrap();
    c.method = Some(s("GET"));
    let sig = MethodSig {
        ident: s("go"),
        is_async: true,
        has_default: false,
        inputs: vec![
            param("fine", "usize", vec![bare("query")]),
            param("broken", "usize", vec![]),
        ],
    };
    let e = c.expand(&sig).unwrap_err();
    assert!(matches!(e, GenError::MissingKind(ref n) if n == "broken"));
}
