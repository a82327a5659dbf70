//! Per-method analysis: directive recognition, validation, fragment
//! assembly into one request plan, and the plan's runtime evaluation.
//!
//! The recognizer maps each accepted directive name to one accumulator
//! field; setting a field twice is a duplication error, and an unrecognized
//! directive is skipped.  Assembly runs in a fixed order: applicability
//! checks, mandatory directives, parameter classification, path validation,
//! then the five fragments and the signature rewrite.  The first failure
//! aborts the whole method; nothing partial is emitted.

pub mod body;
pub mod headers;
pub mod path;
pub mod query;
pub mod request;
pub mod response;
pub mod url;

use vstd::prelude::*;
use vstd::string::StringExecFns;
use crate::contract::body::{built_body, first_body, BodyPlan, BodyValue};
use crate::contract::headers::{
    defaults_view, header_pairs, header_params_of, merged_headers, HeaderPlan,
};
use crate::contract::path::{
    all_path_params_used, all_placeholders_defined, pattern_of, placeholders_of,
};
use crate::contract::query::{query_fields_of, query_pairs, QueryPlan};
use crate::contract::request::{BuiltRequest, RequestPlan};
use crate::contract::response::ResponsePlan;
use crate::contract::url::{base_text, pieces_seq_view, render_pieces, spec_pieces, UrlPlan};
use crate::meta::{spec_classify, PatMeta, PatMetas, RawParam};
use crate::util::{clone_pairs, eq_str, pairs_view, Arg, DirectiveValue, GenError, StrTuple};

verus! {

/// One directive attached to a method or trait: a name and a value.
#[derive(Debug)]
pub struct Directive {
    pub name: String,
    pub value: DirectiveValue,
}

/// The accumulated method-level directives.  Each field is settable at most
/// once; an absent field may later be filled from the trait-level defaults.
#[derive(Debug)]
pub struct Contract {
    pub method: Option<String>,
    pub path: Option<String>,
    pub headers: Option<Vec<StrTuple>>,
    pub serialized: Option<String>,
    pub deserialized: Option<String>,
}

impl Default for Contract {
    /// The empty accumulator.
    fn default() -> (r: Self)
        ensures
            r.method is None && r.path is None && r.headers is None && r.serialized is None
                && r.deserialized is None,
    {
        Contract { method: None, path: None, headers: None, serialized: None, deserialized: None }
    }
}

/// One recognizer step: how a single directive changes the accumulator.
pub open spec fn spec_step(acc: Contract, d: Directive) -> Result<Contract, GenError> {
    if d.name@ == "path"@ {
        if acc.path is Some {
            Err(GenError::DuplicateDirective(d.name))
        } else {
            match d.value {
                DirectiveValue::Lit(s) => Ok(Contract { path: Some(s), ..acc }),
                _ => Err(GenError::InvalidDirective(d.name)),
            }
        }
    } else if d.name@ == "headers"@ {
        if acc.headers is Some {
            Err(GenError::DuplicateDirective(d.name))
        } else {
            match d.value {
                DirectiveValue::Pairs(v) => Ok(Contract { headers: Some(v), ..acc }),
                _ => Err(GenError::InvalidDirective(d.name)),
            }
        }
    } else if d.name@ == "serialized"@ {
        if acc.serialized is Some {
            Err(GenError::DuplicateDirective(d.name))
        } else {
            match crate::util::expr_ident(d.value) {
                Some(s) => Ok(Contract { serialized: Some(s), ..acc }),
                None => Err(GenError::NotIdent),
            }
        }
    } else if d.name@ == "deserialized"@ {
        if acc.deserialized is Some {
            Err(GenError::DuplicateDirective(d.name))
        } else {
            match crate::util::expr_ident(d.value) {
                Some(s) => Ok(Contract { deserialized: Some(s), ..acc }),
                None => Err(GenError::NotIdent),
            }
        }
    } else {
        Ok(acc)
    }
}

/// The recognizer folded over the directives from position `i` on.
pub open spec fn spec_parse_at(ds: Seq<Directive>, acc: Contract, i: int) -> Result<
    Contract,
    GenError,
>
    decreases ds.len() - i,
{
    if i < 0 || i >= ds.len() {
        Ok(acc)
    } else {
        match spec_step(acc, ds[i]) {
            Ok(a) => spec_parse_at(ds, a, i + 1),
            Err(e) => Err(e),
        }
    }
}

/// The accumulated method-level directives of a directive list.
pub open spec fn spec_parse(ds: Seq<Directive>) -> Result<Contract, GenError> {
    spec_parse_at(
        ds,
        Contract { method: None, path: None, headers: None, serialized: None, deserialized: None },
        0,
    )
}

/// The literal headers of a contract, as views.
pub open spec fn headers_view(h: Option<Vec<StrTuple>>) -> Option<Seq<(Seq<char>, Seq<char>)>> {
    match h {
        Some(v) => Some(pairs_view(v@)),
        None => None,
    }
}

/// Two accumulators that agree field for field, the literal headers
/// compared by their text.
pub open spec fn contract_like(a: Contract, b: Contract) -> bool {
    &&& a.method == b.method
    &&& a.path == b.path
    &&& a.serialized == b.serialized
    &&& a.deserialized == b.deserialized
    &&& headers_view(a.headers) == headers_view(b.headers)
}

impl Contract {
    /// Recognizes the method-level directives, skipping unrecognized ones
    /// and rejecting any field set twice.
    #[verifier::rlimit(60)]
    pub fn parse(directives: &Vec<Directive>) -> (r: Result<Contract, GenError>)
        ensures
            match r {
                Ok(c) => spec_parse(directives@) matches Ok(c2) && contract_like(c, c2),
                Err(e) => spec_parse(directives@) == Err::<Contract, GenError>(e),
            },
    {
        let ghost ds = directives@;
        let mut acc = Contract {
            method: None,
            path: None,
            headers: None,
            serialized: None,
            deserialized: None,
        };
        let ghost mut sacc = acc;
        let n = directives.len();
        let mut i: usize = 0;
        while i < n
            invariant
                n == ds.len(),
                ds == directives@,
                i <= n,
                contract_like(acc, sacc),
                spec_parse(ds) == spec_parse_at(ds, sacc, i as int),
            decreases n - i,
        {
            let ghost sacc0 = sacc;
            let d = &directives[i];
            proof {
                assert(spec_parse_at(ds, sacc, i as int) == (match spec_step(sacc, ds[i as int]) {
                    Ok(a) => spec_parse_at(ds, a, i + 1),
                    Err(e) => Err(e),
                }));
            }
            if eq_str(d.name.as_str(), "path") {
                if acc.path.is_some() {
                    return Err(GenError::DuplicateDirective(d.name.clone()));
                }
                match &d.value {
                    DirectiveValue::Lit(s) => {
                        acc.path = Some(s.clone());
                    },
                    _ => {
                        return Err(GenError::InvalidDirective(d.name.clone()));
                    },
                }
            } else if eq_str(d.name.as_str(), "headers") {
                if acc.headers.is_some() {
                    return Err(GenError::DuplicateDirective(d.name.clone()));
                }
                match &d.value {
                    DirectiveValue::Pairs(v) => {
                        let cloned = clone_pairs(v);
                        proof {
                            assert(pairs_view(cloned@) =~~= pairs_view(v@));
                        }
                        acc.headers = Some(cloned);
                    },
                    _ => {
                        return Err(GenError::InvalidDirective(d.name.clone()));
                    },
                }
            } else if eq_str(d.name.as_str(), "serialized") {
                if acc.serialized.is_some() {
                    return Err(GenError::DuplicateDirective(d.name.clone()));
                }
                match d.value.require_ident() {
                    Ok(s) => {
                        acc.serialized = Some(s);
                    },
                    Err(e) => {
                        return Err(e);
                    },
                }
            } else if eq_str(d.name.as_str(), "deserialized") {
                if acc.deserialized.is_some() {
                    return Err(GenError::DuplicateDirective(d.name.clone()));
                }
                match d.value.require_ident() {
                    Ok(s) => {
                        acc.deserialized = Some(s);
                    },
                    Err(e) => {
                        return Err(e);
                    },
                }
            }
            proof {
                sacc = (match spec_step(sacc0, ds[i as int]) {
                    Ok(a) => a,
                    Err(_) => sacc0,
                });
                assert(spec_step(sacc0, ds[i as int]) matches Ok(a) && a == sacc);
                assert(contract_like(acc, sacc));
                assert(spec_parse_at(ds, sacc0, i as int) == spec_parse_at(ds, sacc, i + 1));
            }
            i += 1;
        }
        Ok(acc)
    }
}

/// Whether a name is one of the four recognized method-level directives.
pub open spec fn is_directive_keyword(n: Seq<char>) -> bool {
    n == "path"@ || n == "headers"@ || n == "serialized"@ || n == "deserialized"@
}

/// Whether the accumulator field a keyword selects is already set.
pub open spec fn field_set(c: Contract, kw: Seq<char>) -> bool {
    if kw == "path"@ {
        c.path is Some
    } else if kw == "headers"@ {
        c.headers is Some
    } else if kw == "serialized"@ {
        c.serialized is Some
    } else if kw == "deserialized"@ {
        c.deserialized is Some
    } else {
        false
    }
}

/// The four directive keywords are pairwise distinct.
proof fn lemma_directive_keywords_distinct()
    ensures
        "path"@ != "headers"@,
        "path"@ != "serialized"@,
        "path"@ != "deserialized"@,
        "headers"@ != "serialized"@,
        "headers"@ != "deserialized"@,
        "serialized"@ != "deserialized"@,
{
    reveal_strlit("path");
    reveal_strlit("headers");
    reveal_strlit("serialized");
    reveal_strlit("deserialized");
    assert("path"@.len() == 4 && "headers"@.len() == 7 && "serialized"@.len() == 10
        && "deserialized"@.len() == 12);
}

/// Once a field is set, a later directive with the same keyword makes the
/// recognizer fail.
proof fn lemma_dup_from(ds: Seq<Directive>, acc: Contract, m: int, j: int, kw: Seq<char>)
    requires
        0 <= m <= j < ds.len(),
        field_set(acc, kw),
        ds[j].name@ == kw,
        is_directive_keyword(kw),
    ensures
        spec_parse_at(ds, acc, m) is Err,
    decreases j - m,
{
    lemma_directive_keywords_distinct();
    if m == j {
        assert(spec_step(acc, ds[j]) is Err);
    } else {
        match spec_step(acc, ds[m]) {
            Err(_) => {},
            Ok(a) => {
                assert(field_set(a, kw));
                lemma_dup_from(ds, a, m + 1, j, kw);
            },
        }
    }
}

/// Reaching the first of two same-keyword directives either fails earlier
/// or sets the field, after which the second fails.
proof fn lemma_dup_reach(ds: Seq<Directive>, acc: Contract, m: int, i: int, j: int, kw: Seq<char>)
    requires
        0 <= m <= i < j < ds.len(),
        ds[i].name@ == kw,
        ds[j].name@ == kw,
        is_directive_keyword(kw),
    ensures
        spec_parse_at(ds, acc, m) is Err,
    decreases i - m,
{
    lemma_directive_keywords_distinct();
    if m == i {
        match spec_step(acc, ds[i]) {
            Err(_) => {},
            Ok(a) => {
                assert(field_set(a, kw));
                lemma_dup_from(ds, a, i + 1, j, kw);
            },
        }
    } else {
        match spec_step(acc, ds[m]) {
            Err(_) => {},
            Ok(a) => {
                lemma_dup_reach(ds, a, m + 1, i, j, kw);
            },
        }
    }
}

/// Setting the same recognized directive twice in one method scope makes
/// recognition fail: no contract comes out of such a directive list.
pub proof fn lemma_duplicate_directive_fails(ds: Seq<Directive>, i: int, j: int)
    requires
        0 <= i < j < ds.len(),
        ds[i].name@ == ds[j].name@,
        is_directive_keyword(ds[i].name@),
    ensures
        spec_parse(ds) is Err,
{
    lemma_dup_reach(
        ds,
        Contract { method: None, path: None, headers: None, serialized: None, deserialized: None },
        0,
        i,
        j,
        ds[i].name@,
    );
}

/// A method's shape before rewriting: its name, whether it is asynchronous,
/// whether it already has a default body, and its parameters.
#[derive(Debug)]
pub struct MethodSig {
    pub ident: String,
    pub is_async: bool,
    pub has_default: bool,
    pub inputs: Vec<RawParam>,
}

/// One input of the rewritten signature: identifier and type text, all
/// markers consumed.
#[derive(Debug)]
pub struct RewrittenInput {
    pub ident: String,
    pub ty: String,
}

/// The views of a rewritten input list.
pub open spec fn rewritten_view(inputs: Seq<RewrittenInput>) -> Seq<(Seq<char>, Seq<char>)> {
    inputs.map_values(|i: RewrittenInput| (i.ident@, i.ty@))
}

/// What the rewritten signature holds: each parameter under its own name,
/// an optional parameter's type wrapped in the optional-value wrapper.
pub open spec fn rewritten_of(ms: Seq<PatMeta>) -> Seq<(Seq<char>, Seq<char>)> {
    ms.map_values(
        |m: PatMeta|
            (
                m.ident@,
                if m.optional {
                    "Option<"@ + m.ty@ + ">"@
                } else {
                    m.ty@
                },
            ),
    )
}

/// Rewrites the signature inputs: optional parameters wrapped, markers
/// consumed.
pub fn reformat(metas: &PatMetas) -> (r: Vec<RewrittenInput>)
    ensures
        rewritten_view(r@) == rewritten_of(metas@),
{
    let ms = metas.metas();
    let n = ms.len();
    let mut out: Vec<RewrittenInput> = Vec::new();
    proof {
        assert(rewritten_view(out@) =~~= rewritten_of(metas@.take(0)));
    }
    let mut j: usize = 0;
    while j < n
        invariant
            n == metas@.len(),
            ms@ == metas@,
            j <= n,
            rewritten_view(out@) =~~= rewritten_of(metas@.take(j as int)),
        decreases n - j,
    {
        let m = &ms[j];
        let ty = if m.optional {
            String::from_str("Option<").concat(m.ty.as_str()).concat(">")
        } else {
            m.ty.clone()
        };
        let ghost tyv = ty@;
        let ghost prev = rewritten_view(out@);
        out.push(RewrittenInput { ident: m.ident.clone(), ty });
        proof {
            assert(tyv == (if m.optional {
                "Option<"@ + m.ty@ + ">"@
            } else {
                m.ty@
            }));
            assert(rewritten_view(out@) =~~= prev.push((m.ident@, tyv)));
            assert(rewritten_of(metas@.take(j + 1)) =~~= rewritten_of(metas@.take(j as int)).push(
                (m.ident@, tyv),
            ));
            assert(rewritten_view(out@) =~~= rewritten_of(metas@.take(j + 1)));
        }
        j += 1;
    }
    proof {
        assert(metas@.take(n as int) =~= metas@);
    }
    out
}

/// Whether every parameter classifies.
pub open spec fn classification_ok(ps: Seq<RawParam>) -> bool {
    forall|i: int| 0 <= i < ps.len() ==> spec_classify(#[trigger] ps[i]) is Ok
}

/// The classified parameters, once classification succeeds.
pub open spec fn classified(ps: Seq<RawParam>) -> Seq<PatMeta> {
    Seq::new(ps.len(), |i: int| spec_classify(ps[i]).unwrap())
}

/// Whether the template and the Path-role parameters match bijectively.
pub open spec fn template_ok(tpl: Seq<char>, ms: Seq<PatMeta>) -> bool {
    all_placeholders_defined(placeholders_of(tpl), ms) && all_path_params_used(
        placeholders_of(tpl),
        ms,
    )
}

/// Whether assembling a method from this contract succeeds.
pub open spec fn expand_ok(c: Contract, item: MethodSig) -> bool {
    &&& !item.has_default
    &&& item.is_async
    &&& c.method is Some
    &&& c.path is Some
    &&& classification_ok(item.inputs@)
    &&& template_ok(c.path.unwrap()@, classified(item.inputs@))
}

/// What a successfully assembled plan holds, fragment by fragment.
pub open spec fn plan_matches(p: MethodPlan, c: Contract, item: MethodSig) -> bool {
    let ms = classified(item.inputs@);
    &&& p.name == item.ident
    &&& c.method matches Some(v) && p.request.method == v
    &&& c.path matches Some(t) && p.url.pattern@ == pattern_of(t@) && pieces_seq_view(
        p.url.pieces@,
    ) == spec_pieces(t@, ms)
    &&& p.query.fields@ == query_fields_of(ms)
    &&& pairs_view(p.headers.literals@) == (match c.headers {
        Some(h) => pairs_view(h@),
        None => Seq::empty(),
    })
    &&& p.headers.params@ == header_params_of(ms)
    &&& p.body.body == first_body(ms)
    &&& p.body.serialized == c.serialized
    &&& p.response.deserialized == c.deserialized
    &&& rewritten_view(p.inputs@) == rewritten_of(ms)
}

/// What the error of a failed assembly is, stage by stage.
pub open spec fn expand_err_matches(c: Contract, item: MethodSig, e: GenError) -> bool {
    &&& (item.has_default ==> e is DefaultBody)
    &&& (!item.has_default && !item.is_async ==> e is NotAsync)
    &&& (!item.has_default && item.is_async && c.method is None ==> (e matches
    GenError::MissingDirective(n) && n@ == "method"@))
    &&& (!item.has_default && item.is_async && c.method is Some && c.path is None ==> (e matches
    GenError::MissingDirective(n) && n@ == "path"@))
    &&& (!item.has_default && item.is_async && c.method is Some && c.path is Some
        && !classification_ok(item.inputs@) ==> exists|k: int|
        {
            &&& 0 <= k < item.inputs@.len()
            &&& #[trigger] spec_classify(item.inputs@[k]) == Err::<PatMeta, GenError>(e)
            &&& forall|j: int| 0 <= j < k ==> spec_classify(item.inputs@[j]) is Ok
        })
    &&& (!item.has_default && item.is_async && c.method is Some && c.path is Some
        && classification_ok(item.inputs@) && !template_ok(
        c.path.unwrap()@,
        classified(item.inputs@),
    ) ==> (e is UndefinedPathParam || e is MissingPathParam)
        && crate::contract::path::path_error_names_first(
        placeholders_of(c.path.unwrap()@),
        classified(item.inputs@),
        e,
    ))
}

/// Accumulators that agree field for field drive assembly to the same
/// outcome.
pub proof fn lemma_contract_like_expand(a: Contract, b: Contract, item: MethodSig)
    requires
        contract_like(a, b),
    ensures
        expand_ok(a, item) == expand_ok(b, item),
        forall|p: MethodPlan| plan_matches(p, a, item) == plan_matches(p, b, item),
        forall|e: GenError| expand_err_matches(a, item, e) == expand_err_matches(b, item, e),
{
    assert((match a.headers {
        Some(h) => pairs_view(h@),
        None => Seq::empty(),
    }) == (match b.headers {
        Some(h) => pairs_view(h@),
        None => Seq::empty(),
    }));
}

/// The assembled request plan of one method.
#[derive(Debug)]
pub struct MethodPlan {
    pub name: String,
    pub request: RequestPlan,
    pub url: UrlPlan,
    pub query: QueryPlan,
    pub headers: HeaderPlan,
    pub body: BodyPlan,
    pub response: ResponsePlan,
    pub inputs: Vec<RewrittenInput>,
}

impl Contract {
    /// Assembles one method: applicability checks, mandatory directives,
    /// classification, path validation, the five fragments, and the
    /// signature rewrite, stopping at the first failure.
    pub fn expand(self, item: &MethodSig) -> (r: Result<MethodPlan, GenError>)
        ensures
            match r {
                Ok(p) => expand_ok(self, *item) && plan_matches(p, self, *item),
                Err(e) => !expand_ok(self, *item) && expand_err_matches(self, *item, e),
            },
    {
        if item.has_default {
            return Err(GenError::DefaultBody);
        }
        if !item.is_async {
            return Err(GenError::NotAsync);
        }
        let method = match self.method {
            Some(m) => m,
            None => {
                return Err(GenError::MissingDirective(String::from_str("method")));
            },
        };
        let path = match self.path {
            Some(p) => p,
            None => {
                return Err(GenError::MissingDirective(String::from_str("path")));
            },
        };
        let metas = match PatMetas::new(&item.inputs) {
            Ok(ms) => ms,
            Err(e) => {
                return Err(e);
            },
        };
        proof {
            assert(metas@ =~= classified(item.inputs@));
        }
        let url = match UrlPlan::new(&metas, path.as_str()) {
            Ok(u) => u,
            Err(e) => {
                return Err(e);
            },
        };
        let request = RequestPlan::new(method);
        let query = QueryPlan::new(&metas);
        let literals = match self.headers {
            Some(h) => h,
            None => Vec::new(),
        };
        proof {
            assert(self.headers is None ==> pairs_view(literals@) =~~= Seq::<
                (Seq<char>, Seq<char>),
            >::empty());
        }
        let headers = HeaderPlan::new(&metas, literals);
        let body = BodyPlan::new(&metas, self.serialized);
        let response = ResponsePlan::new(self.deserialized);
        let inputs = reformat(&metas);
        Ok(
            MethodPlan {
                name: item.ident.clone(),
                request,
                url,
                query,
                headers,
                body,
                response,
                inputs,
            },
        )
    }
}

impl MethodPlan {
    /// Evaluates the plan against runtime argument values and the client
    /// state, producing the request description in the fixed fragment
    /// order: URL, request initiation, query, headers, body.
    pub fn execute(
        &self,
        args: &Vec<Arg>,
        base_url: &Option<String>,
        default_headers: &Option<Vec<StrTuple>>,
    ) -> (r: BuiltRequest)
        ensures
            r.method == self.request.method,
            r.url@ == base_text(*base_url) + render_pieces(
                pieces_seq_view(self.url.pieces@),
                args@,
            ),
            pairs_view(r.query@) == query_pairs(self.query.fields@, args@),
            pairs_view(r.headers@) == merged_headers(
                defaults_view(*default_headers),
                pairs_view(self.headers.literals@),
            ) + header_pairs(self.headers.params@, args@),
            r.body == built_body(self.body, args@),
    {
        let url = self.url.build(args, base_url);
        let mut req = self.request.init(url);
        req.query = self.query.pairs(args);
        req.headers = self.headers.apply(default_headers, args);
        req.body = self.body.apply(args);
        req
    }
}

} // verus!
