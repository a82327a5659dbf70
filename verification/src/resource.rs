//! The resource assembler: trait-level directives, the client type name,
//! and the assembly of every annotated method into a request plan.
//!
//! Trait-level `serialized` and `deserialized` defaults reach every method
//! whose own contract leaves the field unset; a method that sets its own is
//! not overridden.  The client type name defaults to the trait name with
//! `Client` appended.

use vstd::prelude::*;
use vstd::string::StringExecFns;
use crate::contract::{
    contract_like, expand_err_matches, expand_ok, lemma_contract_like_expand, plan_matches,
    spec_parse, Contract, Directive, MethodPlan, MethodSig,
};
use crate::util::{eq_str, DirectiveValue, GenError};

verus! {

/// The accumulated trait-level directives.
#[derive(Debug)]
pub struct Resource {
    pub client: Option<String>,
    pub serialized: Option<String>,
    pub deserialized: Option<String>,
}

impl Default for Resource {
    /// The empty accumulator.
    fn default() -> (r: Self)
        ensures
            r.client is None && r.serialized is None && r.deserialized is None,
    {
        Resource { client: None, serialized: None, deserialized: None }
    }
}

/// One recognizer step for a trait-level directive.
pub open spec fn spec_res_step(acc: Resource, d: Directive) -> Result<Resource, GenError> {
    if d.name@ == "client"@ {
        if acc.client is Some {
            Err(GenError::DuplicateDirective(d.name))
        } else {
            match crate::util::expr_ident(d.value) {
                Some(s) => Ok(Resource { client: Some(s), ..acc }),
                None => Err(GenError::NotIdent),
            }
        }
    } else if d.name@ == "serialized"@ {
        if acc.serialized is Some {
            Err(GenError::DuplicateDirective(d.name))
        } else {
            match crate::util::expr_ident(d.value) {
                Some(s) => Ok(Resource { serialized: Some(s), ..acc }),
                None => Err(GenError::NotIdent),
            }
        }
    } else if d.name@ == "deserialized"@ {
        if acc.deserialized is Some {
            Err(GenError::DuplicateDirective(d.name))
        } else {
            match crate::util::expr_ident(d.value) {
                Some(s) => Ok(Resource { deserialized: Some(s), ..acc }),
                None => Err(GenError::NotIdent),
            }
        }
    } else {
        Ok(acc)
    }
}

/// The recognizer folded over the directives from position `i` on.
pub open spec fn spec_res_parse_at(ds: Seq<Directive>, acc: Resource, i: int) -> Result<
    Resource,
    GenError,
>
    decreases ds.len() - i,
{
    if i < 0 || i >= ds.len() {
        Ok(acc)
    } else {
        match spec_res_step(acc, ds[i]) {
            Ok(a) => spec_res_parse_at(ds, a, i + 1),
            Err(e) => Err(e),
        }
    }
}

/// The accumulated trait-level directives of a directive list.
pub open spec fn spec_res_parse(ds: Seq<Directive>) -> Result<Resource, GenError> {
    spec_res_parse_at(ds, Resource { client: None, serialized: None, deserialized: None }, 0)
}

impl Resource {
    /// Recognizes the trait-level directives, skipping unrecognized ones
    /// and rejecting any field set twice.
    pub fn parse(directives: &Vec<Directive>) -> (r: Result<Resource, GenError>)
        ensures
            r == spec_res_parse(directives@),
    {
        let ghost ds = directives@;
        let mut acc = Resource { client: None, serialized: None, deserialized: None };
        let n = directives.len();
        let mut i: usize = 0;
        while i < n
            invariant
                n == ds.len(),
                ds == directives@,
                i <= n,
                spec_res_parse(ds) == spec_res_parse_at(ds, acc, i as int),
            decreases n - i,
        {
            let ghost acc0 = acc;
            let d = &directives[i];
            proof {
                assert(spec_res_parse_at(ds, acc, i as int) == (match spec_res_step(
                    acc,
                    ds[i as int],
                ) {
                    Ok(a) => spec_res_parse_at(ds, a, i + 1),
                    Err(e) => Err(e),
                }));
            }
            if eq_str(d.name.as_str(), "client") {
                if acc.client.is_some() {
                    return Err(GenError::DuplicateDirective(d.name.clone()));
                }
                match d.value.require_ident() {
                    Ok(s) => {
                        acc.client = Some(s);
                    },
                    Err(e) => {
                        return Err(e);
                    },
                }
            } else if eq_str(d.name.as_str(), "serialized") {
                if acc.serialized.is_some() {
                    return Err(GenError::DuplicateDirective(d.name.clone()));
                }
                match d.value.require_ident() {
                    Ok(s) => {
                        acc.serialized = Some(s);
                    },
                    Err(e) => {
                        return Err(e);
                    },
                }
            } else if eq_str(d.name.as_str(), "deserialized") {
                if acc.deserialized.is_some() {
                    return Err(GenError::DuplicateDirective(d.name.clone()));
                }
                match d.value.require_ident() {
                    Ok(s) => {
                        acc.deserialized = Some(s);
                    },
                    Err(e) => {
                        return Err(e);
                    },
                }
            }
            proof {
                assert(spec_res_step(acc0, ds[i as int]) == Ok::<Resource, GenError>(acc));
                assert(spec_res_parse_at(ds, acc0, i as int) == spec_res_parse_at(
                    ds,
                    acc,
                    i + 1,
                ));
            }
            i += 1;
        }
        Ok(acc)
    }
}

/// One annotated method of the trait: its verb, its directives, its shape.
#[derive(Debug)]
pub struct MethodModel {
    pub verb: Option<String>,
    pub directives: Vec<Directive>,
    pub sig: MethodSig,
}

/// A trait to assemble: its name and its annotated methods.
#[derive(Debug)]
pub struct TraitModel {
    pub ident: String,
    pub methods: Vec<MethodModel>,
}

/// What the resource assembler produces: the client type name and one plan
/// per method.
#[derive(Debug)]
pub struct ResourcePlan {
    pub client_name: String,
    pub methods: Vec<MethodPlan>,
}

/// The first of two options that is set.
pub open spec fn or_opt(a: Option<String>, b: Option<String>) -> Option<String> {
    if a is Some {
        a
    } else {
        b
    }
}

/// The method's effective contract: its own directives, its verb, and the
/// trait-level defaults where its own contract leaves a field unset.
pub open spec fn effective_of(c0: Contract, verb: Option<String>, res: Resource) -> Contract {
    Contract {
        method: verb,
        serialized: or_opt(c0.serialized, res.serialized),
        deserialized: or_opt(c0.deserialized, res.deserialized),
        ..c0
    }
}

/// Whether a method's directives and shape assemble successfully under the
/// trait-level defaults.
pub open spec fn method_ok(mm: MethodModel, res: Resource) -> bool {
    match spec_parse(mm.directives@) {
        Ok(c0) => expand_ok(effective_of(c0, mm.verb, res), mm.sig),
        Err(_) => false,
    }
}

/// What a method's assembled plan holds.
pub open spec fn method_expands(mm: MethodModel, res: Resource, p: MethodPlan) -> bool {
    match spec_parse(mm.directives@) {
        Ok(c0) => {
            let eff = effective_of(c0, mm.verb, res);
            expand_ok(eff, mm.sig) && plan_matches(p, eff, mm.sig)
        },
        Err(_) => false,
    }
}

/// What the error of a failed method is.
pub open spec fn method_fails_with(mm: MethodModel, res: Resource, e: GenError) -> bool {
    match spec_parse(mm.directives@) {
        Err(e0) => e == e0,
        Ok(c0) => {
            let eff = effective_of(c0, mm.verb, res);
            !expand_ok(eff, mm.sig) && expand_err_matches(eff, mm.sig, e)
        },
    }
}

impl Resource {
    /// Assembles a whole trait: picks the client type name, propagates the
    /// trait-level defaults onto every method that does not set its own,
    /// and assembles each method in order, stopping at the first failure.
    pub fn expand(self, t: &TraitModel) -> (r: Result<ResourcePlan, GenError>)
        ensures
            match r {
                Ok(rp) => {
                    &&& match self.client {
                        Some(c) => rp.client_name == c,
                        None => rp.client_name@ == t.ident@ + "Client"@,
                    }
                    &&& rp.methods@.len() == t.methods@.len()
                    &&& forall|i: int|
                        0 <= i < t.methods@.len() ==> method_expands(
                            t.methods@[i],
                            self,
                            #[trigger] rp.methods@[i],
                        )
                },
                Err(e) => exists|k: int|
                    {
                        &&& 0 <= k < t.methods@.len()
                        &&& method_fails_with(#[trigger] t.methods@[k], self, e)
                        &&& forall|j: int| 0 <= j < k ==> method_ok(#[trigger] t.methods@[j], self)
                    },
            },
    {
        let client_name = match &self.client {
            Some(c) => c.clone(),
            None => t.ident.clone().concat("Client"),
        };
        let n = t.methods.len();
        let mut plans: Vec<MethodPlan> = Vec::new();
        let mut i: usize = 0;
        while i < n
            invariant
                n == t.methods@.len(),
                i <= n,
                plans@.len() == i,
                forall|j: int|
                    0 <= j < i ==> method_expands(t.methods@[j], self, #[trigger] plans@[j]),
                forall|j: int| 0 <= j < i ==> method_ok(#[trigger] t.methods@[j], self),
            decreases n - i,
        {
            let mm = &t.methods[i];
            let mut c = match Contract::parse(&mm.directives) {
                Ok(c) => c,
                Err(e) => {
                    proof {
                        let k = i as int;
                        assert(method_fails_with(t.methods@[k], self, e));
                    }
                    return Err(e);
                },
            };
            let ghost c0 = spec_parse(mm.directives@)->Ok_0;
            c.method = match &mm.verb {
                Some(v) => Some(v.clone()),
                None => None,
            };
            if c.serialized.is_none() {
                c.serialized = match &self.serialized {
                    Some(s) => Some(s.clone()),
                    None => None,
                };
            }
            if c.deserialized.is_none() {
                c.deserialized = match &self.deserialized {
                    Some(s) => Some(s.clone()),
                    None => None,
                };
            }
            let ghost eff = effective_of(c0, mm.verb, self);
            let ghost cg = c;
            proof {
                assert(contract_like(cg, eff));
                lemma_contract_like_expand(cg, eff, mm.sig);
            }
            match c.expand(&mm.sig) {
                Ok(p) => {
                    plans.push(p);
                },
                Err(e) => {
                    proof {
                        let k = i as int;
                        assert(!expand_ok(eff, mm.sig) && expand_err_matches(eff, mm.sig, e));
                        assert(method_fails_with(t.methods@[k], self, e));
                    }
                    return Err(e);
                },
            }
            i += 1;
        }
        Ok(ResourcePlan { client_name, methods: plans })
    }
}

} // verus!
