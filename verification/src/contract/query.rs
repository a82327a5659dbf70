//! The query fragment: the record of Query-role parameters, and its
//! rendering as name/value pairs and as a query string.
//!
//! Exactly the Query-role parameters are serialized, each under its resolved
//! name.  An optional parameter whose value is absent is omitted entirely:
//! it contributes no pair and no text.

use vstd::prelude::*;
use vstd::string::StringExecFns;
use crate::meta::{wire_string, Kind, PatMeta, PatMetas};
use crate::util::{lookup, lookup_arg, pairs_view, Arg, StrTuple};

verus! {

/// One field of the query record.
#[derive(Debug)]
pub struct QueryField {
    pub ident: String,
    pub wire: String,
    pub optional: bool,
}

/// The query-record field a Query-role parameter contributes.
pub open spec fn field_of(m: PatMeta) -> QueryField {
    QueryField { ident: m.ident, wire: wire_string(m), optional: m.optional }
}

/// The query-record fields of a parameter list: one per Query-role
/// parameter, in declaration order.
pub open spec fn query_fields_of(ms: Seq<PatMeta>) -> Seq<QueryField>
    decreases ms.len(),
{
    if ms.len() == 0 {
        seq![]
    } else {
        query_fields_of(ms.drop_last()) + (if ms.last().kind is Query {
            seq![field_of(ms.last())]
        } else {
            seq![]
        })
    }
}

/// The rendered query pairs: one per field whose value is present, wire
/// name first.  A field whose value is absent is omitted.
pub open spec fn query_pairs(fs: Seq<QueryField>, args: Seq<Arg>) -> Seq<(Seq<char>, Seq<char>)>
    decreases fs.len(),
{
    if fs.len() == 0 {
        seq![]
    } else {
        query_pairs(fs.drop_last(), args) + (match lookup(args, fs.last().ident@) {
            Some(Some(v)) => seq![(fs.last().wire@, v@)],
            _ => seq![],
        })
    }
}

/// The query string of a pair list: `name=value` entries joined by `&`.
pub open spec fn qs_of(ps: Seq<(Seq<char>, Seq<char>)>) -> Seq<char>
    decreases ps.len(),
{
    if ps.len() == 0 {
        Seq::empty()
    } else if ps.len() == 1 {
        ps[0].0 + seq!['='] + ps[0].1
    } else {
        qs_of(ps.drop_last()) + seq!['&'] + ps.last().0 + seq!['='] + ps.last().1
    }
}

/// The query fragment of one method.
#[derive(Debug)]
pub struct QueryPlan {
    pub fields: Vec<QueryField>,
}

impl QueryPlan {
    /// Collects the Query-role parameters into record fields.
    pub fn new(metas: &PatMetas) -> (r: QueryPlan)
        ensures
            r.fields@ == query_fields_of(metas@),
    {
        let ms = metas.metas();
        let n = ms.len();
        let mut fields: Vec<QueryField> = Vec::new();
        proof {
            assert(fields@ =~= query_fields_of(metas@.take(0)));
        }
        let mut j: usize = 0;
        while j < n
            invariant
                n == metas@.len(),
                ms@ == metas@,
                j <= n,
                fields@ =~= query_fields_of(metas@.take(j as int)),
            decreases n - j,
        {
            let m = &ms[j];
            if matches!(m.kind, Kind::Query) {
                fields.push(
                    QueryField {
                        ident: m.ident.clone(),
                        wire: m.resolved().clone(),
                        optional: m.optional,
                    },
                );
            }
            proof {
                let taken = metas@.take(j + 1);
                assert(taken.drop_last() =~= metas@.take(j as int));
                assert(taken.last() == metas@[j as int]);
                assert(fields@ =~= query_fields_of(taken));
            }
            j += 1;
        }
        proof {
            assert(metas@.take(n as int) =~= metas@);
        }
        QueryPlan { fields }
    }

    /// Renders the present fields as wire-name/value pairs, in field order.
    pub fn pairs(&self, args: &Vec<Arg>) -> (r: Vec<StrTuple>)
        ensures
            pairs_view(r@) == query_pairs(self.fields@, args@),
    {
        let n = self.fields.len();
        let mut out: Vec<StrTuple> = Vec::new();
        proof {
            assert(pairs_view(out@) =~~= query_pairs(self.fields@.take(0), args@));
        }
        let mut j: usize = 0;
        while j < n
            invariant
                n == self.fields@.len(),
                j <= n,
                pairs_view(out@) =~~= query_pairs(self.fields@.take(j as int), args@),
            decreases n - j,
        {
            let f = &self.fields[j];
            match lookup_arg(args, f.ident.as_str()) {
                Some(v) => match v {
                    Some(s) => {
                        out.push(StrTuple(f.wire.clone(), s.clone()));
                    },
                    None => {},
                },
                None => {},
            }
            proof {
                let taken = self.fields@.take(j + 1);
                assert(taken.drop_last() =~= self.fields@.take(j as int));
                assert(taken.last() == self.fields@[j as int]);
                assert(pairs_view(out@) =~~= query_pairs(taken, args@));
            }
            j += 1;
        }
        proof {
            assert(self.fields@.take(n as int) =~= self.fields@);
        }
        out
    }
}

/// Renders a pair list as a query string: `name=value` joined by `&`.
pub fn query_string(pairs: &Vec<StrTuple>) -> (r: String)
    ensures
        r@ == qs_of(pairs_view(pairs@)),
{
    let n = pairs.len();
    let mut out = String::new();
    proof {
        reveal_strlit("=");
        reveal_strlit("&");
        assert("="@ =~= seq!['=']);
        assert("&"@ =~= seq!['&']);
        assert(out@ =~= qs_of(pairs_view(pairs@).take(0)));
    }
    let mut j: usize = 0;
    while j < n
        invariant
            n == pairs@.len(),
            j <= n,
            out@ =~= qs_of(pairs_view(pairs@).take(j as int)),
            "="@ =~= seq!['='],
            "&"@ =~= seq!['&'],
        decreases n - j,
    {
        if j > 0 {
            out.append("&");
        }
        out.append(pairs[j].0.as_str());
        out.append("=");
        out.append(pairs[j].1.as_str());
        proof {
            let pv = pairs_view(pairs@);
            let taken = pv.take(j + 1);
            assert(taken.drop_last() =~~= pv.take(j as int));
            assert(taken.last() == (pairs@[j as int].0@, pairs@[j as int].1@));
            assert(taken[0] == pv[0]);
            assert(out@ =~= qs_of(taken));
        }
        j += 1;
    }
    proof {
        assert(pairs_view(pairs@).take(n as int) =~~= pairs_view(pairs@));
    }
    out
}

/// A name under which no field has a present value never appears among the
/// rendered pairs: an absent optional value is omitted, not serialized as
/// null.
pub proof fn lemma_absent_name_omitted(fs: Seq<QueryField>, args: Seq<Arg>, name: Seq<char>)
    requires
        forall|k: int|
            0 <= k < fs.len() && (#[trigger] fs[k]).wire@ == name ==> !(lookup(args, fs[k].ident@)
                matches Some(v) && v is Some),
    ensures
        forall|i: int|
            0 <= i < query_pairs(fs, args).len() ==> (#[trigger] query_pairs(fs, args)[i]).0
                != name,
    decreases fs.len(),
{
    if fs.len() > 0 {
        let rest = fs.drop_last();
        assert(forall|k: int| 0 <= k < rest.len() ==> #[trigger] rest[k] == fs[k]);
        lemma_absent_name_omitted(rest, args, name);
        let qp = query_pairs(fs, args);
        let prev = query_pairs(rest, args);
        assert(fs.last() == fs[fs.len() - 1]);
        match lookup(args, fs.last().ident@) {
            Some(v) => {
                if v is Some {
                    assert(fs.last().wire@ != name);
                    assert(forall|i: int| 0 <= i < prev.len() ==> #[trigger] qp[i] == prev[i]);
                    assert(qp[qp.len() - 1].0 == fs.last().wire@);
                } else {
                    assert(qp =~~= prev);
                }
            },
            None => {
                assert(qp =~~= prev);
            },
        }
    }
}

} // verus!
