//! The header fragment: literal contract headers merged with the client's
//! default headers, then one header per Header-role parameter.
//!
//! Merging keeps every default whose name no literal header uses, then the
//! literal headers themselves: on a name collision the literal contract
//! header wins.  The effective value of a name in a header list is that of
//! its last entry, as a header-map insert would leave it.

use vstd::prelude::*;
use crate::meta::{wire_string, Kind, PatMeta, PatMetas};
use crate::util::{eq_str, lookup, lookup_arg, pairs_view, Arg, StrTuple};

verus! {

/// One header taken from a Header-role parameter: wire name and the
/// parameter supplying the value.
#[derive(Debug)]
pub struct HeaderParam {
    pub wire: String,
    pub ident: String,
}

/// The header-role parameters of a method, in declaration order.
pub open spec fn header_params_of(ms: Seq<PatMeta>) -> Seq<HeaderParam>
    decreases ms.len(),
{
    if ms.len() == 0 {
        seq![]
    } else {
        header_params_of(ms.drop_last()) + (if ms.last().kind is Header {
            seq![HeaderParam { wire: wire_string(ms.last()), ident: ms.last().ident }]
        } else {
            seq![]
        })
    }
}

/// Whether some pair in the list carries the given name.
pub open spec fn has_name(ps: Seq<(Seq<char>, Seq<char>)>, n: Seq<char>) -> bool {
    exists|i: int| 0 <= i < ps.len() && (#[trigger] ps[i]).0 == n
}

/// The defaults that survive the merge: those whose name no literal header
/// uses.
pub open spec fn keep_defaults(
    ds: Seq<(Seq<char>, Seq<char>)>,
    lits: Seq<(Seq<char>, Seq<char>)>,
) -> Seq<(Seq<char>, Seq<char>)>
    decreases ds.len(),
{
    if ds.len() == 0 {
        seq![]
    } else {
        keep_defaults(ds.drop_last(), lits) + (if has_name(lits, ds.last().0) {
            seq![]
        } else {
            seq![ds.last()]
        })
    }
}

/// The merge of default and literal headers: surviving defaults first, then
/// every literal header.
pub open spec fn merged_headers(
    ds: Seq<(Seq<char>, Seq<char>)>,
    lits: Seq<(Seq<char>, Seq<char>)>,
) -> Seq<(Seq<char>, Seq<char>)> {
    keep_defaults(ds, lits) + lits
}

/// The headers contributed by Header-role parameters whose value is
/// present.
pub open spec fn header_pairs(ps: Seq<HeaderParam>, args: Seq<Arg>) -> Seq<
    (Seq<char>, Seq<char>),
>
    decreases ps.len(),
{
    if ps.len() == 0 {
        seq![]
    } else {
        header_pairs(ps.drop_last(), args) + (match lookup(args, ps.last().ident@) {
            Some(Some(v)) => seq![(ps.last().wire@, v@)],
            _ => seq![],
        })
    }
}

/// The views of an optional default-header list.
pub open spec fn defaults_view(d: Option<Vec<StrTuple>>) -> Seq<(Seq<char>, Seq<char>)> {
    match d {
        Some(v) => pairs_view(v@),
        None => Seq::empty(),
    }
}

/// The effective value of a name in a header list: that of its last entry.
pub open spec fn lookup_last(ps: Seq<(Seq<char>, Seq<char>)>, n: Seq<char>) -> Option<Seq<char>>
    decreases ps.len(),
{
    if ps.len() == 0 {
        None
    } else if ps.last().0 == n {
        Some(ps.last().1)
    } else {
        lookup_last(ps.drop_last(), n)
    }
}

/// Whether some literal header carries the given name.
fn has_name_exec(ps: &Vec<StrTuple>, n: &str) -> (r: bool)
    ensures
        r == has_name(pairs_view(ps@), n@),
{
    let c = ps.len();
    let mut i: usize = 0;
    while i < c
        invariant
            c == ps@.len(),
            i <= c,
            forall|k: int| 0 <= k < i ==> (#[trigger] pairs_view(ps@)[k]).0 != n@,
        decreases c - i,
    {
        if eq_str(ps[i].0.as_str(), n) {
            assert(pairs_view(ps@)[i as int].0 == n@);
            return true;
        }
        i += 1;
    }
    false
}

/// The header fragment of one method: the literal contract headers, and the
/// Header-role parameters.
#[derive(Debug)]
pub struct HeaderPlan {
    pub literals: Vec<StrTuple>,
    pub params: Vec<HeaderParam>,
}

impl HeaderPlan {
    /// Keeps the literal headers and collects the Header-role parameters.
    pub fn new(metas: &PatMetas, literals: Vec<StrTuple>) -> (r: HeaderPlan)
        ensures
            r.literals == literals,
            r.params@ == header_params_of(metas@),
    {
        let ms = metas.metas();
        let n = ms.len();
        let mut params: Vec<HeaderParam> = Vec::new();
        proof {
            assert(params@ =~= header_params_of(metas@.take(0)));
        }
        let mut j: usize = 0;
        while j < n
            invariant
                n == metas@.len(),
                ms@ == metas@,
                j <= n,
                params@ =~= header_params_of(metas@.take(j as int)),
            decreases n - j,
        {
            let m = &ms[j];
            if matches!(m.kind, Kind::Header) {
                params.push(HeaderParam { wire: m.resolved().clone(), ident: m.ident.clone() });
            }
            proof {
                let taken = metas@.take(j + 1);
                assert(taken.drop_last() =~= metas@.take(j as int));
                assert(taken.last() == metas@[j as int]);
                assert(params@ =~= header_params_of(taken));
            }
            j += 1;
        }
        proof {
            assert(metas@.take(n as int) =~= metas@);
        }
        HeaderPlan { literals, params }
    }

    /// Assembles the request's headers: merged static headers first, then
    /// one header per Header-role parameter whose value is present.
    pub fn apply(&self, defaults: &Option<Vec<StrTuple>>, args: &Vec<Arg>) -> (r: Vec<StrTuple>)
        ensures
            pairs_view(r@) == merged_headers(
                defaults_view(*defaults),
                pairs_view(self.literals@),
            ) + header_pairs(self.params@, args@),
    {
        let mut out: Vec<StrTuple> = Vec::new();
        match defaults {
            Some(dv) => {
                let c = dv.len();
                proof {
                    assert(pairs_view(out@) =~~= keep_defaults(
                        pairs_view(dv@).take(0),
                        pairs_view(self.literals@),
                    ));
                }
                let mut i: usize = 0;
                while i < c
                    invariant
                        c == dv@.len(),
                        i <= c,
                        pairs_view(out@) =~~= keep_defaults(
                            pairs_view(dv@).take(i as int),
                            pairs_view(self.literals@),
                        ),
                    decreases c - i,
                {
                    if !has_name_exec(&self.literals, dv[i].0.as_str()) {
                        out.push(StrTuple(dv[i].0.clone(), dv[i].1.clone()));
                    }
                    proof {
                        let pv = pairs_view(dv@);
                        let taken = pv.take(i + 1);
                        assert(taken.drop_last() =~~= pv.take(i as int));
                        assert(taken.last() == (dv@[i as int].0@, dv@[i as int].1@));
                        assert(pairs_view(out@) =~~= keep_defaults(
                            taken,
                            pairs_view(self.literals@),
                        ));
                    }
                    i += 1;
                }
                proof {
                    assert(pairs_view(dv@).take(c as int) =~~= pairs_view(dv@));
                    assert(defaults_view(*defaults) == pairs_view(dv@));
                }
            },
            None => {
                proof {
                    assert(pairs_view(out@) =~~= keep_defaults(
                        Seq::empty(),
                        pairs_view(self.literals@),
                    ));
                }
            },
        }
        let nl = self.literals.len();
        let ghost merged = merged_headers(defaults_view(*defaults), pairs_view(self.literals@));
        proof {
            assert(pairs_view(out@) =~~= keep_defaults(
                defaults_view(*defaults),
                pairs_view(self.literals@),
            ) + pairs_view(self.literals@).take(0));
        }
        let mut i: usize = 0;
        while i < nl
            invariant
                nl == self.literals@.len(),
                i <= nl,
                pairs_view(out@) =~~= keep_defaults(
                    defaults_view(*defaults),
                    pairs_view(self.literals@),
                ) + pairs_view(self.literals@).take(i as int),
            decreases nl - i,
        {
            let ghost prev = pairs_view(out@);
            out.push(StrTuple(self.literals[i].0.clone(), self.literals[i].1.clone()));
            proof {
                let lv = pairs_view(self.literals@);
                assert(pairs_view(out@) =~~= prev.push(
                    (self.literals@[i as int].0@, self.literals@[i as int].1@),
                ));
                assert(lv.take(i + 1) =~~= lv.take(i as int).push(
                    (self.literals@[i as int].0@, self.literals@[i as int].1@),
                ));
                assert(pairs_view(out@) =~~= keep_defaults(defaults_view(*defaults), lv) + lv.take(
                    i + 1,
                ));
            }
            i += 1;
        }
        proof {
            assert(pairs_view(self.literals@).take(nl as int) =~~= pairs_view(self.literals@));
            assert(pairs_view(out@) =~~= merged + header_pairs(self.params@.take(0), args@));
        }
        let np = self.params.len();
        let mut j: usize = 0;
        while j < np
            invariant
                np == self.params@.len(),
                j <= np,
                pairs_view(out@) =~~= merged + header_pairs(self.params@.take(j as int), args@),
            decreases np - j,
        {
            let p = &self.params[j];
            let ghost prev = pairs_view(out@);
            match lookup_arg(args, p.ident.as_str()) {
                Some(v) => match v {
                    Some(s) => {
                        out.push(StrTuple(p.wire.clone(), s.clone()));
                        proof {
                            assert(pairs_view(out@) =~~= prev.push((p.wire@, s@)));
                        }
                    },
                    None => {},
                },
                None => {},
            }
            proof {
                let taken = self.params@.take(j + 1);
                assert(taken.drop_last() =~= self.params@.take(j as int));
                assert(taken.last() == self.params@[j as int]);
                assert(pairs_view(out@) =~~= merged + header_pairs(taken, args@));
            }
            j += 1;
        }
        proof {
            assert(self.params@.take(np as int) =~= self.params@);
        }
        out
    }
}

/// The effective value of a name in a concatenation: the second list wins
/// when it carries the name at all.
proof fn lemma_lookup_last_concat(
    a: Seq<(Seq<char>, Seq<char>)>,
    b: Seq<(Seq<char>, Seq<char>)>,
    n: Seq<char>,
)
    ensures
        lookup_last(a + b, n) == if has_name(b, n) {
            lookup_last(b, n)
        } else {
            lookup_last(a, n)
        },
    decreases b.len(),
{
    if b.len() == 0 {
        assert(a + b =~= a);
        assert(!has_name(b, n));
    } else {
        let ab = a + b;
        assert(ab.last() == b.last());
        assert(ab.drop_last() =~= a + b.drop_last());
        lemma_lookup_last_concat(a, b.drop_last(), n);
        if b.last().0 == n {
            assert(has_name(b, n));
        } else {
            assert(has_name(b, n) == has_name(b.drop_last(), n)) by {
                if has_name(b, n) {
                    let i = choose|i: int| 0 <= i < b.len() && (#[trigger] b[i]).0 == n;
                    assert(b.drop_last()[i] == b[i]);
                }
                if has_name(b.drop_last(), n) {
                    let i = choose|i: int|
                        0 <= i < b.drop_last().len() && (#[trigger] b.drop_last()[i]).0 == n;
                    assert(b[i] == b.drop_last()[i]);
                }
            }
        }
    }
}

/// No surviving default carries a name that some literal header uses.
proof fn lemma_keep_defaults_excludes(
    ds: Seq<(Seq<char>, Seq<char>)>,
    lits: Seq<(Seq<char>, Seq<char>)>,
    n: Seq<char>,
)
    requires
        has_name(lits, n),
    ensures
        !has_name(keep_defaults(ds, lits), n),
    decreases ds.len(),
{
    if ds.len() > 0 {
        lemma_keep_defaults_excludes(ds.drop_last(), lits, n);
        let kept = keep_defaults(ds, lits);
        if has_name(kept, n) {
            let i = choose|i: int| 0 <= i < kept.len() && (#[trigger] kept[i]).0 == n;
            if i < keep_defaults(ds.drop_last(), lits).len() {
                assert(keep_defaults(ds.drop_last(), lits)[i] == kept[i]);
            }
        }
    }
}

/// For a name no literal header uses, the surviving defaults answer exactly
/// as the full defaults do.
proof fn lemma_keep_defaults_preserves(
    ds: Seq<(Seq<char>, Seq<char>)>,
    lits: Seq<(Seq<char>, Seq<char>)>,
    n: Seq<char>,
)
    requires
        !has_name(lits, n),
    ensures
        lookup_last(keep_defaults(ds, lits), n) == lookup_last(ds, n),
    decreases ds.len(),
{
    if ds.len() > 0 {
        lemma_keep_defaults_preserves(ds.drop_last(), lits, n);
        let kept = keep_defaults(ds, lits);
        let prev = keep_defaults(ds.drop_last(), lits);
        if has_name(lits, ds.last().0) {
            assert(kept =~~= prev);
            assert(ds.last().0 != n);
        } else {
            assert(kept =~~= prev.push(ds.last()));
            assert(kept.drop_last() =~~= prev);
        }
    }
}

/// Header precedence: on a name both sides carry, the merge answers with
/// the literal contract header's value.
pub proof fn lemma_literal_header_wins(
    ds: Seq<(Seq<char>, Seq<char>)>,
    lits: Seq<(Seq<char>, Seq<char>)>,
    n: Seq<char>,
)
    requires
        has_name(lits, n),
    ensures
        lookup_last(merged_headers(ds, lits), n) == lookup_last(lits, n),
{
    lemma_keep_defaults_excludes(ds, lits, n);
    lemma_lookup_last_concat(keep_defaults(ds, lits), lits, n);
}

/// A name no literal header uses keeps its default value through the merge.
pub proof fn lemma_default_header_kept(
    ds: Seq<(Seq<char>, Seq<char>)>,
    lits: Seq<(Seq<char>, Seq<char>)>,
    n: Seq<char>,
)
    requires
        !has_name(lits, n),
    ensures
        lookup_last(merged_headers(ds, lits), n) == lookup_last(ds, n),
{
    lemma_keep_defaults_preserves(ds, lits, n);
    lemma_lookup_last_concat(keep_defaults(ds, lits), lits, n);
}

} // verus!
