//! The URL fragment: a validated template turned into substitution pieces,
//! and the runtime URL built from them.
//!
//! Substitution is name-based: each placeholder is bound to the Path-role
//! parameter whose resolved name equals it, so the order in which the
//! parameters are declared does not matter.

use vstd::prelude::*;
use vstd::string::StrSliceExecFns;
use vstd::string::StringExecFns;
use crate::contract::path::{
    all_path_params_used, all_placeholders_defined, is_placeholder, middle_of,
    path_error_names_first, pattern_of, placeholder_name, placeholders_of, prefix_end, query_pos,
    segments, segments_of, template_bounds, PathParams,
};
use crate::meta::{resolved_name, Kind, PatMeta, PatMetas};
use crate::util::{eq_str, lookup_arg, lookup_text, Arg, GenError};

verus! {

/// The first Path-role parameter whose resolved name is `name`, scanning
/// from position `j`; empty when there is none.
pub open spec fn ident_for_at(ms: Seq<PatMeta>, name: Seq<char>, j: int) -> Seq<char>
    decreases ms.len() - j,
{
    if j < 0 || j >= ms.len() {
        Seq::empty()
    } else if ms[j].kind == Kind::Path && resolved_name(ms[j]) == name {
        ms[j].ident@
    } else {
        ident_for_at(ms, name, j + 1)
    }
}

/// The identifier of the Path-role parameter bound to a placeholder name.
pub open spec fn ident_for(ms: Seq<PatMeta>, name: Seq<char>) -> Seq<char> {
    ident_for_at(ms, name, 0)
}

/// The substitution pieces of a segment list: a slash before every segment,
/// then either the literal segment or the bound parameter.
pub open spec fn seg_pieces(segs: Seq<Seq<char>>, ms: Seq<PatMeta>) -> Seq<(bool, Seq<char>)>
    decreases segs.len(),
{
    if segs.len() == 0 {
        seq![]
    } else {
        seg_pieces(segs.drop_last(), ms) + seq![(false, seq!['/'])] + seq![
            if is_placeholder(segs.last()) {
                (true, ident_for(ms, placeholder_name(segs.last())))
            } else {
                (false, segs.last())
            },
        ]
    }
}

/// The substitution pieces of a whole template: verbatim prefix, the path
/// pieces, verbatim query suffix.
pub open spec fn spec_pieces(tpl: Seq<char>, ms: Seq<PatMeta>) -> Seq<(bool, Seq<char>)> {
    seq![(false, tpl.subrange(0, prefix_end(tpl)))] + seg_pieces(segments_of(middle_of(tpl)), ms)
        + seq![(false, tpl.subrange(query_pos(tpl), tpl.len() as int))]
}

/// The views of the stored pieces.
pub open spec fn pieces_seq_view(ps: Seq<(bool, String)>) -> Seq<(bool, Seq<char>)> {
    ps.map_values(|p: (bool, String)| (p.0, p.1@))
}

/// What one piece renders to: a literal renders as itself, a parameter as
/// the text bound to its identifier.
pub open spec fn piece_text(p: (bool, Seq<char>), args: Seq<Arg>) -> Seq<char> {
    if p.0 {
        lookup_text(args, p.1)
    } else {
        p.1
    }
}

/// What a piece list renders to.
pub open spec fn render_pieces(ps: Seq<(bool, Seq<char>)>, args: Seq<Arg>) -> Seq<char>
    decreases ps.len(),
{
    if ps.len() == 0 {
        Seq::empty()
    } else {
        render_pieces(ps.drop_last(), args) + piece_text(ps.last(), args)
    }
}

/// The configured base URL's text, empty when none is set.
pub open spec fn base_text(b: Option<String>) -> Seq<char> {
    match b {
        Some(s) => s@,
        None => Seq::empty(),
    }
}

/// Finds the identifier of the Path-role parameter whose resolved name is
/// `name`; empty when there is none.
fn ident_for_exec(metas: &Vec<PatMeta>, name: &str) -> (r: String)
    ensures
        r@ == ident_for(metas@, name@),
{
    let n = metas.len();
    let mut j: usize = 0;
    while j < n
        invariant
            n == metas@.len(),
            j <= n,
            ident_for(metas@, name@) == ident_for_at(metas@, name@, j as int),
        decreases n - j,
    {
        let m = &metas[j];
        if matches!(m.kind, Kind::Path) {
            if eq_str(m.resolved().as_str(), name) {
                return m.ident.clone();
            }
        }
        proof {
            assert(ident_for_at(metas@, name@, j as int) == ident_for_at(metas@, name@, j + 1));
        }
        j += 1;
    }
    String::new()
}

/// The URL fragment of one method: the positional format pattern, and the
/// substitution pieces the runtime URL is built from.
#[derive(Debug)]
pub struct UrlPlan {
    pub pattern: String,
    pub pieces: Vec<(bool, String)>,
}

impl UrlPlan {
    /// Validates the template against the classified parameters and derives
    /// the pattern and the substitution pieces.
    pub fn new(metas: &PatMetas, path: &str) -> (r: Result<UrlPlan, GenError>)
        ensures
            match r {
                Ok(u) => {
                    &&& all_placeholders_defined(placeholders_of(path@), metas@)
                    &&& all_path_params_used(placeholders_of(path@), metas@)
                    &&& u.pattern@ == pattern_of(path@)
                    &&& pieces_seq_view(u.pieces@) == spec_pieces(path@, metas@)
                },
                Err(e) => {
                    &&& !(all_placeholders_defined(placeholders_of(path@), metas@)
                        && all_path_params_used(placeholders_of(path@), metas@))
                    &&& path_error_names_first(placeholders_of(path@), metas@, e)
                    &&& (e is UndefinedPathParam || e is MissingPathParam)
                },
            },
    {
        let params = PathParams::new(path);
        match params.check(metas) {
            Ok(_) => {},
            Err(e) => {
                return Err(e);
            },
        }
        let pattern = PathParams::get_format_pattern(path);
        let (pe, q) = template_bounds(path);
        let n = path.unicode_len();
        let segs = segments(path, pe, q);
        let ns = segs.len();
        let mut pieces: Vec<(bool, String)> = Vec::new();
        pieces.push((false, String::from_str(path.substring_char(0, pe))));
        proof {
            reveal_strlit("/");
            assert("/"@ =~= seq!['/']);
            assert(pieces_seq_view(pieces@) =~~= seq![
                (false, path@.subrange(0, pe as int)),
            ] + seg_pieces(segs.deep_view().take(0), metas@));
        }
        let mut j: usize = 0;
        while j < ns
            invariant
                ns == segs@.len(),
                j <= ns,
                pe <= q <= path@.len(),
                pe == prefix_end(path@),
                q == query_pos(path@),
                segs.deep_view() == segments_of(middle_of(path@)),
                pieces_seq_view(pieces@) =~~= seq![(false, path@.subrange(0, pe as int))]
                    + seg_pieces(segs.deep_view().take(j as int), metas@),
                "/"@ =~= seq!['/'],
            decreases ns - j,
        {
            let ghost prev = pieces_seq_view(pieces@);
            let seg = segs[j].as_str();
            let sn = seg.unicode_len();
            let piece: (bool, String) = if sn >= 2 && seg.get_char(0) == '<' && seg.get_char(
                sn - 1,
            ) == '>' {
                let name = seg.substring_char(1, sn - 1);
                proof {
                    assert(is_placeholder(seg@));
                    assert(name@ == placeholder_name(seg@));
                }
                (true, ident_for_exec(metas.metas(), name))
            } else {
                proof {
                    assert(!is_placeholder(seg@));
                }
                (false, segs[j].clone())
            };
            let ghost np = (piece.0, piece.1@);
            pieces.push((false, String::from_str("/")));
            pieces.push(piece);
            proof {
                let taken = segs.deep_view().take(j + 1);
                assert(taken.drop_last() =~~= segs.deep_view().take(j as int));
                assert(seg_pieces(taken.drop_last(), metas@) == seg_pieces(
                    segs.deep_view().take(j as int),
                    metas@,
                ));
                assert(taken.last() == seg@);
                assert(np == (if is_placeholder(seg@) {
                    (true, ident_for(metas@, placeholder_name(seg@)))
                } else {
                    (false, seg@)
                }));
                assert(pieces_seq_view(pieces@) =~~= prev + seq![(false, seq!['/'])] + seq![np]);
                assert(seg_pieces(taken, metas@) == seg_pieces(
                    segs.deep_view().take(j as int),
                    metas@,
                ) + seq![(false, seq!['/'])] + seq![np]);
                assert(pieces_seq_view(pieces@) =~~= seq![(false, path@.subrange(0, pe as int))]
                    + seg_pieces(taken, metas@));
            }
            j += 1;
        }
        pieces.push((false, String::from_str(path.substring_char(q, n))));
        proof {
            assert(segs.deep_view().take(ns as int) =~~= segs.deep_view());
            assert(pieces_seq_view(pieces@) =~~= spec_pieces(path@, metas@));
        }
        Ok(UrlPlan { pattern, pieces })
    }

    /// Builds the runtime URL: the configured base URL if any, then every
    /// piece in order, parameters replaced by their bound text.
    pub fn build(&self, args: &Vec<Arg>, base_url: &Option<String>) -> (r: String)
        ensures
            r@ == base_text(*base_url) + render_pieces(pieces_seq_view(self.pieces@), args@),
    {
        let mut out = match base_url {
            Some(b) => b.clone(),
            None => String::new(),
        };
        let n = self.pieces.len();
        proof {
            assert(out@ =~= base_text(*base_url) + render_pieces(
                pieces_seq_view(self.pieces@).take(0),
                args@,
            ));
        }
        let mut j: usize = 0;
        while j < n
            invariant
                n == self.pieces@.len(),
                j <= n,
                out@ =~= base_text(*base_url) + render_pieces(
                    pieces_seq_view(self.pieces@).take(j as int),
                    args@,
                ),
            decreases n - j,
        {
            let p = &self.pieces[j];
            if p.0 {
                match lookup_arg(args, p.1.as_str()) {
                    Some(v) => match v {
                        Some(s) => out.append(s.as_str()),
                        None => {},
                    },
                    None => {},
                }
            } else {
                out.append(p.1.as_str());
            }
            proof {
                let pv = pieces_seq_view(self.pieces@);
                let taken = pv.take(j + 1);
                assert(taken.drop_last() =~~= pv.take(j as int));
                assert(taken.last() == (self.pieces@[j as int].0, self.pieces@[j as int].1@));
                assert(out@ =~= base_text(*base_url) + render_pieces(taken, args@));
            }
            j += 1;
        }
        proof {
            let pv = pieces_seq_view(self.pieces@);
            assert(pv.take(n as int) =~~= pv);
        }
        out
    }
}

} // verus!
