//! Path templates.
//!
//! A template is an optional scheme-and-authority prefix ending in `://`
//! followed by a slash-separated path, optionally followed by a `?` and a
//! verbatim query suffix.  A path segment exactly wrapped in angle brackets
//! is a placeholder; every other segment is literal.  Empty segments
//! (consecutive or leading slashes) are dropped.  The prefix and the query
//! suffix are kept verbatim and are not scanned for placeholders.

use vstd::prelude::*;
use vstd::string::StrSliceExecFns;
use vstd::string::StringExecFns;
use crate::meta::{resolved_name, Kind, PatMeta, PatMetas};
use crate::util::{eq_str, GenError};

verus! {

/// The first index at or after `i` where `c` occurs in `s`, or `s.len()`.
pub open spec fn find_from(s: Seq<char>, i: int, c: char) -> int
    decreases s.len() - i,
{
    if i < 0 || i >= s.len() {
        s.len() as int
    } else if s[i] == c {
        i
    } else {
        find_from(s, i + 1, c)
    }
}

/// What `find_from` returns: the first occurrence, or the length.
pub proof fn lemma_find_from(s: Seq<char>, i: int, c: char)
    requires
        0 <= i <= s.len(),
    ensures
        i <= find_from(s, i, c) <= s.len(),
        forall|j: int| i <= j < find_from(s, i, c) ==> s[j] != c,
        find_from(s, i, c) < s.len() ==> s[find_from(s, i, c)] == c,
    decreases s.len() - i,
{
    if i < s.len() && s[i] != c {
        lemma_find_from(s, i + 1, c);
    }
}

/// The first index in `[i, q - 3]` where `://` begins, or `q` when there is
/// none.
pub open spec fn find_scheme_mark(s: Seq<char>, i: int, q: int) -> int
    decreases q - i,
{
    if i < 0 || i + 3 > q || q > s.len() {
        q
    } else if s[i] == ':' && s[i + 1] == '/' && s[i + 2] == '/' {
        i
    } else {
        find_scheme_mark(s, i + 1, q)
    }
}

/// What `find_scheme_mark` returns.
pub proof fn lemma_find_scheme_mark(s: Seq<char>, i: int, q: int)
    requires
        0 <= i,
        q <= s.len(),
    ensures
        i <= find_scheme_mark(s, i, q) || find_scheme_mark(s, i, q) == q,
        find_scheme_mark(s, i, q) <= q || i > q,
        find_scheme_mark(s, i, q) + 3 <= q || find_scheme_mark(s, i, q) == q,
    decreases q - i,
{
    if !(i < 0 || i + 3 > q || q > s.len()) && !(s[i] == ':' && s[i + 1] == '/' && s[i + 2]
        == '/') {
        lemma_find_scheme_mark(s, i + 1, q);
    }
}

/// Where the verbatim query suffix begins: the first `?`, or the length.
pub open spec fn query_pos(t: Seq<char>) -> int {
    find_from(t, 0, '?')
}

/// Where the scanned path begins: right after the scheme-and-authority
/// prefix when the template has one, else 0.
pub open spec fn prefix_end(t: Seq<char>) -> int {
    let q = query_pos(t);
    let m = find_scheme_mark(t, 0, q);
    if m == q {
        0
    } else {
        let sl = find_from(t, m + 3, '/');
        if sl < q {
            sl
        } else {
            q
        }
    }
}

/// The scanned region: between the prefix and the query suffix.
pub open spec fn middle_of(t: Seq<char>) -> Seq<char> {
    t.subrange(prefix_end(t), query_pos(t))
}

/// Splitting on `/` with empty segments dropped, written as a left-to-right
/// scan carrying the segment under construction.
pub open spec fn split_acc(s: Seq<char>, cur: Seq<char>) -> Seq<Seq<char>>
    decreases s.len(),
{
    if s.len() == 0 {
        if cur.len() > 0 {
            seq![cur]
        } else {
            seq![]
        }
    } else if s[0] == '/' {
        if cur.len() > 0 {
            seq![cur] + split_acc(s.drop_first(), seq![])
        } else {
            split_acc(s.drop_first(), seq![])
        }
    } else {
        split_acc(s.drop_first(), cur.push(s[0]))
    }
}

/// The non-empty `/`-separated segments of `s`.
pub open spec fn segments_of(s: Seq<char>) -> Seq<Seq<char>> {
    split_acc(s, seq![])
}

/// Whether a segment is exactly wrapped in angle brackets.
pub open spec fn is_placeholder(seg: Seq<char>) -> bool {
    seg.len() >= 2 && seg[0] == '<' && seg[seg.len() - 1] == '>'
}

/// The name inside a placeholder segment.
pub open spec fn placeholder_name(seg: Seq<char>) -> Seq<char> {
    seg.subrange(1, seg.len() - 1)
}

/// The placeholder names among a segment list, in order.
pub open spec fn names_of(segs: Seq<Seq<char>>) -> Seq<Seq<char>>
    decreases segs.len(),
{
    if segs.len() == 0 {
        seq![]
    } else {
        names_of(segs.drop_last()) + (if is_placeholder(segs.last()) {
            seq![placeholder_name(segs.last())]
        } else {
            seq![]
        })
    }
}

/// The placeholder names of a template, left to right.
pub open spec fn placeholders_of(t: Seq<char>) -> Seq<Seq<char>> {
    names_of(segments_of(middle_of(t)))
}

/// The scanned path rebuilt with each placeholder replaced by a positional
/// substitution marker.
pub open spec fn pattern_core(segs: Seq<Seq<char>>) -> Seq<char>
    decreases segs.len(),
{
    if segs.len() == 0 {
        seq![]
    } else {
        pattern_core(segs.drop_last()) + seq!['/'] + (if is_placeholder(segs.last()) {
            seq!['{', '}']
        } else {
            segs.last()
        })
    }
}

/// The positional format pattern of a template: prefix verbatim, rebuilt
/// path with markers, query suffix verbatim.
pub open spec fn pattern_of(t: Seq<char>) -> Seq<char> {
    t.subrange(0, prefix_end(t)) + pattern_core(segments_of(middle_of(t))) + t.subrange(
        query_pos(t),
        t.len() as int,
    )
}

/// The first index at or after `start` where `c` occurs, or the length.
pub fn find_char(s: &str, start: usize, c: char) -> (r: usize)
    requires
        start <= s@.len(),
    ensures
        r == find_from(s@, start as int, c),
{
    let n = s.unicode_len();
    let mut i: usize = start;
    while i < n
        invariant
            n == s@.len(),
            start <= i <= n,
            find_from(s@, start as int, c) == find_from(s@, i as int, c),
        decreases n - i,
    {
        if s.get_char(i) == c {
            return i;
        }
        proof {
            assert(find_from(s@, i as int, c) == find_from(s@, i + 1, c));
        }
        i += 1;
    }
    i
}

/// The first index where `://` begins in `s[..q]`, or `q`.
fn find_scheme(s: &str, q: usize) -> (r: usize)
    requires
        q <= s@.len(),
    ensures
        r == find_scheme_mark(s@, 0, q as int),
{
    if q < 3 {
        return q;
    }
    let mut i: usize = 0;
    while i <= q - 3
        invariant
            3 <= q <= s@.len(),
            i <= q,
            find_scheme_mark(s@, 0, q as int) == find_scheme_mark(s@, i as int, q as int),
        decreases q - i,
    {
        if s.get_char(i) == ':' && s.get_char(i + 1) == '/' && s.get_char(i + 2) == '/' {
            return i;
        }
        proof {
            assert(find_scheme_mark(s@, i as int, q as int) == find_scheme_mark(
                s@,
                i + 1,
                q as int,
            ));
        }
        i += 1;
    }
    q
}

/// The bounds of the scanned region of a template: where the prefix ends and
/// where the query suffix begins.
pub fn template_bounds(t: &str) -> (r: (usize, usize))
    ensures
        r.0 == prefix_end(t@),
        r.1 == query_pos(t@),
        r.0 <= r.1 <= t@.len(),
{
    let q = find_char(t, 0, '?');
    proof {
        lemma_find_from(t@, 0, '?');
    }
    let m = find_scheme(t, q);
    proof {
        lemma_find_scheme_mark(t@, 0, q as int);
    }
    if m == q {
        (0, q)
    } else {
        let sl = find_char(t, m + 3, '/');
        proof {
            lemma_find_from(t@, m + 3, '/');
        }
        if sl < q {
            (sl, q)
        } else {
            (q, q)
        }
    }
}

/// The non-empty segments of `t[from..to]`.
pub fn segments(t: &str, from: usize, to: usize) -> (r: Vec<String>)
    requires
        from <= to <= t@.len(),
    ensures
        r.deep_view() == segments_of(t@.subrange(from as int, to as int)),
{
    let mut segs: Vec<String> = Vec::new();
    let mut start: usize = from;
    let mut i: usize = from;
    proof {
        assert(t@.subrange(from as int, from as int) =~= Seq::<char>::empty());
        assert(segs.deep_view() =~~= Seq::<Seq<char>>::empty());
    }
    while i < to
        invariant
            from <= start <= i <= to <= t@.len(),
            segments_of(t@.subrange(from as int, to as int)) =~~= segs.deep_view() + split_acc(
                t@.subrange(i as int, to as int),
                t@.subrange(start as int, i as int),
            ),
        decreases to - i,
    {
        let ghost rem = t@.subrange(i as int, to as int);
        let ghost cur = t@.subrange(start as int, i as int);
        let c = t.get_char(i);
        proof {
            assert(rem[0] == c);
            assert(rem.drop_first() =~= t@.subrange(i + 1, to as int));
        }
        if c == '/' {
            if start < i {
                let seg = String::from_str(t.substring_char(start, i));
                segs.push(seg);
                proof {
                    assert(segs.deep_view() =~~= segs.deep_view().drop_last().push(cur));
                }
            }
            start = i + 1;
            proof {
                assert(t@.subrange(start as int, i + 1) =~= Seq::<char>::empty());
            }
        } else {
            proof {
                assert(cur.push(c) =~= t@.subrange(start as int, i + 1));
            }
        }
        i += 1;
    }
    proof {
        assert(t@.subrange(i as int, to as int) =~= Seq::<char>::empty());
    }
    if start < to {
        let seg = String::from_str(t.substring_char(start, to));
        segs.push(seg);
        proof {
            assert(segs.deep_view() =~~= segs.deep_view().drop_last().push(
                t@.subrange(start as int, to as int),
            ));
        }
    }
    segs
}

/// Whether the segment is a placeholder; `n` is the segment's length.
fn seg_is_placeholder(seg: &str, n: usize) -> (r: bool)
    requires
        n == seg@.len(),
    ensures
        r == is_placeholder(seg@),
{
    n >= 2 && seg.get_char(0) == '<' && seg.get_char(n - 1) == '>'
}

/// The ordered placeholder names of one path template.
pub struct PathParams(Vec<String>);

impl View for PathParams {
    type V = Seq<Seq<char>>;

    closed spec fn view(&self) -> Seq<Seq<char>> {
        self.0.deep_view()
    }
}

/// Every placeholder has a Path-role parameter whose resolved name equals
/// it.
pub open spec fn all_placeholders_defined(ph: Seq<Seq<char>>, ms: Seq<PatMeta>) -> bool {
    forall|i: int| 0 <= i < ph.len() ==> name_defined(#[trigger] ph[i], ms)
}

/// Every Path-role parameter's resolved name appears as a placeholder.
pub open spec fn all_path_params_used(ph: Seq<Seq<char>>, ms: Seq<PatMeta>) -> bool {
    forall|j: int|
        0 <= j < ms.len() && (#[trigger] ms[j]).kind == Kind::Path ==> ph.contains(
            resolved_name(ms[j]),
        )
}

/// What a path-validation error names: an undefined-placeholder error
/// carries the first placeholder, in template order, that no Path-role
/// parameter matches; a missing-parameter error carries the resolved name
/// of the first Path-role parameter, in declaration order, that no
/// placeholder matches, and arises only once every placeholder is matched.
pub open spec fn path_error_names_first(
    ph: Seq<Seq<char>>,
    ms: Seq<PatMeta>,
    e: GenError,
) -> bool {
    &&& (e matches GenError::UndefinedPathParam(n) ==> exists|k: int|
        {
            &&& 0 <= k < ph.len()
            &&& !name_defined(#[trigger] ph[k], ms)
            &&& forall|j: int| 0 <= j < k ==> name_defined(#[trigger] ph[j], ms)
            &&& n@ == ph[k]
        })
    &&& (e matches GenError::MissingPathParam(n) ==> all_placeholders_defined(ph, ms) && (exists|
    k: int,
    |
        {
            &&& 0 <= k < ms.len()
            &&& (#[trigger] ms[k]).kind == Kind::Path
            &&& !ph.contains(resolved_name(ms[k]))
            &&& forall|j: int|
                0 <= j < k && (#[trigger] ms[j]).kind == Kind::Path ==> ph.contains(
                    resolved_name(ms[j]),
                )
            &&& n@ == resolved_name(ms[k])
        }))
}

/// Whether one name is matched by some Path-role parameter.
pub open spec fn name_defined(name: Seq<char>, ms: Seq<PatMeta>) -> bool {
    exists|j: int|
        0 <= j < ms.len() && (#[trigger] ms[j]).kind == Kind::Path && resolved_name(ms[j]) == name
}

/// Whether some Path-role parameter's resolved name equals `name`.
fn name_defined_exec(name: &str, metas: &Vec<PatMeta>) -> (r: bool)
    ensures
        r == name_defined(name@, metas@),
{
    let n = metas.len();
    let mut j: usize = 0;
    while j < n
        invariant
            n == metas@.len(),
            j <= n,
            forall|k: int|
                0 <= k < j ==> !((#[trigger] metas@[k]).kind == Kind::Path && resolved_name(
                    metas@[k],
                ) == name@),
        decreases n - j,
    {
        let m = &metas[j];
        if matches!(m.kind, Kind::Path) {
            if eq_str(m.resolved().as_str(), name) {
                return true;
            }
        }
        j += 1;
    }
    false
}

/// Whether `name` occurs among the placeholder names.
fn contains_name(names: &Vec<String>, name: &str) -> (r: bool)
    ensures
        r == names.deep_view().contains(name@),
{
    let n = names.len();
    let mut i: usize = 0;
    while i < n
        invariant
            n == names@.len(),
            i <= n,
            forall|k: int| 0 <= k < i ==> names.deep_view()[k] != name@,
        decreases n - i,
    {
        if eq_str(names[i].as_str(), name) {
            assert(names.deep_view()[i as int] == name@);
            return true;
        }
        i += 1;
    }
    false
}

impl PathParams {
    /// Extracts the ordered placeholder names of a template.
    pub fn new(path: &str) -> (r: Self)
        ensures
            r@ == placeholders_of(path@),
    {
        let (pe, q) = template_bounds(path);
        let segs = segments(path, pe, q);
        let ns = segs.len();
        let mut names: Vec<String> = Vec::new();
        proof {
            assert(names.deep_view() =~~= names_of(segs.deep_view().take(0)));
        }
        let mut j: usize = 0;
        while j < ns
            invariant
                ns == segs@.len(),
                j <= ns,
                names.deep_view() =~~= names_of(segs.deep_view().take(j as int)),
            decreases ns - j,
        {
            let ghost prev = names.deep_view();
            let seg = segs[j].as_str();
            let n = seg.unicode_len();
            if seg_is_placeholder(seg, n) {
                let name = String::from_str(seg.substring_char(1, n - 1));
                names.push(name);
                proof {
                    assert(names.deep_view() =~~= prev.push(placeholder_name(seg@)));
                }
            }
            proof {
                let taken = segs.deep_view().take(j + 1);
                assert(taken.drop_last() =~~= segs.deep_view().take(j as int));
                assert(taken.last() == seg@);
                assert(names.deep_view() =~~= names_of(taken));
            }
            j += 1;
        }
        proof {
            assert(segs.deep_view().take(ns as int) =~~= segs.deep_view());
        }
        PathParams(names)
    }

    /// The number of placeholders.
    pub fn len(&self) -> (r: usize)
        ensures
            r == self@.len(),
    {
        self.0.len()
    }

    /// The placeholder names, in template order.
    pub fn names(&self) -> (r: &Vec<String>)
        ensures
            r.deep_view() == self@,
    {
        &self.0
    }

    /// Rejects any placeholder that no Path-role parameter matches.
    fn check_undefined_params(&self, metas: &PatMetas) -> (r: Result<(), GenError>)
        ensures
            match r {
                Ok(_) => all_placeholders_defined(self@, metas@),
                Err(e) => {
                    &&& !all_placeholders_defined(self@, metas@)
                    &&& exists|k: int|
                        {
                            &&& 0 <= k < self@.len()
                            &&& !name_defined(#[trigger] self@[k], metas@)
                            &&& forall|j: int| 0 <= j < k ==> name_defined(#[trigger] self@[j], metas@)
                            &&& e matches GenError::UndefinedPathParam(n) && n@ == self@[k]
                        }
                },
            },
    {
        let n = self.0.len();
        let mut i: usize = 0;
        while i < n
            invariant
                n == self@.len(),
                i <= n,
                forall|k: int| 0 <= k < i ==> name_defined(#[trigger] self@[k], metas@),
            decreases n - i,
        {
            if !name_defined_exec(self.0[i].as_str(), metas.metas()) {
                let name = self.0[i].clone();
                proof {
                    let k = i as int;
                    assert(self@[k] == self.0@[k]@);
                    assert(0 <= k < self@.len() && !name_defined(self@[k], metas@) && (forall|
                        j: int,
                    |
                        0 <= j < k ==> name_defined(#[trigger] self@[j], metas@)) && name@
                        == self@[k]);
                }
                return Err(GenError::UndefinedPathParam(name));
            }
            i += 1;
        }
        Ok(())
    }

    /// Rejects any Path-role parameter that no placeholder matches.
    fn check_missing_params(&self, metas: &PatMetas) -> (r: Result<(), GenError>)
        ensures
            match r {
                Ok(_) => all_path_params_used(self@, metas@),
                Err(e) => {
                    &&& !all_path_params_used(self@, metas@)
                    &&& exists|k: int|
                        {
                            &&& 0 <= k < metas@.len()
                            &&& (#[trigger] metas@[k]).kind == Kind::Path
                            &&& !self@.contains(resolved_name(metas@[k]))
                            &&& forall|j: int|
                                0 <= j < k && (#[trigger] metas@[j]).kind == Kind::Path
                                    ==> self@.contains(resolved_name(metas@[j]))
                            &&& e matches GenError::MissingPathParam(n) && n@ == resolved_name(
                                metas@[k],
                            )
                        }
                },
            },
    {
        let ms = metas.metas();
        let n = ms.len();
        let mut j: usize = 0;
        while j < n
            invariant
                n == metas@.len(),
                ms@ == metas@,
                j <= n,
                forall|k: int|
                    0 <= k < j && (#[trigger] metas@[k]).kind == Kind::Path ==> self@.contains(
                        resolved_name(metas@[k]),
                    ),
            decreases n - j,
        {
            let m = &ms[j];
            if matches!(m.kind, Kind::Path) {
                if !contains_name(&self.0, m.resolved().as_str()) {
                    return Err(GenError::MissingPathParam(m.resolved().clone()));
                }
            }
            j += 1;
        }
        Ok(())
    }

    /// Validates the template against the classified parameters, in both
    /// directions: no undefined placeholder, no unused Path-role parameter.
    pub fn check(self, metas: &PatMetas) -> (r: Result<Self, GenError>)
        ensures
            match r {
                Ok(p) => {
                    &&& p@ == self@
                    &&& all_placeholders_defined(self@, metas@)
                    &&& all_path_params_used(self@, metas@)
                },
                Err(e) => {
                    &&& !(all_placeholders_defined(self@, metas@) && all_path_params_used(
                        self@,
                        metas@,
                    ))
                    &&& path_error_names_first(self@, metas@, e)
                    &&& (e is UndefinedPathParam || e is MissingPathParam)
                },
            },
    {
        match self.check_undefined_params(metas) {
            Ok(_) => {},
            Err(e) => {
                return Err(e);
            },
        }
        match self.check_missing_params(metas) {
            Ok(_) => {},
            Err(e) => {
                return Err(e);
            },
        }
        Ok(self)
    }

    /// Rebuilds the template as a positional format pattern: placeholders
    /// become substitution markers, prefix and query suffix stay verbatim.
    pub fn get_format_pattern(path: &str) -> (r: String)
        ensures
            r@ == pattern_of(path@),
    {
        let (pe, q) = template_bounds(path);
        let n = path.unicode_len();
        let segs = segments(path, pe, q);
        let ns = segs.len();
        let mut out = String::from_str(path.substring_char(0, pe));
        proof {
            reveal_strlit("/");
            reveal_strlit("{}");
            assert("/"@ =~= seq!['/']);
            assert("{}"@ =~= seq!['{', '}']);
            assert(out@ =~= path@.subrange(0, pe as int) + pattern_core(
                segs.deep_view().take(0),
            ));
        }
        let mut j: usize = 0;
        while j < ns
            invariant
                ns == segs@.len(),
                j <= ns,
                pe <= q <= path@.len(),
                pe == prefix_end(path@),
                q == query_pos(path@),
                segs.deep_view() == segments_of(middle_of(path@)),
                out@ =~= path@.subrange(0, pe as int) + pattern_core(
                    segs.deep_view().take(j as int),
                ),
                "/"@ =~= seq!['/'],
                "{}"@ =~= seq!['{', '}'],
            decreases ns - j,
        {
            let ghost prev = out@;
            let seg = segs[j].as_str();
            let sn = seg.unicode_len();
            out.append("/");
            if seg_is_placeholder(seg, sn) {
                out.append("{}");
            } else {
                out.append(seg);
            }
            proof {
                let taken = segs.deep_view().take(j + 1);
                assert(taken.drop_last() =~~= segs.deep_view().take(j as int));
                assert(taken.last() == seg@);
                assert(out@ =~= path@.subrange(0, pe as int) + pattern_core(taken));
            }
            j += 1;
        }
        proof {
            assert(segs.deep_view().take(ns as int) =~~= segs.deep_view());
        }
        out.append(path.substring_char(q, n));
        proof {
            assert(out@ =~= pattern_of(path@));
        }
        out
    }
}

/// Taking away the only Path-role parameter that matches a placeholder
/// leaves that placeholder undefined: validation must fail.
pub proof fn lemma_remove_param_fails(ph: Seq<Seq<char>>, ms: Seq<PatMeta>, j: int)
    requires
        0 <= j < ms.len(),
        ms[j].kind == Kind::Path,
        ph.contains(resolved_name(ms[j])),
        forall|k: int|
            0 <= k < ms.len() && k != j && (#[trigger] ms[k]).kind == Kind::Path ==> resolved_name(
                ms[k],
            ) != resolved_name(ms[j]),
    ensures
        !all_placeholders_defined(ph, ms.remove(j)),
{
    let name = resolved_name(ms[j]);
    let i = choose|i: int| 0 <= i < ph.len() && ph[i] == name;
    assert(ph[i] == name);
    let rest = ms.remove(j);
    if all_placeholders_defined(ph, rest) {
        let k = choose|k: int|
            0 <= k < rest.len() && (#[trigger] rest[k]).kind == Kind::Path && resolved_name(
                rest[k],
            ) == ph[i];
        if k < j {
            assert(rest[k] == ms[k]);
        } else {
            assert(rest[k] == ms[k + 1]);
        }
    }
}

/// An extra placeholder that no Path-role parameter matches makes
/// validation fail.
pub proof fn lemma_extra_placeholder_fails(ph: Seq<Seq<char>>, ms: Seq<PatMeta>, x: Seq<char>)
    requires
        forall|k: int|
            0 <= k < ms.len() && (#[trigger] ms[k]).kind == Kind::Path ==> resolved_name(ms[k])
                != x,
    ensures
        !all_placeholders_defined(ph.push(x), ms),
{
    let ph2 = ph.push(x);
    assert(ph2[ph.len() as int] == x);
    if all_placeholders_defined(ph2, ms) {
        let j = choose|j: int|
            0 <= j < ms.len() && (#[trigger] ms[j]).kind == Kind::Path && resolved_name(ms[j])
                == x;
    }
}

} // verus!
