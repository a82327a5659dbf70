//! Parameter classification.
//!
//! Each method parameter arrives as a plain description: its identifier, the
//! text of its declared type, and its markers (name plus attached value
//! shape).  Classification turns it into a [`PatMeta`]: role, optionality,
//! wire-name override, and whether the type is a borrowed reference.

use vstd::prelude::*;
use vstd::string::StrSliceExecFns;
use crate::util::{eq_str, GenError};

verus! {

/// The shape of the value attached to a parameter marker: bare (`#[path]`),
/// a string literal (`#[query = "q"]`), a meta list (`#[query(..)]`), or a
/// non-string value.
#[derive(Debug)]
pub enum AttrForm {
    Bare,
    Lit(String),
    List,
    NonLit,
}

/// One marker on a parameter.
#[derive(Debug)]
pub struct RawAttr {
    pub name: String,
    pub form: AttrForm,
}

/// A method parameter before classification: identifier, declared type text,
/// markers.
#[derive(Debug)]
pub struct RawParam {
    pub ident: String,
    pub ty: String,
    pub attrs: Vec<RawAttr>,
}

/// The role of a parameter in the request.
#[derive(Clone, Copy, Debug, PartialEq, Eq, Hash, Structural)]
pub enum Kind {
    Header,
    Query,
    Body,
    Path,
}

/// The marker keyword that selects a role.
pub open spec fn kind_keyword(k: Kind) -> Seq<char> {
    match k {
        Kind::Header => "header"@,
        Kind::Query => "query"@,
        Kind::Body => "body"@,
        Kind::Path => "path"@,
    }
}

impl Kind {
    /// The marker keyword that selects this role.
    pub fn symbol(&self) -> (r: &'static str)
        ensures
            r@ == kind_keyword(*self),
    {
        match self {
            Kind::Header => "header",
            Kind::Query => "query",
            Kind::Body => "body",
            Kind::Path => "path",
        }
    }
}

/// A classified parameter.
#[derive(Debug)]
pub struct PatMeta {
    pub ident: String,
    pub ty: String,
    pub kind: Kind,
    pub optional: bool,
    pub rename: Option<String>,
    pub reference: bool,
}

/// The parameter's wire-visible name as a string value: its rename override
/// if present, else its declared identifier.
pub open spec fn wire_string(m: PatMeta) -> String {
    match m.rename {
        Some(r) => r,
        None => m.ident,
    }
}

/// The parameter's wire-visible name: its rename override if present, else
/// its declared identifier.
pub open spec fn resolved_name(m: PatMeta) -> Seq<char> {
    match m.rename {
        Some(r) => r@,
        None => m.ident@,
    }
}

/// Whether some marker in the list has the given name.
pub open spec fn has_marker(attrs: Seq<RawAttr>, kw: Seq<char>) -> bool {
    exists|i: int| 0 <= i < attrs.len() && attrs[i].name@ == kw
}

/// Whether a bare `optional` marker is present.  Any other form of that
/// marker is ignored, not rejected.
pub open spec fn spec_optional(attrs: Seq<RawAttr>) -> bool {
    exists|i: int|
        0 <= i < attrs.len() && attrs[i].name@ == "optional"@ && attrs[i].form is Bare
}

/// The role selected by the markers, scanning the four role keywords in a
/// fixed order of precedence.
pub open spec fn kind_of(attrs: Seq<RawAttr>) -> Option<Kind> {
    if has_marker(attrs, "query"@) {
        Some(Kind::Query)
    } else if has_marker(attrs, "path"@) {
        Some(Kind::Path)
    } else if has_marker(attrs, "body"@) {
        Some(Kind::Body)
    } else if has_marker(attrs, "header"@) {
        Some(Kind::Header)
    } else {
        None
    }
}

/// The first marker at or after position `i` whose name is `kw`.
pub open spec fn first_marker_at(attrs: Seq<RawAttr>, kw: Seq<char>, i: int) -> Option<RawAttr>
    decreases attrs.len() - i,
{
    if i < 0 || i >= attrs.len() {
        None
    } else if attrs[i].name@ == kw {
        Some(attrs[i])
    } else {
        first_marker_at(attrs, kw, i + 1)
    }
}

/// The first marker whose name is `kw`.
pub open spec fn first_marker(attrs: Seq<RawAttr>, kw: Seq<char>) -> Option<RawAttr> {
    first_marker_at(attrs, kw, 0)
}

/// The rename carried by the role marker: none for a bare marker, the string
/// for a literal value, an error for any other attached form.
pub open spec fn spec_rename(attrs: Seq<RawAttr>, ident: String, k: Kind) -> Result<
    Option<String>,
    GenError,
> {
    match first_marker(attrs, kind_keyword(k)) {
        Some(a) => match a.form {
            AttrForm::Bare => Ok(None),
            AttrForm::Lit(s) => Ok(Some(s)),
            AttrForm::List => Err(GenError::RenameList(ident)),
            AttrForm::NonLit => Err(GenError::RenameNotString(ident)),
        },
        None => Err(GenError::MissingKind(ident)),
    }
}

/// Whether the declared type text is a borrowed reference.
pub open spec fn is_reference(ty: Seq<char>) -> bool {
    ty.len() > 0 && ty[0] == '&'
}

/// The full classification of one parameter.
pub open spec fn spec_classify(p: RawParam) -> Result<PatMeta, GenError> {
    match kind_of(p.attrs@) {
        None => Err(GenError::MissingKind(p.ident)),
        Some(k) => match spec_rename(p.attrs@, p.ident, k) {
            Err(e) => Err(e),
            Ok(rn) => Ok(
                PatMeta {
                    ident: p.ident,
                    ty: p.ty,
                    kind: k,
                    optional: spec_optional(p.attrs@),
                    rename: rn,
                    reference: is_reference(p.ty@),
                },
            ),
        },
    }
}

/// Looks for a marker with the given name.
fn find_marker<'a>(attrs: &'a Vec<RawAttr>, kw: &str) -> (r: Option<&'a RawAttr>)
    ensures
        r matches Some(a) ==> first_marker(attrs@, kw@) == Some(*a),
        r is None ==> first_marker(attrs@, kw@) is None,
{
    let n = attrs.len();
    let mut i: usize = 0;
    while i < n
        invariant
            n == attrs@.len(),
            i <= n,
            first_marker(attrs@, kw@) == first_marker_at(attrs@, kw@, i as int),
        decreases n - i,
    {
        if eq_str(attrs[i].name.as_str(), kw) {
            return Some(&attrs[i]);
        }
        i += 1;
    }
    None
}

/// Whether a bare `optional` marker is present.
pub fn get_optional(attrs: &Vec<RawAttr>) -> (r: bool)
    ensures
        r == spec_optional(attrs@),
{
    let n = attrs.len();
    let mut i: usize = 0;
    while i < n
        invariant
            n == attrs@.len(),
            i <= n,
            forall|j: int|
                0 <= j < i ==> !(attrs@[j].name@ == "optional"@ && attrs@[j].form is Bare),
        decreases n - i,
    {
        if eq_str(attrs[i].name.as_str(), "optional") {
            if let AttrForm::Bare = attrs[i].form {
                return true;
            }
        }
        i += 1;
    }
    false
}

/// Whether some marker in the list has the given name.
fn has_marker_exec(attrs: &Vec<RawAttr>, kw: &str) -> (r: bool)
    ensures
        r == has_marker(attrs@, kw@),
{
    let n = attrs.len();
    let mut i: usize = 0;
    while i < n
        invariant
            n == attrs@.len(),
            i <= n,
            forall|j: int| 0 <= j < i ==> attrs@[j].name@ != kw@,
        decreases n - i,
    {
        if eq_str(attrs[i].name.as_str(), kw) {
            return true;
        }
        i += 1;
    }
    false
}

/// Determines the parameter's role, or fails when no role marker is present.
pub fn get_kind(ident: &String, attrs: &Vec<RawAttr>) -> (r: Result<Kind, GenError>)
    ensures
        match kind_of(attrs@) {
            Some(k) => r == Ok::<Kind, GenError>(k),
            None => r == Err::<Kind, GenError>(GenError::MissingKind(*ident)),
        },
{
    if has_marker_exec(attrs, "query") {
        Ok(Kind::Query)
    } else if has_marker_exec(attrs, "path") {
        Ok(Kind::Path)
    } else if has_marker_exec(attrs, "body") {
        Ok(Kind::Body)
    } else if has_marker_exec(attrs, "header") {
        Ok(Kind::Header)
    } else {
        Err(GenError::MissingKind(ident.clone()))
    }
}

/// Reads the wire-name override off the role marker.
pub fn get_rename(ident: &String, attrs: &Vec<RawAttr>, kind: &Kind) -> (r: Result<
    Option<String>,
    GenError,
>)
    ensures
        r == spec_rename(attrs@, *ident, *kind),
{
    match find_marker(attrs, kind.symbol()) {
        Some(a) => match &a.form {
            AttrForm::Bare => Ok(None),
            AttrForm::Lit(s) => Ok(Some(s.clone())),
            AttrForm::List => Err(GenError::RenameList(ident.clone())),
            AttrForm::NonLit => Err(GenError::RenameNotString(ident.clone())),
        },
        None => Err(GenError::MissingKind(ident.clone())),
    }
}

/// Whether the declared type text is a borrowed reference.
fn is_reference_exec(ty: &str) -> (r: bool)
    ensures
        r == is_reference(ty@),
{
    let n = ty.unicode_len();
    if n == 0 {
        false
    } else {
        ty.get_char(0) == '&'
    }
}

impl PatMeta {
    /// The parameter's wire-visible name.
    pub fn resolved(&self) -> (r: &String)
        ensures
            *r == wire_string(*self),
            r@ == resolved_name(*self),
    {
        match &self.rename {
            Some(r) => r,
            None => &self.ident,
        }
    }

    /// Classifies one parameter.
    pub fn classify(p: &RawParam) -> (r: Result<PatMeta, GenError>)
        ensures
            r == spec_classify(*p),
    {
        let kind = match get_kind(&p.ident, &p.attrs) {
            Ok(k) => k,
            Err(e) => {
                return Err(e);
            },
        };
        let rename = match get_rename(&p.ident, &p.attrs, &kind) {
            Ok(rn) => rn,
            Err(e) => {
                return Err(e);
            },
        };
        let optional = get_optional(&p.attrs);
        let reference = is_reference_exec(p.ty.as_str());
        Ok(
            PatMeta {
                ident: p.ident.clone(),
                ty: p.ty.clone(),
                kind,
                optional,
                rename,
                reference,
            },
        )
    }
}

/// The classified parameters of one method, in declaration order.
#[derive(Debug)]
pub struct PatMetas {
    metas: Vec<PatMeta>,
}

impl View for PatMetas {
    type V = Seq<PatMeta>;

    closed spec fn view(&self) -> Seq<PatMeta> {
        self.metas@
    }
}

impl PatMetas {
    /// Classifies every parameter, stopping at the first failure.
    pub fn new(params: &Vec<RawParam>) -> (r: Result<PatMetas, GenError>)
        ensures
            match r {
                Ok(ms) => {
                    &&& forall|i: int| 0 <= i < params@.len() ==> spec_classify(params@[i]) is Ok
                    &&& ms@ == Seq::new(params@.len(), |i: int| spec_classify(params@[i]).unwrap())
                },
                Err(e) => exists|k: int|
                    {
                        &&& 0 <= k < params@.len()
                        &&& #[trigger] spec_classify(params@[k]) == Err::<PatMeta, GenError>(e)
                        &&& forall|j: int| 0 <= j < k ==> spec_classify(params@[j]) is Ok
                    },
            },
    {
        let n = params.len();
        let mut metas: Vec<PatMeta> = Vec::new();
        let mut i: usize = 0;
        while i < n
            invariant
                n == params@.len(),
                i <= n,
                forall|j: int| 0 <= j < i ==> spec_classify(params@[j]) is Ok,
                metas@ == Seq::new(i as nat, |j: int| spec_classify(params@[j]).unwrap()),
            decreases n - i,
        {
            match PatMeta::classify(&params[i]) {
                Ok(m) => {
                    metas.push(m);
                    proof {
                        assert(metas@ =~= Seq::new(
                            (i + 1) as nat,
                            |j: int| spec_classify(params@[j]).unwrap(),
                        ));
                    }
                },
                Err(e) => {
                    return Err(e);
                },
            }
            i += 1;
        }
        Ok(PatMetas { metas })
    }

    /// The classified parameters, in declaration order.
    pub fn metas(&self) -> (r: &Vec<PatMeta>)
        ensures
            r@ == self@,
    {
        &self.metas
    }
}

/// Whether a marker name is one of the four role keywords.
pub open spec fn is_role_keyword(n: Seq<char>) -> bool {
    n == "query"@ || n == "path"@ || n == "body"@ || n == "header"@
}

/// A parameter lacking any role marker cannot be classified: the result is
/// exactly the missing-kind error.
pub proof fn lemma_role_marker_required(p: RawParam)
    requires
        forall|i: int| 0 <= i < p.attrs@.len() ==> !is_role_keyword(#[trigger] p.attrs@[i].name@),
    ensures
        spec_classify(p) == Err::<PatMeta, GenError>(GenError::MissingKind(p.ident)),
{
    assert(!has_marker(p.attrs@, "query"@));
    assert(!has_marker(p.attrs@, "path"@));
    assert(!has_marker(p.attrs@, "body"@));
    assert(!has_marker(p.attrs@, "header"@));
}

/// Helper: when exactly one position carries the keyword, the first-marker
/// scan finds that position.
proof fn lemma_first_marker_unique(attrs: Seq<RawAttr>, kw: Seq<char>, i: int, j: int)
    requires
        0 <= j <= i < attrs.len(),
        attrs[i].name@ == kw,
        forall|m: int| 0 <= m < attrs.len() && m != i ==> attrs[m].name@ != kw,
    ensures
        first_marker_at(attrs, kw, j) == Some(attrs[i]),
    decreases i - j,
{
    if j < i {
        lemma_first_marker_unique(attrs, kw, i, j + 1);
    }
}

/// The four role keywords are pairwise distinct.
pub proof fn lemma_keywords_distinct()
    ensures
        "query"@ != "path"@,
        "query"@ != "body"@,
        "query"@ != "header"@,
        "path"@ != "body"@,
        "path"@ != "header"@,
        "body"@ != "header"@,
{
    reveal_strlit("query");
    reveal_strlit("path");
    reveal_strlit("body");
    reveal_strlit("header");
    assert("query"@.len() == 5 && "path"@.len() == 4 && "body"@.len() == 4 && "header"@.len()
        == 6);
    assert("path"@[0] == 'p' && "body"@[0] == 'b');
}

/// One role marker, in a form the recognizer accepts, is sufficient: the
/// parameter classifies successfully and its role is the marked one.
pub proof fn lemma_one_role_marker_suffices(p: RawParam, i: int, k: Kind)
    requires
        0 <= i < p.attrs@.len(),
        p.attrs@[i].name@ == kind_keyword(k),
        forall|j: int|
            0 <= j < p.attrs@.len() && j != i ==> !is_role_keyword(
                #[trigger] p.attrs@[j].name@,
            ),
        p.attrs@[i].form is Bare || p.attrs@[i].form is Lit,
    ensures
        spec_classify(p) is Ok,
        spec_classify(p).unwrap().kind == k,
{
    lemma_keywords_distinct();
    assert(has_marker(p.attrs@, kind_keyword(k)));
    assert(kind_of(p.attrs@) == Some(k)) by {
        lemma_keywords_distinct();
        match k {
            Kind::Query => {},
            Kind::Path => {
                assert(!has_marker(p.attrs@, "query"@));
            },
            Kind::Body => {
                assert(!has_marker(p.attrs@, "query"@));
                assert(!has_marker(p.attrs@, "path"@));
            },
            Kind::Header => {
                assert(!has_marker(p.attrs@, "query"@));
                assert(!has_marker(p.attrs@, "path"@));
                assert(!has_marker(p.attrs@, "body"@));
            },
        }
    }
    lemma_first_marker_unique(p.attrs@, kind_keyword(k), i, 0);
}

} // verus!
