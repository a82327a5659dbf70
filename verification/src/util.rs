//! Small shared pieces: string comparison, directive values, and the
//! generation-time error type.

use vstd::prelude::*;
use vstd::string::StrSliceExecFns;
use vstd::string::StringExecFns;

verus! {

/// A pair of strings, used for literal header entries (name, value) and for
/// rendered header/query pairs.
#[derive(Debug)]
pub struct StrTuple(pub String, pub String);

/// Character-wise string equality, with the result tied to the views.
pub fn eq_str(a: &str, b: &str) -> (r: bool)
    ensures
        r == (a@ == b@),
{
    let la = a.unicode_len();
    let lb = b.unicode_len();
    if la != lb {
        return false;
    }
    let mut i: usize = 0;
    while i < la
        invariant
            la == a@.len(),
            lb == b@.len(),
            la == lb,
            i <= la,
            forall|j: int| 0 <= j < i ==> a@[j] == b@[j],
        decreases la - i,
    {
        if a.get_char(i) != b.get_char(i) {
            return false;
        }
        i += 1;
    }
    proof {
        assert(a@ =~= b@);
    }
    true
}

/// A runtime argument handed to the request evaluator: the parameter's
/// identifier and its rendered value, absent for an optional parameter that
/// was not supplied.
#[derive(Debug)]
pub struct Arg {
    pub ident: String,
    pub value: Option<String>,
}

/// First-match lookup among the arguments, starting at position `i`.
pub open spec fn lookup_at(args: Seq<Arg>, name: Seq<char>, i: int) -> Option<Option<String>>
    decreases args.len() - i,
{
    if i < 0 || i >= args.len() {
        None
    } else if args[i].ident@ == name {
        Some(args[i].value)
    } else {
        lookup_at(args, name, i + 1)
    }
}

/// The value bound to a parameter name, when the name is bound at all.
pub open spec fn lookup(args: Seq<Arg>, name: Seq<char>) -> Option<Option<String>> {
    lookup_at(args, name, 0)
}

/// The rendered text bound to a name: empty when the name is unbound or its
/// value absent.
pub open spec fn lookup_text(args: Seq<Arg>, name: Seq<char>) -> Seq<char> {
    match lookup(args, name) {
        Some(Some(v)) => v@,
        _ => Seq::empty(),
    }
}

/// Finds the first argument with the given name.
pub fn lookup_arg<'a>(args: &'a Vec<Arg>, name: &str) -> (r: Option<&'a Option<String>>)
    ensures
        match r {
            Some(v) => lookup(args@, name@) == Some(*v),
            None => lookup(args@, name@) is None,
        },
{
    let n = args.len();
    let mut i: usize = 0;
    while i < n
        invariant
            n == args@.len(),
            i <= n,
            lookup(args@, name@) == lookup_at(args@, name@, i as int),
        decreases n - i,
    {
        if eq_str(args[i].ident.as_str(), name) {
            return Some(&args[i].value);
        }
        proof {
            assert(lookup_at(args@, name@, i as int) == lookup_at(args@, name@, i + 1));
        }
        i += 1;
    }
    None
}

/// The views of a list of string pairs.
pub open spec fn pairs_view(ps: Seq<StrTuple>) -> Seq<(Seq<char>, Seq<char>)> {
    ps.map_values(|p: StrTuple| (p.0@, p.1@))
}

/// Copies a list of string pairs.
pub fn clone_pairs(v: &Vec<StrTuple>) -> (r: Vec<StrTuple>)
    ensures
        r@ == v@,
{
    let n = v.len();
    let mut out: Vec<StrTuple> = Vec::new();
    let mut i: usize = 0;
    while i < n
        invariant
            n == v@.len(),
            i <= n,
            out@ == v@.take(i as int),
        decreases n - i,
    {
        out.push(StrTuple(v[i].0.clone(), v[i].1.clone()));
        proof {
            assert(v@[i as int] == StrTuple(v@[i as int].0, v@[i as int].1));
            assert(out@ =~= v@.take(i + 1));
        }
        i += 1;
    }
    proof {
        assert(v@.take(n as int) =~= v@);
    }
    out
}

/// An error found while analysing a trait description.  Every error aborts
/// generation; none is recoverable.
#[derive(Debug)]
pub enum GenError {
    /// A directive was set twice in the same scope.
    DuplicateDirective(String),
    /// A directive carried a value of the wrong shape.
    InvalidDirective(String),
    /// A directive value that had to be an identifier or string literal was
    /// something else.
    NotIdent,
    /// A mandatory directive (verb or path) was absent.
    MissingDirective(String),
    /// A parameter carried no role marker.  The payload is the parameter name.
    MissingKind(String),
    /// A role marker carried a meta list instead of a rename string.
    RenameList(String),
    /// A role marker carried a non-string value.
    RenameNotString(String),
    /// A placeholder in the path template matches no Path-role parameter.
    UndefinedPathParam(String),
    /// A Path-role parameter matches no placeholder in the template.
    MissingPathParam(String),
    /// The annotated method already has a default body.
    DefaultBody,
    /// The annotated method is not asynchronous.
    NotAsync,
}

impl GenError {
    /// The diagnostic text of the error.
    pub open spec fn message_spec(&self) -> Seq<char> {
        match self {
            GenError::DuplicateDirective(n) => "duplicate attribute `"@ + n@ + "`"@,
            GenError::InvalidDirective(n) => "invalid attribute: `"@ + n@ + "`"@,
            GenError::NotIdent => "only identifier or string literal allowed"@,
            GenError::MissingDirective(n) => "missing attribute: `"@ + n@ + "`"@,
            GenError::MissingKind(_) => "missing kind attribute"@,
            GenError::RenameList(_) => "attribute `rename` unsupported meta list"@,
            GenError::RenameNotString(_) => "attribute `rename` only supports literal strings"@,
            GenError::UndefinedPathParam(n) => "undefined path param: `"@ + n@ + "`"@,
            GenError::MissingPathParam(n) => "missing path param: `"@ + n@ + "`"@,
            GenError::DefaultBody => "hadorn macros can not be applied to default function"@,
            GenError::NotAsync => "hadorn macros only can applied to async function"@,
        }
    }

    /// Renders the diagnostic text.
    pub fn message(&self) -> (r: String)
        ensures
            r@ == self.message_spec(),
    {
        match self {
            GenError::DuplicateDirective(n) => String::from_str("duplicate attribute `").concat(
                n.as_str(),
            ).concat("`"),
            GenError::InvalidDirective(n) => String::from_str("invalid attribute: `").concat(
                n.as_str(),
            ).concat("`"),
            GenError::NotIdent => String::from_str("only identifier or string literal allowed"),
            GenError::MissingDirective(n) => String::from_str("missing attribute: `").concat(
                n.as_str(),
            ).concat("`"),
            GenError::MissingKind(_) => String::from_str("missing kind attribute"),
            GenError::RenameList(_) => String::from_str("attribute `rename` unsupported meta list"),
            GenError::RenameNotString(_) => String::from_str(
                "attribute `rename` only supports literal strings",
            ),
            GenError::UndefinedPathParam(n) => String::from_str("undefined path param: `").concat(
                n.as_str(),
            ).concat("`"),
            GenError::MissingPathParam(n) => String::from_str("missing path param: `").concat(
                n.as_str(),
            ).concat("`"),
            GenError::DefaultBody => String::from_str(
                "hadorn macros can not be applied to default function",
            ),
            GenError::NotAsync => String::from_str(
                "hadorn macros only can applied to async function",
            ),
        }
    }
}

/// The value attached to a directive: a string literal, a bare identifier,
/// a bracketed list of string pairs, or anything else.
#[derive(Debug)]
pub enum DirectiveValue {
    Lit(String),
    Ident(String),
    Pairs(Vec<StrTuple>),
    Other,
}

/// The identifier named by a directive value, when it names one: a string
/// literal is read as the identifier it spells, as is a bare identifier.
pub open spec fn expr_ident(v: DirectiveValue) -> Option<String> {
    match v {
        DirectiveValue::Lit(s) => Some(s),
        DirectiveValue::Ident(s) => Some(s),
        _ => None,
    }
}

/// Extracts the identifier a directive value names, if any.
pub fn get_expr_ident(v: &DirectiveValue) -> (r: Option<String>)
    ensures
        r == expr_ident(*v),
{
    match v {
        DirectiveValue::Lit(s) => Some(s.clone()),
        DirectiveValue::Ident(s) => Some(s.clone()),
        _ => None,
    }
}

impl DirectiveValue {
    /// Demands that the value name an identifier.
    pub fn require_ident(&self) -> (r: Result<String, GenError>)
        ensures
            match expr_ident(*self) {
                Some(s) => r == Ok::<String, GenError>(s),
                None => r == Err::<String, GenError>(GenError::NotIdent),
            },
    {
        match get_expr_ident(self) {
            Some(s) => Ok(s),
            None => Err(GenError::NotIdent),
        }
    }
}

} // verus!
