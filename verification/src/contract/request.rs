//! The request-initiation fragment: a request description bound to the
//! resolved verb and URL, which the later fragments fill in.

use vstd::prelude::*;
use vstd::string::StrSliceExecFns;
use vstd::string::StringExecFns;
use crate::contract::body::BodyValue;
use crate::contract::path::{find_char, find_from};
use crate::contract::query::{qs_of, query_string};
use crate::util::{pairs_view, StrTuple};

verus! {

/// A fully assembled request description, ready for an HTTP client
/// collaborator to dispatch: the verb, the resolved URL, the rendered query
/// pairs, the headers, and the body.  The query pairs stay separate so the
/// collaborator can serialize them into the URL itself, encoding as it
/// sees fit.
#[derive(Debug)]
pub struct BuiltRequest {
    pub method: String,
    pub url: String,
    pub query: Vec<StrTuple>,
    pub headers: Vec<StrTuple>,
    pub body: Option<BodyValue>,
}

/// The URL once the rendered query pairs are attached: unchanged when there
/// are none, else joined by `?`, or by `&` when the URL already carries a
/// query part.
pub open spec fn url_with_query(u: Seq<char>, qp: Seq<(Seq<char>, Seq<char>)>) -> Seq<char> {
    if qp.len() == 0 {
        u
    } else {
        u + seq![
            if find_from(u, 0, '?') < u.len() {
                '&'
            } else {
                '?'
            },
        ] + qs_of(qp)
    }
}

impl BuiltRequest {
    /// Renders the whole URL, query pairs attached.
    pub fn full_url(&self) -> (r: String)
        ensures
            r@ == url_with_query(self.url@, pairs_view(self.query@)),
    {
        let mut out = self.url.clone();
        if self.query.len() > 0 {
            let qs = query_string(&self.query);
            let ulen = out.as_str().unicode_len();
            let qpos = find_char(out.as_str(), 0, '?');
            proof {
                reveal_strlit("&");
                reveal_strlit("?");
                assert("&"@ =~= seq!['&']);
                assert("?"@ =~= seq!['?']);
            }
            if qpos < ulen {
                out.append("&");
            } else {
                out.append("?");
            }
            out.append(qs.as_str());
            proof {
                assert(out@ =~= url_with_query(self.url@, pairs_view(self.query@)));
            }
        }
        out
    }
}

/// The request-initiation fragment: the resolved HTTP verb.
#[derive(Debug)]
pub struct RequestPlan {
    pub method: String,
}

impl RequestPlan {
    /// Binds the fragment to a verb.
    pub fn new(method: String) -> (r: RequestPlan)
        ensures
            r.method == method,
    {
        RequestPlan { method }
    }

    /// Opens a request bound to the verb and a URL, with nothing attached
    /// yet.
    pub fn init(&self, url: String) -> (r: BuiltRequest)
        ensures
            r.method == self.method,
            r.url == url,
            r.query@ =~= Seq::<StrTuple>::empty(),
            r.headers@ =~= Seq::<StrTuple>::empty(),
            r.body is None,
    {
        BuiltRequest {
            method: self.method.clone(),
            url,
            query: Vec::new(),
            headers: Vec::new(),
            body: None,
        }
    }
}

} // verus!
