//! The body fragment: the first Body-role parameter, if any, and the
//! request-side serialization format selected by the `serialized` tag.

use vstd::prelude::*;
use crate::meta::{Kind, PatMeta, PatMetas};
use crate::util::{eq_str, lookup, lookup_arg, Arg};

verus! {

/// The request-side serialization strategy.  Any tag other than the three
/// recognized ones, and an absent tag, mean an untransformed raw body.
#[derive(Clone, Copy, Debug, PartialEq, Eq, Structural)]
pub enum BodyFormat {
    Json,
    FormData,
    Multipart,
    Raw,
}

/// The identifier of the first Body-role parameter, if any.
pub open spec fn first_body(ms: Seq<PatMeta>) -> Option<String>
    decreases ms.len(),
{
    if ms.len() == 0 {
        None
    } else {
        let r = first_body(ms.drop_last());
        if r is Some {
            r
        } else if ms.last().kind is Body {
            Some(ms.last().ident)
        } else {
            None
        }
    }
}

/// The format a `serialized` tag selects.
pub open spec fn body_format_of(tag: Option<String>) -> BodyFormat {
    match tag {
        None => BodyFormat::Raw,
        Some(s) => if s@ == "Json"@ {
            BodyFormat::Json
        } else if s@ == "FormData"@ {
            BodyFormat::FormData
        } else if s@ == "Multipart"@ {
            BodyFormat::Multipart
        } else {
            BodyFormat::Raw
        },
    }
}

/// A request body ready to attach: the selected format and the rendered
/// value.
#[derive(Debug)]
pub struct BodyValue {
    pub format: BodyFormat,
    pub value: String,
}

/// The body a plan attaches for given arguments: nothing without a
/// Body-role parameter or when its value is absent, else the bound value
/// under the selected format.
pub open spec fn built_body(b: BodyPlan, args: Seq<Arg>) -> Option<BodyValue> {
    match b.body {
        None => None,
        Some(id) => match lookup(args, id@) {
            Some(Some(v)) => Some(
                BodyValue { format: body_format_of(b.serialized), value: v },
            ),
            _ => None,
        },
    }
}

/// The body fragment of one method.
#[derive(Debug)]
pub struct BodyPlan {
    pub body: Option<String>,
    pub serialized: Option<String>,
}

impl BodyPlan {
    /// Finds the Body-role parameter and keeps the effective `serialized`
    /// tag.
    pub fn new(metas: &PatMetas, serialized: Option<String>) -> (r: BodyPlan)
        ensures
            r.body == first_body(metas@),
            r.serialized == serialized,
    {
        let ms = metas.metas();
        let n = ms.len();
        let mut body: Option<String> = None;
        proof {
            assert(body == first_body(metas@.take(0)));
        }
        let mut j: usize = 0;
        while j < n
            invariant
                n == metas@.len(),
                ms@ == metas@,
                j <= n,
                body == first_body(metas@.take(j as int)),
            decreases n - j,
        {
            if body.is_none() {
                let m = &ms[j];
                if matches!(m.kind, Kind::Body) {
                    body = Some(m.ident.clone());
                }
            }
            proof {
                let taken = metas@.take(j + 1);
                assert(taken.drop_last() =~= metas@.take(j as int));
                assert(taken.last() == metas@[j as int]);
            }
            j += 1;
        }
        proof {
            assert(metas@.take(n as int) =~= metas@);
        }
        BodyPlan { body, serialized }
    }

    /// The serialization format the plan selects.
    pub fn format(&self) -> (r: BodyFormat)
        ensures
            r == body_format_of(self.serialized),
    {
        match &self.serialized {
            None => BodyFormat::Raw,
            Some(s) => {
                if eq_str(s.as_str(), "Json") {
                    BodyFormat::Json
                } else if eq_str(s.as_str(), "FormData") {
                    BodyFormat::FormData
                } else if eq_str(s.as_str(), "Multipart") {
                    BodyFormat::Multipart
                } else {
                    BodyFormat::Raw
                }
            },
        }
    }

    /// The body to attach: nothing without a Body-role parameter or when
    /// its value is absent, else the bound value under the selected format.
    pub fn apply(&self, args: &Vec<Arg>) -> (r: Option<BodyValue>)
        ensures
            r == built_body(*self, args@),
    {
        match &self.body {
            None => None,
            Some(id) => match lookup_arg(args, id.as_str()) {
                Some(v) => match v {
                    Some(s) => Some(BodyValue { format: self.format(), value: s.clone() }),
                    None => None,
                },
                None => None,
            },
        }
    }
}

} // verus!
