//! The canonical text of a specification, made of its parts.

use vstd::prelude::*;
use vstd::string::StringExecFns;
use crate::text::{opt_view, text_eq};

verus! {

/// The canonical text made of these parts. With a URL: the protocol and `+`,
/// the URL, `?` and the query, then `#` and the name unless the path of the
/// URL ends in it. Without one: the name. Then the version, after `@` where
/// the name was written and after `#` where it was not.
pub open spec fn render_parts_spec(
    name: Seq<char>,
    version: Option<Seq<char>>,
    url: Option<Seq<char>>,
    protocol: Option<Seq<char>>,
    query: Option<Seq<char>>,
    last_segment: Option<Seq<char>>,
) -> Seq<char> {
    let names = url is None || last_segment != Some(name);
    let head = match url {
        Some(u) => (match protocol {
            Some(p) => p + seq!['+'],
            None => Seq::empty(),
        }) + u + (match query {
            Some(q) => seq!['?'] + q,
            None => Seq::empty(),
        }) + (if names {
            seq!['#'] + name
        } else {
            Seq::empty()
        }),
        None => name,
    };
    head + (match version {
        Some(v) => (if names {
            seq!['@']
        } else {
            seq!['#']
        }) + v,
        None => Seq::empty(),
    })
}

/// The canonical text made of these parts.
pub fn render_parts(
    name: &str,
    version: Option<&str>,
    url: Option<&str>,
    protocol: Option<&str>,
    query: Option<&str>,
    last_segment: Option<&str>,
) -> (r: String)
    ensures
        r@ == render_parts_spec(
            name@,
            opt_view(version),
            opt_view(url),
            opt_view(protocol),
            opt_view(query),
            opt_view(last_segment),
        ),
{
    proof {
        reveal_strlit("+");
        reveal_strlit("?");
        reveal_strlit("#");
        reveal_strlit("@");
    }
    let mut out = String::new();
    let mut names = true;
    match url {
        Some(u) => {
            if let Some(p) = protocol {
                out.append(p);
                out.append("+");
            }
            out.append(u);
            if let Some(q) = query {
                out.append("?");
                out.append(q);
            }
            names = match last_segment {
                Some(segment) => !text_eq(segment, name),
                None => true,
            };
            if names {
                out.append("#");
                out.append(name);
            }
        },
        None => {
            out.append(name);
        },
    }
    if let Some(v) = version {
        if names {
            out.append("@");
        } else {
            out.append("#");
        }
        out.append(v);
    }
    assert(out@ =~= render_parts_spec(
        name@,
        opt_view(version),
        opt_view(url),
        opt_view(protocol),
        opt_view(query),
        opt_view(last_segment),
    ));
    out
}

} // verus!
