//! Request descriptors and URL composition.
//!
//! A facade method assembles a [`RequestDescriptor`]; the unverified
//! transport shell turns it into one HTTP request.  The full URL is
//! `base_url + '/' + endpoint` with the endpoint's leading slashes stripped,
//! followed by a query string of `key=value` pairs joined with `&`, each
//! value percent-encoded, and skipped entirely when there are no parameters.

use vstd::prelude::*;

verus! {

use vstd::string::StrSliceExecFns;
use vstd::string::StringExecFns;
use crate::json::Json;
use crate::json::JsonV;
use crate::json::jview;
use crate::text::strip_leading_slashes;

/// The HTTP method of a request.
#[derive(Clone, Copy, Debug, PartialEq, Eq, Structural)]
pub enum Method {
    Get,
    Post,
    Put,
    Delete,
}

/// The wire name of a method.
pub open spec fn method_text(m: Method) -> Seq<char> {
    match m {
        Method::Get => "GET"@,
        Method::Post => "POST"@,
        Method::Put => "PUT"@,
        Method::Delete => "DELETE"@,
    }
}

impl Method {
    /// The wire name of this method.
    pub fn as_str(&self) -> (r: &'static str)
        ensures
            r@ == method_text(*self),
    {
        match self {
            Method::Get => "GET",
            Method::Post => "POST",
            Method::Put => "PUT",
            Method::Delete => "DELETE",
        }
    }
}

/// The mathematical value of a [`RequestDescriptor`].
#[verifier::ext_equal]
pub struct DescriptorView {
    pub method: Method,
    pub path: Seq<char>,
    pub query: Seq<(Seq<char>, Seq<char>)>,
    pub body: Option<JsonV>,
    pub envelope: Option<Seq<char>>,
}

/// Everything the transport needs to issue one request: method, endpoint
/// path, query parameters, optional JSON body, and the envelope key under
/// which the interesting part of the response arrives (if any).
#[derive(Debug, PartialEq, Eq)]
pub struct RequestDescriptor {
    pub method: Method,
    pub path: String,
    pub query: Vec<(String, String)>,
    pub body: Option<Json>,
    pub envelope: Option<String>,
}

/// The views of a list of key/value pairs.
pub open spec fn pairs_view(s: Seq<(String, String)>) -> Seq<(Seq<char>, Seq<char>)> {
    s.map_values(|p: (String, String)| (p.0@, p.1@))
}

impl View for RequestDescriptor {
    type V = DescriptorView;

    open spec fn view(&self) -> DescriptorView {
        DescriptorView {
            method: self.method,
            path: self.path@,
            query: pairs_view(self.query@),
            body: match self.body {
                Some(b) => Some(jview(b)),
                None => None,
            },
            envelope: match self.envelope {
                Some(k) => Some(k@),
                None => None,
            },
        }
    }
}

/// The view of an optional string.
pub open spec fn opt_str(o: Option<String>) -> Option<Seq<char>> {
    match o {
        Some(s) => Some(s@),
        None => None,
    }
}

/// The view of an optional borrowed string.
pub open spec fn opt_ref_str(o: Option<&str>) -> Option<Seq<char>> {
    match o {
        Some(s) => Some(s@),
        None => None,
    }
}

/// The view of an optional JSON value.
pub open spec fn opt_json(o: Option<Json>) -> Option<JsonV> {
    match o {
        Some(j) => Some(jview(j)),
        None => None,
    }
}

/// One query parameter when the value is present, nothing when it is absent.
pub open spec fn opt_param(k: Seq<char>, v: Option<Seq<char>>) -> Seq<(Seq<char>, Seq<char>)> {
    match v {
        Some(s) => seq![(k, s)],
        None => Seq::empty(),
    }
}

/// One numeric query parameter when the value is present.
pub open spec fn opt_int_param(k: Seq<char>, v: Option<i32>) -> Seq<(Seq<char>, Seq<char>)> {
    match v {
        Some(i) => seq![(k, crate::text::int_text(i as int))],
        None => Seq::empty(),
    }
}

/// One JSON object field when the value is present, nothing when it is
/// absent: an absent optional never yields a key, not even a `null` one.
pub open spec fn opt_field(k: Seq<char>, v: Option<JsonV>) -> Seq<(Seq<char>, JsonV)> {
    match v {
        Some(j) => seq![(k, j)],
        None => Seq::empty(),
    }
}

/// What `urlencoding::encode` returns for a string: a pure function of the
/// input characters.
pub uninterp spec fn percent_encoded(s: Seq<char>) -> Seq<char>;

/// Holds of characters that percent-encoding leaves as they are.
pub open spec fn is_unreserved(c: char) -> bool {
    ('0' <= c && c <= '9') || ('A' <= c && c <= 'Z') || ('a' <= c && c <= 'z') || c == '-' || c
        == '_' || c == '.' || c == '~'
}

/// Relies on `urlencoding::encode`: it percent-encodes every byte of the
/// UTF-8 form of `v` except ASCII alphanumerics and `-`, `_`, `.`, `~`, so
/// its result depends on the input characters alone, and an input made only
/// of those unreserved characters comes back unchanged.
#[verifier::external_body]
fn percent_encode(v: &str) -> (r: String)
    ensures
        r@ == percent_encoded(v@),
        (forall|i: int| 0 <= i < v@.len() ==> is_unreserved(v@[i])) ==> r@ == v@,
{
    urlencoding::encode(v).into_owned()
}

/// The text of one `key=value` query pair, with the value percent-encoded.
pub open spec fn query_pair_text(p: (Seq<char>, Seq<char>)) -> Seq<char> {
    p.0 + seq!['='] + percent_encoded(p.1)
}

/// The `&`-joined text of the query pairs, without the leading `?`.
pub open spec fn query_text(q: Seq<(Seq<char>, Seq<char>)>) -> Seq<char>
    decreases q.len(),
{
    if q.len() == 0 {
        Seq::empty()
    } else if q.len() == 1 {
        query_pair_text(q[0])
    } else {
        query_text(q.drop_last()) + seq!['&'] + query_pair_text(q.last())
    }
}

/// The full URL for a request: base, one joining slash, the endpoint with
/// its leading slashes stripped, and the query string when it is non-empty.
pub open spec fn url_of(base: Seq<char>, path: Seq<char>, query: Seq<(Seq<char>, Seq<char>)>) -> Seq<
    char,
> {
    base + seq!['/'] + strip_leading_slashes(path) + if query.len() == 0 {
        Seq::empty()
    } else {
        seq!['?'] + query_text(query)
    }
}

/// Appends `?key=value&...` for the given parameters to `out`; appends
/// nothing when there are none.
pub(crate) fn append_query_string(out: &mut String, query: &Vec<(String, String)>)
    ensures
        final (out)@ == old(out)@ + if pairs_view(query@).len() == 0 {
            Seq::<char>::empty()
        } else {
            seq!['?'] + query_text(pairs_view(query@))
        },
{
    let ghost pairs: Seq<(Seq<char>, Seq<char>)> = pairs_view(query@);
    if query.len() == 0 {
        proof {
            assert(old(out)@ + Seq::<char>::empty() =~= old(out)@);
        }
        return ;
    }
    proof {
        reveal_strlit("?");
        reveal_strlit("=");
        reveal_strlit("&");
    }
    out.append("?");
    proof {
        assert(out@ =~= old(out)@ + seq!['?'] + query_text(pairs.take(0)));
    }
    let mut i: usize = 0;
    #[verifier::loop_isolation(false)]
    while i < query.len()
        invariant
            i <= query.len(),
            pairs.len() == query@.len(),
            out@ == old(out)@ + seq!['?'] + query_text(pairs.take(i as int)),
        decreases query.len() - i,
    {
        if i > 0 {
            out.append("&");
        }
        out.append(query[i].0.as_str());
        out.append("=");
        let encoded: String = percent_encode(query[i].1.as_str());
        out.append(encoded.as_str());
        proof {
            assert(pairs.take(i as int + 1).drop_last() =~= pairs.take(i as int));
            assert(pairs.take(i as int + 1).last() == pairs[i as int]);
            if i == 0 {
                assert(pairs.take(1)[0] == pairs[0]);
            }
            assert(pairs[i as int] == (query@[i as int].0@, query@[i as int].1@));
            assert(out@ =~= old(out)@ + seq!['?'] + query_text(pairs.take(i as int + 1)));
        }
        i = i + 1;
    }
    proof {
        assert(pairs.take(query@.len() as int) =~= pairs);
    }
}

} // verus!
