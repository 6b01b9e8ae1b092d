//! URL handling: the parsed form of a base URL as plain values, and the
//! verified construction of a request URL from a base, a path and query
//! parameters. Parsing and percent-encoding are the url crate's work,
//! behind trusted items; everything assembled from their results is
//! verified.

use vstd::prelude::*;
use vstd::relations::sorted_by;

use crate::errors::ClassifiedError;
use crate::headers::header_views;
use crate::kinds::ErrorKind;
use crate::sorting::{lemma_pair_order_total, lemma_sort_deterministic, pair_order, sort_pairs};
use crate::text::{dec_str, split_drop_empty, split_nonempty, str_eq, strings_view, u64_to_dec};

verus! {

/// The mathematical value of a parsed base URL.
pub ghost struct UrlModel {
    pub scheme: Seq<char>,
    pub username: Seq<char>,
    pub password: Option<Seq<char>>,
    pub host: Option<Seq<char>>,
    pub port: Option<u16>,
    pub path: Seq<char>,
    pub query: Option<Seq<char>>,
    pub fragment: Option<Seq<char>>,
    pub hierarchical: bool,
}

/// A parsed base URL, held as plain values: scheme, user information, host,
/// port, path, query and fragment as the url crate parsed and normalized
/// them, and whether the URL is hierarchical (a URL that cannot be a base
/// takes no path segments).
#[derive(Debug)]
pub struct UrlRoot {
    pub scheme: String,
    pub username: String,
    pub password: Option<String>,
    pub host: Option<String>,
    pub port: Option<u16>,
    pub path: String,
    pub query: Option<String>,
    pub fragment: Option<String>,
    pub hierarchical: bool,
}

impl View for UrlRoot {
    type V = UrlModel;

    open spec fn view(&self) -> UrlModel {
        UrlModel {
            scheme: self.scheme@,
            username: self.username@,
            password: match self.password {
                Some(p) => Some(p@),
                None => None,
            },
            host: match self.host {
                Some(h) => Some(h@),
                None => None,
            },
            port: self.port,
            path: self.path@,
            query: match self.query {
                Some(q) => Some(q@),
                None => None,
            },
            fragment: match self.fragment {
                Some(f) => Some(f@),
                None => None,
            },
            hierarchical: self.hierarchical,
        }
    }
}

fn clone_opt_string(s: &Option<String>) -> (r: Option<String>)
    ensures
        match (r, s) {
            (Some(a), Some(b)) => a@ == b@,
            (None, None) => true,
            _ => false,
        },
{
    match s {
        Some(v) => Some(v.clone()),
        None => None,
    }
}

impl UrlRoot {
    /// A copy of the parsed base URL, equal to the original.
    pub fn duplicate(&self) -> (r: UrlRoot)
        ensures
            r@ == self@,
    {
        UrlRoot {
            scheme: self.scheme.clone(),
            username: self.username.clone(),
            password: clone_opt_string(&self.password),
            host: clone_opt_string(&self.host),
            port: self.port,
            path: self.path.clone(),
            query: clone_opt_string(&self.query),
            fragment: clone_opt_string(&self.fragment),
            hierarchical: self.hierarchical,
        }
    }
}

/// What the url crate's parser yields for a string: the parsed URL's parts,
/// or the parser's error text where the string does not parse as an
/// absolute URL. The result depends on the string alone.
pub uninterp spec fn url_parse_spec(s: Seq<char>) -> Result<UrlModel, Seq<char>>;

/// Relies on `url::Url::parse` and the accessors of the parsed URL
/// (`scheme`, `username`, `password`, `host_str`, `port`, `path`, `query`,
/// `fragment`, `cannot_be_a_base`): the parts of the parsed and normalized
/// URL, as plain values; the error's text where the string does not parse
/// as an absolute URL.
#[verifier::external_body]
pub fn parse_url_root(s: &str) -> (r: Result<UrlRoot, String>)
    ensures
        match r {
            Ok(u) => url_parse_spec(s@) == Ok::<UrlModel, Seq<char>>(u@),
            Err(m) => url_parse_spec(s@) == Err::<UrlModel, Seq<char>>(m@),
        },
{
    match url::Url::parse(s) {
        Ok(u) => Ok(UrlRoot {
            scheme: u.scheme().to_string(),
            username: u.username().to_string(),
            password: u.password().map(|p| p.to_string()),
            host: u.host_str().map(|h| h.to_string()),
            port: u.port(),
            path: u.path().to_string(),
            query: u.query().map(|q| q.to_string()),
            fragment: u.fragment().map(|f| f.to_string()),
            hierarchical: !u.cannot_be_a_base(),
        }),
        Err(e) => Err(format!("{:?}", e)),
    }
}

/// What the url crate's form-urlencoded byte serializer yields for a
/// string. The result depends on the string alone.
pub uninterp spec fn form_escaped(s: Seq<char>) -> Seq<char>;

/// Relies on `url::form_urlencoded::byte_serialize`: percent-encodes a
/// query name or value the way the url crate's query serializer does. An
/// empty string stays empty.
#[verifier::external_body]
pub fn form_escape(s: &str) -> (r: String)
    ensures
        r@ == form_escaped(s@),
        s@.len() == 0 ==> r@.len() == 0,
{
    url::form_urlencoded::byte_serialize(s.as_bytes()).collect()
}

/// What the url crate's path-segment appender makes of one segment: the
/// segment percent-encoded, with `%` and `/` encoded too, and `\` besides
/// under a special scheme; a `.` or `..` segment is taken as empty, since
/// the appender ignores it. The result depends on the arguments alone.
pub uninterp spec fn path_escaped(s: Seq<char>, special_scheme: bool) -> Seq<char>;

/// Relies on `url::PathSegmentsMut::push` (through which `extend` appends
/// every segment): percent-encodes one path segment the way the url crate
/// does. The body appends the segment to a one-segment base of the wanted
/// scheme flavour and reads the encoded segment back after the leading
/// slash. An empty segment stays empty.
#[verifier::external_body]
pub fn path_escape(s: &str, special_scheme: bool) -> (r: String)
    ensures
        r@ == path_escaped(s@, special_scheme),
        s@.len() == 0 ==> r@.len() == 0,
{
    let base = if special_scheme {
        "http://h"
    } else {
        "ns://h/"
    };
    let mut u = url::Url::parse(base).unwrap();
    if let Ok(mut p) = u.path_segments_mut() {
        p.push(s);
    }
    u.path()[1..].to_string()
}

/// Whether the url crate treats the scheme as special: the schemes of the
/// URL standard's special list. Encoding of appended path segments differs
/// between special and other schemes.
pub open spec fn special_scheme(s: Seq<char>) -> bool {
    ||| s == "http"@
    ||| s == "https"@
    ||| s == "ws"@
    ||| s == "wss"@
    ||| s == "ftp"@
    ||| s == "file"@
}

/// Decides whether a scheme is one of the URL standard's special schemes.
pub fn is_special_scheme(s: &str) -> (r: bool)
    ensures
        r == special_scheme(s@),
{
    str_eq(s, "http") || str_eq(s, "https") || str_eq(s, "ws") || str_eq(s, "wss") || str_eq(
        s,
        "ftp",
    ) || str_eq(s, "file")
}

/// The user information of a base URL: `username[:password]@` where either
/// part is present, else nothing.
pub open spec fn userinfo_part(username: Seq<char>, password: Option<Seq<char>>) -> Seq<char> {
    if username.len() > 0 || password is Some {
        username + match password {
            Some(p) => ":"@ + p,
            None => Seq::<char>::empty(),
        } + "@"@
    } else {
        Seq::<char>::empty()
    }
}

/// The scheme and authority of a base URL: `scheme:`, and `//`, the user
/// information, the host and `:port` where an explicit port is kept, when
/// the URL has a host.
pub open spec fn render_authority(m: UrlModel) -> Seq<char> {
    m.scheme + ":"@ + match m.host {
        Some(h) => "//"@ + userinfo_part(m.username, m.password) + h + match m.port {
            Some(p) => ":"@ + dec_str(p as nat),
            None => Seq::<char>::empty(),
        },
        None => Seq::<char>::empty(),
    }
}

/// One segment appended to the path `bp` as the url crate appends it: after
/// a path that is empty or a lone `/`, the path becomes `/` and the encoded
/// segment; after a longer path, `/` and the encoded segment are added, so
/// a trailing empty segment of the base is kept (as a doubled slash).
pub open spec fn append_one_segment(bp: Seq<char>, seg: Seq<char>, special: bool) -> Seq<char> {
    if bp.len() <= 1 {
        "/"@ + path_escaped(seg, special)
    } else {
        bp + "/"@ + path_escaped(seg, special)
    }
}

/// Every segment appended in order to the path `bp`; a `.` or `..` segment
/// is ignored, as the url crate's appender ignores it.
pub open spec fn append_segments(bp: Seq<char>, segs: Seq<Seq<char>>, special: bool) -> Seq<char>
    decreases segs.len(),
{
    if segs.len() == 0 {
        bp
    } else if segs[0] == "."@ || segs[0] == ".."@ {
        append_segments(bp, segs.drop_first(), special)
    } else {
        append_segments(append_one_segment(bp, segs[0], special), segs.drop_first(), special)
    }
}

pub proof fn lemma_append_segments_snoc(
    bp: Seq<char>,
    segs: Seq<Seq<char>>,
    s: Seq<char>,
    special: bool,
)
    ensures
        append_segments(bp, segs.push(s), special) == (if s == "."@ || s == ".."@ {
            append_segments(bp, segs, special)
        } else {
            append_one_segment(append_segments(bp, segs, special), s, special)
        }),
    decreases segs.len(),
{
    if segs.len() == 0 {
        assert(segs.push(s)[0] == s);
        assert(segs.push(s).drop_first() =~= Seq::<Seq<char>>::empty());
        if s == "."@ || s == ".."@ {
            assert(append_segments(bp, segs.push(s), special) == append_segments(
                bp,
                segs.push(s).drop_first(),
                special,
            ));
            assert(append_segments(bp, Seq::<Seq<char>>::empty(), special) == bp);
        } else {
            assert(append_segments(bp, segs.push(s), special) == append_segments(
                append_one_segment(bp, s, special),
                segs.push(s).drop_first(),
                special,
            ));
            assert(append_segments(append_one_segment(bp, s, special), Seq::<Seq<char>>::empty(), special)
                == append_one_segment(bp, s, special));
        }
        assert(append_segments(bp, segs, special) == bp);
    } else {
        assert(segs.push(s)[0] == segs[0]);
        assert(segs.push(s).drop_first() =~= segs.drop_first().push(s));
        if segs[0] == "."@ || segs[0] == ".."@ {
            assert(append_segments(bp, segs.push(s), special) == append_segments(
                bp,
                segs.drop_first().push(s),
                special,
            ));
            lemma_append_segments_snoc(bp, segs.drop_first(), s, special);
            assert(append_segments(bp, segs, special) == append_segments(
                bp,
                segs.drop_first(),
                special,
            ));
        } else {
            let bp2 = append_one_segment(bp, segs[0], special);
            assert(append_segments(bp, segs.push(s), special) == append_segments(
                bp2,
                segs.drop_first().push(s),
                special,
            ));
            lemma_append_segments_snoc(bp2, segs.drop_first(), s, special);
            assert(append_segments(bp, segs, special) == append_segments(
                bp2,
                segs.drop_first(),
                special,
            ));
        }
    }
}

/// One encoded query pair, `name=value`.
pub open spec fn encoded_pair(p: (Seq<char>, Seq<char>)) -> Seq<char> {
    form_escaped(p.0) + "="@ + form_escaped(p.1)
}

/// `pair` appended to the query string `q`, with `&` between pairs.
pub open spec fn append_one_pair(q: Seq<char>, p: (Seq<char>, Seq<char>)) -> Seq<char> {
    if q.len() == 0 {
        encoded_pair(p)
    } else {
        q + "&"@ + encoded_pair(p)
    }
}

/// Every pair appended in order to the query string `q`.
pub open spec fn append_pairs(q: Seq<char>, pairs: Seq<(Seq<char>, Seq<char>)>) -> Seq<char>
    decreases pairs.len(),
{
    if pairs.len() == 0 {
        q
    } else {
        append_pairs(append_one_pair(q, pairs[0]), pairs.drop_first())
    }
}

pub proof fn lemma_append_pairs_snoc(
    q: Seq<char>,
    pairs: Seq<(Seq<char>, Seq<char>)>,
    p: (Seq<char>, Seq<char>),
)
    ensures
        append_pairs(q, pairs.push(p)) == append_one_pair(append_pairs(q, pairs), p),
    decreases pairs.len(),
{
    if pairs.len() == 0 {
        assert(pairs.push(p)[0] == p);
        assert(pairs.push(p).drop_first() =~= Seq::<(Seq<char>, Seq<char>)>::empty());
        assert(append_pairs(q, pairs.push(p)) == append_pairs(
            append_one_pair(q, p),
            pairs.push(p).drop_first(),
        ));
        assert(append_pairs(append_one_pair(q, p), Seq::<(Seq<char>, Seq<char>)>::empty())
            == append_one_pair(q, p));
        assert(append_pairs(q, pairs) == q);
    } else {
        assert(pairs.push(p)[0] == pairs[0]);
        assert(pairs.push(p).drop_first() =~= pairs.drop_first().push(p));
        assert(append_pairs(q, pairs.push(p)) == append_pairs(
            append_one_pair(q, pairs[0]),
            pairs.drop_first().push(p),
        ));
        lemma_append_pairs_snoc(append_one_pair(q, pairs[0]), pairs.drop_first(), p);
        assert(append_pairs(q, pairs) == append_pairs(
            append_one_pair(q, pairs[0]),
            pairs.drop_first(),
        ));
    }
}

/// Sorting an empty parameter sequence yields the empty sequence.
pub proof fn lemma_sorted_params_empty()
    ensures
        sorted_params(Seq::<(Seq<char>, Seq<char>)>::empty()) == Seq::<(
            Seq<char>,
            Seq<char>,
        )>::empty(),
{
    broadcast use vstd::seq_lib::group_to_multiset_ensures;

    lemma_pair_order_total();
    let e = Seq::<(Seq<char>, Seq<char>)>::empty();
    e.lemma_sort_by_ensures(pair_order());
    assert(e.len() == e.to_multiset().len());
    assert(sorted_params(e).len() == sorted_params(e).to_multiset().len());
    assert(sorted_params(e) =~= e);
}

/// The query parameters in their one deterministic order.
pub open spec fn sorted_params(ps: Seq<(Seq<char>, Seq<char>)>) -> Seq<(Seq<char>, Seq<char>)> {
    ps.sort_by(pair_order())
}

/// No query pair was given: either no parameters at all, or an empty
/// collection of them.
pub open spec fn no_query_pairs(params: Option<Seq<(Seq<char>, Seq<char>)>>) -> bool {
    match params {
        Some(ps) => ps.len() == 0,
        None => true,
    }
}

/// The query component of a built URL: nothing where the base has no query
/// and no pair was given; otherwise `?`, the base's query, and every given
/// pair in sorted order.
pub open spec fn query_part(
    q: Option<Seq<char>>,
    params: Option<Seq<(Seq<char>, Seq<char>)>>,
) -> Seq<char> {
    if q is None && no_query_pairs(params) {
        Seq::<char>::empty()
    } else {
        "?"@ + append_pairs(
            match q {
                Some(s) => s,
                None => Seq::<char>::empty(),
            },
            sorted_params(
                match params {
                    Some(s) => s,
                    None => Seq::<(Seq<char>, Seq<char>)>::empty(),
                },
            ),
        )
    }
}

/// The fragment component of a built URL: the base's fragment after `#`,
/// where the base has one.
pub open spec fn fragment_part(f: Option<Seq<char>>) -> Seq<char> {
    match f {
        Some(s) => "#"@ + s,
        None => Seq::<char>::empty(),
    }
}

/// The URL built from a base, a path and optional query parameters: the
/// base's authority; the base's path as parsed, with the non-empty
/// segments of `path` appended in order, each percent-encoded; the query
/// component; and the base's fragment.
pub open spec fn built_url_spec(
    m: UrlModel,
    path: Seq<char>,
    params: Option<Seq<(Seq<char>, Seq<char>)>>,
) -> Seq<char> {
    render_authority(m) + append_segments(
        m.path,
        split_drop_empty(path, '/'),
        special_scheme(m.scheme),
    ) + query_part(m.query, params) + fragment_part(m.fragment)
}

/// The views of optional query parameters.
pub open spec fn opt_params_view(
    params: Option<Vec<(String, String)>>,
) -> Option<Seq<(Seq<char>, Seq<char>)>> {
    match params {
        Some(ps) => Some(header_views(ps@)),
        None => None,
    }
}

/// Builds the request URL from a base URL, a path and optional query
/// parameters. The base's own path is kept as parsed; the request path is
/// split on `/` and its non-empty segments are appended, each
/// percent-encoded; parameters are appended as query pairs in sorted
/// order, percent-encoded. Fails with the invalid-URL kind exactly where
/// the base is not hierarchical.
#[verifier::rlimit(60)]
pub fn build_url(root: &UrlRoot, path: String, params: Option<Vec<(String, String)>>) -> (r:
    Result<String, ClassifiedError>)
    ensures
        root@.hierarchical ==> (r matches Ok(u) && u@ == built_url_spec(
            root@,
            path@,
            opt_params_view(params),
        )),
        !root@.hierarchical ==> (r matches Err(e) && e@.kind == ErrorKind::InvalidUrl
            && e@.message == "Cannot build url"@ && e@.details is None),
{
    if !root.hierarchical {
        return Err(ClassifiedError {
            kind: ErrorKind::InvalidUrl,
            message: "Cannot build url".to_owned(),
            details: None,
        });
    }
    let ghost pview = opt_params_view(params);

    // Authority.
    let mut out = root.scheme.clone();
    out.append(":");
    match &root.host {
        Some(h) => {
            out.append("//");
            if root.username.unicode_len() > 0 || root.password.is_some() {
                out.append(root.username.as_str());
                match &root.password {
                    Some(pw) => {
                        out.append(":");
                        out.append(pw.as_str());
                    },
                    None => {},
                }
                out.append("@");
            }
            out.append(h.as_str());
            match root.port {
                Some(p) => {
                    out.append(":");
                    let ds = u64_to_dec(p as u64);
                    out.append(ds.as_str());
                },
                None => {},
            }
        },
        None => {},
    }
    proof {
        assert(out@ =~= render_authority(root@));
    }

    // Path: the base's path as parsed, with the request's segments appended.
    let special = is_special_scheme(root.scheme.as_str());
    let segs = split_nonempty(path.as_str(), '/');
    let ghost segsv = strings_view(segs@);
    let mut p = root.path.clone();
    let n = segs.len();
    let mut i: usize = 0;
    proof {
        assert(segsv.take(0) =~= Seq::<Seq<char>>::empty());
        assert(append_segments(root@.path, segsv.take(0), special) == root@.path);
    }
    while i < n
        invariant
            i <= n,
            n == segs@.len(),
            segsv == strings_view(segs@),
            special == special_scheme(root@.scheme),
            p@ == append_segments(root@.path, segsv.take(i as int), special),
        decreases n - i,
    {
        let ghost before = p@;
        proof {
            assert(segsv[i as int] == segs@[i as int]@);
        }
        if str_eq(segs[i].as_str(), ".") || str_eq(segs[i].as_str(), "..") {
            proof {
                lemma_append_segments_snoc(root@.path, segsv.take(i as int), segsv[i as int], special);
                assert(segsv.take(i as int).push(segsv[i as int]) =~= segsv.take(i + 1));
            }
        } else {
            let esc = path_escape(segs[i].as_str(), special);
            if p.unicode_len() <= 1 {
                p = "/".to_owned();
                p.append(esc.as_str());
            } else {
                p.append("/");
                p.append(esc.as_str());
            }
            proof {
                assert(p@ =~= append_one_segment(before, segsv[i as int], special));
                lemma_append_segments_snoc(root@.path, segsv.take(i as int), segsv[i as int], special);
                assert(segsv.take(i as int).push(segsv[i as int]) =~= segsv.take(i + 1));
            }
        }
        i += 1;
    }
    proof {
        assert(segsv.take(n as int) =~= segsv);
    }
    out.append(p.as_str());

    // Query component.
    let had_query = root.query.is_some();
    let mut qs = match &root.query {
        Some(q) => q.clone(),
        None => String::new(),
    };
    let ghost qstart = qs@;
    let mut has_pairs = false;
    match params {
        Some(ps) => {
            has_pairs = ps.len() > 0;
            let ghost psv = header_views(ps@);
            let sorted = sort_pairs(ps);
            let ghost sv = header_views(sorted@);
            proof {
                lemma_pair_order_total();
                psv.lemma_sort_by_ensures(pair_order());
                lemma_sort_deterministic(sv, sorted_params(psv));
                assert(sv == sorted_params(psv));
            }
            let nq = sorted.len();
            let mut j: usize = 0;
            proof {
                assert(sv.take(0) =~= Seq::<(Seq<char>, Seq<char>)>::empty());
            }
            while j < nq
                invariant
                    j <= nq,
                    nq == sorted@.len(),
                    sv == header_views(sorted@),
                    qs@ == append_pairs(qstart, sv.take(j as int)),
                decreases nq - j,
            {
                let ghost before = qs@;
                if qs.unicode_len() > 0 {
                    qs.append("&");
                }
                let ek = form_escape(sorted[j].0.as_str());
                qs.append(ek.as_str());
                qs.append("=");
                let ev = form_escape(sorted[j].1.as_str());
                qs.append(ev.as_str());
                proof {
                    assert(sv[j as int] == (sorted@[j as int].0@, sorted@[j as int].1@));
                    assert(qs@ =~= append_one_pair(before, sv[j as int]));
                    lemma_append_pairs_snoc(qstart, sv.take(j as int), sv[j as int]);
                    assert(sv.take(j as int).push(sv[j as int]) =~= sv.take(j + 1));
                }
                j += 1;
            }
            proof {
                assert(sv.take(nq as int) =~= sv);
            }
        },
        None => {},
    }
    let ghost prefix = out@;
    proof {
        assert(prefix =~= render_authority(root@) + append_segments(
            root@.path,
            split_drop_empty(path@, '/'),
            special_scheme(root@.scheme),
        ));
    }
    if had_query || has_pairs {
        out.append("?");
        out.append(qs.as_str());
    }
    proof {
        let qp = query_part(root@.query, pview);
        let q0 = match root@.query {
            Some(s) => s,
            None => Seq::<char>::empty(),
        };
        assert(qstart == q0);
        match pview {
            Some(pp) => {
                assert(qs@ == append_pairs(q0, sorted_params(pp)));
                if pp.len() == 0 {
                    assert(pp =~= Seq::<(Seq<char>, Seq<char>)>::empty());
                    lemma_sorted_params_empty();
                    assert(qs@ == q0);
                    if had_query {
                        assert(qp == "?"@ + q0);
                        assert(out@ =~= prefix + qp);
                    } else {
                        assert(qp =~= Seq::<char>::empty());
                        assert(out@ =~= prefix + qp);
                    }
                } else {
                    assert(qp == "?"@ + qs@);
                    assert(out@ =~= prefix + qp);
                }
            },
            None => {
                lemma_sorted_params_empty();
                assert(append_pairs(q0, sorted_params(Seq::<(Seq<char>, Seq<char>)>::empty()))
                    == q0);
                if had_query {
                    assert(qp == "?"@ + q0);
                    assert(out@ =~= prefix + qp);
                } else {
                    assert(qp =~= Seq::<char>::empty());
                    assert(out@ =~= prefix + qp);
                }
            },
        }
    }
    // Fragment.
    match &root.fragment {
        Some(f) => {
            out.append("#");
            out.append(f.as_str());
        },
        None => {},
    }
    proof {
        assert(out@ =~= built_url_spec(root@, path@, pview));
    }
    Ok(out)
}

/// The text of a base URL on its own: for a hierarchical URL, the built
/// URL with nothing appended; for one that cannot be a base, its scheme,
/// path, query and fragment as parsed.
pub open spec fn root_text_spec(m: UrlModel) -> Seq<char> {
    if m.hierarchical {
        built_url_spec(m, Seq::<char>::empty(), None)
    } else {
        m.scheme + ":"@ + m.path + match m.query {
            Some(q) => "?"@ + q,
            None => Seq::<char>::empty(),
        } + fragment_part(m.fragment)
    }
}

/// Renders a base URL on its own.
pub fn root_text(root: &UrlRoot) -> (r: String)
    ensures
        r@ == root_text_spec(root@),
{
    if root.hierarchical {
        match build_url(root, String::new(), None) {
            Ok(u) => u,
            Err(_) => unreached(),
        }
    } else {
        let mut out = root.scheme.clone();
        out.append(":");
        out.append(root.path.as_str());
        match &root.query {
            Some(q) => {
                out.append("?");
                out.append(q.as_str());
            },
            None => {},
        }
        match &root.fragment {
            Some(f) => {
                out.append("#");
                out.append(f.as_str());
            },
            None => {},
        }
        proof {
            assert(out@ =~= root_text_spec(root@));
        }
        out
    }
}

/// Query ordering is deterministic: built with parameter collections that
/// hold the same pairs, in whatever order they were supplied, the URL is
/// the same.
pub proof fn lemma_build_url_deterministic(
    m: UrlModel,
    path: Seq<char>,
    p1: Seq<(Seq<char>, Seq<char>)>,
    p2: Seq<(Seq<char>, Seq<char>)>,
)
    requires
        p1.to_multiset() == p2.to_multiset(),
    ensures
        built_url_spec(m, path, Some(p1)) == built_url_spec(m, path, Some(p2)),
{
    broadcast use vstd::seq_lib::group_to_multiset_ensures;

    lemma_pair_order_total();
    p1.lemma_sort_by_ensures(pair_order());
    p2.lemma_sort_by_ensures(pair_order());
    lemma_sort_deterministic(sorted_params(p1), sorted_params(p2));
    assert(p1.len() == p1.to_multiset().len());
    assert(p2.len() == p2.to_multiset().len());
}

} // verus!
