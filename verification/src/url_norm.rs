//! Normalization of the Home Assistant WebSocket URL.
//!
//! The input is trimmed and parsed; `http`/`https` schemes are rewritten to
//! `ws`/`wss`; inputs without a scheme (or whose "scheme" is really a host
//! name, as in `host:port`) are re-parsed with a `ws://` prefix; every other
//! scheme is rejected.  Parsing proper is done by the `url` crate behind a
//! trusted wrapper; everything around it is verified.

use vstd::prelude::*;
use vstd::string::{StrSliceExecFns, StringExecFns};

use crate::errors::ServiceError;
use crate::text::{is_space_char, lemma_trim_noop, trim_spec, trim_str};

verus! {

/// What `url::Url::parse` returns on a given input: `Ok` with the
/// serialization of the parsed URL, or `Err(b)` where `b` says whether the
/// failure was `RelativeUrlWithoutBase` (the input has no scheme).
pub uninterp spec fn url_parse(s: Seq<char>) -> Result<Seq<char>, bool>;

/// How a parse attempt failed, as far as the normalizer cares.
pub enum UrlParseIssue {
    /// `RelativeUrlWithoutBase`: the input carries no scheme.
    NoBase,
    /// Any other parse error.
    Rejected,
}

/// A URL serialization neither starts nor ends with whitespace: it starts
/// with the scheme's first character (ASCII alphabetic) and all whitespace in
/// later components is percent-encoded.
pub open spec fn serialization_edges_clean(n: Seq<char>) -> bool {
    n.len() > 0 && !is_space_char(n[0]) && !is_space_char(n[n.len() - 1])
}

/// Relies on `url::Url::parse`.  On success the result is the parsed URL's
/// serialization (`Url::as_str`).  The `url` crate maintains (and its
/// `check_invariants` asserts) that a serialization re-parses to the very
/// same serialization, that it starts with the ASCII-alphabetic scheme, and
/// that no literal whitespace survives in it; the last two give
/// `serialization_edges_clean`.
#[verifier::external_body]
fn parse_url_str(s: &str) -> (r: Result<String, UrlParseIssue>)
    ensures
        (match r {
            Ok(n) => url_parse(s@) == Ok::<Seq<char>, bool>(n@)
                && url_parse(n@) == Ok::<Seq<char>, bool>(n@)
                && serialization_edges_clean(n@),
            Err(k) => url_parse(s@) == Err::<Seq<char>, bool>(k is NoBase),
        }),
{
    match url::Url::parse(s) {
        Ok(u) => Ok(u.as_str().to_string()),
        Err(url::ParseError::RelativeUrlWithoutBase) => Err(UrlParseIssue::NoBase),
        Err(_) => Err(UrlParseIssue::Rejected),
    }
}

/// Length of the scheme part: the characters before the first `:`.
pub open spec fn scheme_len(s: Seq<char>) -> nat
    decreases s.len(),
{
    if s.len() == 0 {
        0
    } else if s[0] == ':' {
        0
    } else {
        1 + scheme_len(s.drop_first())
    }
}

/// `scheme_len(s)` is the first index holding `:`, or the length when there
/// is none.
pub proof fn lemma_scheme_len_is(s: Seq<char>, k: int)
    requires
        0 <= k <= s.len(),
        forall|i: int| 0 <= i < k ==> s[i] != ':',
        k < s.len() ==> s[k] == ':',
    ensures
        scheme_len(s) == k,
    decreases k,
{
    if k == 0 {
    } else {
        assert(s[0] != ':');
        let t = s.drop_first();
        assert(forall|i: int| 0 <= i < k - 1 ==> #[trigger] t[i] == s[i + 1]);
        lemma_scheme_len_is(t, k - 1);
    }
}

pub open spec fn scheme_of(s: Seq<char>) -> Seq<char> {
    s.take(scheme_len(s) as int)
}

/// The serialization carries an authority part: `scheme://...`.
pub open spec fn authority_form(s: Seq<char>) -> bool {
    scheme_len(s) + 3 <= s.len() && s[scheme_len(s) as int] == ':'
        && s[scheme_len(s) as int + 1] == '/' && s[scheme_len(s) as int + 2] == '/'
}

pub open spec fn is_scheme_ws(sch: Seq<char>) -> bool {
    sch.len() == 2 && sch[0] == 'w' && sch[1] == 's'
}

pub open spec fn is_scheme_wss(sch: Seq<char>) -> bool {
    sch.len() == 3 && sch[0] == 'w' && sch[1] == 's' && sch[2] == 's'
}

pub open spec fn is_scheme_http(sch: Seq<char>) -> bool {
    sch.len() == 4 && sch[0] == 'h' && sch[1] == 't' && sch[2] == 't' && sch[3] == 'p'
}

pub open spec fn is_scheme_https(sch: Seq<char>) -> bool {
    sch.len() == 5 && sch[0] == 'h' && sch[1] == 't' && sch[2] == 't' && sch[3] == 'p'
        && sch[4] == 's'
}

/// A serialization the bridge accepts as-is: `ws` or `wss` with an authority.
pub open spec fn accepted_form(n: Seq<char>) -> bool {
    authority_form(n) && (is_scheme_ws(scheme_of(n)) || is_scheme_wss(scheme_of(n)))
}

/// The input prefixed with `ws://`, the re-parse used for scheme-less input.
pub open spec fn ws_prefixed(t: Seq<char>) -> Seq<char> {
    seq!['w', 's', ':', '/', '/'] + t
}

/// `http` rewritten to `ws`, `https` to `wss`, in the serialization.
pub open spec fn rewrite_target(n: Seq<char>) -> Seq<char> {
    if is_scheme_http(scheme_of(n)) {
        seq!['w', 's'] + n.skip(4)
    } else {
        seq!['w', 's', 's'] + n.skip(5)
    }
}

/// Parse `m` and accept the result only in `ws`/`wss` authority form.
pub open spec fn reparse_accepted(m: Seq<char>) -> Result<Seq<char>, ()> {
    match url_parse(m) {
        Ok(n) => if accepted_form(n) {
            Ok(n)
        } else {
            Err(())
        },
        Err(_) => Err(()),
    }
}

/// The full normalization of an already-trimmed input.
pub open spec fn normalize_trimmed(t: Seq<char>) -> Result<Seq<char>, ()> {
    match url_parse(t) {
        Ok(n) => {
            if !authority_form(n) {
                reparse_accepted(ws_prefixed(t))
            } else if accepted_form(n) {
                Ok(n)
            } else if is_scheme_http(scheme_of(n)) || is_scheme_https(scheme_of(n)) {
                reparse_accepted(rewrite_target(n))
            } else {
                Err(())
            }
        },
        Err(no_base) => if no_base {
            reparse_accepted(ws_prefixed(t))
        } else {
            Err(())
        },
    }
}

/// First index of `:` in `s`, or the length when there is none.
fn scheme_split(s: &str) -> (r: usize)
    ensures
        r == scheme_len(s@),
        r <= s@.len(),
{
    let n = s.unicode_len();
    let mut i: usize = 0;
    while i < n && s.get_char(i) != ':'
        invariant
            i <= n,
            n == s@.len(),
            forall|j: int| 0 <= j < i ==> s@[j] != ':',
        decreases n - i,
    {
        i = i + 1;
    }
    proof {
        lemma_scheme_len_is(s@, i as int);
    }
    i
}

/// Whether `s` is of the shape `scheme://...`.
fn check_authority(s: &str) -> (r: bool)
    ensures
        r == authority_form(s@),
{
    let n = s.unicode_len();
    let i = scheme_split(s);
    if i < n && n - i >= 3 {
        s.get_char(i) == ':' && s.get_char(i + 1) == '/' && s.get_char(i + 2) == '/'
    } else {
        false
    }
}

/// The scheme of a serialization, distinguished as far as the bridge cares.
enum SchemeKind {
    SchemeWs,
    SchemeWss,
    SchemeHttp,
    SchemeHttps,
    SchemeOther,
}

fn scheme_kind(s: &str) -> (r: SchemeKind)
    ensures
        r is SchemeWs <==> is_scheme_ws(scheme_of(s@)),
        r is SchemeWss <==> is_scheme_wss(scheme_of(s@)),
        r is SchemeHttp <==> is_scheme_http(scheme_of(s@)),
        r is SchemeHttps <==> is_scheme_https(scheme_of(s@)),
{
    let i = scheme_split(s);
    proof {
        assert(scheme_of(s@).len() == i);
        assert(forall|j: int| 0 <= j < i ==> scheme_of(s@)[j] == s@[j]) by {
            assert(forall|j: int| 0 <= j < i ==> s@.take(i as int)[j] == s@[j]);
        }
    }
    if i == 2 && s.get_char(0) == 'w' && s.get_char(1) == 's' {
        SchemeKind::SchemeWs
    } else if i == 3 && s.get_char(0) == 'w' && s.get_char(1) == 's' && s.get_char(2) == 's' {
        SchemeKind::SchemeWss
    } else if i == 4 && s.get_char(0) == 'h' && s.get_char(1) == 't' && s.get_char(2) == 't'
        && s.get_char(3) == 'p' {
        SchemeKind::SchemeHttp
    } else if i == 5 && s.get_char(0) == 'h' && s.get_char(1) == 't' && s.get_char(2) == 't'
        && s.get_char(3) == 'p' && s.get_char(4) == 's' {
        SchemeKind::SchemeHttps
    } else {
        SchemeKind::SchemeOther
    }
}

/// Parse `address` with a `ws://` prefix, as host-only and host:port
/// inputs need.  Any parse failure is a `BadRequest`.
pub fn parse_with_ws_scheme(address: &str) -> (r: Result<String, ServiceError>)
    ensures
        (match r {
            Ok(y) => url_parse(ws_prefixed(address@)) == Ok::<Seq<char>, bool>(y@)
                && url_parse(y@) == Ok::<Seq<char>, bool>(y@)
                && serialization_edges_clean(y@),
            Err(e) => url_parse(ws_prefixed(address@)) is Err
                && e matches ServiceError::BadRequest(_),
        }),
{
    let mut p = String::from_str("ws://");
    p.append(address);
    proof {
        reveal_strlit("ws://");
        assert("ws://"@ =~= seq!['w', 's', ':', '/', '/']);
        assert(p@ == ws_prefixed(address@));
    }
    match parse_url_str(p.as_str()) {
        Ok(n) => Ok(n),
        Err(_) => Err(ServiceError::BadRequest(String::from_str("Invalid WebSocket URL"))),
    }
}

/// Accept a parse result only in `ws`/`wss` authority form.
fn accept_parsed(y: String) -> (r: Result<String, ServiceError>)
    requires
        url_parse(y@) == Ok::<Seq<char>, bool>(y@),
        serialization_edges_clean(y@),
    ensures
        (match r {
            Ok(z) => z@ == y@ && accepted_form(y@) && trim_spec(z@) == z@
                && normalize_trimmed(z@) == Ok::<Seq<char>, ()>(z@),
            Err(e) => !accepted_form(y@) && e matches ServiceError::BadRequest(_),
        }),
{
    let ok = match scheme_kind(y.as_str()) {
        SchemeKind::SchemeWs => true,
        SchemeKind::SchemeWss => true,
        _ => false,
    };
    if ok && check_authority(y.as_str()) {
        proof {
            lemma_trim_noop(y@);
        }
        Ok(y)
    } else {
        Err(ServiceError::BadRequest(String::from_str(
            "Invalid scheme, allowed: ws, wss, http, https",
        )))
    }
}

/// Validate and normalize a Home Assistant WebSocket URL.
///
/// Accepted schemes are `ws`, `wss`, `http` and `https`; the latter two are
/// rewritten to `ws`/`wss`.  Scheme-less input is re-parsed as
/// `ws://<input>`.  A missing value, an unparsable address and any other
/// scheme yield `BadRequest`.  The result is a parsed serialization, so
/// normalization is idempotent (the last `ensures` clause).
pub fn validate_url(addr: Option<&str>) -> (r: Result<String, ServiceError>)
    ensures
        addr is None ==> (r matches Err(e) && e matches ServiceError::BadRequest(_)),
        addr matches Some(a) ==> (match r {
            Ok(y) => normalize_trimmed(trim_spec(a@)) == Ok::<Seq<char>, ()>(y@),
            Err(e) => normalize_trimmed(trim_spec(a@)) is Err
                && e matches ServiceError::BadRequest(_),
        }),
        r matches Ok(y) ==> trim_spec(y@) == y@
            && normalize_trimmed(y@) == Ok::<Seq<char>, ()>(y@),
{
    let a = match addr {
        None => {
            return Err(ServiceError::BadRequest(String::from_str("Missing field: url")));
        },
        Some(a) => a,
    };
    let t = trim_str(a);
    match parse_url_str(t.as_str()) {
        Ok(n) => {
            if !check_authority(n.as_str()) {
                let p = parse_with_ws_scheme(t.as_str())?;
                accept_parsed(p)
            } else {
                match scheme_kind(n.as_str()) {
                    SchemeKind::SchemeWs => {
                        proof {
                            lemma_trim_noop(n@);
                        }
                        Ok(n)
                    },
                    SchemeKind::SchemeWss => {
                        proof {
                            lemma_trim_noop(n@);
                        }
                        Ok(n)
                    },
                    SchemeKind::SchemeHttp => {
                        let hi = n.as_str().unicode_len();
                        let mut m = String::from_str("ws");
                        m.append(n.as_str().substring_char(4, hi));
                        proof {
                            reveal_strlit("ws");
                            assert("ws"@ =~= seq!['w', 's']);
                            assert(m@ == rewrite_target(n@));
                        }
                        match parse_url_str(m.as_str()) {
                            Ok(n2) => accept_parsed(n2),
                            Err(_) => Err(ServiceError::BadRequest(String::from_str(
                                "Invalid WebSocket URL",
                            ))),
                        }
                    },
                    SchemeKind::SchemeHttps => {
                        let hi = n.as_str().unicode_len();
                        let mut m = String::from_str("wss");
                        m.append(n.as_str().substring_char(5, hi));
                        proof {
                            reveal_strlit("wss");
                            assert("wss"@ =~= seq!['w', 's', 's']);
                            assert(m@ == rewrite_target(n@));
                        }
                        match parse_url_str(m.as_str()) {
                            Ok(n2) => accept_parsed(n2),
                            Err(_) => Err(ServiceError::BadRequest(String::from_str(
                                "Invalid WebSocket URL",
                            ))),
                        }
                    },
                    SchemeKind::SchemeOther => Err(ServiceError::BadRequest(String::from_str(
                        "Invalid scheme, allowed: ws, wss, http, https",
                    ))),
                }
            }
        },
        Err(UrlParseIssue::NoBase) => {
            let p = parse_with_ws_scheme(t.as_str())?;
            accept_parsed(p)
        },
        Err(UrlParseIssue::Rejected) => Err(ServiceError::BadRequest(String::from_str(
            "Invalid WebSocket URL",
        ))),
    }
}

} // verus!
