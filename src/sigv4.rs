//! The signature engine: AWS Signature Version 4 over one request.
//!
//! The canonical request, string to sign and signing key are computed by
//! `aws_sigv4`; this module fixes what is handed to it and checks that what
//! comes back is the expected header set: a timestamp, an authorization of
//! the full form for the given key, scope and date, and the session token
//! carried and signed exactly when one was given.
use crate::dict::{clone_opt, lookup, lookup_value, opt_view, pairs_view, Dict};
use crate::text::{chars_of, find_from, first_index, has_prefix, matches_at};
use aws_credential_types::Credentials;
use aws_sigv4::http_request::{sign as sigv4_sign, SignableBody, SignableRequest, SigningSettings};
use aws_sigv4::sign::v4;
use aws_smithy_runtime_api::client::identity::Identity;
use std::time::{Duration, UNIX_EPOCH};
use vstd::prelude::*;

verus! {

/// Latest signing time the signer can format, 9999-12-31T23:59:59Z, in seconds since the epoch.
pub const MAX_SIGNING_SECS: u64 = 253402300799;
/// Scheme prefix of a signable URL.
pub const HTTPS_PREFIX: &'static str = "https://";
/// Name of the header that carries the signature.
pub const AUTHORIZATION_HEADER: &'static str = "authorization";
/// Name of the header that carries the signing time.
pub const DATE_HEADER: &'static str = "x-amz-date";
/// Name of the header that carries a session token.
pub const SECURITY_TOKEN_HEADER: &'static str = "x-amz-security-token";
/// How an authorization value begins, up to the access key.
pub const CREDENTIAL_PREFIX: &'static str = "AWS4-HMAC-SHA256 Credential=";
/// Separator inside the credential scope.
pub const SCOPE_SEPARATOR: &'static str = "/";
/// End of the credential scope and start of the signed-headers list.
pub const SCOPE_TERMINATOR: &'static str = "/aws4_request, SignedHeaders=";
/// What separates the signed-headers list from the signature.
pub const SIGNATURE_MARKER: &'static str = ", Signature=";
/// Number of hex digits of a signature.
pub const SIGNATURE_DIGITS: usize = 64;
/// Number of digits of the date in the credential scope.
pub const DATE_DIGITS: usize = 8;
/// Separator between the names in the signed-headers list.
pub const LIST_SEPARATOR: &'static str = ";";

/// Why a request could not be signed.
#[derive(Debug, Clone, Copy, PartialEq, Eq, Structural)]
pub enum SigningError {
    /// The URL is not an `https://` URL.
    UnsupportedUrl,
    /// The signing time lies beyond what the signer can format.
    TimeOutOfRange,
    /// The signer refused the request (unparseable URL, bad header value).
    Rejected,
    /// The signer's headers fail `signing_output_ok`: unknown or repeated names,
    /// a missing or malformed timestamp or authorization, or a session token
    /// that is not carried and signed exactly when one was given.
    IncompleteSignature,
}

/// The headers that AWS Signature Version 4, with its default settings and the
/// signature placed in headers, adds to a request; `None` where it refuses it.
pub uninterp spec fn sigv4_headers(
    method: Seq<char>,
    url: Seq<char>,
    body: Seq<char>,
    access_key: Seq<char>,
    secret_key: Seq<char>,
    security_token: Option<Seq<char>>,
    region: Seq<char>,
    service: Seq<char>,
    secs: u64,
) -> Option<Seq<(Seq<char>, Seq<char>)>>;

/// Whether `url` starts with `https://`.
pub open spec fn https_url(url: Seq<char>) -> bool {
    has_prefix(url, HTTPS_PREFIX@)
}

/// A decimal digit.
pub open spec fn is_digit(c: char) -> bool {
    '0' <= c && c <= '9'
}

/// A lowercase hexadecimal digit.
pub open spec fn is_lower_hex(c: char) -> bool {
    is_digit(c) || ('a' <= c && c <= 'f')
}

/// A timestamp of the form `YYYYMMDD'T'HHMMSS'Z'`.
pub open spec fn is_amz_date(dt: Seq<char>) -> bool {
    &&& dt.len() == 16
    &&& forall|i: int| 0 <= i < 8 ==> is_digit(#[trigger] dt[i])
    &&& dt[8] == 'T'
    &&& forall|i: int| 9 <= i < 15 ==> is_digit(#[trigger] dt[i])
    &&& dt[15] == 'Z'
}

/// The names the signer adds: the time, the authorization and the token.
pub open spec fn signer_header_name(n: Seq<char>) -> bool {
    n == DATE_HEADER@ || n == AUTHORIZATION_HEADER@ || n == SECURITY_TOKEN_HEADER@
}

/// No name occurs twice.
pub open spec fn distinct_names(h: Seq<(Seq<char>, Seq<char>)>) -> bool {
    forall|i: int, j: int| 0 <= i < j < h.len() ==> h[i].0 != h[j].0
}

/// An authorization value up to its signed-headers list:
/// `AWS4-HMAC-SHA256 Credential=<key>/<date>/<region>/<service>/aws4_request, SignedHeaders=`.
pub open spec fn scope_prefix(access_key: Seq<char>, date: Seq<char>, region: Seq<char>, service: Seq<char>) -> Seq<char> {
    CREDENTIAL_PREFIX@ + access_key + SCOPE_SEPARATOR@ + date + SCOPE_SEPARATOR@ + region + SCOPE_SEPARATOR@ + service
        + SCOPE_TERMINATOR@
}

/// Length of `, Signature=` and the signature.
pub open spec fn tail_len() -> int {
    SIGNATURE_MARKER@.len() + SIGNATURE_DIGITS
}

/// `auth` is `p`, then a signed-headers list without `,`, then
/// `, Signature=` and 64 lowercase hex digits.
pub open spec fn auth_well_formed(auth: Seq<char>, p: Seq<char>) -> bool {
    &&& has_prefix(auth, p)
    &&& p.len() + tail_len() <= auth.len()
    &&& auth.subrange(auth.len() - tail_len(), auth.len() - SIGNATURE_DIGITS) == SIGNATURE_MARKER@
    &&& forall|i: int| p.len() <= i < auth.len() - tail_len() ==> #[trigger] auth[i] != ','
    &&& forall|i: int| auth.len() - SIGNATURE_DIGITS <= i < auth.len() ==> is_lower_hex(#[trigger] auth[i])
}

/// The signed-headers list of a well-formed authorization value.
pub open spec fn auth_signed_list(auth: Seq<char>, p: Seq<char>) -> Seq<char> {
    auth.subrange(p.len() as int, auth.len() - tail_len())
}

/// Whether `name` is one of the `;`-separated entries of `list`.
pub open spec fn lists_name(list: Seq<char>, name: Seq<char>) -> bool {
    first_index(LIST_SEPARATOR@ + list + LIST_SEPARATOR@, LIST_SEPARATOR@ + name + LIST_SEPARATOR@, 0) is Some
}

/// The prefix that the authorization of `h` must have, its date taken from `x-amz-date`.
pub open spec fn expected_prefix(h: Seq<(Seq<char>, Seq<char>)>, access_key: Seq<char>, region: Seq<char>, service: Seq<char>) -> Seq<char> {
    scope_prefix(access_key, lookup(h, DATE_HEADER@).unwrap().subrange(0, DATE_DIGITS as int), region, service)
}

/// `h` has a timestamp header and an authorization header of the full form,
/// for this access key, region and service and the timestamp's date.
pub open spec fn authorization_well_formed(h: Seq<(Seq<char>, Seq<char>)>, access_key: Seq<char>, region: Seq<char>, service: Seq<char>) -> bool {
    &&& lookup(h, DATE_HEADER@) matches Some(dt) && is_amz_date(dt)
    &&& lookup(h, AUTHORIZATION_HEADER@) matches Some(auth)
        && auth_well_formed(auth, expected_prefix(h, access_key, region, service))
}

/// Whether the authorization of `h` lists `name` among its signed headers.
pub open spec fn signs_header(h: Seq<(Seq<char>, Seq<char>)>, access_key: Seq<char>, region: Seq<char>, service: Seq<char>, name: Seq<char>) -> bool {
    lists_name(auth_signed_list(lookup(h, AUTHORIZATION_HEADER@).unwrap(), expected_prefix(h, access_key, region, service)), name)
}

/// What the signer's headers must satisfy: only the signer's names, each
/// once; a timestamp and a full authorization; with a session token, the
/// token header carrying it and listed as signed; without one, neither.
pub open spec fn signing_output_ok(
    h: Seq<(Seq<char>, Seq<char>)>,
    access_key: Seq<char>,
    security_token: Option<Seq<char>>,
    region: Seq<char>,
    service: Seq<char>,
) -> bool {
    &&& signer_names_only(h)
    &&& authorization_well_formed(h, access_key, region, service)
    &&& match security_token {
        Some(t) => lookup(h, SECURITY_TOKEN_HEADER@) == Some(t) && signs_header(h, access_key, region, service, SECURITY_TOKEN_HEADER@),
        None => lookup(h, SECURITY_TOKEN_HEADER@) is None && !signs_header(h, access_key, region, service, SECURITY_TOKEN_HEADER@),
    }
}

/// The outcome of signing.
pub open spec fn sign_spec(
    method: Seq<char>,
    url: Seq<char>,
    body: Seq<char>,
    access_key: Seq<char>,
    secret_key: Seq<char>,
    security_token: Option<Seq<char>>,
    region: Seq<char>,
    service: Seq<char>,
    secs: u64,
) -> Result<Seq<(Seq<char>, Seq<char>)>, SigningError> {
    if !https_url(url) {
        Err(SigningError::UnsupportedUrl)
    } else if secs > MAX_SIGNING_SECS {
        Err(SigningError::TimeOutOfRange)
    } else {
        match sigv4_headers(method, url, body, access_key, secret_key, security_token, region, service, secs) {
            None => Err(SigningError::Rejected),
            Some(h) => if signing_output_ok(h, access_key, security_token, region, service) {
                Ok(h)
            } else {
                Err(SigningError::IncompleteSignature)
            },
        }
    }
}

/// The model of a header list or a signing error.
pub open spec fn signed_view(r: Result<Dict, SigningError>) -> Result<Seq<(Seq<char>, Seq<char>)>, SigningError> {
    match r {
        Ok(h) => Ok(pairs_view(h@)),
        Err(e) => Err(e),
    }
}

/// Relies on `aws_sigv4::http_request::sign` with default `SigningSettings`
/// (signature in headers), on `Credentials::new` and on its conversion into an
/// `Identity`: the added headers depend on these arguments alone. A URL with a
/// scheme always has an authority (else the signer panics), and the time
/// library behind the signer panics past the year 9999.
#[verifier::external_body]
fn sigv4_sign_headers(
    method: &str,
    url: &str,
    body: &str,
    access_key: &str,
    secret_key: &str,
    security_token: Option<String>,
    region: &str,
    service: &str,
    secs: u64,
) -> (r: Option<Dict>)
    requires
        https_url(url@),
        secs <= MAX_SIGNING_SECS,
    ensures
        match r {
            Some(h) => sigv4_headers(method@, url@, body@, access_key@, secret_key@, opt_view(security_token), region@, service@, secs)
                == Some(pairs_view(h@)),
            None => sigv4_headers(method@, url@, body@, access_key@, secret_key@, opt_view(security_token), region@, service@, secs) is None,
        },
{
    let id: Identity = Credentials::new(access_key, secret_key, security_token, None, "hardcoded-credentials").into();
    let time = UNIX_EPOCH.checked_add(Duration::from_secs(secs))?;
    let params = v4::SigningParams::builder().identity(&id).region(region).name(service)
        .time(time).settings(SigningSettings::default()).build().ok()?;
    let request = SignableRequest::new(method, url, std::iter::empty(), SignableBody::Bytes(body.as_bytes())).ok()?;
    let (instructions, _) = sigv4_sign(request, &params.into()).ok()?.into_parts();
    Some(instructions.headers().map(|(k, v)| (k.to_string(), v.to_string())).collect())
}

/// Whether `url` starts with `https://`.
pub fn is_https_url(url: &str) -> (r: bool)
    ensures
        r == https_url(url@),
{
    let u = chars_of(url);
    let p = chars_of(HTTPS_PREFIX);
    matches_at(&u, &p, 0)
}

/// Whether `name` is one of the `;`-separated entries of `list`.
pub fn list_contains(list: &Vec<char>, name: &str) -> (r: bool)
    ensures
        r == lists_name(list@, name@),
{
    proof {
        reveal_strlit(";");
    }
    let mut bracketed: Vec<char> = Vec::new();
    bracketed.push(';');
    let mut i: usize = 0;
    while i < list.len()
        invariant
            0 <= i <= list@.len(),
            bracketed@ == LIST_SEPARATOR@ + list@.subrange(0, i as int),
        decreases list.len() - i,
    {
        bracketed.push(list[i]);
        proof {
            assert(bracketed@ =~= LIST_SEPARATOR@ + list@.subrange(0, i as int + 1));
        }
        i += 1;
    }
    bracketed.push(';');
    let n = chars_of(name);
    let mut entry: Vec<char> = Vec::new();
    entry.push(';');
    let mut j: usize = 0;
    while j < n.len()
        invariant
            0 <= j <= n@.len(),
            entry@ == LIST_SEPARATOR@ + n@.subrange(0, j as int),
        decreases n.len() - j,
    {
        entry.push(n[j]);
        proof {
            assert(entry@ =~= LIST_SEPARATOR@ + n@.subrange(0, j as int + 1));
        }
        j += 1;
    }
    entry.push(';');
    proof {
        assert(list@.subrange(0, list@.len() as int) =~= list@);
        assert(n@.subrange(0, n@.len() as int) =~= n@);
        assert(bracketed@ =~= LIST_SEPARATOR@ + list@ + LIST_SEPARATOR@);
        assert(entry@ =~= LIST_SEPARATOR@ + name@ + LIST_SEPARATOR@);
    }
    find_from(&bracketed, &entry, 0).is_some()
}

/// Whether `c` is a decimal digit.
pub fn digit(c: char) -> (r: bool)
    ensures
        r == is_digit(c),
{
    '0' <= c && c <= '9'
}

/// Whether `dt` has the form `YYYYMMDD'T'HHMMSS'Z'`.
pub fn amz_date_form(dt: &Vec<char>) -> (r: bool)
    ensures
        r == is_amz_date(dt@),
{
    if dt.len() != 16 || dt[8] != 'T' || dt[15] != 'Z' {
        return false;
    }
    let mut i: usize = 0;
    while i < 15
        invariant
            dt@.len() == 16,
            0 <= i <= 15,
            forall|k: int| 0 <= k < i && k != 8 ==> is_digit(#[trigger] dt@[k]),
        decreases 15 - i,
    {
        if i != 8 && !digit(dt[i]) {
            return false;
        }
        i += 1;
    }
    true
}

/// Whether `h` holds only the signer's names, each once.
pub open spec fn signer_names_only(h: Seq<(Seq<char>, Seq<char>)>) -> bool {
    &&& forall|i: int| 0 <= i < h.len() ==> signer_header_name(#[trigger] h[i].0)
    &&& distinct_names(h)
}

/// Whether `raw` holds only the signer's names, each once.
pub fn names_ok(raw: &Dict) -> (r: bool)
    ensures
        r == signer_names_only(pairs_view(raw@)),
{
    let date = String::from_str(DATE_HEADER);
    let auth = String::from_str(AUTHORIZATION_HEADER);
    let tok = String::from_str(SECURITY_TOKEN_HEADER);
    let ghost h = pairs_view(raw@);
    let mut i: usize = 0;
    while i < raw.len()
        invariant
            h == pairs_view(raw@),
            date@ == DATE_HEADER@,
            auth@ == AUTHORIZATION_HEADER@,
            tok@ == SECURITY_TOKEN_HEADER@,
            0 <= i <= raw@.len(),
            forall|a: int| 0 <= a < i ==> signer_header_name(#[trigger] h[a].0),
            forall|a: int, b: int| 0 <= a < b < i ==> h[a].0 != h[b].0,
        decreases raw.len() - i,
    {
        let n = &raw[i].0;
        assert(h[i as int].0 == n@);
        if !(*n == date || *n == auth || *n == tok) {
            return false;
        }
        let mut j: usize = 0;
        while j < i
            invariant
                h == pairs_view(raw@),
                0 <= j <= i < raw@.len(),
                h[i as int].0 == n@,
                forall|a: int| 0 <= a < j ==> h[a].0 != h[i as int].0,
            decreases i - j,
        {
            assert(h[j as int].0 == raw@[j as int].0@);
            if raw[j].0 == *n {
                return false;
            }
            j += 1;
        }
        i += 1;
    }
    true
}

/// The signed-headers list of `auth` when it is well formed after prefix `p`.
pub fn auth_list(auth: &Vec<char>, p: &Vec<char>) -> (r: Option<Vec<char>>)
    ensures
        match r {
            Some(l) => auth_well_formed(auth@, p@) && l@ == auth_signed_list(auth@, p@),
            None => !auth_well_formed(auth@, p@),
        },
{
    proof {
        reveal_strlit(", Signature=");
    }
    let alen: usize = auth.len();
    let plen: usize = p.len();
    if !matches_at(auth, p, 0) {
        return None;
    }
    let marker = chars_of(SIGNATURE_MARKER);
    let tail: usize = marker.len() + SIGNATURE_DIGITS;
    if alen - plen < tail {
        return None;
    }
    let ms: usize = alen - tail;
    if !matches_at(auth, &marker, ms) {
        return None;
    }
    assert(has_prefix(auth@, p@));
    assert(auth@.subrange(alen - tail_len(), alen - SIGNATURE_DIGITS) == SIGNATURE_MARKER@);
    let mut list: Vec<char> = Vec::new();
    let mut i: usize = plen;
    while i < ms
        invariant
            alen == auth@.len(),
            plen == p@.len(),
            plen <= i <= ms,
            ms == alen - tail,
            tail == tail_len(),
            list@ == auth@.subrange(plen as int, i as int),
            forall|k: int| plen <= k < i ==> #[trigger] auth@[k] != ',',
        decreases ms - i,
    {
        if auth[i] == ',' {
            assert(auth@[i as int] == ',');
            return None;
        }
        list.push(auth[i]);
        proof {
            assert(list@ =~= auth@.subrange(plen as int, i as int + 1));
        }
        i += 1;
    }
    let mut k: usize = alen - SIGNATURE_DIGITS;
    while k < alen
        invariant
            alen == auth@.len(),
            plen == p@.len(),
            ms == alen - tail,
            tail == tail_len(),
            plen + tail_len() <= alen,
            has_prefix(auth@, p@),
            auth@.subrange(alen - tail_len(), alen - SIGNATURE_DIGITS) == SIGNATURE_MARKER@,
            list@ == auth@.subrange(plen as int, ms as int),
            forall|j: int| plen <= j < ms ==> #[trigger] auth@[j] != ',',
            alen - SIGNATURE_DIGITS <= k <= alen,
            forall|m: int| alen - SIGNATURE_DIGITS <= m < k ==> is_lower_hex(#[trigger] auth@[m]),
        decreases alen - k,
    {
        let c = auth[k];
        if !(digit(c) || ('a' <= c && c <= 'f')) {
            assert(!is_lower_hex(auth@[k as int]));
            return None;
        }
        k += 1;
    }
    Some(list)
}

/// Checks the headers that the signer returned for this access key, token,
/// region and service (see `signing_output_ok`), handing them back unchanged
/// when they pass.
pub fn check_signing_output(
    raw: Dict,
    access_key: &str,
    security_token: &Option<String>,
    region: &str,
    service: &str,
) -> (r: Result<Dict, SigningError>)
    ensures
        signing_output_ok(pairs_view(raw@), access_key@, opt_view(*security_token), region@, service@)
            ==> r == Ok::<Dict, SigningError>(raw),
        !signing_output_ok(pairs_view(raw@), access_key@, opt_view(*security_token), region@, service@)
            ==> r == Err::<Dict, SigningError>(SigningError::IncompleteSignature),
{
    if !names_ok(&raw) {
        return Err(SigningError::IncompleteSignature);
    }
    let dt = match lookup_value(&raw, &String::from_str(DATE_HEADER)) {
        Some(d) => d,
        None => return Err(SigningError::IncompleteSignature),
    };
    if !amz_date_form(&chars_of(dt.as_str())) {
        return Err(SigningError::IncompleteSignature);
    }
    let auth = match lookup_value(&raw, &String::from_str(AUTHORIZATION_HEADER)) {
        Some(a) => a,
        None => return Err(SigningError::IncompleteSignature),
    };
    let mut p = String::from_str(CREDENTIAL_PREFIX);
    p.append(access_key);
    p.append(SCOPE_SEPARATOR);
    p.append(dt.as_str().substring_char(0, DATE_DIGITS));
    p.append(SCOPE_SEPARATOR);
    p.append(region);
    p.append(SCOPE_SEPARATOR);
    p.append(service);
    p.append(SCOPE_TERMINATOR);
    assert(p@ == expected_prefix(pairs_view(raw@), access_key@, region@, service@));
    let list = match auth_list(&chars_of(auth.as_str()), &chars_of(p.as_str())) {
        Some(l) => l,
        None => return Err(SigningError::IncompleteSignature),
    };
    let token_signed = list_contains(&list, SECURITY_TOKEN_HEADER);
    let token_header = lookup_value(&raw, &String::from_str(SECURITY_TOKEN_HEADER));
    let ok = match security_token {
        None => token_header.is_none() && !token_signed,
        Some(t) => match token_header {
            Some(v) => v == *t && token_signed,
            None => false,
        },
    };
    if ok {
        Ok(raw)
    } else {
        Err(SigningError::IncompleteSignature)
    }
}

/// Signs one request with AWS Signature Version 4 at `now_secs` (seconds since
/// the Unix epoch) and returns the headers to add: the timestamp, the
/// authorization and, with a session token, the token.
pub fn sign(
    method: &str,
    url: &str,
    body: &str,
    access_key: &str,
    secret_key: &str,
    security_token: &Option<String>,
    region: &str,
    service_name: &str,
    now_secs: u64,
) -> (r: Result<Dict, SigningError>)
    ensures
        signed_view(r) == sign_spec(method@, url@, body@, access_key@, secret_key@, opt_view(*security_token), region@, service_name@, now_secs),
{
    if !is_https_url(url) {
        return Err(SigningError::UnsupportedUrl);
    }
    if now_secs > MAX_SIGNING_SECS {
        return Err(SigningError::TimeOutOfRange);
    }
    let token = clone_opt(security_token);
    match sigv4_sign_headers(method, url, body, access_key, secret_key, token, region, service_name, now_secs) {
        None => Err(SigningError::Rejected),
        Some(raw) => check_signing_output(raw, access_key, security_token, region, service_name),
    }
}

} // verus!
