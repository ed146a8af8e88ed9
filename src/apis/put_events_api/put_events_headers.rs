//! Endpoint and signed headers of the publish operation.
use crate::apis::utils::settings::Settings;
use crate::dict::{clone_opt, opt_view, Dict};
use crate::sigv4::{https_url, sign, sign_spec, signed_view, SigningError};
use vstd::prelude::*;

verus! {

/// Method of the publish operation.
pub const POST_METHOD: &'static str = "POST";
/// Service name in the credential scope.
pub const SERVICE_NAME: &'static str = "event-bridge";
/// Scheme and service subdomain of the endpoint.
pub const ENDPOINT_PREFIX: &'static str = "https://events.";
/// Service subdomain of the host.
pub const HOST_PREFIX: &'static str = "events.";
/// Separator between region and domain.
pub const DOT: &'static str = ".";
/// Name of the host header.
pub const HOST_HEADER: &'static str = "host";
/// Name of the content type header.
pub const CONTENT_TYPE_HEADER: &'static str = "content-type";
/// Content type of the body.
pub const CONTENT_TYPE: &'static str = "application/x-amz-json-1.1";

/// What the headers builder holds: endpoint and credentials.
pub struct HeadersModel {
    pub domain: Seq<char>,
    pub region: Seq<char>,
    pub access_key: Seq<char>,
    pub secret_key: Seq<char>,
    pub security_token: Option<Seq<char>>,
}

/// `events.<region>.<domain>`.
pub open spec fn host_name(region: Seq<char>, domain: Seq<char>) -> Seq<char> {
    HOST_PREFIX@ + region + DOT@ + domain
}

/// `https://events.<region>.<domain>`.
pub open spec fn endpoint_url(region: Seq<char>, domain: Seq<char>) -> Seq<char> {
    ENDPOINT_PREFIX@ + region + DOT@ + domain
}

/// The headers of a publish request with `body`, signed at `now_secs`: what the
/// signer adds, then the host and the content type.
pub open spec fn headers_spec(h: HeadersModel, body: Seq<char>, now_secs: u64) -> Result<Seq<(Seq<char>, Seq<char>)>, SigningError> {
    match sign_spec(
        POST_METHOD@,
        endpoint_url(h.region, h.domain),
        body,
        h.access_key,
        h.secret_key,
        h.security_token,
        h.region,
        SERVICE_NAME@,
        now_secs,
    ) {
        Ok(signed) => Ok(signed + seq![(HOST_HEADER@, host_name(h.region, h.domain)), (CONTENT_TYPE_HEADER@, CONTENT_TYPE@)]),
        Err(e) => Err(e),
    }
}

/// Endpoint and credentials of the publish operation.
pub struct PutEventsHeaders {
    domain: String,
    region: String,
    access_key: String,
    secret_key: String,
    security_token: Option<String>,
}

impl View for PutEventsHeaders {
    type V = HeadersModel;

    closed spec fn view(&self) -> HeadersModel {
        HeadersModel {
            domain: self.domain@,
            region: self.region@,
            access_key: self.access_key@,
            secret_key: self.secret_key@,
            security_token: opt_view(self.security_token),
        }
    }
}

/// The endpoint of a publish request is an `https://` URL.
pub proof fn lemma_endpoint_is_https(region: Seq<char>, domain: Seq<char>)
    ensures
        https_url(endpoint_url(region, domain)),
{
    reveal_strlit("https://events.");
    reveal_strlit("https://");
    assert(endpoint_url(region, domain).subrange(0, 8) =~= "https://"@);
}

impl PutEventsHeaders {
    /// Takes endpoint and credentials from `settings_map`.
    pub fn new(settings_map: &Settings) -> (r: PutEventsHeaders)
        ensures
            r@ == (HeadersModel {
                domain: settings_map@.domain,
                region: settings_map@.region,
                access_key: settings_map@.access_key,
                secret_key: settings_map@.secret_key,
                security_token: settings_map@.security_token,
            }),
    {
        PutEventsHeaders {
            domain: settings_map.domain.clone(),
            region: settings_map.region.clone(),
            access_key: settings_map.access_key.clone(),
            secret_key: settings_map.secret_key.clone(),
            security_token: clone_opt(&settings_map.security_token),
        }
    }

    /// The endpoint URL, `https://events.<region>.<domain>`.
    pub fn get_headers_host(&self) -> (r: String)
        ensures
            r@ == endpoint_url(self@.region, self@.domain),
    {
        let mut url = String::from_str(ENDPOINT_PREFIX);
        url.append(self.region.as_str());
        url.append(DOT);
        url.append(self.domain.as_str());
        url
    }

    /// The host name, `events.<region>.<domain>`.
    pub fn get_host_name(&self) -> (r: String)
        ensures
            r@ == host_name(self@.region, self@.domain),
    {
        let mut host = String::from_str(HOST_PREFIX);
        host.append(self.region.as_str());
        host.append(DOT);
        host.append(self.domain.as_str());
        host
    }

    /// The headers of a publish request carrying `body`, signed at `now_secs`
    /// (seconds since the Unix epoch).
    pub fn get_headers(&self, body: &String, now_secs: u64) -> (r: Result<Dict, SigningError>)
        ensures
            signed_view(r) == headers_spec(self@, body@, now_secs),
    {
        let url = self.get_headers_host();
        proof {
            lemma_endpoint_is_https(self@.region, self@.domain);
        }
        let signed = sign(
            POST_METHOD,
            url.as_str(),
            body.as_str(),
            self.access_key.as_str(),
            self.secret_key.as_str(),
            &self.security_token,
            self.region.as_str(),
            SERVICE_NAME,
            now_secs,
        );
        match signed {
            Ok(mut headers) => {
                let ghost before = headers@;
                headers.push((String::from_str(HOST_HEADER), self.get_host_name()));
                headers.push((String::from_str(CONTENT_TYPE_HEADER), String::from_str(CONTENT_TYPE)));
                proof {
                    assert(crate::dict::pairs_view(headers@) =~= crate::dict::pairs_view(before) + seq![
                        (HOST_HEADER@, host_name(self@.region, self@.domain)),
                        (CONTENT_TYPE_HEADER@, CONTENT_TYPE@),
                    ]);
                }
                Ok(headers)
            },
            Err(e) => Err(e),
        }
    }
}

} // verus!
