//! The publish-one-event operation of the AWS event bus.
use crate::apis::put_events_api::put_events_body::{body_text, PutEventsBody};
use crate::apis::put_events_api::put_events_headers::{
    endpoint_url, headers_spec, host_name, HeadersModel, PutEventsHeaders, CONTENT_TYPE, CONTENT_TYPE_HEADER,
    HOST_HEADER, POST_METHOD, SERVICE_NAME,
};
use crate::dict::{lemma_lookup_none, lemma_lookup_past_appended, lookup};
use crate::sigv4::{
    authorization_well_formed, expected_prefix, signer_header_name, signer_names_only, sigv4_headers, signs_header,
    AUTHORIZATION_HEADER, DATE_HEADER, SECURITY_TOKEN_HEADER,
};
use crate::text::eq_ignoring_case;
use crate::apis::utils::api_request::ApiRequest;
use crate::apis::utils::settings::{Settings, SettingsModel};
use crate::request::{Event, HttpMethod, OutboundRequest, RequestModel};
use crate::sigv4::SigningError;
use vstd::prelude::*;

pub mod put_events_body;
pub mod put_events_headers;

verus! {

/// Strategy of the publish-one-event operation.
#[derive(Debug, Clone, Copy, PartialEq, Eq, Structural)]
pub struct PutEventsApi;

/// Endpoint and credentials taken from settings.
pub open spec fn headers_model(s: SettingsModel) -> HeadersModel {
    HeadersModel {
        domain: s.domain,
        region: s.region,
        access_key: s.access_key,
        secret_key: s.secret_key,
        security_token: s.security_token,
    }
}

/// The publish request for `event` under `settings`, signed at `now_secs`:
/// a POST to the endpoint, carrying the event body and the signed headers,
/// never forwarding the client's headers.
pub open spec fn publish_request_spec(settings: SettingsModel, event: Option<Seq<char>>, now_secs: u64) -> Result<RequestModel, SigningError> {
    match headers_spec(headers_model(settings), body_text(event), now_secs) {
        Ok(headers) => Ok(RequestModel {
            method: HttpMethod::Post,
            url: endpoint_url(settings.region, settings.domain),
            headers,
            body: body_text(event),
            forward_client_headers: false,
            body_fallback: event is None,
        }),
        Err(e) => Err(e),
    }
}

/// The body of a publish request is the event's text, and the signer's
/// headers that it carries were computed over exactly that body, for the
/// request's URL, credentials, region and time.
pub proof fn lemma_signed_over_sent_body(settings: SettingsModel, event: Option<Seq<char>>, now_secs: u64)
    ensures
        publish_request_spec(settings, event, now_secs) matches Ok(q) ==> {
            &&& q.body == body_text(event)
            &&& q.headers.len() >= 2
            &&& sigv4_headers(
                POST_METHOD@,
                q.url,
                q.body,
                settings.access_key,
                settings.secret_key,
                settings.security_token,
                settings.region,
                SERVICE_NAME@,
                now_secs,
            ) == Some(q.headers.subrange(0, q.headers.len() - 2))
        },
{
    if let Ok(q) = publish_request_spec(settings, event, now_secs) {
        let h = headers_model(settings);
        let signed = sigv4_headers(
            POST_METHOD@,
            endpoint_url(h.region, h.domain),
            body_text(event),
            h.access_key,
            h.secret_key,
            h.security_token,
            h.region,
            SERVICE_NAME@,
            now_secs,
        ).unwrap();
        assert(q.headers.subrange(0, q.headers.len() - 2) =~= signed);
    }
}

/// No two header names are equal, ignoring ASCII case.
pub open spec fn names_distinct_ignoring_case(h: Seq<(Seq<char>, Seq<char>)>) -> bool {
    forall|i: int, j: int| 0 <= i < j < h.len() ==> !eq_ignoring_case(#[trigger] h[i].0, #[trigger] h[j].0)
}

/// A publish request built successfully is a POST to
/// `https://events.<region>.<domain>` that never forwards client headers. Its
/// header names are distinct ignoring case; it has `x-amz-date`, `host`,
/// `content-type` and an authorization of the full AWS4-HMAC-SHA256 form for its
/// access key, region, service and date. With a session token it carries the
/// token in `x-amz-security-token`, listed as signed; without one, no header of
/// that name in any case, and the signed list omits it.
pub proof fn lemma_request_headers(settings: SettingsModel, event: Option<Seq<char>>, now_secs: u64)
    ensures
        publish_request_spec(settings, event, now_secs) matches Ok(q) ==> {
            &&& q.method == HttpMethod::Post
            &&& q.url == endpoint_url(settings.region, settings.domain)
            &&& !q.forward_client_headers
            &&& names_distinct_ignoring_case(q.headers)
            &&& lookup(q.headers, DATE_HEADER@) is Some
            &&& lookup(q.headers, HOST_HEADER@) == Some(host_name(settings.region, settings.domain))
            &&& lookup(q.headers, CONTENT_TYPE_HEADER@) == Some(CONTENT_TYPE@)
            &&& authorization_well_formed(q.headers, settings.access_key, settings.region, SERVICE_NAME@)
            &&& match settings.security_token {
                Some(t) => {
                    &&& lookup(q.headers, SECURITY_TOKEN_HEADER@) == Some(t)
                    &&& signs_header(q.headers, settings.access_key, settings.region, SERVICE_NAME@, SECURITY_TOKEN_HEADER@)
                },
                None => {
                    &&& forall|i: int| 0 <= i < q.headers.len() ==> !eq_ignoring_case(#[trigger] q.headers[i].0, SECURITY_TOKEN_HEADER@)
                    &&& !signs_header(q.headers, settings.access_key, settings.region, SERVICE_NAME@, SECURITY_TOKEN_HEADER@)
                },
            }
        },
{
    if let Ok(q) = publish_request_spec(settings, event, now_secs) {
        let h = headers_model(settings);
        let signed = sigv4_headers(
            POST_METHOD@,
            endpoint_url(h.region, h.domain),
            body_text(event),
            h.access_key,
            h.secret_key,
            h.security_token,
            h.region,
            SERVICE_NAME@,
            now_secs,
        ).unwrap();
        let hp = (HOST_HEADER@, host_name(h.region, h.domain));
        let cp = (CONTENT_TYPE_HEADER@, CONTENT_TYPE@);
        let fin = signed + seq![hp, cp];
        assert(q.headers == fin);
        reveal_strlit("host");
        reveal_strlit("content-type");
        reveal_strlit("authorization");
        reveal_strlit("x-amz-date");
        reveal_strlit("x-amz-security-token");
        assert(AUTHORIZATION_HEADER@.len() == 13 && SECURITY_TOKEN_HEADER@.len() == 20 && DATE_HEADER@.len() == 10);
        assert(HOST_HEADER@.len() == 4 && CONTENT_TYPE_HEADER@.len() == 12);
        lemma_lookup_past_appended(signed, hp, cp, AUTHORIZATION_HEADER@);
        lemma_lookup_past_appended(signed, hp, cp, SECURITY_TOKEN_HEADER@);
        lemma_lookup_past_appended(signed, hp, cp, DATE_HEADER@);
        assert(fin.drop_last() =~= signed + seq![hp]);
        assert(fin.last() == cp);
        assert((signed + seq![hp]).last() == hp);
        assert(lookup(fin, HOST_HEADER@) == lookup(signed + seq![hp], HOST_HEADER@));
        assert(lookup(signed + seq![hp], HOST_HEADER@) == Some(hp.1));
        assert(expected_prefix(fin, h.access_key, h.region, SERVICE_NAME@) == expected_prefix(signed, h.access_key, h.region, SERVICE_NAME@));
        assert(signer_names_only(signed));
        let n = signed.len() as int;
        assert forall|i: int| 0 <= i < fin.len() implies
            (i < n ==> signer_header_name(#[trigger] fin[i].0)) && (i == n ==> fin[i].0 == HOST_HEADER@)
                && (i == n + 1 ==> fin[i].0 == CONTENT_TYPE_HEADER@) by {
            if i < n {
                assert(fin[i] == signed[i]);
                assert(signer_header_name(signed[i].0));
            }
        }
        assert forall|i: int, j: int| 0 <= i < j < fin.len() implies !eq_ignoring_case(#[trigger] fin[i].0, #[trigger] fin[j].0) by {
            if j < n {
                assert(fin[i] == signed[i] && fin[j] == signed[j]);
                assert(signer_header_name(signed[i].0) && signer_header_name(signed[j].0));
                assert(signed[i].0 != signed[j].0);
            }
        }
        if settings.security_token is None {
            lemma_lookup_none(signed, SECURITY_TOKEN_HEADER@);
            assert forall|i: int| 0 <= i < fin.len() implies !eq_ignoring_case(#[trigger] fin[i].0, SECURITY_TOKEN_HEADER@) by {
                if i < n {
                    assert(fin[i] == signed[i]);
                    assert(signer_header_name(signed[i].0));
                }
            }
        }
    }
}

impl ApiRequest for PutEventsApi {
    open spec fn request_spec(&self, settings: SettingsModel, event: Option<Seq<char>>, now_secs: u64) -> Result<RequestModel, SigningError> {
        publish_request_spec(settings, event, now_secs)
    }

    fn get_edgee_request(&self, settings_map: &Settings, event: &Event, now_secs: u64) -> (r: Result<OutboundRequest, SigningError>) {
        let put_events_headers = PutEventsHeaders::new(settings_map);
        let method = HttpMethod::Post;
        let url = put_events_headers.get_headers_host();
        let rendered = PutEventsBody::new(event);
        let headers = match put_events_headers.get_headers(&rendered.body, now_secs) {
            Ok(h) => h,
            Err(e) => return Err(e),
        };
        Ok(OutboundRequest {
            method,
            url,
            headers,
            body: rendered.body,
            forward_client_headers: false,
            body_fallback: rendered.fallback,
        })
    }
}

} // verus!
