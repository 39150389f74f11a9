//! Request handling: classify an inbound HTTP request by path and method,
//! run the extraction policy on callback requests, write the first captured
//! credential into the shared record, and produce exactly one response.

use vstd::prelude::*;

use crate::bytes::{copy_bytes, lemma_deep_bytes, spec_starts_with, starts_with_bytes};
use crate::extract::{extract_credential, spec_extract};
use crate::state::{capture_step, CaptureState};
use vstd::slice::slice_to_vec;
use vstd::string::StringSliceAdditionalSpecFns;

verus! {

/// The request method, as far as dispatch cares: `GET` or anything else.
#[derive(Clone, Copy, Debug, PartialEq, Eq, Structural)]
pub enum HttpMethod {
    Get,
    Other,
}

/// One inbound request, reduced to what dispatch and extraction read: the
/// method, the raw request target (path, query, and — when a client leaks
/// one — fragment) and the headers in arrival order.
pub struct CallbackRequest {
    pub method: HttpMethod,
    pub target: Vec<u8>,
    pub headers: Vec<(Vec<u8>, Vec<u8>)>,
}

/// Where a request is routed.
#[derive(Clone, Copy, Debug, PartialEq, Eq, Structural)]
pub enum Route {
    Icon,
    Callback,
    Other,
}

/// The bytes of the icon route prefix `/icon.png`.
pub open spec fn icon_prefix() -> Seq<u8> {
    seq![
        '/' as u8,
        'i' as u8,
        'c' as u8,
        'o' as u8,
        'n' as u8,
        '.' as u8,
        'p' as u8,
        'n' as u8,
        'g' as u8,
    ]
}

/// The bytes of the callback route prefix `/auth-callback`.
pub open spec fn callback_prefix() -> Seq<u8> {
    seq![
        '/' as u8,
        'a' as u8,
        'u' as u8,
        't' as u8,
        'h' as u8,
        '-' as u8,
        'c' as u8,
        'a' as u8,
        'l' as u8,
        'l' as u8,
        'b' as u8,
        'a' as u8,
        'c' as u8,
        'k' as u8,
    ]
}

fn icon_prefix_bytes() -> (v: Vec<u8>)
    ensures
        v@ == icon_prefix(),
{
    let v: Vec<u8> = vec![
        '/' as u8,
        'i' as u8,
        'c' as u8,
        'o' as u8,
        'n' as u8,
        '.' as u8,
        'p' as u8,
        'n' as u8,
        'g' as u8,
    ];
    proof {
        assert(v@ =~= icon_prefix());
    }
    v
}

fn callback_prefix_bytes() -> (v: Vec<u8>)
    ensures
        v@ == callback_prefix(),
{
    let v: Vec<u8> = vec![
        '/' as u8,
        'a' as u8,
        'u' as u8,
        't' as u8,
        'h' as u8,
        '-' as u8,
        'c' as u8,
        'a' as u8,
        'l' as u8,
        'l' as u8,
        'b' as u8,
        'a' as u8,
        'c' as u8,
        'k' as u8,
    ];
    proof {
        assert(v@ =~= callback_prefix());
    }
    v
}

/// Dispatch policy: icon requests first, then callback requests, each only
/// for `GET`; everything else is rejected.
pub open spec fn spec_route(method: HttpMethod, target: Seq<u8>) -> Route {
    if method is Get && spec_starts_with(target, icon_prefix()) {
        Route::Icon
    } else if method is Get && spec_starts_with(target, callback_prefix()) {
        Route::Callback
    } else {
        Route::Other
    }
}

/// Content type of a served response.
#[derive(Clone, Copy, Debug, PartialEq, Eq, Structural)]
pub enum ContentType {
    ImagePng,
    TextHtml,
    TextPlain,
}

/// One HTTP response: status code, content type, body bytes.  Exactly one is
/// produced per accepted request.
pub struct HttpResponse {
    pub status: u16,
    pub content_type: ContentType,
    pub body: Vec<u8>,
}

/// The interstitial success page.  Its script reads the token out of the
/// document's own fragment or query string and forwards it to the callback
/// route as `?access_token=...`, which is the only way a fragment-held token
/// ever becomes observable on the server side; it then closes the window.
pub const SUCCESS_PAGE: &'static str = "<!DOCTYPE html>\n<html lang=\"en\">\n<head>\n<meta charset=\"UTF-8\">\n<title>Authentication</title>\n<script>\nwindow.onload = function() {\n    var params = new URLSearchParams(window.location.hash.substring(1));\n    var fromHash = params.get('access_token');\n    var fromQuery = new URLSearchParams(window.location.search).get('access_token');\n    var token = fromHash || fromQuery;\n    if (token) {\n        fetch('/auth-callback?access_token=' + encodeURIComponent(token))\n            .then(function(response) {\n                if (response.ok) { setTimeout(function() { window.close(); }, 2000); }\n            });\n    }\n};\n</script>\n</head>\n<body>\n<img src=\"/icon.png\" alt=\"Logo\"/>\n<h1>Authentication Successful</h1>\n<p>You have successfully authenticated. This window closes itself.</p>\n</body>\n</html>\n";

/// The bytes of the interstitial success page.
pub open spec fn success_page_bytes() -> Seq<u8> {
    SUCCESS_PAGE.spec_bytes()
}

/// The body served for rejected requests.
pub const BAD_REQUEST_BODY: &'static str = "Invalid request";

/// The bytes of the rejected-request body.
pub open spec fn bad_request_bytes() -> Seq<u8> {
    BAD_REQUEST_BODY.spec_bytes()
}

/// The interstitial page response: served for every callback request,
/// whether or not a credential was extracted, so the browser always lands on
/// the forwarding script.
pub fn success_response() -> (r: HttpResponse)
    ensures
        r.status == 200,
        r.content_type == ContentType::TextHtml,
        r.body@ == success_page_bytes(),
{
    HttpResponse {
        status: 200,
        content_type: ContentType::TextHtml,
        body: slice_to_vec(SUCCESS_PAGE.as_bytes()),
    }
}

/// The response for requests to no known route.
pub fn bad_request_response() -> (r: HttpResponse)
    ensures
        r.status == 400,
        r.content_type == ContentType::TextPlain,
        r.body@ == bad_request_bytes(),
{
    HttpResponse {
        status: 400,
        content_type: ContentType::TextPlain,
        body: slice_to_vec(BAD_REQUEST_BODY.as_bytes()),
    }
}

/// The record's contents after one request has been handled: a callback
/// request that yields a credential is offered to the record (first writer
/// wins); every other request leaves the record alone.
pub open spec fn spec_handle_state(
    s: Option<Seq<u8>>,
    method: HttpMethod,
    target: Seq<u8>,
    headers: Seq<(Vec<u8>, Vec<u8>)>,
) -> Option<Seq<u8>> {
    match spec_extract(target, headers) {
        Some(v) => if spec_route(method, target) is Callback {
            capture_step(s, v)
        } else {
            s
        },
        None => s,
    }
}

/// Handle one inbound request: classify it, run the extraction policy on
/// callback requests, offer any extracted credential to the record, and
/// produce the one response — the icon bytes, the interstitial page, or a
/// plain rejection.
pub fn process_request(req: &CallbackRequest, state: &mut CaptureState, icon: &Vec<u8>) -> (r:
    HttpResponse)
    requires
        old(state).wf(),
    ensures
        final(state).wf(),
        final(state)@ == spec_handle_state(old(state)@, req.method, req.target@, req.headers@),
        spec_route(req.method, req.target@) is Icon ==> r.status == 200 && r.content_type
            == ContentType::ImagePng && r.body@ == icon@,
        spec_route(req.method, req.target@) is Callback ==> r.status == 200 && r.content_type
            == ContentType::TextHtml && r.body@ == success_page_bytes(),
        spec_route(req.method, req.target@) is Other ==> r.status == 400 && r.content_type
            == ContentType::TextPlain && r.body@ == bad_request_bytes(),
{
    let is_get = req.method == HttpMethod::Get;
    let icon_p = icon_prefix_bytes();
    if is_get && starts_with_bytes(req.target.as_slice(), icon_p.as_slice()) {
        return HttpResponse {
            status: 200,
            content_type: ContentType::ImagePng,
            body: copy_bytes(icon),
        };
    }
    let cb_p = callback_prefix_bytes();
    if is_get && starts_with_bytes(req.target.as_slice(), cb_p.as_slice()) {
        match extract_credential(&req.target, &req.headers) {
            Some(v) => {
                proof {
                    lemma_deep_bytes(v);
                }
                state.try_capture(v);
            },
            None => {},
        }
        success_response()
    } else {
        bad_request_response()
    }
}

/// When the record is still empty, handling a callback request stores
/// exactly what the extraction policy yields for it — the value the waiter
/// then resolves with.
pub proof fn lemma_empty_record_captures(
    method: HttpMethod,
    target: Seq<u8>,
    headers: Seq<(Vec<u8>, Vec<u8>)>,
)
    requires
        spec_route(method, target) is Callback,
        spec_extract(target, headers) is Some,
    ensures
        spec_handle_state(None, method, target, headers) == spec_extract(target, headers),
{
}

/// The record's contents after a whole sequence of inbound requests has been
/// handled, in order.
pub open spec fn run_requests(s: Option<Seq<u8>>, reqs: Seq<CallbackRequest>) -> Option<Seq<u8>>
    decreases reqs.len(),
{
    if reqs.len() == 0 {
        s
    } else {
        run_requests(
            spec_handle_state(s, reqs[0].method, reqs[0].target@, reqs[0].headers@),
            reqs.drop_first(),
        )
    }
}

/// At-most-once capture: once the record holds a credential, no sequence of
/// later inbound requests changes it — even requests that present a
/// different token.
pub proof fn lemma_at_most_once(s: Option<Seq<u8>>, reqs: Seq<CallbackRequest>)
    requires
        s is Some,
    ensures
        run_requests(s, reqs) == s,
    decreases reqs.len(),
{
    if reqs.len() > 0 {
        lemma_at_most_once(s, reqs.drop_first());
    }
}

/// First writer wins: when the record is empty and the first inbound request
/// captures a credential, that credential is still the record's value after
/// the whole sequence has been handled.
pub proof fn lemma_first_capture_wins(reqs: Seq<CallbackRequest>)
    requires
        reqs.len() > 0,
        spec_handle_state(None, reqs[0].method, reqs[0].target@, reqs[0].headers@) is Some,
    ensures
        run_requests(None, reqs) == spec_handle_state(
            None,
            reqs[0].method,
            reqs[0].target@,
            reqs[0].headers@,
        ),
{
    lemma_at_most_once(
        spec_handle_state(None, reqs[0].method, reqs[0].target@, reqs[0].headers@),
        reqs.drop_first(),
    );
}

} // verus!
