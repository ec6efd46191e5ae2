//! The SolidGate API client: credentials, signed request preparation for each
//! operation, and the classification of responses. Sending the requests is left
//! to the caller's HTTP transport.

use vstd::prelude::*;
use vstd::utf8::*;
use std::time::Duration;
use crate::model::ApiError;
use crate::signature::{generate_signature, signature_matches, spec_signature};
use crate::text::{
    char_prefix, debug_text, decimal_digits, has_edge_white_space, has_edge_whitespace,
    i64_to_decimal, join_strings, join_with, signed_decimal, str_debug_text, string_from_utf8,
    take_chars, trim_end_char, trim_end_matching, u64_to_decimal, utf8_error_debug_text,
};

verus! {

/// SolidGate production subscriptions host (cancel / subscription endpoints).
pub const SUBSCRIPTIONS_API_URL: &'static str = "https://subscriptions.solidgate.com/api/v1";

/// SolidGate production general API host (webhook-endpoint management).
pub const GENERAL_API_URL: &'static str = "https://api.solidgate.com/api/v1";

/// Credentials and hosts of a SolidGate merchant account.
pub struct SolidGateApi {
    /// Subscriptions host: `https://subscriptions.solidgate.com/api/v1`.
    base_url: String,
    /// General API host: `https://api.solidgate.com/api/v1` (webhook management lives here).
    general_api_url: String,
    public_key: String,
    secret_key: String,
    timeout: Duration,
}

/// An HTTP method of the API.
#[derive(Debug, Clone, Copy, PartialEq, Eq, Structural)]
pub enum HttpMethod {
    Get,
    Post,
    Put,
    Patch,
    Delete,
}

/// The method's name as it is written in requests and messages.
pub open spec fn method_name(method: HttpMethod) -> Seq<char> {
    match method {
        HttpMethod::Get => "GET"@,
        HttpMethod::Post => "POST"@,
        HttpMethod::Put => "PUT"@,
        HttpMethod::Patch => "PATCH"@,
        HttpMethod::Delete => "DELETE"@,
    }
}

impl HttpMethod {
    /// The method's name: `GET`, `POST`, `PUT`, `PATCH` or `DELETE`.
    pub fn name(&self) -> (res: &'static str)
        ensures
            res@ == method_name(*self),
    {
        match self {
            HttpMethod::Get => "GET",
            HttpMethod::Post => "POST",
            HttpMethod::Put => "PUT",
            HttpMethod::Patch => "PATCH",
            HttpMethod::Delete => "DELETE",
        }
    }
}

/// The views of a list of name-value pairs.
pub open spec fn pair_views(pairs: Seq<(String, String)>) -> Seq<(Seq<char>, Seq<char>)> {
    pairs.map_values(|p: (String, String)| (p.0@, p.1@))
}

/// What a signed request consists of.
pub struct RequestView {
    pub url: Seq<char>,
    pub method: HttpMethod,
    pub headers: Seq<(Seq<char>, Seq<char>)>,
    pub query: Seq<(Seq<char>, Seq<char>)>,
    /// The request body as text (empty when there is none).
    pub body: Seq<char>,
    /// The bytes sent as a JSON body; none for an empty body.
    pub json_body: Option<Seq<u8>>,
    pub timeout: Duration,
}

/// A request ready to be sent: where, how, with which headers, query and body.
pub struct SignedRequest {
    pub url: String,
    pub method: HttpMethod,
    pub headers: Vec<(String, String)>,
    pub query: Vec<(String, String)>,
    pub body: String,
    pub json_body: Option<Vec<u8>>,
    pub timeout: Duration,
}

impl View for SignedRequest {
    type V = RequestView;

    open spec fn view(&self) -> RequestView {
        RequestView {
            url: self.url@,
            method: self.method,
            headers: pair_views(self.headers@),
            query: pair_views(self.query@),
            body: self.body@,
            json_body: match self.json_body {
                Some(bytes) => Some(bytes@),
                None => None,
            },
            timeout: self.timeout,
        }
    }
}

/// The URL of `path` on a host: the host without trailing slashes, `/`, the path.
pub open spec fn request_url(base_url: Seq<char>, path: Seq<char>) -> Seq<char> {
    trim_end_char(base_url, '/') + "/"@ + path
}

/// The headers of a signed request.
pub open spec fn signed_headers(public_key: Seq<char>, signature: Seq<char>) -> Seq<(Seq<char>, Seq<char>)> {
    seq![
        ("Content-Type"@, "application/json"@),
        ("Accept"@, "application/json"@),
        ("Merchant"@, public_key),
        ("Signature"@, signature),
    ]
}

/// Whether requests with this method carry a body: GET and DELETE do not.
pub open spec fn method_sends_body(method: HttpMethod) -> bool {
    !(method is Get || method is Delete)
}

/// The body that goes out with `method`: the given one, or nothing for GET and DELETE.
pub open spec fn sent_body(method: HttpMethod, body: Seq<char>) -> Seq<char> {
    if method_sends_body(method) {
        body
    } else {
        Seq::empty()
    }
}

/// The text of an optional body; empty when there is none.
pub open spec fn body_text(body: Option<String>) -> Seq<char> {
    match body {
        Some(b) => b@,
        None => Seq::empty(),
    }
}

/// The view of an optional string slice.
pub open spec fn opt_str_view(s: Option<&str>) -> Option<Seq<char>> {
    match s {
        Some(t) => Some(t@),
        None => None,
    }
}

/// The query of a webhook-endpoint listing: each filter that is given, in the order
/// id, limit, offset.
pub open spec fn spec_list_query(filter_id: Option<Seq<char>>, limit: Option<i64>, offset: Option<i64>) -> Seq<(Seq<char>, Seq<char>)> {
    (match filter_id {
        Some(id) => seq![("filter[id]"@, id)],
        None => Seq::empty(),
    }) + (match limit {
        Some(l) => seq![("pagination[limit]"@, signed_decimal(l as int))],
        None => Seq::empty(),
    }) + (match offset {
        Some(o) => seq![("pagination[offset]"@, signed_decimal(o as int))],
        None => Seq::empty(),
    })
}

/// The path of one webhook endpoint.
pub open spec fn webhook_endpoint_path(id: Seq<char>) -> Seq<char> {
    "webhooks/endpoints/"@ + id
}

/// `, HAS_WHITESPACE` when the text begins or ends with white space, else nothing.
pub open spec fn whitespace_flag(s: Seq<char>) -> Seq<char> {
    if has_edge_white_space(s) {
        ", HAS_WHITESPACE"@
    } else {
        Seq::empty()
    }
}

/// The masked summary of a key pair.
pub open spec fn credentials_summary(public_key: Seq<char>, secret_key: Seq<char>) -> Seq<char> {
    "public_key(merchant): prefix="@ + str_debug_text(char_prefix(public_key, 12)) + " len="@
        + decimal_digits(encode_utf8(public_key).len()) + whitespace_flag(public_key)
        + "; secret_key: type="@ + str_debug_text(char_prefix(secret_key, 7)) + " len="@
        + decimal_digits(encode_utf8(secret_key).len()) + whitespace_flag(secret_key)
}

/// The message for an error object in a response.
pub open spec fn api_error_message(
    error: (Seq<char>, Seq<Seq<char>>),
    method: HttpMethod,
    url: Seq<char>,
    public_key: Seq<char>,
    response: Seq<char>,
) -> Seq<char> {
    "SolidGate API error "@ + error.0 + ": "@ + join_with(error.1, "; "@) + ". Url: "@
        + method_name(method) + " "@ + url + ". merchant_prefix="@
        + str_debug_text(char_prefix(public_key, 12)) + ". Raw response: "@ + response
}

/// The message for a response with a status code above 299.
pub open spec fn status_error_message(
    status: u16,
    method: HttpMethod,
    url: Seq<char>,
    request_body: Seq<char>,
    response: Seq<char>,
) -> Seq<char> {
    "Response code: "@ + decimal_digits(status as nat) + ". Url: "@ + method_name(method) + " "@
        + url + ". Request: "@ + request_body + ". Response: "@ + response
}

/// The views of a text result.
pub open spec fn text_result(res: Result<String, String>) -> Result<Seq<char>, Seq<char>> {
    match res {
        Ok(t) => Ok(t@),
        Err(e) => Err(e@),
    }
}

/// A response body as text: the decoded UTF-8, or the message for bytes that are not.
pub open spec fn spec_response_text(bytes: Seq<u8>) -> Result<Seq<char>, Seq<char>> {
    if valid_utf8(bytes) {
        Ok(decode_utf8(bytes))
    } else {
        Err("Non-utf8 response body: "@ + utf8_error_debug_text(bytes))
    }
}

/// Reads a response body as UTF-8 text.
pub fn response_text(bytes: Vec<u8>) -> (res: Result<String, String>)
    ensures
        text_result(res) == spec_response_text(bytes@),
        res is Ok <==> valid_utf8(bytes@),
        res matches Ok(text) ==> text@ == decode_utf8(bytes@) && encode_utf8(text@) == bytes@,
{
    proof {
        response_text_is_the_decoded_body(bytes@);
    }
    match string_from_utf8(bytes) {
        Ok(text) => Ok(text),
        Err(detail) => {
            let mut msg = String::from_str("Non-utf8 response body: ");
            msg.append(detail.as_str());
            Err(msg)
        },
    }
}

/// The query of a webhook-endpoint listing: `filter[id]`, `pagination[limit]` and
/// `pagination[offset]`, each only when given.
pub fn list_webhook_endpoints_query(filter_id: Option<&str>, limit: Option<i64>, offset: Option<i64>) -> (query: Vec<(String, String)>)
    ensures
        pair_views(query@) == spec_list_query(opt_str_view(filter_id), limit, offset),
{
    let mut query: Vec<(String, String)> = Vec::new();
    let ghost part1 = match opt_str_view(filter_id) {
        Some(id) => seq![("filter[id]"@, id)],
        None => Seq::<(Seq<char>, Seq<char>)>::empty(),
    };
    let ghost part2 = match limit {
        Some(l) => seq![("pagination[limit]"@, signed_decimal(l as int))],
        None => Seq::<(Seq<char>, Seq<char>)>::empty(),
    };
    let ghost part3 = match offset {
        Some(o) => seq![("pagination[offset]"@, signed_decimal(o as int))],
        None => Seq::<(Seq<char>, Seq<char>)>::empty(),
    };
    if let Some(id) = filter_id {
        query.push((String::from_str("filter[id]"), String::from_str(id)));
    }
    assert(pair_views(query@) =~= part1);
    if let Some(l) = limit {
        query.push((String::from_str("pagination[limit]"), i64_to_decimal(l)));
    }
    assert(pair_views(query@) =~= part1 + part2);
    if let Some(o) = offset {
        query.push((String::from_str("pagination[offset]"), i64_to_decimal(o)));
    }
    assert(pair_views(query@) =~= part1 + part2 + part3);
    query
}

impl SolidGateApi {
    /// The subscriptions host.
    pub closed spec fn base_url_text(&self) -> Seq<char> {
        self.base_url@
    }

    /// The general API host.
    pub closed spec fn general_api_url_text(&self) -> Seq<char> {
        self.general_api_url@
    }

    /// The merchant's public key.
    pub closed spec fn public_key_text(&self) -> Seq<char> {
        self.public_key@
    }

    /// The merchant's secret key.
    pub closed spec fn secret_key_text(&self) -> Seq<char> {
        self.secret_key@
    }

    /// How long a request may take.
    pub closed spec fn timeout_value(&self) -> Duration {
        self.timeout
    }

    /// A client against SolidGate's production hosts ([`SUBSCRIPTIONS_API_URL`] and
    /// [`GENERAL_API_URL`]). These hosts are fixed: sandbox or live is selected by the
    /// key pair, not by the URL. [`Self::with_urls`] overrides them.
    pub fn new(public_key: &str, secret_key: &str, timeout: Duration) -> (api: Self)
        ensures
            api.base_url_text() == SUBSCRIPTIONS_API_URL@,
            api.general_api_url_text() == GENERAL_API_URL@,
            api.public_key_text() == public_key@,
            api.secret_key_text() == secret_key@,
            api.timeout_value() == timeout,
    {
        Self::with_urls(SUBSCRIPTIONS_API_URL, GENERAL_API_URL, public_key, secret_key, timeout)
    }

    /// * `base_url`: the subscriptions host, e.g. `https://subscriptions.solidgate.com/api/v1`.
    /// * `general_api_url`: the general API host, e.g. `https://api.solidgate.com/api/v1`
    ///   (webhook-endpoint management is served there, not from the subscriptions host).
    pub fn with_urls(
        base_url: &str,
        general_api_url: &str,
        public_key: &str,
        secret_key: &str,
        timeout: Duration,
    ) -> (api: Self)
        ensures
            api.base_url_text() == base_url@,
            api.general_api_url_text() == general_api_url@,
            api.public_key_text() == public_key@,
            api.secret_key_text() == secret_key@,
            api.timeout_value() == timeout,
    {
        SolidGateApi {
            base_url: String::from_str(base_url),
            general_api_url: String::from_str(general_api_url),
            public_key: String::from_str(public_key),
            secret_key: String::from_str(secret_key),
            timeout,
        }
    }

    pub fn base_url(&self) -> (res: &str)
        ensures
            res@ == self.base_url_text(),
    {
        self.base_url.as_str()
    }

    pub fn general_api_url(&self) -> (res: &str)
        ensures
            res@ == self.general_api_url_text(),
    {
        self.general_api_url.as_str()
    }

    /// Masked credential summary for diagnostics: never reveals secret material. Shows
    /// the first 12 characters of the public key (the merchant identifier), the key-type
    /// tag of the secret key (its first 7 characters, such as `api_sk_` or `wh_sk_`),
    /// both lengths in bytes, and a flag for leading or trailing white space.
    pub fn credentials_debug(&self) -> (res: String)
        ensures
            res@ == credentials_summary(self.public_key_text(), self.secret_key_text()),
    {
        let pk = self.public_key.as_str();
        let sk = self.secret_key.as_str();
        let pk_prefix = take_chars(pk, 12);
        let sk_type = take_chars(sk, 7);
        let pk_len = u64_to_decimal(pk.as_bytes().len() as u64);
        let sk_len = u64_to_decimal(sk.as_bytes().len() as u64);
        let mut out = String::from_str("public_key(merchant): prefix=");
        out.append(debug_text(pk_prefix.as_str()).as_str());
        out.append(" len=");
        out.append(pk_len.as_str());
        if has_edge_whitespace(pk) {
            out.append(", HAS_WHITESPACE");
        }
        out.append("; secret_key: type=");
        out.append(debug_text(sk_type.as_str()).as_str());
        out.append(" len=");
        out.append(sk_len.as_str());
        if has_edge_whitespace(sk) {
            out.append(", HAS_WHITESPACE");
        }
        assert(out@ =~= credentials_summary(self.public_key_text(), self.secret_key_text()));
        out
    }

    /// What [`Self::sign_request`] produces.
    pub open spec fn spec_signed_request(
        &self,
        base_url: Seq<char>,
        path: Seq<char>,
        method: HttpMethod,
        query: Seq<(Seq<char>, Seq<char>)>,
        body: Seq<char>,
    ) -> RequestView {
        let sent = sent_body(method, body);
        RequestView {
            url: request_url(base_url, path),
            method,
            headers: signed_headers(
                self.public_key_text(),
                spec_signature(self.public_key_text(), self.secret_key_text(), encode_utf8(sent)),
            ),
            query,
            body: sent,
            json_body: if sent.len() == 0 {
                None
            } else {
                Some(encode_utf8(sent))
            },
            timeout: self.timeout_value(),
        }
    }

    /// Prepares a signed request. The signature covers the body bytes, which are empty
    /// for GET and DELETE (a body given with those methods is neither signed nor sent);
    /// query parameters are not signed. An empty body is sent as no body.
    pub fn sign_request(
        &self,
        base_url: &str,
        path: &str,
        method: HttpMethod,
        query: Vec<(String, String)>,
        body: Option<String>,
    ) -> (req: SignedRequest)
        ensures
            req@ == self.spec_signed_request(base_url@, path@, method, pair_views(query@), body_text(body)),
    {
        let body = match method {
            HttpMethod::Get | HttpMethod::Delete => String::new(),
            _ => match body {
                Some(b) => b,
                None => String::new(),
            },
        };
        let signature = generate_signature(self.public_key.as_str(), self.secret_key.as_str(), body.as_str().as_bytes());
        let mut url = String::from_str(trim_end_matching(base_url, '/'));
        url.append("/");
        url.append(path);
        let headers = vec![
            (String::from_str("Content-Type"), String::from_str("application/json")),
            (String::from_str("Accept"), String::from_str("application/json")),
            (String::from_str("Merchant"), self.public_key.clone()),
            (String::from_str("Signature"), signature),
        ];
        let json_body = if body.as_str().unicode_len() == 0 {
            None
        } else {
            Some(body.as_str().as_bytes_vec())
        };
        let req = SignedRequest { url, method, headers, query, body, json_body, timeout: self.timeout };
        assert(req@.headers =~= signed_headers(
            self.public_key_text(),
            spec_signature(self.public_key_text(), self.secret_key_text(), encode_utf8(req@.body)),
        ));
        req
    }

    /// Cancel a subscription: `POST subscription/cancel` on the subscriptions host, with
    /// the JSON of the request's data as body. With `force` false the subscription stays
    /// active until the end of the billing period; with `force` true it ends at once.
    pub fn cancel_subscription_request(&self, body: String) -> (req: SignedRequest)
        ensures
            req@ == self.spec_signed_request(
                self.base_url_text(), "subscription/cancel"@, HttpMethod::Post, Seq::empty(), body@),
    {
        let query: Vec<(String, String)> = Vec::new();
        assert(pair_views(query@) =~= Seq::empty());
        self.sign_request(self.base_url.as_str(), "subscription/cancel", HttpMethod::Post, query, Some(body))
    }

    /// Register a webhook endpoint: `POST webhooks/endpoints` on the general API host.
    pub fn create_webhook_endpoint_request(&self, body: String) -> (req: SignedRequest)
        ensures
            req@ == self.spec_signed_request(
                self.general_api_url_text(), "webhooks/endpoints"@, HttpMethod::Post, Seq::empty(), body@),
    {
        let query: Vec<(String, String)> = Vec::new();
        assert(pair_views(query@) =~= Seq::empty());
        self.sign_request(self.general_api_url.as_str(), "webhooks/endpoints", HttpMethod::Post, query, Some(body))
    }

    /// List webhook endpoints: `GET webhooks/endpoints` on the general API host, with
    /// the filters that are given as query parameters and no body.
    pub fn list_webhook_endpoints_request(&self, filter_id: Option<&str>, limit: Option<i64>, offset: Option<i64>) -> (req: SignedRequest)
        ensures
            req@ == self.spec_signed_request(
                self.general_api_url_text(),
                "webhooks/endpoints"@,
                HttpMethod::Get,
                spec_list_query(opt_str_view(filter_id), limit, offset),
                Seq::empty(),
            ),
    {
        let query = list_webhook_endpoints_query(filter_id, limit, offset);
        self.sign_request(self.general_api_url.as_str(), "webhooks/endpoints", HttpMethod::Get, query, None)
    }

    /// Update a webhook endpoint: `PATCH webhooks/endpoints/{id}` on the general API host
    /// (only the fields present in the body change).
    pub fn update_webhook_endpoint_request(&self, id: &str, body: String) -> (req: SignedRequest)
        ensures
            req@ == self.spec_signed_request(
                self.general_api_url_text(), webhook_endpoint_path(id@), HttpMethod::Patch, Seq::empty(), body@),
    {
        let mut path = String::from_str("webhooks/endpoints/");
        path.append(id);
        let query: Vec<(String, String)> = Vec::new();
        assert(pair_views(query@) =~= Seq::empty());
        self.sign_request(self.general_api_url.as_str(), path.as_str(), HttpMethod::Patch, query, Some(body))
    }

    /// Delete a webhook endpoint: `DELETE webhooks/endpoints/{id}` on the general API
    /// host, with no body.
    pub fn delete_webhook_endpoint_request(&self, id: &str) -> (req: SignedRequest)
        ensures
            req@ == self.spec_signed_request(
                self.general_api_url_text(), webhook_endpoint_path(id@), HttpMethod::Delete, Seq::empty(), Seq::empty()),
    {
        let mut path = String::from_str("webhooks/endpoints/");
        path.append(id);
        let query: Vec<(String, String)> = Vec::new();
        assert(pair_views(query@) =~= Seq::empty());
        self.sign_request(self.general_api_url.as_str(), path.as_str(), HttpMethod::Delete, query, None)
    }

    /// How a response to `request` is answered: an error object in the body is an error
    /// whatever the status; else a status above 299 is an error; else the body.
    pub open spec fn spec_response_outcome(
        &self,
        request: RequestView,
        status: u16,
        response: Seq<char>,
        api_error: Option<(Seq<char>, Seq<Seq<char>>)>,
    ) -> Result<Seq<char>, Seq<char>> {
        match api_error {
            Some(error) => Err(api_error_message(error, request.method, request.url, self.public_key_text(), response)),
            None => if status > 299 {
                Err(status_error_message(status, request.method, request.url, request.body, response))
            } else {
                Ok(response)
            },
        }
    }

    /// Classifies the response to `request`. `api_error` is the error object that the
    /// response body holds, if it holds one: SolidGate may send one even with a 2xx
    /// status, and it is surfaced as a readable error.
    pub fn check_response(
        &self,
        request: &SignedRequest,
        status_code: u16,
        response: String,
        api_error: Option<ApiError>,
    ) -> (res: Result<String, String>)
        ensures
            text_result(res) == self.spec_response_outcome(
                request@,
                status_code,
                response@,
                match api_error {
                    Some(e) => Some(e@),
                    None => None,
                },
            ),
    {
        match api_error {
            Some(err) => {
                let merchant_prefix = take_chars(self.public_key.as_str(), 12);
                let mut msg = String::from_str("SolidGate API error ");
                msg.append(err.code.as_str());
                msg.append(": ");
                msg.append(join_strings(&err.messages, "; ").as_str());
                msg.append(". Url: ");
                msg.append(request.method.name());
                msg.append(" ");
                msg.append(request.url.as_str());
                msg.append(". merchant_prefix=");
                msg.append(debug_text(merchant_prefix.as_str()).as_str());
                msg.append(". Raw response: ");
                msg.append(response.as_str());
                assert(msg@ =~= api_error_message(err@, request.method, request.url@, self.public_key_text(), response@));
                Err(msg)
            },
            None => {
                if status_code > 299 {
                    let mut msg = String::from_str("Response code: ");
                    msg.append(u64_to_decimal(status_code as u64).as_str());
                    msg.append(". Url: ");
                    msg.append(request.method.name());
                    msg.append(" ");
                    msg.append(request.url.as_str());
                    msg.append(". Request: ");
                    msg.append(request.body.as_str());
                    msg.append(". Response: ");
                    msg.append(response.as_str());
                    assert(msg@ =~= status_error_message(status_code, request.method, request.url@, request.body@, response@));
                    Err(msg)
                } else {
                    Ok(response)
                }
            },
        }
    }
}

/// Query parameters are not signed: requests that differ only in their query carry
/// the same headers, signature included.
pub proof fn query_is_not_signed(
    api: SolidGateApi,
    base_url: Seq<char>,
    path: Seq<char>,
    method: HttpMethod,
    first_query: Seq<(Seq<char>, Seq<char>)>,
    second_query: Seq<(Seq<char>, Seq<char>)>,
    body: Seq<char>,
)
    ensures
        api.spec_signed_request(base_url, path, method, first_query, body).headers
            == api.spec_signed_request(base_url, path, method, second_query, body).headers,
{
}

/// The `Signature` header of a prepared request is what `verify_signature` accepts for
/// the request's body bytes and the client's key pair.
pub proof fn request_signature_verifies(
    api: SolidGateApi,
    base_url: Seq<char>,
    path: Seq<char>,
    method: HttpMethod,
    query: Seq<(Seq<char>, Seq<char>)>,
    body: Seq<char>,
)
    ensures
        ({
            let req = api.spec_signed_request(base_url, path, method, query, body);
            &&& req.headers.len() == 4
            &&& req.headers[3].0 == "Signature"@
            &&& signature_matches(api.public_key_text(), api.secret_key_text(), encode_utf8(req.body), req.headers[3].1)
        }),
{
}

/// GET and DELETE requests carry no body and are signed over the empty byte string,
/// whatever body they are given.
pub proof fn get_and_delete_send_no_body(
    api: SolidGateApi,
    base_url: Seq<char>,
    path: Seq<char>,
    method: HttpMethod,
    query: Seq<(Seq<char>, Seq<char>)>,
    body: Seq<char>,
)
    requires
        method is Get || method is Delete,
    ensures
        ({
            let req = api.spec_signed_request(base_url, path, method, query, body);
            &&& req.body == Seq::<char>::empty()
            &&& req.json_body is None
            &&& req.headers[3].1 == spec_signature(api.public_key_text(), api.secret_key_text(), Seq::empty())
        }),
{
    assert(encode_utf8(Seq::<char>::empty()) =~= Seq::<u8>::empty());
}

/// The listing query holds a `filter[id]` pair exactly when an id filter is given, a
/// `pagination[limit]` pair exactly when a limit is given and a `pagination[offset]`
/// pair exactly when an offset is given, each independently of the other two, each
/// carrying the given value (numbers in decimal), and nothing else.
pub proof fn list_query_holds_each_given_filter(filter_id: Option<Seq<char>>, limit: Option<i64>, offset: Option<i64>)
    ensures
        ({
            let q = spec_list_query(filter_id, limit, offset);
            &&& q.len() == (if filter_id is Some { 1nat } else { 0nat }) + (if limit is Some { 1nat } else { 0nat })
                + (if offset is Some { 1nat } else { 0nat })
            &&& (exists|i: int| 0 <= i < q.len() && (#[trigger] q[i]).0 == "filter[id]"@) <==> filter_id is Some
            &&& (exists|i: int| 0 <= i < q.len() && (#[trigger] q[i]).0 == "pagination[limit]"@) <==> limit is Some
            &&& (exists|i: int| 0 <= i < q.len() && (#[trigger] q[i]).0 == "pagination[offset]"@) <==> offset is Some
            &&& forall|id: Seq<char>| filter_id == Some(id) ==>
                exists|i: int| 0 <= i < q.len() && #[trigger] q[i] == ("filter[id]"@, id)
            &&& forall|l: i64| limit == Some(l) ==>
                exists|i: int| 0 <= i < q.len() && #[trigger] q[i] == ("pagination[limit]"@, signed_decimal(l as int))
            &&& forall|o: i64| offset == Some(o) ==>
                exists|i: int| 0 <= i < q.len() && #[trigger] q[i] == ("pagination[offset]"@, signed_decimal(o as int))
        }),
{
    reveal_strlit("filter[id]");
    reveal_strlit("pagination[limit]");
    reveal_strlit("pagination[offset]");
    let p1: Seq<(Seq<char>, Seq<char>)> = match filter_id {
        Some(id) => seq![("filter[id]"@, id)],
        None => Seq::empty(),
    };
    let p2: Seq<(Seq<char>, Seq<char>)> = match limit {
        Some(l) => seq![("pagination[limit]"@, signed_decimal(l as int))],
        None => Seq::empty(),
    };
    let p3: Seq<(Seq<char>, Seq<char>)> = match offset {
        Some(o) => seq![("pagination[offset]"@, signed_decimal(o as int))],
        None => Seq::empty(),
    };
    let q = spec_list_query(filter_id, limit, offset);
    assert(q == p1 + p2 + p3);
    assert forall|i: int| 0 <= i < q.len() implies
        (i < p1.len() ==> q[i] == p1[i])
        && (p1.len() <= i < p1.len() + p2.len() ==> q[i] == p2[i - p1.len()])
        && (p1.len() + p2.len() <= i ==> q[i] == p3[i - p1.len() - p2.len()]) by {
    }
    assert("filter[id]"@.len() == 10 && "pagination[limit]"@.len() == 17 && "pagination[offset]"@.len() == 18);
    assert forall|i: int| 0 <= i < q.len() && (#[trigger] q[i]).0 == "filter[id]"@ implies filter_id is Some by {
        if i >= p1.len() {
            assert(q[i].0.len() != 10);
        }
    }
    assert forall|i: int| 0 <= i < q.len() && (#[trigger] q[i]).0 == "pagination[limit]"@ implies limit is Some by {
        if i < p1.len() || i >= p1.len() + p2.len() {
            assert(q[i].0.len() != 17);
        }
    }
    assert forall|i: int| 0 <= i < q.len() && (#[trigger] q[i]).0 == "pagination[offset]"@ implies offset is Some by {
        if i < p1.len() + p2.len() {
            assert(q[i].0.len() != 18);
        }
    }
    if filter_id is Some {
        assert(q[0] == p1[0]);
    }
    if limit is Some {
        assert(q[p1.len() as int] == p2[0]);
    }
    if offset is Some {
        assert(q[(p1.len() + p2.len()) as int] == p3[0]);
    }
}

/// What a prepared request sends, for every method: POST, PUT and PATCH send the given
/// body, GET and DELETE send none; the JSON body is absent exactly when the sent body is
/// empty and otherwise holds its UTF-8 bytes; the `Merchant` header is the public key and
/// the `Signature` header is the signature of the sent body's bytes; the URL is the host
/// without trailing slashes, a slash and the path.
pub proof fn request_sends_its_body(
    api: SolidGateApi,
    base_url: Seq<char>,
    path: Seq<char>,
    method: HttpMethod,
    query: Seq<(Seq<char>, Seq<char>)>,
    body: Seq<char>,
)
    ensures
        ({
            let req = api.spec_signed_request(base_url, path, method, query, body);
            &&& (method is Post || method is Put || method is Patch) ==> req.body == body
            &&& (method is Get || method is Delete) ==> req.body.len() == 0
            &&& (req.json_body is None <==> req.body.len() == 0)
            &&& forall|bytes: Seq<u8>| req.json_body == Some(bytes) ==> bytes == encode_utf8(req.body)
            &&& req.method == method
            &&& req.query == query
            &&& req.timeout == api.timeout_value()
            &&& req.headers.len() == 4
            &&& req.headers[0] == ("Content-Type"@, "application/json"@)
            &&& req.headers[1] == ("Accept"@, "application/json"@)
            &&& req.headers[2] == ("Merchant"@, api.public_key_text())
            &&& req.headers[3] == ("Signature"@, spec_signature(api.public_key_text(), api.secret_key_text(), encode_utf8(req.body)))
            &&& req.url == trim_end_char(base_url, '/') + seq!['/'] + path
        }),
{
    reveal_strlit("/");
}

/// Trimming removes only trailing copies of the character, and all of them: the result
/// is a prefix of the text, everything after it is that character, and the result does
/// not end with it.
pub proof fn trim_end_char_removes_exactly_the_trailing_run(s: Seq<char>, c: char)
    ensures
        trim_end_char(s, c).len() <= s.len(),
        trim_end_char(s, c) == s.take(trim_end_char(s, c).len() as int),
        forall|i: int| trim_end_char(s, c).len() <= i < s.len() ==> s[i] == c,
        trim_end_char(s, c).len() == 0 || trim_end_char(s, c).last() != c,
    decreases s.len(),
{
    if s.len() > 0 && s.last() == c {
        trim_end_char_removes_exactly_the_trailing_run(s.drop_last(), c);
        let t = trim_end_char(s.drop_last(), c);
        assert(s.drop_last().take(t.len() as int) =~= s.take(t.len() as int));
        assert forall|i: int| t.len() <= i < s.len() implies s[i] == c by {
            if i < s.len() - 1 {
                assert(s.drop_last()[i] == s[i]);
            }
        }
    } else {
        assert(s.take(s.len() as int) =~= s);
    }
}

/// A response body that is well-formed UTF-8 is read as exactly the text it encodes (so
/// its bytes are the UTF-8 encoding of the text); any other body is an error.
pub proof fn response_text_is_the_decoded_body(bytes: Seq<u8>)
    ensures
        valid_utf8(bytes) ==> spec_response_text(bytes) == Ok::<Seq<char>, Seq<char>>(decode_utf8(bytes)),
        forall|text: Seq<char>| spec_response_text(bytes) == Ok::<Seq<char>, Seq<char>>(text) ==> encode_utf8(text) == bytes,
        !valid_utf8(bytes) ==> spec_response_text(bytes) is Err,
{
    if valid_utf8(bytes) {
        decode_utf8_encode_utf8(bytes);
    }
}

/// An error message begins with `SolidGate API error ` and the error's code, and ends
/// with the raw response; a status message begins with `Response code: ` and the status
/// in decimal, and ends with the raw response.
pub proof fn error_messages_name_cause_and_response(
    error: (Seq<char>, Seq<Seq<char>>),
    method: HttpMethod,
    status: u16,
    url: Seq<char>,
    public_key: Seq<char>,
    request_body: Seq<char>,
    response: Seq<char>,
)
    ensures
        ({
            let m = api_error_message(error, method, url, public_key, response);
            let head = "SolidGate API error "@ + error.0;
            &&& m.len() >= head.len() + response.len()
            &&& m.take(head.len() as int) == head
            &&& m.skip(m.len() - response.len()) == response
        }),
        ({
            let m = status_error_message(status, method, url, request_body, response);
            let head = "Response code: "@ + decimal_digits(status as nat);
            &&& m.len() >= head.len() + response.len()
            &&& m.take(head.len() as int) == head
            &&& m.skip(m.len() - response.len()) == response
        }),
{
    let m = api_error_message(error, method, url, public_key, response);
    let head = "SolidGate API error "@ + error.0;
    let mid = ": "@ + join_with(error.1, "; "@) + ". Url: "@ + method_name(method) + " "@ + url + ". merchant_prefix="@
        + str_debug_text(char_prefix(public_key, 12)) + ". Raw response: "@;
    assert(m =~= head + mid + response);
    assert(m.take(head.len() as int) =~= head);
    assert(m.skip(m.len() - response.len()) =~= response);
    let n = status_error_message(status, method, url, request_body, response);
    let head2 = "Response code: "@ + decimal_digits(status as nat);
    let mid2 = ". Url: "@ + method_name(method) + " "@ + url + ". Request: "@ + request_body + ". Response: "@;
    assert(n =~= head2 + mid2 + response);
    assert(n.take(head2.len() as int) =~= head2);
    assert(n.skip(n.len() - response.len()) =~= response);
}

/// The credentials summary shows of the public key only its first 12 characters, its
/// length in bytes and whether it begins or ends with white space: public keys that
/// agree on these give the same summary.
pub proof fn summary_shows_public_key_prefix_only(first_public: Seq<char>, second_public: Seq<char>, secret_key: Seq<char>)
    requires
        char_prefix(first_public, 12) == char_prefix(second_public, 12),
        encode_utf8(first_public).len() == encode_utf8(second_public).len(),
        has_edge_white_space(first_public) == has_edge_white_space(second_public),
    ensures
        credentials_summary(first_public, secret_key) == credentials_summary(second_public, secret_key),
{
}

/// A trailing slash on the host does not change the URL of a request.
pub proof fn trailing_slash_is_ignored(base_url: Seq<char>, path: Seq<char>)
    ensures
        request_url(base_url.push('/'), path) == request_url(base_url, path),
{
    assert(base_url.push('/').drop_last() =~= base_url);
}

/// An error object in the response body makes the answer an error, whatever the status.
pub proof fn error_object_always_fails(
    api: SolidGateApi,
    request: RequestView,
    status: u16,
    response: Seq<char>,
    error: (Seq<char>, Seq<Seq<char>>),
)
    ensures
        api.spec_response_outcome(request, status, response, Some(error)) is Err,
{
}

/// Without an error object, a status up to 299 gives the response body unchanged and
/// any higher status gives an error.
pub proof fn status_decides_without_error_object(
    api: SolidGateApi,
    request: RequestView,
    status: u16,
    response: Seq<char>,
)
    ensures
        status <= 299 ==> api.spec_response_outcome(request, status, response, None) == Ok::<Seq<char>, Seq<char>>(response),
        status > 299 ==> api.spec_response_outcome(request, status, response, None) is Err,
{
}

/// The credentials summary reveals of the secret key only its type tag (first 7
/// characters), its length in bytes and whether it begins or ends with white space:
/// secret keys that agree on these give the same summary.
pub proof fn summary_hides_secret_key(public_key: Seq<char>, first_secret: Seq<char>, second_secret: Seq<char>)
    requires
        char_prefix(first_secret, 7) == char_prefix(second_secret, 7),
        encode_utf8(first_secret).len() == encode_utf8(second_secret).len(),
        has_edge_white_space(first_secret) == has_edge_white_space(second_secret),
    ensures
        credentials_summary(public_key, first_secret) == credentials_summary(public_key, second_secret),
{
}

} // verus!
