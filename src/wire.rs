use vstd::prelude::*;
use vstd::string::*;

use crate::session::{ServerError, ServerErrorView};

verus! {

/// The token reply the lobby server sends when it grants a session.
pub struct SuccessfulTokenResponse {
    pub result: String,
    pub token_value: String,
}

/// The reply the lobby server sends when it turns a token request down.
pub struct ErrorResponse {
    pub detail: String,
}

/// The JSON text of a string value (quoted and escaped) as the `json` crate
/// writes it.
pub uninterp spec fn json_string_text(s: Seq<char>) -> Seq<char>;

/// The percent-encoded form of a text as the `urlencoding` crate writes it.
pub uninterp spec fn percent_encoded(s: Seq<char>) -> Seq<char>;

/// The `(result, token_value)` pair of a reply of the success shape, if the
/// text is one.
pub uninterp spec fn success_reply_of(body: Seq<char>) -> Option<(Seq<char>, Seq<char>)>;

/// The `detail` of a reply of the error shape, if the text is one.
pub uninterp spec fn error_reply_of(body: Seq<char>) -> Option<Seq<char>>;

/// Relies on `json::stringify` applied to a `&str`: it writes the string as
/// one JSON string value, which depends on the text alone.
#[verifier::external_body]
fn json_string(s: &str) -> (r: String)
    ensures
        r@ == json_string_text(s@),
{
    json::stringify(s)
}

/// Relies on `urlencoding::encode`: every byte but ASCII alphanumerics and
/// `-`, `_`, `.`, `~` is written as `%XX`; the result depends on the text alone.
#[verifier::external_body]
fn percent_encode(s: &str) -> (r: String)
    ensures
        r@ == percent_encoded(s@),
{
    urlencoding::encode(s).into_owned()
}

/// Relies on `serde_json::from_str` into a `serde_json::Value`, and on that
/// value's `get` and `as_str`: the text is of the success shape when it is a
/// JSON object whose `result` and `token_value` members are both strings.
#[verifier::external_body]
fn parse_success_reply(body: &str) -> (r: Option<SuccessfulTokenResponse>)
    ensures
        match r {
            Some(reply) => success_reply_of(body@) == Some((reply.result@, reply.token_value@)),
            None => success_reply_of(body@) is None,
        },
{
    let value: serde_json::Value = serde_json::from_str(body).ok()?;
    let result = value.get("result")?.as_str()?.to_string();
    let token_value = value.get("token_value")?.as_str()?.to_string();
    Some(SuccessfulTokenResponse { result, token_value })
}

/// Relies on `serde_json::from_str` into a `serde_json::Value`, and on that
/// value's `get` and `as_str`: the text is of the error shape when it is a
/// JSON object whose `detail` member is a string.
#[verifier::external_body]
fn parse_error_reply(body: &str) -> (r: Option<ErrorResponse>)
    ensures
        match r {
            Some(reply) => error_reply_of(body@) == Some(reply.detail@),
            None => error_reply_of(body@) is None,
        },
{
    let value: serde_json::Value = serde_json::from_str(body).ok()?;
    let detail = value.get("detail")?.as_str()?.to_string();
    Some(ErrorResponse { detail })
}

/// `"https://<domain>/teiserver/api/request_token"`.
pub open spec fn token_request_url(domain: Seq<char>) -> Seq<char> {
    "https://"@ + domain + "/teiserver/api/request_token"@
}

/// `"https://<domain>/teiserver/api/disconnect"`.
pub open spec fn disconnect_url(domain: Seq<char>) -> Seq<char> {
    "https://"@ + domain + "/teiserver/api/disconnect"@
}

/// The JSON body of a token request, members in this order:
/// `cmd`, `email`, `password`, and a time to live of one day in seconds.
pub open spec fn token_request_body(email: Seq<char>, password: Seq<char>) -> Seq<char> {
    "{\"cmd\":\"c.auth.get_token\",\"email\":"@ + json_string_text(email) + ",\"password\":"@
        + json_string_text(password) + ",\"ttl\":\"86400\"}"@
}

/// The JSON body of a disconnect request.
pub open spec fn disconnect_body() -> Seq<char> {
    "{\"command\":\"disconnect\"}"@
}

/// The realtime channel's address, carrying the token and the client's identity.
pub open spec fn channel_url(domain: Seq<char>, token: Seq<char>) -> Seq<char> {
    "wss://"@ + domain + "/tachyon/websocket/?token="@ + percent_encoded(token)
        + "&client_hash=ef37ced34460ba9db08eeacc323f07386ad68402&client_name=bar-autohost"@
}

pub open spec fn rejected_message(detail: Seq<char>) -> Seq<char> {
    "Error received for token request: "@ + detail
}

pub open spec fn unknown_reply_message(body: Seq<char>) -> Seq<char> {
    "Unknown response for token request: "@ + body
}

pub open spec fn empty_token_message() -> Seq<char> {
    "Empty token received for token request"@
}

/// What a token reply comes to: the success shape first, then the error
/// shape, then neither. A granted token must be non-empty, since an empty
/// token stands for "no session".
pub open spec fn token_outcome(
    success: Option<(Seq<char>, Seq<char>)>,
    error: Option<Seq<char>>,
    body: Seq<char>,
) -> Result<Seq<char>, ServerErrorView> {
    match success {
        Some(pair) => if pair.1.len() > 0 {
            Ok(pair.1)
        } else {
            Err(ServerErrorView::AuthRejected(empty_token_message()))
        },
        None => match error {
            Some(detail) => Err(ServerErrorView::AuthRejected(rejected_message(detail))),
            None => Err(ServerErrorView::AuthRejected(unknown_reply_message(body))),
        },
    }
}

pub open spec fn token_result_view(r: Result<String, ServerError>) -> Result<Seq<char>, ServerErrorView> {
    match r {
        Ok(token) => Ok(token@),
        Err(e) => Err(e@),
    }
}

/// The outcome of a token reply, read from its text.
pub open spec fn token_reply_outcome(body: Seq<char>) -> Result<Seq<char>, ServerErrorView> {
    token_outcome(success_reply_of(body), error_reply_of(body), body)
}

pub fn token_request_url_for(domain: &str) -> (r: String)
    ensures
        r@ == token_request_url(domain@),
{
    let mut url = String::from_str("https://");
    url.append(domain);
    url.append("/teiserver/api/request_token");
    url
}

pub fn disconnect_url_for(domain: &str) -> (r: String)
    ensures
        r@ == disconnect_url(domain@),
{
    let mut url = String::from_str("https://");
    url.append(domain);
    url.append("/teiserver/api/disconnect");
    url
}

pub fn token_request_body_for(email: &str, password: &str) -> (r: String)
    ensures
        r@ == token_request_body(email@, password@),
{
    let mut body = String::from_str("{\"cmd\":\"c.auth.get_token\",\"email\":");
    let email_text = json_string(email);
    body.append(email_text.as_str());
    body.append(",\"password\":");
    let password_text = json_string(password);
    body.append(password_text.as_str());
    body.append(",\"ttl\":\"86400\"}");
    body
}

pub fn disconnect_body_text() -> (r: String)
    ensures
        r@ == disconnect_body(),
{
    String::from_str("{\"command\":\"disconnect\"}")
}

pub fn channel_url_for(domain: &str, token: &str) -> (r: String)
    ensures
        r@ == channel_url(domain@, token@),
{
    let mut url = String::from_str("wss://");
    url.append(domain);
    url.append("/tachyon/websocket/?token=");
    let encoded = percent_encode(token);
    url.append(encoded.as_str());
    url.append("&client_hash=ef37ced34460ba9db08eeacc323f07386ad68402&client_name=bar-autohost");
    url
}

/// Decides a token reply from its two readings: a reply of the success shape
/// gives its token, one of the error shape is refused with its detail, and any
/// other text is refused with the text itself.
pub fn read_token_reply(
    success: Option<SuccessfulTokenResponse>,
    error: Option<ErrorResponse>,
    body: &str,
) -> (r: Result<String, ServerError>)
    ensures
        token_result_view(r) == token_outcome(
            match success {
                Some(s) => Some((s.result@, s.token_value@)),
                None => None,
            },
            match error {
                Some(e) => Some(e.detail@),
                None => None,
            },
            body@,
        ),
{
    match success {
        Some(reply) => {
            if !reply.token_value.as_str().is_empty() {
                Ok(reply.token_value)
            } else {
                Err(ServerError::AuthRejected(String::from_str("Empty token received for token request")))
            }
        },
        None => match error {
            Some(reply) => {
                let mut message = String::from_str("Error received for token request: ");
                message.append(reply.detail.as_str());
                Err(ServerError::AuthRejected(message))
            },
            None => {
                let mut message = String::from_str("Unknown response for token request: ");
                message.append(body);
                Err(ServerError::AuthRejected(message))
            },
        },
    }
}

/// Reads a token reply: the success shape takes priority over the error shape,
/// which takes priority over an unknown reply.
pub fn parse_token_reply(body: &str) -> (r: Result<String, ServerError>)
    ensures
        token_result_view(r) == token_reply_outcome(body@),
{
    let success = parse_success_reply(body);
    let error = parse_error_reply(body);
    read_token_reply(success, error, body)
}

} // verus!
