//! Data carried between the dashboard and the remote session service, the
//! exact request URLs and headers of its four operations, and the
//! interpretation of their replies into the closed error taxonomy.

use vstd::prelude::*;
use vstd::string::StringExecFns;
use crate::config::Config;
use crate::errors::APIError;
use crate::strutil::{dec_of, join_comma, string_views, u32_to_dec};

verus! {

/// One row of remote state: a single connected session, immutable once
/// received; the whole page is replaced wholesale on every refresh.
#[derive(Clone, Default)]
pub struct Entry {
    pub id: String,
    pub user_name: String,
    pub machine_name: String,
    pub thread_id: i32,
    pub server: String,
    pub function: String,
    pub environment: String,
    pub date_time: String,
    pub time_up: String,
    pub instructions: i64,
    pub instructions_ps: i32,
    pub comments: String,
    pub memory: i32,
    pub s_id: String,
    pub id_ctree: i32,
    pub thread_type: String,
    pub inactive_time: String,
}

/// The body the remote service answers a message-send with.
pub struct MessageResponse {
    pub level: i32,
    pub message: Option<String>,
    pub data: Option<String>,
}

/// The credentials posted to the authentication endpoint.
pub struct AuthRequest {
    pub login: String,
    pub password: String,
    pub env: String,
}

/// A successful authentication reply.
pub struct AuthResponse {
    pub token: String,
}

/// The body of a rejected authentication reply.
pub struct AuthError {
    pub message: String,
}

/// The scheme, host and port every request is sent to.
pub open spec fn base_url_spec(c: Config) -> Seq<char> {
    "http://"@ + c.ip@ + ":"@ + c.porta@
}

/// The URL of the paginated session list.
pub open spec fn entries_url_spec(c: Config, page: u32, page_size: u32) -> Seq<char> {
    base_url_spec(c) + "/webmonitor/webmnt?page="@ + dec_of(page as nat) + "&pageSize="@ + dec_of(
        page_size as nat,
    )
}

/// The URL of the authentication endpoint.
pub open spec fn auth_url_spec(c: Config) -> Seq<char> {
    base_url_spec(c) + "/webmonitor/webmnt/auth"@
}

/// The URL that deletes the sessions of a comma-joined identifier list.
pub open spec fn delete_url_spec(c: Config, ids: Seq<Seq<char>>) -> Seq<char> {
    base_url_spec(c) + "/webmonitor/webmnt/"@ + join_comma(ids)
}

/// The URL that sends a message to a JSON-encoded identifier list.
pub open spec fn message_url_spec(c: Config, msg: Seq<char>, id_param: Seq<char>) -> Seq<char> {
    base_url_spec(c) + "/webmonitor/webmnt/msg?msg="@ + msg + "&id="@ + id_param
}

/// The scheme, host and port every request is sent to.
fn base_url(config: &Config) -> (r: String)
    ensures
        r@ == base_url_spec(*config),
{
    let mut r = String::from_str("http://");
    r.append(config.ip.as_str());
    r.append(":");
    r.append(config.porta.as_str());
    r
}

/// The exact URL of one page of the session list.
pub fn entries_url(config: &Config, page: u32, page_size: u32) -> (r: String)
    ensures
        r@ == entries_url_spec(*config, page, page_size),
{
    let mut r = base_url(config);
    r.append("/webmonitor/webmnt?page=");
    let p = u32_to_dec(page);
    r.append(p.as_str());
    r.append("&pageSize=");
    let s = u32_to_dec(page_size);
    r.append(s.as_str());
    r
}

/// The exact URL of the authentication endpoint.
pub fn auth_url(config: &Config) -> (r: String)
    ensures
        r@ == auth_url_spec(*config),
{
    let mut r = base_url(config);
    r.append("/webmonitor/webmnt/auth");
    r
}

/// The exact URL that deletes the sessions named by a list of identifiers.
pub fn delete_url(config: &Config, ids: &Vec<String>) -> (r: String)
    ensures
        r@ == delete_url_spec(*config, string_views(ids@)),
{
    let mut r = base_url(config);
    r.append("/webmonitor/webmnt/");
    let joined = crate::strutil::join_ids(ids);
    r.append(joined.as_str());
    r
}

/// The value of the authorization header for a given token.
pub fn auth_header_value(token: &str) -> (r: String)
    ensures
        r@ == "token: "@ + token@,
{
    let mut r = String::from_str("token: ");
    r.append(token);
    r
}

/// The JSON text of a list of identifiers.
pub uninterp spec fn json_of_ids(ids: Seq<Seq<char>>) -> Seq<char>;

/// Relies on serde_json::to_string: the JSON text of a list of strings is a
/// function of the list alone, and it always succeeds — by its own
/// documentation and source the serializer fails only when a `Serialize`
/// impl fails or a map has non-string keys, neither of which a list of
/// strings has.
#[verifier::external_body]
fn ids_json(ids: &Vec<String>) -> (r: Result<String, String>)
    ensures
        r is Ok,
        r matches Ok(s) ==> s@ == json_of_ids(string_views(ids@)),
{
    match serde_json::to_string(ids) {
        Ok(s) => Ok(s),
        Err(e) => Err(e.to_string()),
    }
}

/// The exact URL that sends a message to a list of identifiers, the list
/// JSON-encoded in the query. Building the URL always succeeds: encoding a
/// list of strings cannot fail.
pub fn message_url(config: &Config, ids: &Vec<String>, message: &str) -> (r: String)
    ensures
        r@ == message_url_spec(*config, message@, json_of_ids(string_views(ids@))),
{
    let id_param = match ids_json(ids) {
        Ok(s) => s,
        Err(_) => vstd::pervasive::unreached(),
    };
    let mut r = base_url(config);
    r.append("/webmonitor/webmnt/msg?msg=");
    r.append(message);
    r.append("&id=");
    r.append(id_param.as_str());
    r
}

/// The credentials posted to authenticate, taken from the configuration.
pub fn build_auth_request(config: &Config) -> (r: AuthRequest)
    ensures
        r.login == config.login,
        r.password == config.password,
        r.env == config.enviorment,
{
    AuthRequest {
        login: config.login.clone(),
        password: config.password.clone(),
        env: config.enviorment.clone(),
    }
}

/// A list reply as the transport hands it over: the send may fail, and a
/// received body may fail to parse.
pub enum ListReply {
    Transport(String),
    Malformed(String),
    Parsed(Vec<Entry>),
}

/// Interprets the session-list reply: the entries when a body arrived and
/// parsed, a transport failure or a parse failure otherwise — each mapped
/// to its own taxonomy variant.
pub fn interpret_list_reply(reply: ListReply) -> (r: Result<Vec<Entry>, APIError>)
    ensures
        reply matches ListReply::Parsed(v) ==> (r matches Ok(e) && e == v),
        reply matches ListReply::Malformed(p) ==> (r matches Err(e) && e
            matches APIError::ParsingError(s) && s == p),
        reply matches ListReply::Transport(t) ==> (r matches Err(e) && e
            matches APIError::RequestError(s) && s == t),
{
    match reply {
        ListReply::Parsed(v) => Ok(v),
        ListReply::Malformed(p) => Err(APIError::ParsingError(p)),
        ListReply::Transport(t) => Err(APIError::RequestError(t)),
    }
}

/// An authentication reply as the transport hands it over: the send may
/// fail; a rejection carries its parsed body or a parse failure; an
/// acceptance likewise.
pub enum AuthReply {
    Transport(String),
    Rejected(Result<AuthError, String>),
    Accepted(Result<AuthResponse, String>),
}

/// Interprets the authentication reply: the token exactly when the service
/// accepted and the body parsed; a rejection surfaces the server's own
/// message as an authentication failure, distinct from transport and parse
/// failures.
pub fn interpret_auth_reply(reply: AuthReply) -> (r: Result<String, APIError>)
    ensures
        reply matches AuthReply::Transport(t) ==> (r matches Err(e) && e
            matches APIError::RequestError(s) && s == t),
        reply matches AuthReply::Rejected(body) ==> (match body {
            Ok(a) => r matches Err(e) && e matches APIError::AuthFail(m) && m == a.message,
            Err(p) => r matches Err(e) && e matches APIError::ParsingError(s) && s == p,
        }),
        reply matches AuthReply::Accepted(body) ==> (match body {
            Ok(a) => r matches Ok(t) && t == a.token,
            Err(p) => r matches Err(e) && e matches APIError::ParsingError(s) && s == p,
        }),
{
    match reply {
        AuthReply::Transport(t) => Err(APIError::RequestError(t)),
        AuthReply::Rejected(body) => match body {
            Ok(a) => Err(APIError::AuthFail(a.message)),
            Err(p) => Err(APIError::ParsingError(p)),
        },
        AuthReply::Accepted(body) => match body {
            Ok(a) => Ok(a.token),
            Err(p) => Err(APIError::ParsingError(p)),
        },
    }
}

/// Interprets the delete reply: the request is fire-and-forget, so only a
/// transport failure is reported.
pub fn interpret_delete_reply(reply: Result<(), String>) -> (r: Option<APIError>)
    ensures
        reply is Ok ==> r is None,
        reply matches Err(t) ==> (r matches Some(e) && e matches APIError::RequestError(s) && s
            == t),
{
    match reply {
        Ok(_) => None,
        Err(t) => Some(APIError::RequestError(t)),
    }
}

/// The server's message in a send reply; empty when it sent none.
pub open spec fn server_message(m: MessageResponse) -> Seq<char> {
    match m.message {
        Option::Some(s) => s@,
        Option::None => Seq::empty(),
    }
}

/// A message-send reply as the transport hands it over: the send may fail;
/// a reply with a non-success status carries its parsed body or a parse
/// failure; a success likewise.
pub enum SendReply {
    Transport(String),
    Rejected(Result<MessageResponse, String>),
    Accepted(Result<MessageResponse, String>),
}

/// Interprets the message-send reply: the parsed body exactly when the
/// status was a success and the body parsed. A non-success status is never
/// silent success: it is a failure carrying the server-provided message
/// body. A body that fails to parse is reported as a failure of the
/// asynchronous read, a transport error as a request failure.
pub fn interpret_send_reply(reply: SendReply) -> (r: Result<MessageResponse, APIError>)
    ensures
        reply matches SendReply::Transport(t) ==> (r matches Err(e) && e
            matches APIError::RequestError(s) && s == t),
        reply matches SendReply::Rejected(body) ==> (match body {
            Ok(m) => r matches Err(e) && e matches APIError::RequestError(s) && s@
                == server_message(m),
            Err(p) => r matches Err(e) && e matches APIError::AsyncError(s) && s == p,
        }),
        reply matches SendReply::Accepted(body) ==> (match body {
            Ok(m) => r matches Ok(out) && out == m,
            Err(p) => r matches Err(e) && e matches APIError::AsyncError(s) && s == p,
        }),
{
    match reply {
        SendReply::Transport(t) => Err(APIError::RequestError(t)),
        SendReply::Rejected(body) => match body {
            Ok(m) => match m.message {
                Some(s) => Err(APIError::RequestError(s)),
                Option::None => Err(APIError::RequestError(String::new())),
            },
            Err(p) => Err(APIError::AsyncError(p)),
        },
        SendReply::Accepted(body) => match body {
            Ok(m) => Ok(m),
            Err(p) => Err(APIError::AsyncError(p)),
        },
    }
}

} // verus!
