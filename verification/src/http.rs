//! The line-level request protocol: what one request text means, what it does
//! to the store, and what is written back.

use vstd::prelude::*;
use vstd::string::*;

use crate::json::PutDecode;
use crate::json::PutDecodeModel;
use crate::json::decode_put_object;
use crate::json::put_decode;
use crate::parse::find_char_from;
use crate::parse::find_sep;
use crate::parse::first_char_from;
use crate::parse::first_sep_from;
use crate::parse::is_get;
use crate::parse::is_put;
use crate::parse::lemma_first_char_from;
use crate::parse::lemma_first_sep_from;
use crate::parse::spec_is_get;
use crate::parse::spec_is_put;
use crate::render::render_model;
use crate::render::render_value;
use crate::store::Store;
use crate::store::Value;
use crate::store::ValueModel;
use crate::store::lookup;

verus! {

/// The status of a reply: the only two the protocol uses.
#[derive(Clone, Copy, Debug, PartialEq, Eq, Structural)]
pub enum Status {
    Success,
    BadRequest,
}

/// One reply: a status and a plain-text body.
#[derive(Debug, PartialEq, Eq)]
pub struct Response {
    pub status: Status,
    pub body: String,
}

/// The mathematical shape of a [`Response`].
#[verifier::ext_equal]
pub struct ResponseModel {
    pub status: Status,
    pub body: Seq<char>,
}

impl View for Response {
    type V = ResponseModel;

    open spec fn view(&self) -> ResponseModel {
        ResponseModel { status: self.status, body: self.body@ }
    }
}

pub open spec fn put_ok_msg() -> Seq<char> {
    "PUT successful"@
}

pub open spec fn invalid_json_msg() -> Seq<char> {
    "Invalid JSON"@
}

pub open spec fn invalid_body_msg() -> Seq<char> {
    "Invalid request body"@
}

pub open spec fn invalid_get_msg() -> Seq<char> {
    "Invalid GET request"@
}

pub open spec fn invalid_request_msg() -> Seq<char> {
    "Invalid request"@
}

pub open spec fn get_prefix() -> Seq<char> {
    "GET result: "@
}

/// The body section of a PUT request: the text between the first blank-line
/// separator and the next one (or the end), absent when no separator stands
/// in the request.
pub open spec fn put_body_section(req: Seq<char>) -> Option<Seq<char>> {
    match first_sep_from(req, 0) {
        None => None,
        Some(i) => {
            let start = i + 4;
            let end = match first_sep_from(req, start) {
                Some(j) => j,
                None => req.len() as int,
            };
            Some(req.subrange(start, end))
        },
    }
}

/// The JSON text taken from a body section: everything before the first `}`,
/// with a `}` put back — a defensive cut that drops trailing bytes after one
/// flat object.
pub open spec fn put_json_text(section: Seq<char>) -> Seq<char> {
    match first_char_from(section, 0, '}') {
        Some(k) => section.subrange(0, k) + seq!['}'],
        None => section + seq!['}'],
    }
}

/// The lookup key of a GET request: within the text after the first `?`
/// (cut at the next `?`, then at the first space), the part after the first
/// `=` up to a second `=` or the end; empty when no `=` stands there; absent
/// when the request carries no `?` at all.
pub open spec fn get_query_key(req: Seq<char>) -> Option<Seq<char>> {
    match first_char_from(req, 0, '?') {
        None => None,
        Some(q) => {
            let e1 = match first_char_from(req, q + 1, '?') {
                Some(x) => x,
                None => req.len() as int,
            };
            let seg1 = req.subrange(q + 1, e1);
            let e2 = match first_char_from(seg1, 0, ' ') {
                Some(x) => x,
                None => seg1.len() as int,
            };
            let seg2 = seg1.subrange(0, e2);
            Some(
                match first_char_from(seg2, 0, '=') {
                    None => Seq::<char>::empty(),
                    Some(e) => {
                        let e3 = match first_char_from(seg2, e + 1, '=') {
                            Some(x) => x,
                            None => seg2.len() as int,
                        };
                        seg2.subrange(e + 1, e3)
                    },
                },
            )
        },
    }
}

/// What one request text asks of the server.
#[verifier::ext_equal]
pub enum Outcome {
    /// A well-formed PUT: store `value` at `key` and reply success.
    Stored { key: Seq<char>, value: ValueModel },
    /// A GET with a query: look `key` up and reply with its rendering.
    Queried { key: Seq<char> },
    /// A shape error, answered with a 400 reply carrying `body`.
    Refused { body: Seq<char> },
    /// A PUT whose body is not decodable JSON: the handler stops without
    /// a reply.
    Aborted,
}

/// The meaning of a request text.
pub open spec fn outcome_of(req: Seq<char>) -> Outcome {
    if spec_is_put(req) {
        match put_body_section(req) {
            None => Outcome::Refused { body: invalid_body_msg() },
            Some(section) => match put_decode(put_json_text(section)) {
                PutDecodeModel::Malformed => Outcome::Aborted,
                PutDecodeModel::MissingField => Outcome::Refused { body: invalid_json_msg() },
                PutDecodeModel::Object { key, value } => Outcome::Stored { key, value },
            },
        }
    } else if spec_is_get(req) {
        match get_query_key(req) {
            None => Outcome::Refused { body: invalid_get_msg() },
            Some(k) => Outcome::Queried { key: k },
        }
    } else {
        Outcome::Refused { body: invalid_request_msg() }
    }
}

/// Cut the body section of a PUT request out, if one is there.
fn put_body_section_exec<'a>(req: &'a str) -> (r: Option<&'a str>)
    ensures
        ({
            match r {
                Some(section) => put_body_section(req@) == Some(section@),
                None => put_body_section(req@) is None,
            }
        }),
{
    let n = req.unicode_len();
    match find_sep(req, 0) {
        None => None,
        Some(i) => {
            proof {
                lemma_first_sep_from(req@, 0);
            }
            let start = i + 4;
            let end = match find_sep(req, start) {
                Some(j) => {
                    proof {
                        lemma_first_sep_from(req@, start as int);
                    }
                    j
                },
                None => n,
            };
            Some(req.substring_char(start, end))
        },
    }
}

/// Cut the JSON text out of a body section: up to the first `}`, a `}`
/// appended.
fn put_json_text_exec(section: &str) -> (r: String)
    ensures
        r@ == put_json_text(section@),
{
    proof {
        reveal_strlit("}");
        assert("}"@ =~= seq!['}']);
    }
    match find_char_from(section, 0, '}') {
        Some(k) => {
            proof {
                lemma_first_char_from(section@, 0, '}');
            }
            let r = String::from_str(section.substring_char(0, k)).concat("}");
            proof {
                assert(r@ =~= put_json_text(section@));
            }
            r
        },
        None => {
            let r = String::from_str(section).concat("}");
            proof {
                assert(r@ =~= put_json_text(section@));
            }
            r
        },
    }
}

/// Pull the lookup key out of a GET request, if a query string is there.
fn get_query_key_exec(req: &str) -> (r: Option<String>)
    ensures
        ({
            match r {
                Some(k) => get_query_key(req@) == Some(k@),
                None => get_query_key(req@) is None,
            }
        }),
{
    let n = req.unicode_len();
    match find_char_from(req, 0, '?') {
        None => None,
        Some(q) => {
            proof {
                lemma_first_char_from(req@, 0, '?');
            }
            let e1 = match find_char_from(req, q + 1, '?') {
                Some(x) => {
                    proof {
                        lemma_first_char_from(req@, q as int + 1, '?');
                    }
                    x
                },
                None => n,
            };
            let seg1 = req.substring_char(q + 1, e1);
            let e2 = match find_char_from(seg1, 0, ' ') {
                Some(x) => {
                    proof {
                        lemma_first_char_from(seg1@, 0, ' ');
                    }
                    x
                },
                None => seg1.unicode_len(),
            };
            let seg2 = seg1.substring_char(0, e2);
            match find_char_from(seg2, 0, '=') {
                None => Some(String::new()),
                Some(e) => {
                    proof {
                        lemma_first_char_from(seg2@, 0, '=');
                    }
                    let e3 = match find_char_from(seg2, e + 1, '=') {
                        Some(x) => {
                            proof {
                                lemma_first_char_from(seg2@, e as int + 1, '=');
                            }
                            x
                        },
                        None => seg2.unicode_len(),
                    };
                    Some(String::from_str(seg2.substring_char(e + 1, e3)))
                },
            }
        },
    }
}

/// What a request asks the handler to do, decided before any store access:
/// the executable counterpart of [`Outcome`].
pub enum Command {
    DoPut { key: String, value: Value },
    DoGet { key: String },
    Respond { resp: Response },
    Abort,
}

/// Decide what one request text asks for. No store access happens here, so
/// the shared handler can take the lock only for the operation itself.
pub fn interpret_request(req: &str) -> (c: Command)
    ensures
        ({
            match outcome_of(req@) {
                Outcome::Stored { key, value } => c matches Command::DoPut { key: k, value: v }
                    && k@ == key && v@ == value,
                Outcome::Queried { key } => c matches Command::DoGet { key: k } && k@ == key,
                Outcome::Refused { body } => c matches Command::Respond { resp } && resp@.status
                    == Status::BadRequest && resp@.body == body,
                Outcome::Aborted => c is Abort,
            }
        }),
{
    if is_put(req) {
        match put_body_section_exec(req) {
            None => Command::Respond {
                resp: Response {
                    status: Status::BadRequest,
                    body: String::from_str("Invalid request body"),
                },
            },
            Some(section) => {
                let text = put_json_text_exec(section);
                match decode_put_object(text.as_str()) {
                    PutDecode::Malformed => Command::Abort,
                    PutDecode::MissingField => Command::Respond {
                        resp: Response {
                            status: Status::BadRequest,
                            body: String::from_str("Invalid JSON"),
                        },
                    },
                    PutDecode::Object { key, value } => Command::DoPut { key, value },
                }
            },
        }
    } else if is_get(req) {
        match get_query_key_exec(req) {
            None => Command::Respond {
                resp: Response {
                    status: Status::BadRequest,
                    body: String::from_str("Invalid GET request"),
                },
            },
            Some(key) => Command::DoGet { key },
        }
    } else {
        Command::Respond {
            resp: Response { status: Status::BadRequest, body: String::from_str("Invalid request") },
        }
    }
}

/// The success reply to a PUT that went through.
pub fn put_ok_response() -> (resp: Response)
    ensures
        resp@.status == Status::Success,
        resp@.body == put_ok_msg(),
{
    Response { status: Status::Success, body: String::from_str("PUT successful") }
}

/// The success reply to a GET: the rendering of what the lookup yielded.
pub fn get_response(v: &Value) -> (resp: Response)
    ensures
        resp@.status == Status::Success,
        resp@.body == get_prefix() + render_model(v@),
{
    let body = String::from_str("GET result: ").concat(render_value(v).as_str());
    Response { status: Status::Success, body }
}

/// Handle one request against the store.
///
/// The reply and the store's new state follow [`outcome_of`] exactly; `None`
/// stands for a PUT whose body did not decode, after which the connection is
/// dropped without a reply, as the protocol's error policy says.
pub fn handle_request(req: &str, store: &mut Store) -> (r: Option<Response>)
    requires
        old(store).wf(),
    ensures
        final(store).wf(),
        ({
            match outcome_of(req@) {
                Outcome::Stored { key, value } => {
                    &&& final(store)@ == old(store)@.insert(key, value)
                    &&& r matches Some(resp) && resp@.status == Status::Success && resp@.body
                        == put_ok_msg()
                },
                Outcome::Queried { key } => {
                    &&& final(store)@ == old(store)@
                    &&& r matches Some(resp) && resp@.status == Status::Success && resp@.body
                        == get_prefix() + render_model(lookup(old(store)@, key))
                },
                Outcome::Refused { body } => {
                    &&& final(store)@ == old(store)@
                    &&& r matches Some(resp) && resp@.status == Status::BadRequest && resp@.body
                        == body
                },
                Outcome::Aborted => {
                    &&& final(store)@ == old(store)@
                    &&& r is None
                },
            }
        }),
{
    match interpret_request(req) {
        Command::DoPut { key, value } => {
            store.put(key, value);
            Some(put_ok_response())
        },
        Command::DoGet { key } => {
            let v = store.get(&key);
            Some(get_response(&v))
        },
        Command::Respond { resp } => Some(resp),
        Command::Abort => None,
    }
}

/// The status line a reply starts with.
pub open spec fn status_line_model(st: Status) -> Seq<char> {
    match st {
        Status::Success => "HTTP/1.1 200 OK"@,
        Status::BadRequest => "HTTP/1.1 400 Bad Request"@,
    }
}

/// The full text written back for a reply: the status line, the one header,
/// a blank line, the body.
pub open spec fn response_text(rm: ResponseModel) -> Seq<char> {
    status_line_model(rm.status) + "\r\nContent-Type: text/plain\r\n\r\n"@ + rm.body
}

/// Format a reply as the text the connection sends.
pub fn format_response(resp: &Response) -> (out: String)
    ensures
        out@ == response_text(resp@),
{
    let line = match resp.status {
        Status::Success => String::from_str("HTTP/1.1 200 OK"),
        Status::BadRequest => String::from_str("HTTP/1.1 400 Bad Request"),
    };
    line.concat("\r\nContent-Type: text/plain\r\n\r\n").concat(resp.body.as_str())
}

} // verus!
