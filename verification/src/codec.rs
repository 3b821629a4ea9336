//! The message codec: a line of text to a request, a response to a line of text.

use crate::json::{
    member, member_text, members_view, option_view, same_text, Json, JsonView, NumberView,
};
use crate::text::{json_parse, json_text, one_line, parse, print};
use vstd::prelude::*;

verus! {

/// Why a line is not a request.
#[derive(Clone, Copy, Debug, PartialEq, Eq)]
pub enum DecodeError {
    /// The line is not JSON text.
    InvalidJson,
    /// The line is JSON, but not an object.
    NotAnObject,
    /// The member `jsonrpc` is missing or is not a string.
    InvalidJsonrpc,
    /// The member `method` is missing or is not a string.
    InvalidMethod,
}

/// A decoded request. `id` and `params` are absent where the line leaves them
/// out or gives them as `null`.
#[derive(Debug, PartialEq)]
pub struct Request {
    pub jsonrpc: String,
    pub method: String,
    pub id: Option<Json>,
    pub params: Option<Json>,
}

/// The model of a [`Request`].
pub struct RequestView {
    pub jsonrpc: Seq<char>,
    pub method: Seq<char>,
    pub id: Option<JsonView>,
    pub params: Option<JsonView>,
}

impl View for Request {
    type V = RequestView;

    open spec fn view(&self) -> RequestView {
        RequestView {
            jsonrpc: self.jsonrpc@,
            method: self.method@,
            id: option_view(self.id),
            params: option_view(self.params),
        }
    }
}

/// The model of the outcome of decoding.
pub open spec fn decoded_view(outcome: Result<Request, DecodeError>) -> Result<
    RequestView,
    DecodeError,
> {
    match outcome {
        Ok(request) => Ok(request@),
        Err(error) => Err(error),
    }
}

/// The member `key` where it is there and is not `null`.
pub open spec fn optional_member(value: JsonView, key: Seq<char>) -> Option<JsonView> {
    match member(value, key) {
        Some(JsonView::Null) => None,
        found => found,
    }
}

/// The request that a JSON value stands for: an object whose `jsonrpc` and
/// `method` are strings. Other members than the four of a request are ignored.
pub open spec fn request_of(value: JsonView) -> Result<RequestView, DecodeError> {
    if !(value is Object) {
        Err(DecodeError::NotAnObject)
    } else {
        match member_text(value, "jsonrpc"@) {
            None => Err(DecodeError::InvalidJsonrpc),
            Some(jsonrpc) => match member_text(value, "method"@) {
                None => Err(DecodeError::InvalidMethod),
                Some(method) => Ok(
                    RequestView {
                        jsonrpc,
                        method,
                        id: optional_member(value, "id"@),
                        params: optional_member(value, "params"@),
                    },
                ),
            },
        }
    }
}

/// The request that a line stands for, given what the JSON parser made of it.
pub open spec fn request_of_parsed(parsed: Option<JsonView>) -> Result<RequestView, DecodeError> {
    match parsed {
        None => Err(DecodeError::InvalidJson),
        Some(value) => request_of(value),
    }
}

/// The four member names of a request are pairwise different.
pub proof fn lemma_request_keys_differ()
    ensures
        "jsonrpc"@ != "method"@,
        "jsonrpc"@ != "id"@,
        "jsonrpc"@ != "params"@,
        "method"@ != "id"@,
        "method"@ != "params"@,
        "id"@ != "params"@,
{
    reveal_strlit("jsonrpc");
    reveal_strlit("method");
    reveal_strlit("id");
    reveal_strlit("params");
    assert("jsonrpc"@.len() == 7 && "method"@.len() == 6 && "id"@.len() == 2);
    assert("method"@[0] != "params"@[0]);
}

/// The members of a request that an object's first `count` members give.
spec fn slot(all: Seq<(String, Json)>, count: int, key: Seq<char>) -> Option<JsonView> {
    member(JsonView::Object(members_view(all.take(count))), key)
}

proof fn lemma_slot_step(all: Seq<(String, Json)>, count: int, key: Seq<char>)
    requires
        0 <= count < all.len(),
    ensures
        slot(all, count + 1, key) == if all[count].0@ == key {
            Some(all[count].1@)
        } else {
            slot(all, count, key)
        },
{
    assert(all.take(count + 1).drop_last() =~= all.take(count));
}

/// Reads a request out of a parsed line.
pub fn request_from_json(value: Json) -> (outcome: Result<Request, DecodeError>)
    ensures
        decoded_view(outcome) == request_of(value@),
{
    match value {
        Json::Object(members) => {
            let ghost all = members@;
            let mut jsonrpc: Option<Json> = None;
            let mut method: Option<Json> = None;
            let mut id: Option<Json> = None;
            let mut params: Option<Json> = None;
            proof {
                lemma_request_keys_differ();
            }
            for entry in it: members
                invariant
                    it.seq() == all,
                    option_view(jsonrpc) == slot(all, it.index() as int, "jsonrpc"@),
                    option_view(method) == slot(all, it.index() as int, "method"@),
                    option_view(id) == slot(all, it.index() as int, "id"@),
                    option_view(params) == slot(all, it.index() as int, "params"@),
                    "jsonrpc"@ != "method"@,
                    "jsonrpc"@ != "id"@,
                    "jsonrpc"@ != "params"@,
                    "method"@ != "id"@,
                    "method"@ != "params"@,
                    "id"@ != "params"@,
            {
                proof {
                    lemma_slot_step(all, it.index() as int, "jsonrpc"@);
                    lemma_slot_step(all, it.index() as int, "method"@);
                    lemma_slot_step(all, it.index() as int, "id"@);
                    lemma_slot_step(all, it.index() as int, "params"@);
                }
                let (name, item) = entry;
                if same_text(name.as_str(), "jsonrpc") {
                    jsonrpc = Some(item);
                } else if same_text(name.as_str(), "method") {
                    method = Some(item);
                } else if same_text(name.as_str(), "id") {
                    id = Some(item);
                } else if same_text(name.as_str(), "params") {
                    params = Some(item);
                }
            }
            proof {
                assert(all.take(all.len() as int) =~= all);
            }
            let jsonrpc = match jsonrpc {
                Some(Json::String(text)) => text,
                _ => { return Err(DecodeError::InvalidJsonrpc); },
            };
            let method = match method {
                Some(Json::String(text)) => text,
                _ => { return Err(DecodeError::InvalidMethod); },
            };
            let id = match id {
                Some(Json::Null) => None,
                found => found,
            };
            let params = match params {
                Some(Json::Null) => None,
                found => found,
            };
            Ok(Request { jsonrpc, method, id, params })
        },
        _ => Err(DecodeError::NotAnObject),
    }
}

/// Reads a request out of what the JSON parser made of a line.
pub fn request_from_parsed(parsed: Option<Json>) -> (outcome: Result<Request, DecodeError>)
    ensures
        decoded_view(outcome) == request_of_parsed(option_view(parsed)),
{
    match parsed {
        Some(value) => request_from_json(value),
        None => Err(DecodeError::InvalidJson),
    }
}

/// Decodes one line of text into a request.
pub fn decode_request(line: &str) -> (outcome: Result<Request, DecodeError>)
    ensures
        decoded_view(outcome) == request_of_parsed(json_parse(line@)),
{
    request_from_parsed(parse(line))
}

/// The kinds of failure that a request can meet.
#[derive(Clone, Copy, Debug, PartialEq, Eq)]
pub enum ErrorKind {
    /// The line is not a request.
    ParseError,
    /// The method is not one the server knows.
    MethodNotFound,
    /// The method needs `params` and the request has none.
    InvalidParams,
    /// A tool or a resource failed.
    InternalError,
}

impl ErrorKind {
    /// The JSON-RPC code of each kind.
    pub open spec fn code_of(self) -> int {
        match self {
            ErrorKind::ParseError => -32700,
            ErrorKind::MethodNotFound => -32601,
            ErrorKind::InvalidParams => -32602,
            ErrorKind::InternalError => -32603,
        }
    }

    /// The JSON-RPC code of this kind.
    pub fn code(self) -> (code: i32)
        ensures
            code == self.code_of(),
    {
        match self {
            ErrorKind::ParseError => -32700,
            ErrorKind::MethodNotFound => -32601,
            ErrorKind::InvalidParams => -32602,
            ErrorKind::InternalError => -32603,
        }
    }
}

/// The error object of a response.
#[derive(Debug, PartialEq)]
pub struct ErrorResponse {
    pub code: i32,
    pub message: String,
    pub data: Option<Json>,
}

/// The model of an [`ErrorResponse`].
pub struct ErrorView {
    pub code: int,
    pub message: Seq<char>,
    pub data: Option<JsonView>,
}

impl View for ErrorResponse {
    type V = ErrorView;

    open spec fn view(&self) -> ErrorView {
        ErrorView { code: self.code as int, message: self.message@, data: option_view(self.data) }
    }
}

/// A response. A response that the server makes holds either `result` or
/// `error`, never both and never neither.
#[derive(Debug, PartialEq)]
pub struct Response {
    pub jsonrpc: String,
    pub id: Option<Json>,
    pub result: Option<Json>,
    pub error: Option<ErrorResponse>,
}

/// The model of a [`Response`].
pub struct ResponseView {
    pub jsonrpc: Seq<char>,
    pub id: Option<JsonView>,
    pub result: Option<JsonView>,
    pub error: Option<ErrorView>,
}

impl ResponseView {
    /// The protocol version is `2.0`, and exactly one of `result` and `error`
    /// is there.
    pub open spec fn well_formed(self) -> bool {
        &&& self.jsonrpc == "2.0"@
        &&& (self.result is Some) != (self.error is Some)
    }
}

impl View for Response {
    type V = ResponseView;

    open spec fn view(&self) -> ResponseView {
        ResponseView {
            jsonrpc: self.jsonrpc@,
            id: option_view(self.id),
            result: option_view(self.result),
            error: match self.error {
                Some(error) => Some(error@),
                None => None,
            },
        }
    }
}

/// The response that carries a result.
pub open spec fn success_view(id: Option<JsonView>, result: JsonView) -> ResponseView {
    ResponseView { jsonrpc: "2.0"@, id, result: Some(result), error: None }
}

/// The response that carries an error of the given kind, without data.
pub open spec fn failure_view(id: Option<JsonView>, kind: ErrorKind, message: Seq<char>) -> ResponseView {
    ResponseView {
        jsonrpc: "2.0"@,
        id,
        result: None,
        error: Some(ErrorView { code: kind.code_of(), message, data: None }),
    }
}

impl Response {
    /// The response to a request that succeeded.
    pub fn success(id: Option<Json>, result: Json) -> (response: Response)
        ensures
            response@ == success_view(option_view(id), result@),
            response@.well_formed(),
    {
        Response { jsonrpc: String::from_str("2.0"), id, result: Some(result), error: None }
    }

    /// The response to a request that failed.
    pub fn failure(id: Option<Json>, kind: ErrorKind, message: String) -> (response: Response)
        ensures
            response@ == failure_view(option_view(id), kind, message@),
            response@.well_formed(),
    {
        Response {
            jsonrpc: String::from_str("2.0"),
            id,
            result: None,
            error: Some(ErrorResponse { code: kind.code(), message, data: None }),
        }
    }
}

/// The model of an optional text.
pub open spec fn text_view(text: Option<String>) -> Option<Seq<char>> {
    match text {
        Some(text) => Some(text@),
        None => None,
    }
}

/// The text of an error object, given the JSON texts of its members.
pub open spec fn error_frame(code: Seq<char>, message: Seq<char>, data: Option<Seq<char>>) -> Seq<
    char,
> {
    let head = "{\"code\":"@ + code + ",\"message\":"@ + message;
    match data {
        Some(data) => head + ",\"data\":"@ + data + "}"@,
        None => head + "}"@,
    }
}

/// The text of a response, given the JSON texts of its members. A member
/// that is absent is left out.
pub open spec fn response_frame(
    jsonrpc: Seq<char>,
    id: Seq<char>,
    result: Option<Seq<char>>,
    error: Option<Seq<char>>,
) -> Seq<char> {
    let head = "{\"jsonrpc\":"@ + jsonrpc + ",\"id\":"@ + id;
    let middle = match result {
        Some(result) => head + ",\"result\":"@ + result,
        None => head,
    };
    match error {
        Some(error) => middle + ",\"error\":"@ + error + "}"@,
        None => middle + "}"@,
    }
}

/// The JSON text of a member that may be absent: `None` where the member is
/// there and cannot be written.
pub open spec fn optional_text(value: Option<JsonView>) -> Option<Option<Seq<char>>> {
    match value {
        None => Some(None),
        Some(value) => match json_text(value) {
            Some(text) => Some(Some(text)),
            None => None,
        },
    }
}

/// The text of an error object: `None` where one of its members cannot be
/// written.
pub open spec fn error_text(error: ErrorView) -> Option<Seq<char>> {
    match (
        json_text(JsonView::Number(NumberView::Int(error.code))),
        json_text(JsonView::String(error.message)),
        optional_text(error.data),
    ) {
        (Some(code), Some(message), Some(data)) => Some(error_frame(code, message, data)),
        _ => None,
    }
}

/// The text of an error object that may be absent.
pub open spec fn optional_error_text(error: Option<ErrorView>) -> Option<Option<Seq<char>>> {
    match error {
        None => Some(None),
        Some(error) => match error_text(error) {
            Some(text) => Some(Some(text)),
            None => None,
        },
    }
}

/// The line that a response is sent as: `None` where one of its members
/// cannot be written. An absent `id` is written as `null`.
pub open spec fn response_text(response: ResponseView) -> Option<Seq<char>> {
    match (
        json_text(JsonView::String(response.jsonrpc)),
        json_text(
            match response.id {
                Some(id) => id,
                None => JsonView::Null,
            },
        ),
        optional_text(response.result),
        optional_error_text(response.error),
    ) {
        (Some(jsonrpc), Some(id), Some(result), Some(error)) => Some(
            response_frame(jsonrpc, id, result, error),
        ),
        _ => None,
    }
}

/// Whether an optional text, where it is there, holds no line feed.
pub open spec fn optional_one_line(text: Option<Seq<char>>) -> bool {
    match text {
        Some(text) => one_line(text),
        None => true,
    }
}

/// The fixed parts of a frame hold no line feed.
proof fn lemma_frame_parts_one_line()
    ensures
        one_line("{\"code\":"@),
        one_line(",\"message\":"@),
        one_line(",\"data\":"@),
        one_line("{\"jsonrpc\":"@),
        one_line(",\"id\":"@),
        one_line(",\"result\":"@),
        one_line(",\"error\":"@),
        one_line("}"@),
{
    reveal_strlit("{\"code\":");
    reveal_strlit(",\"message\":");
    reveal_strlit(",\"data\":");
    reveal_strlit("{\"jsonrpc\":");
    reveal_strlit(",\"id\":");
    reveal_strlit(",\"result\":");
    reveal_strlit(",\"error\":");
    reveal_strlit("}");
}

/// An error object whose members are written without a line feed holds none.
pub proof fn lemma_error_frame_one_line(
    code: Seq<char>,
    message: Seq<char>,
    data: Option<Seq<char>>,
)
    requires
        one_line(code),
        one_line(message),
        optional_one_line(data),
    ensures
        one_line(error_frame(code, message, data)),
{
    lemma_frame_parts_one_line();
}

/// A response whose members are written without a line feed holds none.
pub proof fn lemma_response_frame_one_line(
    jsonrpc: Seq<char>,
    id: Seq<char>,
    result: Option<Seq<char>>,
    error: Option<Seq<char>>,
)
    requires
        one_line(jsonrpc),
        one_line(id),
        optional_one_line(result),
        optional_one_line(error),
    ensures
        one_line(response_frame(jsonrpc, id, result, error)),
{
    lemma_frame_parts_one_line();
}

/// Puts the text of an error object together from the JSON texts of its
/// members.
pub fn frame_error(code: &str, message: &str, data: &Option<String>) -> (text: String)
    ensures
        text@ == error_frame(code@, message@, text_view(*data)),
{
    let mut text = String::from_str("{\"code\":");
    text.append(code);
    text.append(",\"message\":");
    text.append(message);
    match data {
        Some(data) => {
            text.append(",\"data\":");
            text.append(data.as_str());
        },
        None => {},
    }
    text.append("}");
    text
}

/// Puts the text of a response together from the JSON texts of its members.
pub fn frame_response(
    jsonrpc: &str,
    id: &str,
    result: &Option<String>,
    error: &Option<String>,
) -> (text: String)
    ensures
        text@ == response_frame(jsonrpc@, id@, text_view(*result), text_view(*error)),
{
    let mut text = String::from_str("{\"jsonrpc\":");
    text.append(jsonrpc);
    text.append(",\"id\":");
    text.append(id);
    match result {
        Some(result) => {
            text.append(",\"result\":");
            text.append(result.as_str());
        },
        None => {},
    }
    match error {
        Some(error) => {
            text.append(",\"error\":");
            text.append(error.as_str());
        },
        None => {},
    }
    text.append("}");
    text
}

/// Writes a member that may be absent.
fn print_optional(value: &Option<Json>) -> (printed: Option<Option<String>>)
    ensures
        match printed {
            Some(text) => optional_text(option_view(*value)) == Some(text_view(text))
                && optional_one_line(text_view(text)),
            None => optional_text(option_view(*value)) is None,
        },
{
    match value {
        None => Some(None),
        Some(value) => match print(value) {
            Some(text) => Some(Some(text)),
            None => None,
        },
    }
}

/// Encodes an error object.
pub fn encode_error(error: &ErrorResponse) -> (text: Option<String>)
    ensures
        text_view(text) == error_text(error@),
        optional_one_line(text_view(text)),
{
    let code = match print(&Json::integer(error.code as i64)) {
        Some(code) => code,
        None => { return None; },
    };
    let message = match print(&Json::string(error.message.as_str())) {
        Some(message) => message,
        None => { return None; },
    };
    let data = match print_optional(&error.data) {
        Some(data) => data,
        None => { return None; },
    };
    proof {
        lemma_error_frame_one_line(code@, message@, text_view(data));
    }
    Some(frame_error(code.as_str(), message.as_str(), &data))
}

/// Encodes a response as the line to send, without the line feed that ends
/// it. The text itself holds no line feed.
pub fn encode_response(response: &Response) -> (text: Option<String>)
    ensures
        text_view(text) == response_text(response@),
        optional_one_line(text_view(text)),
{
    let jsonrpc = match print(&Json::string(response.jsonrpc.as_str())) {
        Some(jsonrpc) => jsonrpc,
        None => { return None; },
    };
    let id = match &response.id {
        Some(id) => print(id),
        None => print(&Json::Null),
    };
    let id = match id {
        Some(id) => id,
        None => { return None; },
    };
    let result = match print_optional(&response.result) {
        Some(result) => result,
        None => { return None; },
    };
    let error = match &response.error {
        None => None,
        Some(error) => match encode_error(error) {
            Some(text) => Some(text),
            None => { return None; },
        },
    };
    proof {
        lemma_response_frame_one_line(jsonrpc@, id@, text_view(result), text_view(error));
    }
    Some(frame_response(jsonrpc.as_str(), id.as_str(), &result, &error))
}

/// The line that a response is sent as, with the line feed that ends it.
pub open spec fn response_line(response: ResponseView) -> Option<Seq<char>> {
    match response_text(response) {
        Some(text) => Some(text + "\n"@),
        None => None,
    }
}

/// The text is one whole line: it ends in a line feed and holds no other.
pub open spec fn whole_line(line: Seq<char>) -> bool {
    &&& line.len() > 0
    &&& line.last() == '\n'
    &&& one_line(line.drop_last())
}

/// Encodes a response as the line to send: the text of the response and the
/// line feed that ends the line.
pub fn encode_line(response: &Response) -> (line: Option<String>)
    ensures
        text_view(line) == response_line(response@),
        line matches Some(line) ==> whole_line(line@),
{
    match encode_response(response) {
        Some(text) => {
            let mut line = text;
            line.append("\n");
            proof {
                reveal_strlit("\n");
                assert(line@.drop_last() =~= text@);
            }
            Some(line)
        },
        None => None,
    }
}

} // verus!
