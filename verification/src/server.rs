//! The dispatcher and the transport loop.
//!
//! The server handles one line at a time and keeps nothing between lines. A
//! line is answered in one [`Step`]: either the response is ready, or the
//! request is a sum whose numbers the caller has to show first, and
//! [`PendingSum::finish`] then makes the response.

use crate::codec::{
    decode_request, decoded_view, failure_view, request_of_parsed, success_view, DecodeError,
    ErrorKind, Request, RequestView, Response, ResponseView,
};
use crate::json::{option_view, same_text, Json, JsonView, ObjectBuilder};
use crate::resources::{list_resources, read_resource, resource_descriptors, resource_outcome};
use crate::text::json_parse;
use crate::tools::{
    call_tool, list_tools, sum_content, sum_text, text_content, tool_descriptors, tool_outcome,
    Addends, AddendsView, SumTexts, SumTextsView, ToolOutcome, ToolOutcomeView,
};
use vstd::prelude::*;

verus! {

/// The server: its identity, fixed when it is made.
#[derive(Debug)]
pub struct MCPServer {
    name: String,
    version: String,
}

/// The model of an [`MCPServer`].
pub struct Identity {
    pub name: Seq<char>,
    pub version: Seq<char>,
}

impl View for MCPServer {
    type V = Identity;

    closed spec fn view(&self) -> Identity {
        Identity { name: self.name@, version: self.version@ }
    }
}

/// A sum that waits for the texts of its numbers.
#[derive(Debug, PartialEq)]
pub struct PendingSum {
    /// The id of the request.
    pub id: Option<Json>,
    /// The numbers to add.
    pub addends: Addends,
}

/// The model of a [`PendingSum`].
pub struct PendingSumView {
    pub id: Option<JsonView>,
    pub addends: AddendsView,
}

impl View for PendingSum {
    type V = PendingSumView;

    open spec fn view(&self) -> PendingSumView {
        PendingSumView { id: option_view(self.id), addends: self.addends@ }
    }
}

/// What the server does with one line.
#[derive(Debug, PartialEq)]
pub enum Step {
    /// The response to send.
    Reply(Response),
    /// The request is `add`: the response is [`PendingSum::finish`] of the
    /// texts of the two numbers and of their total.
    Sum(PendingSum),
}

/// The model of a [`Step`].
pub enum StepView {
    Reply(ResponseView),
    Sum(PendingSumView),
}

impl View for Step {
    type V = StepView;

    open spec fn view(&self) -> StepView {
        match self {
            Step::Reply(response) => StepView::Reply(response@),
            Step::Sum(pending) => StepView::Sum(pending@),
        }
    }
}

impl StepView {
    /// The id that the response of this step carries.
    pub open spec fn id(self) -> Option<JsonView> {
        match self {
            StepView::Reply(response) => response.id,
            StepView::Sum(pending) => pending.id,
        }
    }

    /// The one response that this step leads to; `texts` are the texts of a
    /// pending sum.
    pub open spec fn response(self, texts: SumTextsView) -> ResponseView {
        match self {
            StepView::Reply(response) => response,
            StepView::Sum(pending) => sum_response(pending, texts),
        }
    }
}

/// The result of `initialize`.
pub open spec fn initialize_result(server: Identity) -> JsonView {
    JsonView::Object(
        map![
            "protocolVersion"@ => JsonView::String("1.0"@),
            "capabilities"@ => JsonView::Object(
                map![
                    "tools"@ => JsonView::Object(Map::empty()),
                    "resources"@ => JsonView::Object(Map::empty()),
                ],
            ),
            "serverInfo"@ => JsonView::Object(
                map![
                    "name"@ => JsonView::String(server.name),
                    "version"@ => JsonView::String(server.version),
                ],
            ),
        ],
    )
}

/// The result of `tools/list`.
pub open spec fn tools_list_result() -> JsonView {
    JsonView::Object(map!["tools"@ => JsonView::Array(tool_descriptors())])
}

/// The result of `resources/list`.
pub open spec fn resources_list_result() -> JsonView {
    JsonView::Object(map!["resources"@ => JsonView::Array(resource_descriptors())])
}

/// The response to a line that is not a request.
pub open spec fn parse_error_response() -> ResponseView {
    failure_view(None, ErrorKind::ParseError, "Parse error"@)
}

/// The response to a call or a read without `params`.
pub open spec fn invalid_params_response(id: Option<JsonView>) -> ResponseView {
    failure_view(id, ErrorKind::InvalidParams, "Invalid params"@)
}

/// The response to a request for a method that the server does not know.
pub open spec fn method_not_found_response(id: Option<JsonView>, method: Seq<char>) -> ResponseView {
    failure_view(id, ErrorKind::MethodNotFound, "Method not found: "@ + method)
}

/// The response that ends a pending sum.
pub open spec fn sum_response(pending: PendingSumView, texts: SumTextsView) -> ResponseView {
    success_view(pending.id, text_content(sum_text(texts)))
}

/// What `tools/call` leads to.
pub open spec fn call_tool_step(
    server: Identity,
    id: Option<JsonView>,
    params: Option<JsonView>,
) -> StepView {
    match params {
        None => StepView::Reply(invalid_params_response(id)),
        Some(params) => match tool_outcome(params, server.name) {
            Ok(ToolOutcomeView::Content(content)) => StepView::Reply(success_view(id, content)),
            Ok(ToolOutcomeView::Sum(addends)) => StepView::Sum(PendingSumView { id, addends }),
            Err(error) => StepView::Reply(
                failure_view(id, ErrorKind::InternalError, error.message()),
            ),
        },
    }
}

/// The response to `resources/read`.
pub open spec fn read_resource_response(
    id: Option<JsonView>,
    params: Option<JsonView>,
) -> ResponseView {
    match params {
        None => invalid_params_response(id),
        Some(params) => match resource_outcome(params) {
            Ok(content) => success_view(id, content),
            Err(error) => failure_view(id, ErrorKind::InternalError, error.message()),
        },
    }
}

/// Whether the server knows the method. The match is exact.
pub open spec fn known_method(method: Seq<char>) -> bool {
    ||| method == "initialize"@
    ||| method == "tools/list"@
    ||| method == "tools/call"@
    ||| method == "resources/list"@
    ||| method == "resources/read"@
}

/// What a request leads to.
pub open spec fn request_step(server: Identity, request: RequestView) -> StepView {
    if request.method == "initialize"@ {
        StepView::Reply(success_view(request.id, initialize_result(server)))
    } else if request.method == "tools/list"@ {
        StepView::Reply(success_view(request.id, tools_list_result()))
    } else if request.method == "tools/call"@ {
        call_tool_step(server, request.id, request.params)
    } else if request.method == "resources/list"@ {
        StepView::Reply(success_view(request.id, resources_list_result()))
    } else if request.method == "resources/read"@ {
        StepView::Reply(read_resource_response(request.id, request.params))
    } else {
        StepView::Reply(method_not_found_response(request.id, request.method))
    }
}

/// What a line leads to, given what decoding made of it.
pub open spec fn decoded_step(server: Identity, decoded: Result<RequestView, DecodeError>) -> StepView {
    match decoded {
        Ok(request) => request_step(server, request),
        Err(_) => StepView::Reply(parse_error_response()),
    }
}

/// What a line leads to.
pub open spec fn line_step(server: Identity, line: Seq<char>) -> StepView {
    decoded_step(server, request_of_parsed(json_parse(line)))
}

/// The id of the request that a line holds; none where the line is not a
/// request or the request has no id.
pub open spec fn line_id(line: Seq<char>) -> Option<JsonView> {
    match request_of_parsed(json_parse(line)) {
        Ok(request) => request.id,
        Err(_) => None,
    }
}

/// What a sequence of lines leads to: one step for each line, in order.
pub open spec fn run_steps(server: Identity, lines: Seq<Seq<char>>) -> Seq<StepView> {
    Seq::new(lines.len(), |i: int| line_step(server, lines[i]))
}

/// `needle` occurs in `text`.
pub open spec fn contains_text(text: Seq<char>, needle: Seq<char>) -> bool {
    exists|at: int|
        0 <= at && at + needle.len() <= text.len() && #[trigger] text.subrange(
            at,
            at + needle.len(),
        ) == needle
}

impl PendingSum {
    /// The response to the request, given the texts of the two numbers and of
    /// their total.
    pub fn finish(self, texts: &SumTexts) -> (response: Response)
        ensures
            response@ == sum_response(self@, texts@),
            response@.well_formed(),
            response@.id == self@.id,
    {
        Response::success(self.id, sum_content(texts))
    }
}

impl MCPServer {
    /// A server with the default identity: the name is the placeholder
    /// `{{serverName}}`, the version is `0.1.0`.
    pub fn new() -> (server: Self)
        ensures
            server@ == (Identity { name: "{{serverName}}"@, version: "0.1.0"@ }),
    {
        MCPServer { name: String::from_str("{{serverName}}"), version: String::from_str("0.1.0") }
    }

    /// A server with the given identity.
    pub fn with_identity(name: &str, version: &str) -> (server: Self)
        ensures
            server@ == (Identity { name: name@, version: version@ }),
    {
        MCPServer { name: String::from_str(name), version: String::from_str(version) }
    }

    /// The name that the server reports.
    pub fn name(&self) -> (name: &str)
        ensures
            name@ == self@.name,
    {
        self.name.as_str()
    }

    /// The version that the server reports.
    pub fn version(&self) -> (version: &str)
        ensures
            version@ == self@.version,
    {
        self.version.as_str()
    }

    /// Answers `initialize`. The answer depends on the server alone.
    pub fn handle_initialize(&self, id: Option<Json>) -> (response: Response)
        ensures
            response@ == success_view(option_view(id), initialize_result(self@)),
            response@.well_formed(),
    {
        let capabilities = ObjectBuilder::new().field("tools", ObjectBuilder::new().build()).field(
            "resources",
            ObjectBuilder::new().build(),
        ).build();
        let server_info = ObjectBuilder::new().field("name", Json::string(self.name.as_str())).field(
            "version",
            Json::string(self.version.as_str()),
        ).build();
        let result = ObjectBuilder::new().field("protocolVersion", Json::string("1.0")).field(
            "capabilities",
            capabilities,
        ).field("serverInfo", server_info).build();
        Response::success(id, result)
    }

    /// Answers `tools/list`.
    pub fn handle_list_tools(&self, id: Option<Json>) -> (response: Response)
        ensures
            response@ == success_view(option_view(id), tools_list_result()),
            response@.well_formed(),
    {
        let result = ObjectBuilder::new().field("tools", Json::Array(list_tools())).build();
        Response::success(id, result)
    }

    /// Answers `tools/call`: without `params` the request is refused; a tool
    /// that fails gives an internal error with the tool's own message.
    pub fn handle_call_tool(&self, id: Option<Json>, params: Option<Json>) -> (step: Step)
        ensures
            step@ == call_tool_step(self@, option_view(id), option_view(params)),
            params is None ==> step@ == StepView::Reply(invalid_params_response(option_view(id))),
            step@.id() == option_view(id),
            step@ matches StepView::Reply(response) ==> response.well_formed(),
    {
        match params {
            Some(params) => match call_tool(params, self.name.as_str()) {
                Ok(ToolOutcome::Content(content)) => Step::Reply(Response::success(id, content)),
                Ok(ToolOutcome::Sum(addends)) => Step::Sum(PendingSum { id, addends }),
                Err(error) => Step::Reply(
                    Response::failure(id, ErrorKind::InternalError, error.message()),
                ),
            },
            None => Step::Reply(
                Response::failure(id, ErrorKind::InvalidParams, String::from_str("Invalid params")),
            ),
        }
    }

    /// Answers `resources/list`.
    pub fn handle_list_resources(&self, id: Option<Json>) -> (response: Response)
        ensures
            response@ == success_view(option_view(id), resources_list_result()),
            response@.well_formed(),
    {
        let result = ObjectBuilder::new().field("resources", Json::Array(list_resources())).build();
        Response::success(id, result)
    }

    /// Answers `resources/read`: without `params` the request is refused; a
    /// read that fails gives an internal error with the failure's own message.
    pub fn handle_read_resource(&self, id: Option<Json>, params: Option<Json>) -> (response:
        Response)
        ensures
            response@ == read_resource_response(option_view(id), option_view(params)),
            params is None ==> response@ == invalid_params_response(option_view(id)),
            response@.well_formed(),
    {
        match params {
            Some(params) => match read_resource(params) {
                Ok(content) => Response::success(id, content),
                Err(error) => Response::failure(id, ErrorKind::InternalError, error.message()),
            },
            None => Response::failure(
                id,
                ErrorKind::InvalidParams,
                String::from_str("Invalid params"),
            ),
        }
    }

    /// Routes a request by its method.
    pub fn handle_request(&self, request: Request) -> (step: Step)
        ensures
            step@ == request_step(self@, request@),
            step@.id() == request@.id,
            !known_method(request@.method) ==> step@ == StepView::Reply(
                method_not_found_response(request@.id, request@.method),
            ),
            step@ matches StepView::Reply(response) ==> response.well_formed(),
    {
        let Request { jsonrpc: _, method, id, params } = request;
        if same_text(method.as_str(), "initialize") {
            Step::Reply(self.handle_initialize(id))
        } else if same_text(method.as_str(), "tools/list") {
            Step::Reply(self.handle_list_tools(id))
        } else if same_text(method.as_str(), "tools/call") {
            self.handle_call_tool(id, params)
        } else if same_text(method.as_str(), "resources/list") {
            Step::Reply(self.handle_list_resources(id))
        } else if same_text(method.as_str(), "resources/read") {
            Step::Reply(self.handle_read_resource(id, params))
        } else {
            let mut message = String::from_str("Method not found: ");
            message.append(method.as_str());
            Step::Reply(Response::failure(id, ErrorKind::MethodNotFound, message))
        }
    }

    /// Handles a line, given what decoding made of it: a request is routed,
    /// anything else is answered with a parse error and no id.
    pub fn handle_decoded(&self, decoded: Result<Request, DecodeError>) -> (step: Step)
        ensures
            step@ == decoded_step(self@, decoded_view(decoded)),
            decoded is Err ==> step@ == StepView::Reply(parse_error_response()),
    {
        match decoded {
            Ok(request) => self.handle_request(request),
            Err(_) => Step::Reply(
                Response::failure(None, ErrorKind::ParseError, String::from_str("Parse error")),
            ),
        }
    }

    /// Handles one line of input.
    pub fn handle_line(&self, line: &str) -> (step: Step)
        ensures
            step@ == line_step(self@, line@),
            step@.id() == line_id(line@),
            json_parse(line@) is None ==> step@ == StepView::Reply(parse_error_response()),
            step@ matches StepView::Reply(response) ==> response.well_formed(),
    {
        self.handle_decoded(decode_request(line))
    }

    /// Handles the lines in order: one step for each line.
    pub fn run(&self, lines: &Vec<String>) -> (steps: Vec<Step>)
        ensures
            steps@.len() == lines@.len(),
            forall|i: int|
                0 <= i < lines@.len() ==> (#[trigger] steps@[i])@ == line_step(self@, lines@[i]@),
            forall|i: int|
                0 <= i < lines@.len() ==> (#[trigger] steps@[i])@.id() == line_id(lines@[i]@),
    {
        let mut steps: Vec<Step> = Vec::new();
        let mut i: usize = 0;
        while i < lines.len()
            invariant
                i <= lines@.len(),
                steps@.len() == i,
                forall|k: int|
                    0 <= k < i ==> (#[trigger] steps@[k])@ == line_step(self@, lines@[k]@),
                forall|k: int| 0 <= k < i ==> (#[trigger] steps@[k])@.id() == line_id(lines@[k]@),
            decreases lines@.len() - i,
        {
            let step = self.handle_line(lines[i].as_str());
            steps.push(step);
            i += 1;
        }
        steps
    }
}

/// A line that is not JSON is answered with a parse error: the code is
/// -32700 and the response has no id, which is sent as `null`.
pub proof fn lemma_invalid_json_is_parse_error(server: Identity, line: Seq<char>)
    requires
        json_parse(line) is None,
    ensures
        line_step(server, line) == StepView::Reply(parse_error_response()),
        parse_error_response().id is None,
        parse_error_response().error is Some,
        parse_error_response().error->0.code == -32700,
        parse_error_response().result is None,
{
}

/// A line that is JSON but not a request, for want of a `method` or
/// otherwise, is answered as a line that is not JSON.
pub proof fn lemma_undecodable_line_is_parse_error(server: Identity, line: Seq<char>)
    requires
        request_of_parsed(json_parse(line)) is Err,
    ensures
        line_step(server, line) == StepView::Reply(parse_error_response()),
        line_id(line) is None,
{
}

/// A request for a method that the server does not know is answered with the
/// error -32601, and the message names the method.
pub proof fn lemma_unknown_method_is_reported(server: Identity, request: RequestView)
    requires
        !known_method(request.method),
    ensures
        request_step(server, request) matches StepView::Reply(response) && {
            &&& response.id == request.id
            &&& response.result is None
            &&& response.error matches Some(error) && {
                &&& error.code == -32601
                &&& error.message == "Method not found: "@ + request.method
                &&& contains_text(error.message, request.method)
            }
        },
{
    let prefix = "Method not found: "@;
    let message = prefix + request.method;
    let at = prefix.len() as int;
    assert(message.subrange(at, at + request.method.len()) =~= request.method);
}

/// `tools/call` and `resources/read` without `params` are answered with the
/// error -32602.
pub proof fn lemma_missing_params_are_invalid(server: Identity, request: RequestView)
    requires
        request.method == "tools/call"@ || request.method == "resources/read"@,
        request.params is None,
    ensures
        request_step(server, request) matches StepView::Reply(response) && {
            &&& response.id == request.id
            &&& response.result is None
            &&& response.error matches Some(error) && error.code == -32602
        },
{
    lemma_methods_differ();
}

/// The result of `initialize` is the same whatever `params` the request has,
/// and also where it has none.
pub proof fn lemma_initialize_ignores_params(server: Identity, first: RequestView, second: RequestView)
    requires
        first.method == "initialize"@,
        second.method == "initialize"@,
    ensures
        request_step(server, first) matches StepView::Reply(one) && request_step(
            server,
            second,
        ) matches StepView::Reply(other) && {
            &&& one.result == Some(initialize_result(server))
            &&& other.result == one.result
            &&& one.error is None
            &&& other.error is None
        },
{
}

/// Every step carries the id of its request, and none where the line is not
/// a request; the response that the step leads to carries the same id.
pub proof fn lemma_step_echoes_id(server: Identity, line: Seq<char>, texts: SumTextsView)
    ensures
        line_step(server, line).id() == line_id(line),
        line_step(server, line).response(texts).id == line_id(line),
{
}

/// Every response that the server makes is well formed: it holds a result or
/// an error, never both and never neither.
pub proof fn lemma_responses_are_well_formed(server: Identity, line: Seq<char>, texts: SumTextsView)
    ensures
        line_step(server, line).response(texts).well_formed(),
{
}

/// N lines lead to N steps, the step at each place is the one of the line at
/// that place, and it carries that line's id.
pub proof fn lemma_one_step_per_line(server: Identity, lines: Seq<Seq<char>>, texts: SumTextsView)
    ensures
        run_steps(server, lines).len() == lines.len(),
        forall|i: int|
            0 <= i < lines.len() ==> {
                &&& (#[trigger] run_steps(server, lines)[i]) == line_step(server, lines[i])
                &&& run_steps(server, lines)[i].id() == line_id(lines[i])
                &&& run_steps(server, lines)[i].response(texts).id == line_id(lines[i])
            },
{
    assert forall|i: int| 0 <= i < lines.len() implies {
        &&& (#[trigger] run_steps(server, lines)[i]) == line_step(server, lines[i])
        &&& run_steps(server, lines)[i].id() == line_id(lines[i])
        &&& run_steps(server, lines)[i].response(texts).id == line_id(lines[i])
    } by {
        lemma_step_echoes_id(server, lines[i], texts);
    }
}

/// The names of the five methods are pairwise different.
pub proof fn lemma_methods_differ()
    ensures
        "initialize"@ != "tools/list"@,
        "initialize"@ != "tools/call"@,
        "initialize"@ != "resources/list"@,
        "initialize"@ != "resources/read"@,
        "tools/list"@ != "tools/call"@,
        "tools/list"@ != "resources/list"@,
        "tools/list"@ != "resources/read"@,
        "tools/call"@ != "resources/list"@,
        "tools/call"@ != "resources/read"@,
        "resources/list"@ != "resources/read"@,
{
    reveal_strlit("initialize");
    reveal_strlit("tools/list");
    reveal_strlit("tools/call");
    reveal_strlit("resources/list");
    reveal_strlit("resources/read");
    assert("initialize"@[0] != "tools/list"@[0]);
    assert("initialize"@[0] != "tools/call"@[0]);
    assert("initialize"@.len() == 10 && "resources/list"@.len() == 14);
    assert("resources/read"@.len() == 14);
    assert("tools/list"@[6] != "tools/call"@[6]);
    assert("tools/list"@.len() == 10 && "tools/call"@.len() == 10);
    assert("resources/list"@[10] != "resources/read"@[10]);
}

} // verus!
