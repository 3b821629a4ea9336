//! The tools: `hello`, which greets, and `add`, which reports a sum.
//!
//! The numbers of a sum are shown as floating-point numbers are printed, which
//! this crate does not compute. `add` therefore ends in [`ToolOutcome::Sum`],
//! and [`sum_content`] makes the result once the caller has the three texts.

use crate::json::{
    items_view, lemma_items_view_push, member, member_number, member_text, same_text,
    ArrayBuilder, Json, JsonNumber, JsonView, NumberView, ObjectBuilder,
};
use crate::registry::{
    descriptor, descriptor_view, lemma_descriptor_name, lists, name_of, names_distinct, property,
    property_view, schema, schema_view,
};
use vstd::prelude::*;

verus! {

/// Why a tool call failed.
#[derive(Debug, PartialEq)]
pub enum ToolError {
    /// The call has no `name`, or one that is not a string.
    MissingToolName,
    /// The call has no `arguments`.
    MissingToolArguments,
    /// `hello` was called without a `name` that is a string.
    MissingNameParameter,
    /// `add` was called without an `a` that is a number.
    InvalidA,
    /// `add` was called without a `b` that is a number.
    InvalidB,
    /// No tool has the name.
    UnknownTool(String),
}

/// The model of a [`ToolError`].
pub enum ToolErrorView {
    MissingToolName,
    MissingToolArguments,
    MissingNameParameter,
    InvalidA,
    InvalidB,
    UnknownTool(Seq<char>),
}

impl View for ToolError {
    type V = ToolErrorView;

    open spec fn view(&self) -> ToolErrorView {
        match self {
            ToolError::MissingToolName => ToolErrorView::MissingToolName,
            ToolError::MissingToolArguments => ToolErrorView::MissingToolArguments,
            ToolError::MissingNameParameter => ToolErrorView::MissingNameParameter,
            ToolError::InvalidA => ToolErrorView::InvalidA,
            ToolError::InvalidB => ToolErrorView::InvalidB,
            ToolError::UnknownTool(name) => ToolErrorView::UnknownTool(name@),
        }
    }
}

impl ToolErrorView {
    /// The text that describes the failure.
    pub open spec fn message(self) -> Seq<char> {
        match self {
            ToolErrorView::MissingToolName => "Missing tool name"@,
            ToolErrorView::MissingToolArguments => "Missing tool arguments"@,
            ToolErrorView::MissingNameParameter => "Missing name parameter"@,
            ToolErrorView::InvalidA => "Parameter 'a' must be a number"@,
            ToolErrorView::InvalidB => "Parameter 'b' must be a number"@,
            ToolErrorView::UnknownTool(name) => "Unknown tool: "@ + name,
        }
    }
}

impl ToolError {
    /// The text that describes the failure.
    pub fn message(&self) -> (text: String)
        ensures
            text@ == self@.message(),
    {
        match self {
            ToolError::MissingToolName => String::from_str("Missing tool name"),
            ToolError::MissingToolArguments => String::from_str("Missing tool arguments"),
            ToolError::MissingNameParameter => String::from_str("Missing name parameter"),
            ToolError::InvalidA => String::from_str("Parameter 'a' must be a number"),
            ToolError::InvalidB => String::from_str("Parameter 'b' must be a number"),
            ToolError::UnknownTool(name) => {
                let mut text = String::from_str("Unknown tool: ");
                text.append(name.as_str());
                text
            },
        }
    }
}

/// The two numbers of a sum.
#[derive(Debug, PartialEq)]
pub struct Addends {
    pub a: JsonNumber,
    pub b: JsonNumber,
}

/// The model of [`Addends`].
pub struct AddendsView {
    pub a: NumberView,
    pub b: NumberView,
}

impl View for Addends {
    type V = AddendsView;

    open spec fn view(&self) -> AddendsView {
        AddendsView { a: self.a@, b: self.b@ }
    }
}

/// The two numbers of a sum and their total, as they are shown.
#[derive(Debug, PartialEq)]
pub struct SumTexts {
    pub a: String,
    pub b: String,
    pub total: String,
}

/// The model of [`SumTexts`].
pub struct SumTextsView {
    pub a: Seq<char>,
    pub b: Seq<char>,
    pub total: Seq<char>,
}

impl View for SumTexts {
    type V = SumTextsView;

    open spec fn view(&self) -> SumTextsView {
        SumTextsView { a: self.a@, b: self.b@, total: self.total@ }
    }
}

/// How a tool call ended, where it did not fail.
#[derive(Debug, PartialEq)]
pub enum ToolOutcome {
    /// The result of the call.
    Content(Json),
    /// The call is `add` with these numbers; its result is [`sum_content`] of
    /// the texts of the numbers and of their total.
    Sum(Addends),
}

/// The model of a [`ToolOutcome`].
pub enum ToolOutcomeView {
    Content(JsonView),
    Sum(AddendsView),
}

impl View for ToolOutcome {
    type V = ToolOutcomeView;

    open spec fn view(&self) -> ToolOutcomeView {
        match self {
            ToolOutcome::Content(content) => ToolOutcomeView::Content(content@),
            ToolOutcome::Sum(addends) => ToolOutcomeView::Sum(addends@),
        }
    }
}

/// The model of the outcome of a call.
pub open spec fn outcome_view(outcome: Result<ToolOutcome, ToolError>) -> Result<
    ToolOutcomeView,
    ToolErrorView,
> {
    match outcome {
        Ok(outcome) => Ok(outcome@),
        Err(error) => Err(error@),
    }
}

/// The schema of the arguments of `hello`.
pub open spec fn hello_schema() -> JsonView {
    schema_view(
        JsonView::Object(map!["name"@ => property_view("string"@, "Name to greet"@)]),
        JsonView::Array(seq![JsonView::String("name"@)]),
    )
}

/// The schema of the arguments of `add`.
pub open spec fn add_schema() -> JsonView {
    schema_view(
        JsonView::Object(
            map![
                "a"@ => property_view("number"@, "First number"@),
                "b"@ => property_view("number"@, "Second number"@),
            ],
        ),
        JsonView::Array(seq![JsonView::String("a"@), JsonView::String("b"@)]),
    )
}

/// The descriptor of `hello`.
pub open spec fn hello_descriptor() -> JsonView {
    descriptor_view("hello"@, "Say hello to someone"@, hello_schema())
}

/// The descriptor of `add`.
pub open spec fn add_descriptor() -> JsonView {
    descriptor_view("add"@, "Add two numbers"@, add_schema())
}

/// The descriptors of the tools, in the order in which they are listed.
pub open spec fn tool_descriptors() -> Seq<JsonView> {
    seq![hello_descriptor(), add_descriptor()]
}

/// The result that holds one text: `{ content: [ { type: "text", text } ] }`.
pub open spec fn text_content(text: Seq<char>) -> JsonView {
    JsonView::Object(
        map![
            "content"@ => JsonView::Array(
                seq![
                    JsonView::Object(
                        map!["type"@ => JsonView::String("text"@), "text"@ => JsonView::String(text)],
                    ),
                ],
            ),
        ],
    )
}

/// What `hello` says to `who`.
pub open spec fn hello_text(who: Seq<char>, server: Seq<char>) -> Seq<char> {
    "Hello, "@ + who + "! This is "@ + server + " speaking."@
}

/// What `add` says of a sum.
pub open spec fn sum_text(texts: SumTextsView) -> Seq<char> {
    texts.a + " + "@ + texts.b + " = "@ + texts.total
}

/// How a call with the given `params` ends on a server of the given name.
pub open spec fn tool_outcome(params: JsonView, server: Seq<char>) -> Result<
    ToolOutcomeView,
    ToolErrorView,
> {
    match member_text(params, "name"@) {
        None => Err(ToolErrorView::MissingToolName),
        Some(name) => match member(params, "arguments"@) {
            None => Err(ToolErrorView::MissingToolArguments),
            Some(arguments) => if name == "hello"@ {
                match member_text(arguments, "name"@) {
                    None => Err(ToolErrorView::MissingNameParameter),
                    Some(who) => Ok(ToolOutcomeView::Content(text_content(hello_text(who, server)))),
                }
            } else if name == "add"@ {
                match member_number(arguments, "a"@) {
                    None => Err(ToolErrorView::InvalidA),
                    Some(a) => match member_number(arguments, "b"@) {
                        None => Err(ToolErrorView::InvalidB),
                        Some(b) => Ok(ToolOutcomeView::Sum(AddendsView { a, b })),
                    },
                }
            } else {
                Err(ToolErrorView::UnknownTool(name))
            },
        },
    }
}

/// The tools that the server offers.
pub fn list_tools() -> (tools: Vec<Json>)
    ensures
        items_view(tools@) == tool_descriptors(),
        names_distinct(items_view(tools@)),
{
    let hello = descriptor(
        "hello",
        "Say hello to someone",
        schema(
            ObjectBuilder::new().field("name", property("string", "Name to greet")).build(),
            ArrayBuilder::new().item(Json::string("name")).build(),
        ),
    );
    let add = descriptor(
        "add",
        "Add two numbers",
        schema(
            ObjectBuilder::new().field("a", property("number", "First number")).field(
                "b",
                property("number", "Second number"),
            ).build(),
            ArrayBuilder::new().item(Json::string("a")).item(Json::string("b")).build(),
        ),
    );
    let mut tools: Vec<Json> = Vec::new();
    tools.push(hello);
    tools.push(add);
    proof {
        lemma_items_view_push(Seq::<Json>::empty(), hello);
        lemma_items_view_push(seq![hello], add);
        assert(tools@ =~= seq![hello].push(add));
        assert(Seq::<JsonView>::empty().push(JsonView::String("a"@)).push(JsonView::String("b"@))
            =~= seq![JsonView::String("a"@), JsonView::String("b"@)]);
        assert(items_view(tools@) =~= tool_descriptors());
        lemma_tool_names_distinct();
    }
    tools
}

/// The two tools have different names.
pub proof fn lemma_tool_names_distinct()
    ensures
        names_distinct(tool_descriptors()),
        name_of(tool_descriptors()[0]) == Some("hello"@),
        name_of(tool_descriptors()[1]) == Some("add"@),
        "hello"@ != "add"@,
{
    lemma_descriptor_name("hello"@, "Say hello to someone"@, hello_schema());
    lemma_descriptor_name("add"@, "Add two numbers"@, add_schema());
    reveal_strlit("hello");
    reveal_strlit("add");
    assert("hello"@.len() == 5 && "add"@.len() == 3);
}

/// The result that holds one text.
pub fn content_of(text: String) -> (content: Json)
    ensures
        content@ == text_content(text@),
{
    let entry = ObjectBuilder::new().field("type", Json::string("text")).field(
        "text",
        Json::String(text),
    ).build();
    ObjectBuilder::new().field("content", ArrayBuilder::new().item(entry).build()).build()
}

/// The result of `add`, given the texts of its numbers and of their total.
pub fn sum_content(texts: &SumTexts) -> (content: Json)
    ensures
        content@ == text_content(sum_text(texts@)),
{
    let mut text = String::from_str(texts.a.as_str());
    text.append(" + ");
    text.append(texts.b.as_str());
    text.append(" = ");
    text.append(texts.total.as_str());
    content_of(text)
}

/// Calls the tool that `params` names, on a server of the given name.
pub fn call_tool(params: Json, server: &str) -> (outcome: Result<ToolOutcome, ToolError>)
    ensures
        outcome_view(outcome) == tool_outcome(params@, server@),
{
    let name = match params.get_str("name") {
        Some(name) => name,
        None => { return Err(ToolError::MissingToolName); },
    };
    let arguments = match params.get("arguments") {
        Some(arguments) => arguments,
        None => { return Err(ToolError::MissingToolArguments); },
    };
    if same_text(name, "hello") {
        let who = match arguments.get_str("name") {
            Some(who) => who,
            None => { return Err(ToolError::MissingNameParameter); },
        };
        let mut text = String::from_str("Hello, ");
        text.append(who);
        text.append("! This is ");
        text.append(server);
        text.append(" speaking.");
        Ok(ToolOutcome::Content(content_of(text)))
    } else if same_text(name, "add") {
        let a = match arguments.get_number("a") {
            Some(a) => a.clone(),
            None => { return Err(ToolError::InvalidA); },
        };
        let b = match arguments.get_number("b") {
            Some(b) => b.clone(),
            None => { return Err(ToolError::InvalidB); },
        };
        Ok(ToolOutcome::Sum(Addends { a, b }))
    } else {
        Err(ToolError::UnknownTool(String::from_str(name)))
    }
}

/// A call that names a tool and gives arguments fails for want of a tool
/// exactly if the name is not among the listed ones.
pub proof fn lemma_unknown_tool_iff_unlisted(params: JsonView, server: Seq<char>)
    requires
        member_text(params, "name"@) is Some,
        member(params, "arguments"@) is Some,
    ensures
        tool_outcome(params, server) == Err::<ToolOutcomeView, ToolErrorView>(
            ToolErrorView::UnknownTool(member_text(params, "name"@)->0),
        ) <==> !lists(tool_descriptors(), member_text(params, "name"@)->0),
{
    lemma_tool_names_distinct();
    let name = member_text(params, "name"@)->0;
    if name == "hello"@ {
        assert(name_of(tool_descriptors()[0]) == Some(name));
    } else if name == "add"@ {
        assert(name_of(tool_descriptors()[1]) == Some(name));
    }
}

} // verus!
