// SPDX-License-Identifier: GPL-3.0

//! Client side of the chat protocol of a local language-model server.
//!
//! This module holds what the client computes: the request payload, the
//! catalog endpoint and the catalog entries, the texts of the errors, and
//! what a response means. Sending and receiving is left to the caller, who
//! hands the outcome of each step back as a plain value.

use crate::config::{DEFAULT_MODEL, DEFAULT_OLLAMA_URL};
use crate::text::{decimal, decimal_digits, digit, digit_char, followed_by, replace, replaced};
use vstd::prelude::*;

verus! {

/// Default system prompt for the assistant.
pub const DEFAULT_SYSTEM_PROMPT: &'static str = "\
You are a helpful Linux assistant running locally. You help with Pop!_OS, System76, \
COSMIC desktop, Ubuntu/Debian, systemd, and general Linux.

CRITICAL - READ THIS FIRST:
- COSMIC desktop is BRAND NEW (2024+). Your training data is OUTDATED about it.
- Pop!_OS and COSMIC change frequently. DO NOT guess or assume features exist.
- If web search results are provided below, ALWAYS prioritize them over your training.
- The web results are CURRENT and ACCURATE - trust them over your built-in knowledge.

GUIDELINES:
- If no web results are provided and you're unsure, say \"I don't have current info on this.\"
- Never invent package names, commands, config paths, or features.
- When web results are provided, cite them: \"According to the search results...\"
- Keep responses concise - this displays in a small panel.
- Provide specific commands when relevant.
- For COSMIC questions without web results, suggest checking: https://system76.com/cosmic";

// ---------------------------------------------------------------------
// Messages and requests
// ---------------------------------------------------------------------

/// A message in the chat format of the server.
#[derive(Debug, Clone)]
pub struct Message {
    pub role: String,
    pub content: String,
}

impl View for Message {
    type V = (Seq<char>, Seq<char>);

    /// A message is the pair of its role and its content.
    open spec fn view(&self) -> (Seq<char>, Seq<char>) {
        (self.role@, self.content@)
    }
}

impl DeepView for Message {
    type V = (Seq<char>, Seq<char>);

    open spec fn deep_view(&self) -> (Seq<char>, Seq<char>) {
        self@
    }
}

impl Message {
    /// The message that carries the system prompt.
    pub fn system(content: String) -> (message: Self)
        ensures
            message@ == ("system"@, content@),
    {
        Message { role: "system".to_owned(), content }
    }
}

/// Request payload of the chat endpoint.
#[derive(Debug, Clone)]
pub struct ChatRequest {
    pub model: String,
    pub messages: Vec<Message>,
    pub stream: bool,
}

/// The mathematical value of a [`ChatRequest`].
#[verifier::ext_equal]
pub ghost struct RequestView {
    pub model: Seq<char>,
    pub messages: Seq<(Seq<char>, Seq<char>)>,
    pub stream: bool,
}

impl View for ChatRequest {
    type V = RequestView;

    open spec fn view(&self) -> RequestView {
        RequestView {
            model: self.model@,
            messages: self.messages.deep_view(),
            stream: self.stream,
        }
    }
}

/// The payload that asks `model` to continue `history` under
/// `system_prompt`: the system message first, then the history in order.
pub open spec fn request_for(
    model: Seq<char>,
    system_prompt: Seq<char>,
    history: Seq<(Seq<char>, Seq<char>)>,
    stream: bool,
) -> RequestView {
    RequestView { model, messages: seq![("system"@, system_prompt)] + history, stream }
}

/// Response of the chat endpoint to a request that does not stream.
#[derive(Debug, Clone)]
pub struct ChatResponse {
    pub message: Message,
}

/// Client for the chat endpoint at `url`, asking for `model`.
#[derive(Debug, Clone)]
pub struct Client {
    url: String,
    model: String,
}

impl Client {
    /// The endpoint that requests go to.
    pub closed spec fn spec_url(&self) -> Seq<char> {
        self.url@
    }

    /// The model that requests ask for.
    pub closed spec fn spec_model(&self) -> Seq<char> {
        self.model@
    }

    /// Create a new client with custom URL and model.
    pub fn new(url: String, model: String) -> (client: Self)
        ensures
            client.spec_url() == url@,
            client.spec_model() == model@,
    {
        Client { url, model }
    }

    /// The endpoint that requests go to.
    pub fn url(&self) -> (url: &str)
        ensures
            url@ == self.spec_url(),
    {
        self.url.as_str()
    }

    /// The model that requests ask for.
    pub fn model(&self) -> (model: &str)
        ensures
            model@ == self.spec_model(),
    {
        self.model.as_str()
    }

    /// Build the payload of a chat request: the system prompt as the first
    /// message, then the conversation so far as `(role, content)` pairs.
    pub fn request(
        &self,
        system_prompt: String,
        messages: Vec<(String, String)>,
        stream: bool,
    ) -> (request: ChatRequest)
        ensures
            request@ == request_for(
                self.spec_model(),
                system_prompt@,
                messages.deep_view(),
                stream,
            ),
    {
        let ghost history = messages.deep_view();
        let ghost first = ("system"@, system_prompt@);
        let mut chat: Vec<Message> = Vec::new();
        chat.push(Message::system(system_prompt));
        for (role, content) in it: messages
            invariant
                it.seq().len() == history.len(),
                forall|j: int|
                    0 <= j < history.len() ==> (#[trigger] it.seq()[j]).deep_view() == history[j],
                chat.deep_view() == seq![first] + history.take(it.index()),
        {
            let ghost before = chat.deep_view();
            chat.push(Message { role, content });
            assert(chat.deep_view() =~= before.push(history[it.index()]));
        }
        ChatRequest { model: self.model.clone(), messages: chat, stream }
    }
}

impl Default for Client {
    /// The client for the default endpoint and the default model.
    fn default() -> (client: Self)
        ensures
            client.spec_url() == DEFAULT_OLLAMA_URL@,
            client.spec_model() == DEFAULT_MODEL@,
    {
        Client::new(DEFAULT_OLLAMA_URL.to_owned(), DEFAULT_MODEL.to_owned())
    }
}

// ---------------------------------------------------------------------
// Failures
// ---------------------------------------------------------------------

/// Why a request gave no answer. Each kind carries the detail that the
/// transport or the decoder reported.
#[derive(Debug, Clone)]
pub enum Failure {
    /// The request could not be sent, or no response came.
    Connection(String),
    /// The server answered with a status that is no success; the detail is
    /// the status.
    Status(String),
    /// The body of the response was not what the protocol promises.
    Parse(String),
    /// Reading a streamed body failed part way.
    Stream(String),
}

/// The mathematical value of a [`Failure`].
pub ghost enum FailureView {
    Connection(Seq<char>),
    Status(Seq<char>),
    Parse(Seq<char>),
    Stream(Seq<char>),
}

impl View for Failure {
    type V = FailureView;

    open spec fn view(&self) -> FailureView {
        match self {
            Failure::Connection(detail) => FailureView::Connection(detail@),
            Failure::Status(detail) => FailureView::Status(detail@),
            Failure::Parse(detail) => FailureView::Parse(detail@),
            Failure::Stream(detail) => FailureView::Stream(detail@),
        }
    }
}

impl DeepView for Failure {
    type V = FailureView;

    open spec fn deep_view(&self) -> FailureView {
        self@
    }
}

/// The single descriptive message that a failure is reported with.
pub open spec fn failure_message(failure: FailureView) -> Seq<char> {
    match failure {
        FailureView::Connection(detail) => "Connection error: "@ + detail,
        FailureView::Status(detail) => "Ollama error: "@ + detail,
        FailureView::Parse(detail) => "Parse error: "@ + detail,
        FailureView::Stream(detail) => "Stream error: "@ + detail,
    }
}

impl Failure {
    /// The message to show for this failure.
    pub fn message(&self) -> (text: String)
        ensures
            text@ == failure_message(self@),
    {
        match self {
            Failure::Connection(detail) => followed_by("Connection error: ", detail.as_str()),
            Failure::Status(detail) => followed_by("Ollama error: ", detail.as_str()),
            Failure::Parse(detail) => followed_by("Parse error: ", detail.as_str()),
            Failure::Stream(detail) => followed_by("Stream error: ", detail.as_str()),
        }
    }
}

/// Whether an HTTP status code stands for success: the codes 200 to 299.
pub open spec fn is_success(code: u16) -> bool {
    200 <= code <= 299
}

/// Decide on the status of a response: a success lets the exchange go on,
/// any other status ends it with a [`Failure::Status`] that carries
/// `status`, the text that the status is shown with.
pub fn check_status(code: u16, status: &str) -> (outcome: Result<(), Failure>)
    ensures
        outcome is Ok <==> is_success(code),
        outcome matches Err(failure) ==> failure@ == FailureView::Status(status@),
{
    if 200 <= code && code <= 299 {
        Ok(())
    } else {
        Err(Failure::Status(status.to_owned()))
    }
}

/// What a chat request that does not stream comes to: the content of the
/// answer, or the message of the failure.
pub fn chat_reply(outcome: Result<ChatResponse, Failure>) -> (reply: Result<String, String>)
    ensures
        match outcome {
            Ok(response) => reply matches Ok(content) && content@ == response.message.content@,
            Err(failure) => reply matches Err(message) && message@ == failure_message(failure@),
        },
{
    match outcome {
        Ok(response) => Ok(response.message.content),
        Err(failure) => Err(failure.message()),
    }
}

// ---------------------------------------------------------------------
// Event of a stream
// ---------------------------------------------------------------------

/// Event sent during streaming response.
#[derive(Debug, Clone)]
pub enum StreamEvent {
    /// A chunk of content arrived.
    Chunk(String),
    /// Stream completed successfully.
    Done,
    /// An error occurred.
    Error(String),
}

/// The mathematical value of a [`StreamEvent`].
pub ghost enum EventView {
    Chunk(Seq<char>),
    Done,
    Error(Seq<char>),
}

impl View for StreamEvent {
    type V = EventView;

    open spec fn view(&self) -> EventView {
        match self {
            StreamEvent::Chunk(content) => EventView::Chunk(content@),
            StreamEvent::Done => EventView::Done,
            StreamEvent::Error(message) => EventView::Error(message@),
        }
    }
}

impl DeepView for StreamEvent {
    type V = EventView;

    open spec fn deep_view(&self) -> EventView {
        self@
    }
}

impl EventView {
    /// `Done` and `Error` end a stream; `Chunk` does not.
    pub open spec fn is_terminal(self) -> bool {
        !(self is Chunk)
    }
}

// ---------------------------------------------------------------------
// Model catalog
// ---------------------------------------------------------------------

/// One gibibyte, in bytes.
pub const GIB: u64 = 1024 * 1024 * 1024;

/// One mebibyte, in bytes.
pub const MIB: u64 = 1024 * 1024;

/// Information about a single model as the catalog endpoint reports it.
#[derive(Debug, Clone)]
pub struct ModelInfo {
    pub name: String,
    /// Size in bytes.
    pub size: u64,
}

/// Response of the catalog endpoint.
#[derive(Debug, Clone)]
pub struct TagsResponse {
    pub models: Vec<ModelInfo>,
}

/// A model available on the server with display information.
#[derive(Debug, Clone, PartialEq, Eq)]
pub struct AvailableModel {
    /// Model name/tag (e.g., "llama3.2:3b")
    pub name: String,
    /// Human-readable size
    pub display_size: String,
}

impl View for ModelInfo {
    type V = (Seq<char>, nat);

    /// A catalog entry is the pair of its name and its size in bytes.
    open spec fn view(&self) -> (Seq<char>, nat) {
        (self.name@, self.size as nat)
    }
}

impl DeepView for ModelInfo {
    type V = (Seq<char>, nat);

    open spec fn deep_view(&self) -> (Seq<char>, nat) {
        self@
    }
}

impl View for AvailableModel {
    type V = (Seq<char>, Seq<char>);

    /// An available model is the pair of its name and its display size.
    open spec fn view(&self) -> (Seq<char>, Seq<char>) {
        (self.name@, self.display_size@)
    }
}

impl DeepView for AvailableModel {
    type V = (Seq<char>, Seq<char>);

    open spec fn deep_view(&self) -> (Seq<char>, Seq<char>) {
        self@
    }
}

/// `a / d` rounded to the nearest integer; where `a / d` lies half way
/// between two integers, the even one.
pub open spec fn round_half_even(a: nat, d: nat) -> nat {
    let quotient = a / d;
    let rest = a % d;
    if 2 * rest < d || (2 * rest == d && quotient % 2 == 0) {
        quotient
    } else {
        quotient + 1
    }
}

/// The distance between neighbouring numbers of 53 significant binary
/// digits at `n`: 1 below 2^53, 2 from there to 2^54, and so on.
pub open spec fn spacing_at(n: nat) -> nat
    decreases n,
{
    if n < 0x20_0000_0000_0000 {
        1
    } else {
        2 * spacing_at(n / 2)
    }
}

/// `n` rounded to 53 significant binary digits, ties to even.
///
/// Sizes are shown as a double-precision quotient is printed; the only
/// rounding before the division is this one.
pub open spec fn nearest_representable(n: nat) -> nat {
    round_half_even(n, spacing_at(n)) * spacing_at(n)
}

/// The text that a size in bytes is shown as: from one gibibyte on, the
/// number of gibibytes with one decimal and " GB"; below that, the whole
/// number of mebibytes and " MB". Both numbers are rounded to the nearest,
/// ties to even.
pub open spec fn size_text(bytes: nat) -> Seq<char> {
    if bytes >= GIB {
        let tenths = round_half_even(nearest_representable(bytes) * 10, GIB as nat);
        decimal_digits(tenths / 10) + seq!['.', digit_char(tenths % 10)] + " GB"@
    } else {
        decimal_digits(round_half_even(bytes, MIB as nat)) + " MB"@
    }
}

/// `a / d` rounded to the nearest integer, ties to even.
fn round_div(a: u128, d: u128) -> (q: u128)
    requires
        0 < d,
        d <= 0x4000_0000,
        a < 0x1_0000_0000_0000_0000_0000_0000,
    ensures
        q == round_half_even(a as nat, d as nat),
        q <= a / d + 1,
{
    let quotient = a / d;
    let rest = a % d;
    if 2 * rest < d || (2 * rest == d && quotient % 2 == 0) {
        quotient
    } else {
        quotient + 1
    }
}

/// The spacing of numbers of 53 significant binary digits at `n`.
fn spacing(n: u64) -> (unit: u64)
    ensures
        unit == spacing_at(n as nat),
        1 <= unit,
        unit == 1 || unit <= n / 0x10_0000_0000_0000,
    decreases n,
{
    if n < 0x20_0000_0000_0000 {
        1
    } else {
        2 * spacing(n / 2)
    }
}

/// Format bytes into human-readable size.
pub fn format_size(bytes: u64) -> (text: String)
    ensures
        text@ == size_text(bytes as nat),
{
    if bytes >= GIB {
        let unit = spacing(bytes);
        let steps = round_div(bytes as u128, unit as u128);
        // at most 2^64 steps of at most 2^12 each: far from the limit of u128
        assert(steps * unit <= 0x1_0000_0000_0000_0000 * 4096) by (nonlinear_arith)
            requires
                steps <= 0x1_0000_0000_0000_0000,
                unit <= 4096,
        ;
        let nearest: u128 = steps * (unit as u128);
        let tenths = round_div(nearest * 10, GIB as u128);
        assert(tenths <= (nearest * 10) / 0x4000_0000 + 1);
        let mut text = decimal((tenths / 10) as u64);
        text.push('.');
        text.push(digit((tenths % 10) as u64));
        text.append(" GB");
        text
    } else {
        let mut text = decimal(round_div(bytes as u128, MIB as u128) as u64);
        text.append(" MB");
        text
    }
}

/// The catalog endpoint that belongs to the chat endpoint `base_url`: the
/// same URL with `/api/chat`, and after that `/api/generate`, replaced by
/// `/api/tags`. A URL that holds neither stays as it is.
pub open spec fn tags_endpoint(base_url: Seq<char>) -> Seq<char> {
    replaced(
        replaced(base_url, "/api/chat"@, "/api/tags"@),
        "/api/generate"@,
        "/api/tags"@,
    )
}

/// Derive the catalog endpoint from the chat endpoint.
pub fn tags_url(base_url: &str) -> (url: String)
    ensures
        url@ == tags_endpoint(base_url@),
{
    let chat_replaced = replace(base_url, "/api/chat", "/api/tags");
    replace(chat_replaced.as_str(), "/api/generate", "/api/tags")
}

/// The display entry of each catalog entry: its name, and its size as text.
pub open spec fn display_entries(models: Seq<(Seq<char>, nat)>) -> Seq<(Seq<char>, Seq<char>)> {
    models.map_values(|model: (Seq<char>, nat)| (model.0, size_text(model.1)))
}

/// Turn the entries of the catalog into what the model selector shows, in
/// the order of the catalog.
pub fn available_models(models: Vec<ModelInfo>) -> (available: Vec<AvailableModel>)
    ensures
        available.deep_view() == display_entries(models.deep_view()),
{
    let ghost entries = models.deep_view();
    let mut available: Vec<AvailableModel> = Vec::new();
    for model in it: models
        invariant
            it.seq().len() == entries.len(),
            forall|j: int| 0 <= j < entries.len() ==> (#[trigger] it.seq()[j])@ == entries[j],
            available@.len() == it.index(),
            forall|j: int|
                0 <= j < it.index() ==> (#[trigger] available@[j])@ == (
                    entries[j].0,
                    size_text(entries[j].1),
                ),
    {
        let display_size = format_size(model.size);
        available.push(AvailableModel { name: model.name, display_size });
    }
    available
}

/// What a catalog query comes to: the available models, or the message of
/// the failure. There are no partial results.
pub fn model_list(outcome: Result<TagsResponse, Failure>) -> (list: Result<
    Vec<AvailableModel>,
    String,
>)
    ensures
        match outcome {
            Ok(response) => list matches Ok(available) && available.deep_view()
                == display_entries(response.models.deep_view()),
            Err(failure) => list matches Err(message) && message@ == failure_message(failure@),
        },
{
    match outcome {
        Ok(response) => Ok(available_models(response.models)),
        Err(failure) => Err(failure.message()),
    }
}

} // verus!
