// SPDX-License-Identifier: GPL-3.0

//! The conversation as the applet keeps it.
//!
//! A [`Session`] is the state that decides what the applet shows and does:
//! the transcript, the text being typed, whether an answer is awaited, and
//! the models to choose from. [`Session::update`] takes one [`Event`] and
//! returns the [`Action`] to carry out; the caller performs it and reports
//! what came of it as the next event.

use crate::config::Config;
use crate::history::ChatHistory;
use crate::ollama::{AvailableModel, EventView, StreamEvent};
use crate::text::{followed_by, trim, trimmed};
use vstd::prelude::*;

verus! {

/// What the assistant says where no earlier conversation was stored.
pub const WELCOME: &'static str =
    "Hi! I'm your local AI assistant. Copy text for context, then ask me anything.";

/// What the assistant says after the conversation was cleared.
pub const CLEARED: &'static str = "Chat cleared. How can I help?";

/// Milliseconds to wait before looking again for an event of a stream that
/// had none ready.
pub const POLL_INTERVAL_MS: u64 = 10;

/// What looking for the next event of the running stream gave.
#[derive(Debug)]
pub enum Polled {
    /// An event was ready.
    Event(StreamEvent),
    /// No event was ready yet.
    Empty,
    /// The producer is gone and nothing is left to read.
    Disconnected,
}

/// What can happen to a session.
#[derive(Debug)]
pub enum Event {
    /// The stored configuration changed.
    UpdateConfig(Config),
    /// Text input changed.
    InputChanged(String),
    /// User submitted a message.
    Submit,
    /// The stream that was asked for is set up.
    StreamReady,
    /// The stream delivered a chunk of the answer.
    StreamChunk(String),
    /// Stream completed.
    StreamDone,
    /// Stream error occurred.
    StreamError(String),
    /// It is time to look for the next event of the stream; the payload is
    /// what looking gave. It is ignored where no stream is running.
    PollStream(Polled),
    /// Clear chat history.
    ClearChat,
    /// The list of models is wanted.
    LoadModels,
    /// The catalog query came back.
    ModelsLoaded(Result<Vec<AvailableModel>, String>),
    /// User selected a different model, by its place in the list.
    SelectModel(usize),
}

/// What the caller is to do after an event.
#[derive(Debug)]
pub enum Action {
    /// Nothing.
    Nothing,
    /// Gather context for `query`, start a streaming chat with `model` at
    /// `url` over `messages`, and report [`Event::StreamReady`].
    StartStream { url: String, model: String, messages: Vec<(String, String)>, query: String },
    /// Look for the next event of the stream now and report
    /// [`Event::PollStream`].
    Poll,
    /// The same after [`POLL_INTERVAL_MS`].
    PollLater,
    /// Report this event, which the stream delivered.
    Dispatch(Event),
    /// Store the transcript.
    SaveHistory,
    /// Delete the stored transcript.
    ClearHistory,
    /// Query the catalog that belongs to `url` and report
    /// [`Event::ModelsLoaded`].
    LoadModels { url: String },
    /// Store the configuration.
    SaveConfig,
}

/// The state of the conversation.
#[derive(Debug)]
pub struct Session {
    /// Application configuration.
    pub config: Config,
    /// Current text input value.
    pub input_text: String,
    /// Chat message history as (role, content) pairs.
    pub messages: Vec<(String, String)>,
    /// Whether we're waiting for an AI response.
    pub waiting: bool,
    /// Whether a stream is set up and being read.
    pub streaming: bool,
    /// Available models of the server.
    pub available_models: Vec<AvailableModel>,
    /// Model display names for the selector.
    pub model_options: Vec<String>,
    /// Whether we're loading models.
    pub loading_models: bool,
}

// ---------------------------------------------------------------------
// Mathematical values
// ---------------------------------------------------------------------

/// The mathematical value of a [`Polled`].
pub ghost enum PolledView {
    Event(EventView),
    Empty,
    Disconnected,
}

/// The mathematical value of an [`Event`].
pub ghost enum SessionEvent {
    UpdateConfig((Seq<char>, Seq<char>)),
    InputChanged(Seq<char>),
    Submit,
    StreamReady,
    StreamChunk(Seq<char>),
    StreamDone,
    StreamError(Seq<char>),
    PollStream(PolledView),
    ClearChat,
    LoadModels,
    ModelsLoaded(Result<Seq<(Seq<char>, Seq<char>)>, Seq<char>>),
    SelectModel(nat),
}

/// The mathematical value of an [`Action`].
pub ghost enum SessionAction {
    Nothing,
    StartStream {
        url: Seq<char>,
        model: Seq<char>,
        messages: Seq<(Seq<char>, Seq<char>)>,
        query: Seq<char>,
    },
    Poll,
    PollLater,
    Dispatch(SessionEvent),
    SaveHistory,
    ClearHistory,
    LoadModels { url: Seq<char> },
    SaveConfig,
}

/// The mathematical value of a [`Session`].
#[verifier::ext_equal]
pub ghost struct SessionView {
    pub config: (Seq<char>, Seq<char>),
    pub input_text: Seq<char>,
    pub messages: Seq<(Seq<char>, Seq<char>)>,
    pub waiting: bool,
    pub streaming: bool,
    pub available_models: Seq<(Seq<char>, Seq<char>)>,
    pub model_options: Seq<Seq<char>>,
    pub loading_models: bool,
}

impl View for Polled {
    type V = PolledView;

    open spec fn view(&self) -> PolledView {
        match self {
            Polled::Event(event) => PolledView::Event(event@),
            Polled::Empty => PolledView::Empty,
            Polled::Disconnected => PolledView::Disconnected,
        }
    }
}

impl View for Event {
    type V = SessionEvent;

    open spec fn view(&self) -> SessionEvent {
        match self {
            Event::UpdateConfig(config) => SessionEvent::UpdateConfig(config@),
            Event::InputChanged(text) => SessionEvent::InputChanged(text@),
            Event::Submit => SessionEvent::Submit,
            Event::StreamReady => SessionEvent::StreamReady,
            Event::StreamChunk(content) => SessionEvent::StreamChunk(content@),
            Event::StreamDone => SessionEvent::StreamDone,
            Event::StreamError(why) => SessionEvent::StreamError(why@),
            Event::PollStream(polled) => SessionEvent::PollStream(polled@),
            Event::ClearChat => SessionEvent::ClearChat,
            Event::LoadModels => SessionEvent::LoadModels,
            Event::ModelsLoaded(Ok(models)) => SessionEvent::ModelsLoaded(Ok(models.deep_view())),
            Event::ModelsLoaded(Err(why)) => SessionEvent::ModelsLoaded(Err(why@)),
            Event::SelectModel(index) => SessionEvent::SelectModel(*index as nat),
        }
    }
}

impl View for Action {
    type V = SessionAction;

    open spec fn view(&self) -> SessionAction {
        match self {
            Action::Nothing => SessionAction::Nothing,
            Action::StartStream { url, model, messages, query } => SessionAction::StartStream {
                url: url@,
                model: model@,
                messages: messages.deep_view(),
                query: query@,
            },
            Action::Poll => SessionAction::Poll,
            Action::PollLater => SessionAction::PollLater,
            Action::Dispatch(event) => SessionAction::Dispatch(event@),
            Action::SaveHistory => SessionAction::SaveHistory,
            Action::ClearHistory => SessionAction::ClearHistory,
            Action::LoadModels { url } => SessionAction::LoadModels { url: url@ },
            Action::SaveConfig => SessionAction::SaveConfig,
        }
    }
}

impl View for Session {
    type V = SessionView;

    open spec fn view(&self) -> SessionView {
        SessionView {
            config: self.config@,
            input_text: self.input_text@,
            messages: self.messages.deep_view(),
            waiting: self.waiting,
            streaming: self.streaming,
            available_models: self.available_models.deep_view(),
            model_options: self.model_options.deep_view(),
            loading_models: self.loading_models,
        }
    }
}

// ---------------------------------------------------------------------
// The rules
// ---------------------------------------------------------------------

/// The transcript to start with: the stored one, or the welcome of the
/// assistant where nothing is stored.
pub open spec fn opening(stored: Seq<(Seq<char>, Seq<char>)>) -> Seq<(Seq<char>, Seq<char>)> {
    if stored.len() == 0 {
        seq![("assistant"@, WELCOME@)]
    } else {
        stored
    }
}

/// The session at the start of the applet.
pub open spec fn started(
    config: (Seq<char>, Seq<char>),
    stored: Seq<(Seq<char>, Seq<char>)>,
) -> SessionView {
    SessionView {
        config,
        input_text: Seq::empty(),
        messages: opening(stored),
        waiting: false,
        streaming: false,
        available_models: Seq::empty(),
        model_options: Seq::empty(),
        loading_models: false,
    }
}

/// The transcript with `content` added to the answer that is being
/// streamed: to the last message, where that is one of the assistant.
pub open spec fn chunk_added(
    messages: Seq<(Seq<char>, Seq<char>)>,
    content: Seq<char>,
) -> Seq<(Seq<char>, Seq<char>)> {
    if messages.len() > 0 && messages.last().0 == "assistant"@ {
        messages.drop_last().push((messages.last().0, messages.last().1 + content))
    } else {
        messages
    }
}

/// The message that reports a failure in the transcript.
pub open spec fn error_message(why: Seq<char>) -> (Seq<char>, Seq<char>) {
    ("assistant"@, "Error: "@ + why)
}

/// The transcript with a failure reported: in place of the answer that was
/// to be streamed, where that is still empty, else as a message of its own.
pub open spec fn error_added(
    messages: Seq<(Seq<char>, Seq<char>)>,
    why: Seq<char>,
) -> Seq<(Seq<char>, Seq<char>)> {
    if messages.len() > 0 && messages.last().0 == "assistant"@ && messages.last().1.len() == 0 {
        messages.drop_last().push(error_message(why))
    } else {
        messages.push(error_message(why))
    }
}

/// What the selector shows for a model: its name, and its size in
/// brackets.
pub open spec fn option_text(model: (Seq<char>, Seq<char>)) -> Seq<char> {
    model.0 + " ("@ + model.1 + ")"@
}

/// Whether a submission is accepted: there is more than white space to
/// send, and no answer is awaited.
pub open spec fn accepts_submit(session: SessionView) -> bool {
    trimmed(session.input_text).len() > 0 && !session.waiting
}

/// The event under which the session hears of an event of the stream.
pub open spec fn event_of_stream(event: EventView) -> SessionEvent {
    match event {
        EventView::Chunk(content) => SessionEvent::StreamChunk(content),
        EventView::Done => SessionEvent::StreamDone,
        EventView::Error(why) => SessionEvent::StreamError(why),
    }
}

/// The session after `event`, and the action that the event calls for.
pub open spec fn step(session: SessionView, event: SessionEvent) -> (SessionView, SessionAction) {
    match event {
        SessionEvent::UpdateConfig(config) => (
            SessionView { config, ..session },
            SessionAction::Nothing,
        ),
        SessionEvent::InputChanged(text) => (
            SessionView { input_text: text, ..session },
            SessionAction::Nothing,
        ),
        SessionEvent::Submit => if accepts_submit(session) {
            let messages = session.messages.push(("user"@, session.input_text));
            (
                SessionView { messages, input_text: Seq::empty(), waiting: true, ..session },
                SessionAction::StartStream {
                    url: session.config.0,
                    model: session.config.1,
                    messages,
                    query: session.input_text,
                },
            )
        } else {
            (session, SessionAction::Nothing)
        },
        SessionEvent::StreamReady => (
            SessionView {
                streaming: true,
                messages: session.messages.push(("assistant"@, Seq::empty())),
                ..session
            },
            SessionAction::Poll,
        ),
        SessionEvent::StreamChunk(content) => (
            SessionView { messages: chunk_added(session.messages, content), ..session },
            SessionAction::Poll,
        ),
        SessionEvent::StreamDone => (
            SessionView { waiting: false, streaming: false, ..session },
            SessionAction::SaveHistory,
        ),
        SessionEvent::StreamError(why) => (
            SessionView {
                waiting: false,
                streaming: false,
                messages: error_added(session.messages, why),
                ..session
            },
            SessionAction::Nothing,
        ),
        SessionEvent::PollStream(polled) => if !session.streaming {
            (session, SessionAction::Nothing)
        } else {
            match polled {
                PolledView::Event(event) => (
                    session,
                    SessionAction::Dispatch(event_of_stream(event)),
                ),
                PolledView::Empty => (session, SessionAction::PollLater),
                PolledView::Disconnected => (
                    SessionView { waiting: false, streaming: false, ..session },
                    SessionAction::Nothing,
                ),
            }
        },
        SessionEvent::ClearChat => (
            SessionView { messages: seq![("assistant"@, CLEARED@)], ..session },
            SessionAction::ClearHistory,
        ),
        SessionEvent::LoadModels => if session.loading_models {
            (session, SessionAction::Nothing)
        } else {
            (
                SessionView { loading_models: true, ..session },
                SessionAction::LoadModels { url: session.config.0 },
            )
        },
        SessionEvent::ModelsLoaded(Ok(models)) => (
            SessionView {
                loading_models: false,
                model_options: models.map_values(|model: (Seq<char>, Seq<char>)| option_text(model)),
                available_models: models,
                ..session
            },
            SessionAction::Nothing,
        ),
        SessionEvent::ModelsLoaded(Err(_)) => (
            SessionView {
                loading_models: false,
                model_options: Seq::empty(),
                available_models: Seq::empty(),
                ..session
            },
            SessionAction::Nothing,
        ),
        SessionEvent::SelectModel(index) => if index < session.available_models.len() {
            (
                SessionView {
                    config: (session.config.0, session.available_models[index as int].0),
                    ..session
                },
                SessionAction::SaveConfig,
            )
        } else {
            (session, SessionAction::Nothing)
        },
    }
}

/// A failure is never lost: after a stream error the transcript ends with
/// the message that reports it, and no answer is awaited any more.
pub proof fn lemma_failure_is_shown(session: SessionView, why: Seq<char>)
    ensures
        step(session, SessionEvent::StreamError(why)).0.messages.last() == error_message(why),
        !step(session, SessionEvent::StreamError(why)).0.waiting,
        !step(session, SessionEvent::StreamError(why)).0.streaming,
{
}

/// Only clearing removes a message: after any other event every message
/// but the last is where it was, and the last is still there, with its
/// role, unless it was the empty answer that a failure report replaced.
pub proof fn lemma_transcript_is_kept(session: SessionView, event: SessionEvent)
    requires
        !(event is ClearChat),
    ensures
        step(session, event).0.messages.len() >= session.messages.len(),
        forall|i: int|
            0 <= i < session.messages.len() - 1 ==> #[trigger] step(session, event).0.messages[i]
                == session.messages[i],
        session.messages.len() > 0 ==> step(session, event).0.messages[session.messages.len() - 1].0
            == session.messages.last().0 || (event is StreamError && session.messages.last()
            == ("assistant"@, Seq::<char>::empty())),
{
}

/// The answer that is being streamed grows by each chunk: once the stream
/// is set up, a chunk adds its content to the end of the last message.
pub proof fn lemma_chunk_extends_answer(session: SessionView, content: Seq<char>)
    ensures
        ({
            let ready = step(session, SessionEvent::StreamReady).0;
            let after = step(ready, SessionEvent::StreamChunk(content)).0;
            &&& ready.messages == session.messages.push(("assistant"@, Seq::<char>::empty()))
            &&& after.messages == session.messages.push(("assistant"@, content))
        }),
{
}

/// Whether `index` is the place of the first model named `name`.
pub open spec fn is_first_named(
    models: Seq<(Seq<char>, Seq<char>)>,
    name: Seq<char>,
    index: int,
) -> bool {
    &&& 0 <= index < models.len()
    &&& models[index].0 == name
    &&& forall|j: int| 0 <= j < index ==> (#[trigger] models[j]).0 != name
}

/// Whether no model is named `name`.
pub open spec fn none_named(models: Seq<(Seq<char>, Seq<char>)>, name: Seq<char>) -> bool {
    forall|j: int| 0 <= j < models.len() ==> (#[trigger] models[j]).0 != name
}

/// The label that a message of `role` is shown under.
pub open spec fn speaker_of(role: Seq<char>) -> Seq<char> {
    if role == "user"@ {
        "You"@
    } else {
        "AI"@
    }
}

fn is_assistant(role: &String) -> (same: bool)
    ensures
        same == (role@ == "assistant"@),
{
    let assistant = "assistant".to_owned();
    *role == assistant
}

/// The text that the selector shows for each model.
fn option_texts(models: &Vec<AvailableModel>) -> (options: Vec<String>)
    ensures
        options.deep_view() == models.deep_view().map_values(
            |model: (Seq<char>, Seq<char>)| option_text(model),
        ),
{
    let mut options: Vec<String> = Vec::new();
    let mut i: usize = 0;
    while i < models.len()
        invariant
            i <= models@.len(),
            options@.len() == i,
            forall|j: int| 0 <= j < i ==> (#[trigger] options@[j])@ == option_text(models@[j]@),
        decreases models@.len() - i,
    {
        let mut option = followed_by(models[i].name.as_str(), " (");
        option.append(models[i].display_size.as_str());
        option.append(")");
        options.push(option);
        i += 1;
    }
    options
}

impl Session {
    /// The session at the start of the applet, with the configuration and
    /// the history that were stored.
    pub fn new(config: Config, stored: &ChatHistory) -> (session: Self)
        ensures
            session@ == started(config@, stored@.messages),
    {
        let messages = if stored.messages.len() == 0 {
            let mut messages: Vec<(String, String)> = Vec::new();
            messages.push(("assistant".to_owned(), WELCOME.to_owned()));
            messages
        } else {
            stored.to_messages()
        };
        Session {
            config,
            input_text: String::new(),
            messages,
            waiting: false,
            streaming: false,
            available_models: Vec::new(),
            model_options: Vec::new(),
            loading_models: false,
        }
    }

    /// Whether to show that the assistant is thinking: an answer is
    /// awaited and its stream has not been set up yet.
    pub fn shows_thinking(&self) -> (thinking: bool)
        ensures
            thinking == (self@.waiting && !self@.streaming),
    {
        self.waiting && !self.streaming
    }

    /// The place of the configured model in the list of available models:
    /// that of the first entry with its name.
    pub fn selected_model(&self) -> (selected: Option<usize>)
        ensures
            match selected {
                Some(index) => is_first_named(
                    self@.available_models,
                    self@.config.1,
                    index as int,
                ),
                None => none_named(self@.available_models, self@.config.1),
            },
    {
        let mut i: usize = 0;
        while i < self.available_models.len()
            invariant
                i <= self.available_models@.len(),
                forall|j: int|
                    0 <= j < i ==> (#[trigger] self@.available_models[j]).0 != self@.config.1,
            decreases self.available_models@.len() - i,
        {
            if self.available_models[i].name == self.config.model {
                return Some(i);
            }
            i += 1;
        }
        None
    }

    fn add_chunk(&mut self, content: &str)
        ensures
            final(self)@ == (SessionView {
                messages: chunk_added(old(self)@.messages, content@),
                ..old(self)@
            }),
    {
        match self.messages.pop() {
            Some((role, text)) => {
                if is_assistant(&role) {
                    let mut text = text;
                    text.append(content);
                    self.messages.push((role, text));
                } else {
                    self.messages.push((role, text));
                }
            },
            None => {},
        }
    }

    fn add_error(&mut self, why: &str)
        ensures
            final(self)@ == (SessionView {
                messages: error_added(old(self)@.messages, why@),
                ..old(self)@
            }),
    {
        let report = followed_by("Error: ", why);
        match self.messages.pop() {
            Some((role, text)) => {
                if is_assistant(&role) && text.as_str().is_empty() {
                    self.messages.push((role, report));
                } else {
                    self.messages.push((role, text));
                    self.messages.push(("assistant".to_owned(), report));
                }
            },
            None => {
                self.messages.push(("assistant".to_owned(), report));
            },
        }
    }

    fn submit(&mut self) -> (action: Action)
        ensures
            (final(self)@, action@) == step(old(self)@, SessionEvent::Submit),
    {
        let typed = trim(self.input_text.as_str());
        if typed.as_str().is_empty() || self.waiting {
            return Action::Nothing;
        }
        let ghost before = self.messages.deep_view();
        let query = self.input_text.clone();
        self.messages.push(("user".to_owned(), query.clone()));
        assert(self.messages.deep_view() =~= before.push(("user"@, query@)));
        self.input_text = String::new();
        self.waiting = true;
        let mut messages: Vec<(String, String)> = Vec::new();
        let mut i: usize = 0;
        while i < self.messages.len()
            invariant
                i <= self.messages@.len(),
                messages@.len() == i,
                forall|j: int|
                    0 <= j < i ==> (#[trigger] messages@[j]).deep_view()
                        == self.messages@[j].deep_view(),
            decreases self.messages@.len() - i,
        {
            let pair = &self.messages[i];
            messages.push((pair.0.clone(), pair.1.clone()));
            i += 1;
        }
        assert(messages.deep_view() =~= self.messages.deep_view());
        Action::StartStream {
            url: self.config.ollama_url.clone(),
            model: self.config.model.clone(),
            messages,
            query,
        }
    }

    /// Take one event: change the session as the event asks, and return
    /// what the caller is to do next.
    pub fn update(&mut self, event: Event) -> (action: Action)
        ensures
            (final(self)@, action@) == step(old(self)@, event@),
    {
        match event {
            Event::UpdateConfig(config) => {
                self.config = config;
                Action::Nothing
            },
            Event::InputChanged(text) => {
                self.input_text = text;
                Action::Nothing
            },
            Event::Submit => self.submit(),
            Event::StreamReady => {
                self.streaming = true;
                self.messages.push(("assistant".to_owned(), String::new()));
                Action::Poll
            },
            Event::StreamChunk(content) => {
                self.add_chunk(content.as_str());
                Action::Poll
            },
            Event::StreamDone => {
                self.waiting = false;
                self.streaming = false;
                Action::SaveHistory
            },
            Event::StreamError(why) => {
                self.waiting = false;
                self.streaming = false;
                self.add_error(why.as_str());
                Action::Nothing
            },
            Event::PollStream(polled) => {
                if !self.streaming {
                    return Action::Nothing;
                }
                match polled {
                    Polled::Event(StreamEvent::Chunk(content)) => Action::Dispatch(
                        Event::StreamChunk(content),
                    ),
                    Polled::Event(StreamEvent::Done) => Action::Dispatch(Event::StreamDone),
                    Polled::Event(StreamEvent::Error(why)) => Action::Dispatch(
                        Event::StreamError(why),
                    ),
                    Polled::Empty => Action::PollLater,
                    Polled::Disconnected => {
                        self.waiting = false;
                        self.streaming = false;
                        Action::Nothing
                    },
                }
            },
            Event::ClearChat => {
                let mut messages: Vec<(String, String)> = Vec::new();
                messages.push(("assistant".to_owned(), CLEARED.to_owned()));
                self.messages = messages;
                Action::ClearHistory
            },
            Event::LoadModels => {
                if self.loading_models {
                    return Action::Nothing;
                }
                self.loading_models = true;
                Action::LoadModels { url: self.config.ollama_url.clone() }
            },
            Event::ModelsLoaded(Ok(models)) => {
                self.loading_models = false;
                self.model_options = option_texts(&models);
                self.available_models = models;
                Action::Nothing
            },
            Event::ModelsLoaded(Err(_)) => {
                self.loading_models = false;
                self.available_models = Vec::new();
                self.model_options = Vec::new();
                Action::Nothing
            },
            Event::SelectModel(index) => {
                if index < self.available_models.len() {
                    self.config.model = self.available_models[index].name.clone();
                    Action::SaveConfig
                } else {
                    Action::Nothing
                }
            },
        }
    }
}

/// The label that a message of `role` is shown under: "You" for the user,
/// "AI" for everybody else.
pub fn speaker(role: &str) -> (label: &'static str)
    ensures
        label@ == speaker_of(role@),
{
    let user = "user".to_owned();
    if role.to_owned() == user {
        "You"
    } else {
        "AI"
    }
}

} // verus!
