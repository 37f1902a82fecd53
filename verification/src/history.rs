// SPDX-License-Identifier: GPL-3.0

//! The chat transcript that is kept between runs.
//!
//! A history is a format version and the messages in the order in which they
//! were said. Before it is stored it is cut down to the most recent
//! [`MAX_HISTORY_SIZE`] messages.

use crate::text::chars_of;
use vstd::prelude::*;

verus! {

/// Maximum number of messages to keep in history.
pub const MAX_HISTORY_SIZE: usize = 100;

/// Format version written by this library.
pub const CURRENT_VERSION: u32 = 1;

/// A single chat message in the history.
#[derive(Debug, Clone)]
pub struct HistoryMessage {
    /// Role: "user" or "assistant"
    pub role: String,
    /// Message content
    pub content: String,
}

impl View for HistoryMessage {
    type V = (Seq<char>, Seq<char>);

    /// A message is the pair of its role and its content.
    open spec fn view(&self) -> (Seq<char>, Seq<char>) {
        (self.role@, self.content@)
    }
}

impl DeepView for HistoryMessage {
    type V = (Seq<char>, Seq<char>);

    open spec fn deep_view(&self) -> (Seq<char>, Seq<char>) {
        self@
    }
}

/// The mathematical value of a [`ChatHistory`].
#[verifier::ext_equal]
pub ghost struct HistoryView {
    pub version: nat,
    pub messages: Seq<(Seq<char>, Seq<char>)>,
}

/// Chat history container.
#[derive(Debug, Clone)]
pub struct ChatHistory {
    /// Version for future schema migrations.
    pub version: u32,
    /// List of chat messages.
    pub messages: Vec<HistoryMessage>,
}

impl View for ChatHistory {
    type V = HistoryView;

    open spec fn view(&self) -> HistoryView {
        HistoryView {
            version: self.version as nat,
            messages: self.messages.deep_view(),
        }
    }
}

/// The history that holds exactly `pairs`, at the current version.
pub open spec fn history_of(pairs: Seq<(Seq<char>, Seq<char>)>) -> HistoryView {
    HistoryView { version: CURRENT_VERSION as nat, messages: pairs }
}

/// The `(role, content)` pairs that `history` holds, in order.
pub open spec fn pairs_of(history: HistoryView) -> Seq<(Seq<char>, Seq<char>)> {
    history.messages
}

/// The messages that survive trimming: the last [`MAX_HISTORY_SIZE`] of
/// them, or all where there are no more than that.
pub open spec fn retained(messages: Seq<(Seq<char>, Seq<char>)>) -> Seq<(Seq<char>, Seq<char>)> {
    if messages.len() > MAX_HISTORY_SIZE {
        messages.subrange(messages.len() - MAX_HISTORY_SIZE, messages.len() as int)
    } else {
        messages
    }
}

impl Default for ChatHistory {
    /// The history without messages and without a version.
    fn default() -> (history: Self)
        ensures
            history@ == (HistoryView { version: 0, messages: Seq::empty() }),
    {
        ChatHistory { version: 0, messages: Vec::new() }
    }
}

impl ChatHistory {
    /// Create a new empty history.
    pub fn new() -> (history: Self)
        ensures
            history@ == history_of(Seq::empty()),
    {
        ChatHistory { version: CURRENT_VERSION, messages: Vec::new() }
    }

    /// Create history from existing messages.
    pub fn from_messages(messages: Vec<(String, String)>) -> (history: Self)
        ensures
            history@ == history_of(messages.deep_view()),
    {
        let ghost pairs = messages.deep_view();
        let mut history_messages: Vec<HistoryMessage> = Vec::new();
        for (role, content) in it: messages
            invariant
                it.seq().len() == pairs.len(),
                forall|j: int|
                    0 <= j < pairs.len() ==> (#[trigger] it.seq()[j]).deep_view() == pairs[j],
                history_messages@.len() == it.index(),
                forall|j: int|
                    0 <= j < it.index() ==> (#[trigger] history_messages@[j])@ == pairs[j],
        {
            history_messages.push(HistoryMessage { role, content });
        }
        ChatHistory { version: CURRENT_VERSION, messages: history_messages }
    }

    /// Convert history to message tuples for the app.
    pub fn to_messages(&self) -> (pairs: Vec<(String, String)>)
        ensures
            pairs.deep_view() == pairs_of(self@),
    {
        let mut pairs: Vec<(String, String)> = Vec::new();
        let mut i: usize = 0;
        while i < self.messages.len()
            invariant
                i <= self.messages@.len(),
                pairs@.len() == i,
                forall|j: int|
                    0 <= j < i ==> (#[trigger] pairs@[j]).deep_view() == self.messages@[j]@,
            decreases self.messages@.len() - i,
        {
            let message = &self.messages[i];
            pairs.push((message.role.clone(), message.content.clone()));
            i += 1;
        }
        pairs
    }

    /// Trim history to max size, keeping most recent messages.
    pub fn trim_to_limit(&mut self)
        ensures
            final(self)@.version == old(self)@.version,
            final(self)@.messages == retained(old(self)@.messages),
            final(self)@.messages.len() <= MAX_HISTORY_SIZE,
    {
        if self.messages.len() > MAX_HISTORY_SIZE {
            let excess: usize = self.messages.len() - MAX_HISTORY_SIZE;
            let recent = self.messages.split_off(excess);
            self.messages = recent;
        }
    }

    /// The history to write for `messages`: all of them at the current
    /// version, cut down to the most recent [`MAX_HISTORY_SIZE`].
    pub fn for_storage(messages: Vec<(String, String)>) -> (history: Self)
        ensures
            history@ == history_of(retained(messages.deep_view())),
            history@.messages.len() <= MAX_HISTORY_SIZE,
    {
        let mut history = ChatHistory::from_messages(messages);
        history.trim_to_limit();
        history
    }

    /// The history to go on with after an attempt to read the stored one:
    /// what was read, or a fresh empty history where nothing could be read.
    pub fn recovered(loaded: Option<ChatHistory>) -> (history: Self)
        ensures
            history@ == match loaded {
                Some(stored) => stored@,
                None => history_of(Seq::empty()),
            },
    {
        match loaded {
            Some(stored) => stored,
            None => ChatHistory::new(),
        }
    }
}

/// Round trip: the pairs of the history made from `pairs` are `pairs`.
pub proof fn lemma_round_trip(pairs: Seq<(Seq<char>, Seq<char>)>)
    ensures
        pairs_of(history_of(pairs)) == pairs,
{
}

/// Trimming keeps the most recent messages, first in first out: of more
/// than [`MAX_HISTORY_SIZE`] messages exactly the last [`MAX_HISTORY_SIZE`]
/// stay, in their order.
pub proof fn lemma_trim_keeps_most_recent(messages: Seq<(Seq<char>, Seq<char>)>)
    requires
        messages.len() > MAX_HISTORY_SIZE,
    ensures
        retained(messages).len() == MAX_HISTORY_SIZE,
        forall|i: int|
            0 <= i < MAX_HISTORY_SIZE ==> #[trigger] retained(messages)[i] == messages[messages.len()
                - MAX_HISTORY_SIZE + i],
{
}

/// Trimming never leaves more than [`MAX_HISTORY_SIZE`] messages, and
/// leaves a history that is short enough as it is.
pub proof fn lemma_trim_bounds(messages: Seq<(Seq<char>, Seq<char>)>)
    ensures
        retained(messages).len() <= MAX_HISTORY_SIZE,
        messages.len() <= MAX_HISTORY_SIZE ==> retained(messages) == messages,
{
}

/// Trimming a trimmed history changes nothing.
pub proof fn lemma_trim_idempotent(messages: Seq<(Seq<char>, Seq<char>)>)
    ensures
        retained(retained(messages)) == retained(messages),
{
}

// ---------------------------------------------------------------------
// Where the history is kept
// ---------------------------------------------------------------------

/// Directory of this application below the data directory.
pub const APP_DIR: &'static str = "cosmic-applet-ollama";

/// Name of the history file.
pub const HISTORY_FILE: &'static str = "history.json";

/// `name` below the directory `base`: the two joined by one `/`, which is
/// left out where `base` is empty or ends in one already.
pub open spec fn path_below(base: Seq<char>, name: Seq<char>) -> Seq<char> {
    if base.len() == 0 || base.last() == '/' {
        base + name
    } else {
        base + seq!['/'] + name
    }
}

/// The path of the history file. The data directory is `xdg_data_home`
/// where that is set, else `.local/share` below `home`, else below the
/// current directory.
pub open spec fn history_path(
    xdg_data_home: Option<Seq<char>>,
    home: Option<Seq<char>>,
) -> Seq<char> {
    let data_dir = match xdg_data_home {
        Some(dir) => dir,
        None => path_below(
            match home {
                Some(dir) => dir,
                None => "."@,
            },
            ".local/share"@,
        ),
    };
    path_below(path_below(data_dir, APP_DIR@), HISTORY_FILE@)
}

/// Join a directory and a relative path.
pub fn join_path(base: &str, name: &str) -> (path: String)
    ensures
        path@ == path_below(base@, name@),
{
    let chars = chars_of(base);
    let mut path = base.to_owned();
    if chars.len() > 0 && chars[chars.len() - 1] != '/' {
        path.push('/');
    }
    path.append(name);
    path
}

/// Get the path to the history file from the values of the environment
/// variables `XDG_DATA_HOME` and `HOME`, each `None` where it is not set.
pub fn history_file_path(xdg_data_home: Option<String>, home: Option<String>) -> (path: String)
    ensures
        path@ == history_path(xdg_data_home.deep_view(), home.deep_view()),
{
    let data_dir = match xdg_data_home {
        Some(dir) => dir,
        None => {
            let home_dir = match home {
                Some(dir) => dir,
                None => ".".to_owned(),
            };
            join_path(home_dir.as_str(), ".local/share")
        },
    };
    let app_dir = join_path(data_dir.as_str(), APP_DIR);
    join_path(app_dir.as_str(), HISTORY_FILE)
}

} // verus!
