// SPDX-License-Identifier: GPL-3.0

//! System context for better answers.
//!
//! Context is what the desktop can tell about the moment a question is
//! asked: the clipboard, the selected text, a summary of the system, and
//! the latest errors in the journal. Each comes from a utility that the
//! caller runs; this module says which, and makes the context from what
//! they printed. A utility that fails, prints nothing or prints too much
//! only leaves its field out.
//!
//! A selection that is the very text of the clipboard is never shown
//! twice: gathering drops it, and the prompt of a context that was built
//! by hand with both leaves the selection section out.

use crate::text::{chars_of, contains, followed_by, lines, lines_of, trim, trimmed};
use crate::text::{decode_strict, occurs_in, string_of};
use crate::web::{format_results, formatted_result, SearchResult};
use vstd::prelude::*;
use vstd::utf8::{decode_utf8, encode_utf8, valid_utf8};

verus! {

/// Maximum size for clipboard/selection content to avoid overwhelming the model.
pub const MAX_CONTENT_SIZE: usize = 2000;

/// Maximum size for journal error output.
pub const MAX_ERROR_SIZE: usize = 1500;

// ---------------------------------------------------------------------
// What the utilities printed
// ---------------------------------------------------------------------

/// What running a utility gave: whether it exited with success, and what
/// it wrote to its standard output.
#[derive(Debug, Clone)]
pub struct CommandOutput {
    pub success: bool,
    pub stdout: Vec<u8>,
}

/// The mathematical value of a [`CommandOutput`].
pub ghost struct OutputView {
    pub success: bool,
    pub stdout: Seq<u8>,
}

impl View for CommandOutput {
    type V = OutputView;

    open spec fn view(&self) -> OutputView {
        OutputView { success: self.success, stdout: self.stdout@ }
    }
}

impl DeepView for CommandOutput {
    type V = OutputView;

    open spec fn deep_view(&self) -> OutputView {
        self@
    }
}

/// The text that a utility reported: its standard output without leading
/// and trailing white space, where it exited with success and printed
/// valid UTF-8 that holds more than white space. `None` in every other
/// case, and where the utility could not be run at all.
pub open spec fn reported_text(output: Option<OutputView>) -> Option<Seq<char>> {
    match output {
        Some(output) => {
            if output.success && valid_utf8(output.stdout) && trimmed(
                decode_utf8(output.stdout),
            ).len() > 0 {
                Some(trimmed(decode_utf8(output.stdout)))
            } else {
                None
            }
        },
        None => None,
    }
}

/// Return the trimmed standard output of a utility if it was successful.
pub fn command_text(output: Option<CommandOutput>) -> (text: Option<String>)
    ensures
        text.deep_view() == reported_text(output.deep_view()),
{
    match output {
        Some(output) => {
            if !output.success {
                return None;
            }
            match decode_strict(output.stdout) {
                Some(printed) => {
                    let text = trim(printed.as_str());
                    if text.as_str().is_empty() {
                        None
                    } else {
                        Some(text)
                    }
                },
                None => None,
            }
        },
        None => None,
    }
}

/// `text`, unless its UTF-8 encoding takes `limit` bytes or more.
pub open spec fn below_limit(text: Option<Seq<char>>, limit: nat) -> Option<Seq<char>> {
    match text {
        Some(text) => if encode_utf8(text).len() < limit {
            Some(text)
        } else {
            None
        },
        None => None,
    }
}

/// Drop a text whose size reaches `limit` bytes.
pub fn keep_below(text: Option<String>, limit: usize) -> (kept: Option<String>)
    ensures
        kept.deep_view() == below_limit(text.deep_view(), limit as nat),
{
    match text {
        Some(text) => if text.as_str().as_bytes().len() < limit {
            Some(text)
        } else {
            None
        },
        None => None,
    }
}

// ---------------------------------------------------------------------
// The utilities
// ---------------------------------------------------------------------

/// The utilities that context is gathered from.
#[derive(Debug, Clone, Copy, PartialEq, Eq)]
pub enum Utility {
    /// Reads the clipboard.
    Clipboard,
    /// Reads the primary selection: text that is highlighted, not copied.
    Selection,
    /// Names the distribution.
    Distro,
    /// Names the kernel release.
    Kernel,
    /// Prints a table of memory use; its second line is the summary.
    Memory,
    /// Prints the latest errors of the system journal.
    Journal,
}

/// The command line of a utility: the program, then its arguments.
pub open spec fn command_line(utility: Utility) -> Seq<Seq<char>> {
    match utility {
        Utility::Clipboard => seq!["wl-paste"@, "--no-newline"@],
        Utility::Selection => seq!["wl-paste"@, "--primary"@, "--no-newline"@],
        Utility::Distro => seq!["lsb_release"@, "-d"@, "-s"@],
        Utility::Kernel => seq!["uname"@, "-r"@],
        Utility::Memory => seq!["free"@, "-h"@, "--si"@],
        Utility::Journal => seq![
            "journalctl"@,
            "-p"@,
            "err"@,
            "-n"@,
            "5"@,
            "--no-pager"@,
            "-q"@,
        ],
    }
}

impl Utility {
    /// The command line to run: the program first, then its arguments.
    pub fn command(&self) -> (line: Vec<&'static str>)
        ensures
            line.deep_view() == command_line(*self),
            line@.len() >= 1,
    {
        match self {
            Utility::Clipboard => vec!["wl-paste", "--no-newline"],
            Utility::Selection => vec!["wl-paste", "--primary", "--no-newline"],
            Utility::Distro => vec!["lsb_release", "-d", "-s"],
            Utility::Kernel => vec!["uname", "-r"],
            Utility::Memory => vec!["free", "-h", "--si"],
            Utility::Journal => vec!["journalctl", "-p", "err", "-n", "5", "--no-pager", "-q"],
        }
    }
}

/// What each utility gave when it was run, `None` for one that could not
/// be run.
#[derive(Debug, Clone)]
pub struct Probe {
    pub clipboard: Option<CommandOutput>,
    pub selection: Option<CommandOutput>,
    pub distro: Option<CommandOutput>,
    pub kernel: Option<CommandOutput>,
    pub memory: Option<CommandOutput>,
    pub journal: Option<CommandOutput>,
}

/// The mathematical value of a [`Probe`].
pub ghost struct ProbeView {
    pub clipboard: Option<OutputView>,
    pub selection: Option<OutputView>,
    pub distro: Option<OutputView>,
    pub kernel: Option<OutputView>,
    pub memory: Option<OutputView>,
    pub journal: Option<OutputView>,
}

impl View for Probe {
    type V = ProbeView;

    open spec fn view(&self) -> ProbeView {
        ProbeView {
            clipboard: self.clipboard.deep_view(),
            selection: self.selection.deep_view(),
            distro: self.distro.deep_view(),
            kernel: self.kernel.deep_view(),
            memory: self.memory.deep_view(),
            journal: self.journal.deep_view(),
        }
    }
}

// ---------------------------------------------------------------------
// When to search the web
// ---------------------------------------------------------------------

/// `c` in lower case where it is an ASCII capital, else `c`.
pub open spec fn lowered(c: char) -> char {
    if 'A' <= c <= 'Z' {
        ((c as u8) + 32) as u8 as char
    } else {
        c
    }
}

/// The phrases that make a query one to search the web for: questions
/// about how to do something or what something is, about what is current,
/// and about the desktop and its distribution, which change faster than a
/// model learns.
pub open spec fn search_phrases() -> Seq<Seq<char>> {
    seq![
        "how to"@,
        "how do"@,
        "what is"@,
        "latest"@,
        "newest"@,
        "current"@,
        "today"@,
        "news"@,
        "release"@,
        "version"@,
        "update"@,
        "cosmic"@,
        "pop!_os"@,
        "system76"@,
    ]
}

/// Whether a query calls for a web search: whether it holds one of the
/// [`search_phrases`], in upper or lower case.
pub open spec fn wants_search(query: Seq<char>) -> bool {
    exists|k: int|
        0 <= k < search_phrases().len() && occurs_in(
            #[trigger] search_phrases()[k],
            query.map_values(|c: char| lowered(c)),
        )
}

/// `text` with its ASCII capitals in lower case.
pub fn to_lower(text: &str) -> (lower: String)
    ensures
        lower@ == text@.map_values(|c: char| lowered(c)),
{
    let chars = chars_of(text);
    let mut lower: Vec<char> = Vec::new();
    let mut i: usize = 0;
    while i < chars.len()
        invariant
            i <= chars@.len(),
            lower@.len() == i,
            forall|j: int| 0 <= j < i ==> lower@[j] == lowered(chars@[j]),
        decreases chars@.len() - i,
    {
        let c = chars[i];
        if 'A' <= c && c <= 'Z' {
            lower.push(((c as u8) + 32) as char);
        } else {
            lower.push(c);
        }
        i += 1;
    }
    string_of(&lower)
}

/// Decide whether to search the web for `query`.
pub fn should_search(query: &str) -> (wanted: bool)
    ensures
        wanted == wants_search(query@),
{
    let lower = to_lower(query);
    let phrases: Vec<&'static str> = vec![
        "how to",
        "how do",
        "what is",
        "latest",
        "newest",
        "current",
        "today",
        "news",
        "release",
        "version",
        "update",
        "cosmic",
        "pop!_os",
        "system76",
    ];
    let mut k: usize = 0;
    while k < phrases.len()
        invariant
            k <= phrases@.len(),
            phrases.deep_view() == search_phrases(),
            lower@ == query@.map_values(|c: char| lowered(c)),
            forall|j: int| 0 <= j < k ==> !occurs_in(#[trigger] search_phrases()[j], lower@),
        decreases phrases@.len() - k,
    {
        assert(phrases.deep_view()[k as int] == phrases@[k as int]@);
        if contains(lower.as_str(), phrases[k]) {
            return true;
        }
        k += 1;
    }
    false
}

// ---------------------------------------------------------------------
// The context
// ---------------------------------------------------------------------

/// Collected system context for AI prompts. A field that is `None` was not
/// available.
#[derive(Debug, Clone)]
pub struct Context {
    /// Clipboard content (Ctrl+C)
    pub clipboard: Option<String>,
    /// Primary selection (highlighted text, no copy needed); not shown in
    /// the prompt where it repeats the clipboard
    pub selection: Option<String>,
    /// System information (OS, kernel, memory)
    pub system_info: Option<String>,
    /// Recent system errors from journalctl
    pub recent_errors: Option<String>,
    /// Formatted results of a web search for the query
    pub web_search: Option<String>,
}

/// The mathematical value of a [`Context`].
pub ghost struct ContextView {
    pub clipboard: Option<Seq<char>>,
    pub selection: Option<Seq<char>>,
    pub system_info: Option<Seq<char>>,
    pub recent_errors: Option<Seq<char>>,
    pub web_search: Option<Seq<char>>,
}

impl View for Context {
    type V = ContextView;

    open spec fn view(&self) -> ContextView {
        ContextView {
            clipboard: self.clipboard.deep_view(),
            selection: self.selection.deep_view(),
            system_info: self.system_info.deep_view(),
            recent_errors: self.recent_errors.deep_view(),
            web_search: self.web_search.deep_view(),
        }
    }
}

/// The context in which nothing is available.
pub open spec fn empty_context() -> ContextView {
    ContextView {
        clipboard: None,
        selection: None,
        system_info: None,
        recent_errors: None,
        web_search: None,
    }
}

/// The clipboard field: what the clipboard reader reported, if that is
/// below [`MAX_CONTENT_SIZE`].
pub open spec fn clipboard_of(output: Option<OutputView>) -> Option<Seq<char>> {
    below_limit(reported_text(output), MAX_CONTENT_SIZE as nat)
}

/// The selection field: what the selection reader reported, if that is
/// below [`MAX_CONTENT_SIZE`] and differs from the clipboard field.
pub open spec fn selection_of(output: Option<OutputView>, clipboard: Option<Seq<char>>) -> Option<
    Seq<char>,
> {
    let selection = below_limit(reported_text(output), MAX_CONTENT_SIZE as nat);
    if selection is Some && selection == clipboard {
        None
    } else {
        selection
    }
}

/// A text that may be missing, as a text.
pub open spec fn or_empty(text: Option<Seq<char>>) -> Seq<char> {
    match text {
        Some(text) => text,
        None => Seq::empty(),
    }
}

/// The second line of a text, where it has one.
pub open spec fn second_line(text: Option<Seq<char>>) -> Option<Seq<char>> {
    match text {
        Some(text) => if lines_of(text).len() > 1 {
            Some(lines_of(text)[1])
        } else {
            None
        },
        None => None,
    }
}

/// The system field: distribution, kernel release and memory summary in
/// one line. It is there where the distribution is known; the other two
/// are left empty where they are not.
pub open spec fn system_info_of(
    distro: Option<OutputView>,
    kernel: Option<OutputView>,
    memory: Option<OutputView>,
) -> Option<Seq<char>> {
    let name = or_empty(reported_text(distro));
    if name.len() > 0 {
        Some(
            "OS: "@ + name + ", Kernel: "@ + or_empty(reported_text(kernel)) + ", Memory: "@
                + or_empty(second_line(reported_text(memory))),
        )
    } else {
        None
    }
}

/// The errors field: what the journal reader reported, if that is below
/// [`MAX_ERROR_SIZE`].
pub open spec fn recent_errors_of(output: Option<OutputView>) -> Option<Seq<char>> {
    below_limit(reported_text(output), MAX_ERROR_SIZE as nat)
}

/// The context that a probe gives, before any search.
pub open spec fn gathered(probe: ProbeView) -> ContextView {
    ContextView {
        clipboard: clipboard_of(probe.clipboard),
        selection: selection_of(probe.selection, clipboard_of(probe.clipboard)),
        system_info: system_info_of(probe.distro, probe.kernel, probe.memory),
        recent_errors: recent_errors_of(probe.journal),
        web_search: None,
    }
}

/// A context with the results of a web search for `query` added: where the
/// query calls for a search and the search gave a result, that result,
/// formatted; otherwise the context as it is.
pub open spec fn with_search(
    context: ContextView,
    query: Seq<char>,
    found: Option<crate::web::ResultView>,
) -> ContextView {
    match found {
        Some(result) => if wants_search(query) {
            ContextView { web_search: Some(formatted_result(result)), ..context }
        } else {
            context
        },
        None => context,
    }
}

/// What holds of every gathered context: no field is as large as its
/// limit, and the selection is there only where it differs from the
/// clipboard.
pub open spec fn within_limits(context: ContextView) -> bool {
    &&& context.clipboard matches Some(text) ==> encode_utf8(text).len() < MAX_CONTENT_SIZE
    &&& context.selection matches Some(text) ==> encode_utf8(text).len() < MAX_CONTENT_SIZE
    &&& context.recent_errors matches Some(text) ==> encode_utf8(text).len() < MAX_ERROR_SIZE
    &&& context.selection is Some ==> context.selection != context.clipboard
}

/// The selection as the prompt shows it: not at all where it repeats the
/// clipboard.
pub open spec fn shown_selection(context: ContextView) -> Option<Seq<char>> {
    if context.selection == context.clipboard {
        None
    } else {
        context.selection
    }
}

/// One labelled section of the prompt: nothing where the field is not
/// available.
pub open spec fn section(before: Seq<char>, field: Option<Seq<char>>, after: Seq<char>) -> Seq<
    char,
> {
    match field {
        Some(text) => before + text + after,
        None => Seq::empty(),
    }
}

/// The system prompt with context: the base prompt, then the sections of
/// the fields that are available, in this order: clipboard, selected text,
/// system, recent errors, web search results. A selection that repeats the
/// clipboard has no section.
pub open spec fn formatted_context(context: ContextView, base_prompt: Seq<char>) -> Seq<char> {
    base_prompt + section("\n\n## Clipboard:\n```\n"@, context.clipboard, "\n```"@) + section(
        "\n\n## Selected text:\n```\n"@,
        shown_selection(context),
        "\n```"@,
    ) + section("\n\n## System: "@, context.system_info, ""@) + section(
        "\n\n## Recent errors:\n```\n"@,
        context.recent_errors,
        "\n```"@,
    ) + section("\n\n"@, context.web_search, ""@)
}

/// Append one labelled section to `prompt`.
fn push_section(prompt: &mut String, before: &str, field: &Option<String>, after: &str)
    ensures
        final(prompt)@ == old(prompt)@ + section(before@, field.deep_view(), after@),
{
    match field {
        Some(text) => {
            prompt.append(before);
            prompt.append(text.as_str());
            prompt.append(after);
        },
        None => {},
    }
}

impl Default for Context {
    /// The context in which nothing is available.
    fn default() -> (context: Self)
        ensures
            context@ == empty_context(),
    {
        Context {
            clipboard: None,
            selection: None,
            system_info: None,
            recent_errors: None,
            web_search: None,
        }
    }
}

impl Context {
    /// Gather all available context from what the utilities gave.
    pub fn gather(probe: Probe) -> (context: Self)
        ensures
            context@ == gathered(probe@),
            within_limits(context@),
    {
        let clipboard = Self::get_clipboard(probe.clipboard);
        let selection = Self::get_selection(probe.selection, &clipboard);
        Context {
            clipboard,
            selection,
            system_info: Self::get_system_info(probe.distro, probe.kernel, probe.memory),
            recent_errors: Self::get_recent_errors(probe.journal),
            web_search: None,
        }
    }

    /// Whether there is a selection and it is the very text of the
    /// clipboard.
    fn selection_repeats_clipboard(&self) -> (repeats: bool)
        ensures
            repeats == (self@.selection is Some && self@.selection == self@.clipboard),
    {
        match &self.selection {
            Some(selected) => match &self.clipboard {
                Some(copied) => *selected == *copied,
                None => false,
            },
            None => false,
        }
    }

    /// Build a formatted context string for the AI system prompt. The
    /// selection is left out where it repeats the clipboard.
    pub fn format(&self, base_prompt: &str) -> (prompt: String)
        ensures
            prompt@ == formatted_context(self@, base_prompt@),
    {
        let mut prompt = base_prompt.to_owned();
        push_section(&mut prompt, "\n\n## Clipboard:\n```\n", &self.clipboard, "\n```");
        if !self.selection_repeats_clipboard() {
            push_section(&mut prompt, "\n\n## Selected text:\n```\n", &self.selection, "\n```");
        }
        push_section(&mut prompt, "\n\n## System: ", &self.system_info, "");
        push_section(&mut prompt, "\n\n## Recent errors:\n```\n", &self.recent_errors, "\n```");
        push_section(&mut prompt, "\n\n", &self.web_search, "");
        prompt
    }

    /// The clipboard field from what the clipboard reader gave.
    pub fn get_clipboard(output: Option<CommandOutput>) -> (clipboard: Option<String>)
        ensures
            clipboard.deep_view() == clipboard_of(output.deep_view()),
    {
        keep_below(command_text(output), MAX_CONTENT_SIZE)
    }

    /// The selection field from what the selection reader gave. A
    /// selection that repeats the clipboard is left out.
    pub fn get_selection(output: Option<CommandOutput>, clipboard: &Option<String>) -> (selection:
        Option<String>)
        ensures
            selection.deep_view() == selection_of(output.deep_view(), clipboard.deep_view()),
    {
        match keep_below(command_text(output), MAX_CONTENT_SIZE) {
            Some(text) => {
                let repeats = match clipboard {
                    Some(copied) => *copied == text,
                    None => false,
                };
                if repeats {
                    None
                } else {
                    Some(text)
                }
            },
            None => None,
        }
    }

    /// The system field from what the three system utilities gave.
    pub fn get_system_info(
        distro: Option<CommandOutput>,
        kernel: Option<CommandOutput>,
        memory: Option<CommandOutput>,
    ) -> (system_info: Option<String>)
        ensures
            system_info.deep_view() == system_info_of(
                distro.deep_view(),
                kernel.deep_view(),
                memory.deep_view(),
            ),
    {
        let name = match command_text(distro) {
            Some(text) => text,
            None => String::new(),
        };
        let release = match command_text(kernel) {
            Some(text) => text,
            None => String::new(),
        };
        let summary = match command_text(memory) {
            Some(table) => {
                let mut rows = lines(table.as_str());
                if rows.len() > 1 {
                    rows.swap_remove(1)
                } else {
                    String::new()
                }
            },
            None => String::new(),
        };
        if name.as_str().is_empty() {
            None
        } else {
            let mut info = followed_by("OS: ", name.as_str());
            info.append(", Kernel: ");
            info.append(release.as_str());
            info.append(", Memory: ");
            info.append(summary.as_str());
            Some(info)
        }
    }

    /// The errors field from what the journal reader gave.
    pub fn get_recent_errors(output: Option<CommandOutput>) -> (recent_errors: Option<String>)
        ensures
            recent_errors.deep_view() == recent_errors_of(output.deep_view()),
    {
        keep_below(command_text(output), MAX_ERROR_SIZE)
    }

    /// Gather all available context and add the results of a web search
    /// for `query`. `found` is what the search gave; it is used only where
    /// [`should_search`] calls for a search for `query`.
    pub fn gather_with_search(probe: Probe, query: &str, found: Option<SearchResult>) -> (context:
        Self)
        ensures
            context@ == with_search(gathered(probe@), query@, found.deep_view()),
            within_limits(context@),
    {
        let mut context = Self::gather(probe);
        if should_search(query) {
            match found {
                Some(result) => {
                    context.web_search = Some(format_results(&result));
                },
                None => {},
            }
        }
        context
    }
}

/// No field of a gathered context is as large as its limit, and its
/// selection never repeats its clipboard, so that the prompt shows it.
pub proof fn lemma_gathered_within_limits(probe: ProbeView)
    ensures
        within_limits(gathered(probe)),
        shown_selection(gathered(probe)) == gathered(probe).selection,
{
}

/// Gathering drops a selection that repeats the clipboard: where the
/// selection reader reports the very text that the clipboard field holds,
/// the context has no selection.
pub proof fn lemma_gather_drops_duplicate_selection(probe: ProbeView)
    requires
        reported_text(probe.selection) == clipboard_of(probe.clipboard),
    ensures
        gathered(probe).selection is None,
        gathered(probe).clipboard == clipboard_of(probe.clipboard),
{
}

/// Duplicate selection: the prompt of any context whose selection is the
/// very text of its clipboard has the clipboard section and no section for
/// the selection; it goes from the clipboard section straight on to the
/// system section.
pub proof fn lemma_duplicate_selection_omitted(context: ContextView, base_prompt: Seq<char>)
    requires
        context.clipboard is Some,
        context.selection == context.clipboard,
    ensures
        formatted_context(context, base_prompt) == base_prompt + "\n\n## Clipboard:\n```\n"@
            + context.clipboard.unwrap() + "\n```"@ + section(
            "\n\n## System: "@,
            context.system_info,
            ""@,
        ) + section("\n\n## Recent errors:\n```\n"@, context.recent_errors, "\n```"@) + section(
            "\n\n"@,
            context.web_search,
            ""@,
        ),
        formatted_context(context, base_prompt) == formatted_context(
            ContextView { selection: None, ..context },
            base_prompt,
        ),
{
}

/// Every field of a context stands in the prompt in its place: the prompt
/// of a context is the prompt of the same context without web search
/// results, followed by those results.
pub proof fn lemma_search_section_is_last(context: ContextView, base_prompt: Seq<char>)
    ensures
        formatted_context(context, base_prompt) == formatted_context(
            ContextView { web_search: None, ..context },
            base_prompt,
        ) + section("\n\n"@, context.web_search, ""@),
{
}

} // verus!
