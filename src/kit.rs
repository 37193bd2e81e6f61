//! The operations a script uses to talk to its user, and the flag that
//! decides whether the view closes by itself when the script ends.

use crate::content::{
    editor_payload, editor_fields_spec, json_object_text, markdown_html, markdown_page_spec,
    message_card, message_card_spec, render_markdown, EditorSource,
};
use crate::controller::{error_text, opened, Prompt, UIController, UiError, EDITOR_TITLE};
use crate::number::{answer_is_number, reads_as_number};
use crate::protocol::{bool_text, RequestKind, UIRequest};
use tokio::sync::oneshot::Sender;
use vstd::prelude::*;

verus! {

/// Id of the completion signal.
pub const COMPLETE_ID: &'static str = "script_complete";

/// Id of the forced-close signal.
pub const EXIT_ID: &'static str = "script_exit";

/// Title of HTML that a script renders without naming one.
pub const SCRIPT_OUTPUT_TITLE: &'static str = "Rhai Script Output";

/// Title of rendered Markdown.
pub const MARKDOWN_TITLE: &'static str = "Markdown Content";

/// Heading of the notice shown when a number could not be read.
pub const INVALID_NUMBER_TITLE: &'static str = "Invalid Input";

/// Text of the notice shown when a number could not be read.
pub const INVALID_NUMBER_TEXT: &'static str = "Please enter a valid number.";

/// What a persistent editor reports once it has been opened.
pub const PERSISTENT_EDITOR_STATUS: &'static str = "Persistent editor opened successfully";

/// The label that accepts a confirmation.
pub const YES: &'static str = "Yes";

/// The label that declines a confirmation.
pub const NO: &'static str = "No";

/// Whether an answer reads "Yes", in any mix of upper and lower case.
pub open spec fn is_yes(answer: Seq<char>) -> bool {
    &&& answer.len() == 3
    &&& (answer[0] == 'y' || answer[0] == 'Y')
    &&& (answer[1] == 'e' || answer[1] == 'E')
    &&& (answer[2] == 's' || answer[2] == 'S')
}

/// The request `r` shows `content` as HTML under `title`, with nothing waiting.
pub open spec fn shows_html(r: UIRequest, title: Seq<char>, content: Seq<char>) -> bool {
    &&& r.kind == RequestKind::Html
    &&& r.message@ == title
    &&& r.options is None
    &&& r.html_content matches Some(c) && c@ == content
}

/// The request `r` opens the editor on `payload`.
pub open spec fn opens_editor_on(r: UIRequest, payload: Seq<char>) -> bool {
    &&& r.kind == RequestKind::Editor
    &&& r.message@ == EDITOR_TITLE@
    &&& r.options is None
    &&& r.html_content matches Some(c) && c@ == payload
}

/// The request `r` asks for a line of text under `message`.
pub open spec fn asks_text(r: UIRequest, message: Seq<char>) -> bool {
    &&& r.kind == RequestKind::Input
    &&& r.message@ == message
    &&& r.options is None
    &&& r.html_content is None
}

/// What an operation does to the flag that says whether the run waited
/// for the user.
#[derive(Debug, Clone, Copy, PartialEq, Eq, Structural)]
pub enum FlagEffect {
    /// The operation waits for the user: the flag goes up.
    Raise,
    /// The operation renders content to be read: the flag goes down.
    Clear,
    /// The operation leaves the flag as it was.
    Keep,
}

/// The flag after an operation with `effect`, from `awaiting`.
pub open spec fn flag_after(awaiting: bool, effect: FlagEffect) -> bool {
    match effect {
        FlagEffect::Raise => true,
        FlagEffect::Clear => false,
        FlagEffect::Keep => awaiting,
    }
}

/// The flag at the end of a run whose operations had `effects`, in order,
/// starting from a fresh kit.
pub open spec fn flag_after_run(effects: Seq<FlagEffect>) -> bool
    decreases effects.len(),
{
    if effects.len() == 0 {
        false
    } else {
        flag_after(flag_after_run(effects.drop_last()), effects.last())
    }
}

/// Message of the completion signal that closes the view.
pub const AUTO_CLOSE_MESSAGE: &'static str = "Script Complete - Auto Close";

/// Message of the completion signal that keeps the view up.
pub const STAY_VISIBLE_MESSAGE: &'static str = "Script Complete - Stay Visible";

/// Message of the forced-close signal.
pub const EXIT_MESSAGE: &'static str = "Script Exit - Force Close";

/// The next move of a number prompt after an answer came back.
pub enum NumberStep {
    /// The answer reads as a number: the prompt is over.
    Accept,
    /// The answer does not read as a number: show the notice, then ask again.
    Retry { notice: UIRequest, prompt: Prompt },
    /// The wait failed: the prompt ends with this error.
    Fail(String),
}

/// The state of one script run as far as the user interface is concerned.
pub struct Kit {
    has_awaiting_components: bool,
}

impl Kit {
    /// Whether this run used an operation that waits for the user.
    pub closed spec fn awaiting(&self) -> bool {
        self.has_awaiting_components
    }

    /// The state at the start of a run: nothing has waited yet.
    pub fn new() -> (r: Kit)
        ensures
            !r.awaiting(),
    {
        Kit { has_awaiting_components: false }
    }

    /// Whether this run used an operation that waits for the user.
    pub fn has_awaiting_components(&self) -> (r: bool)
        ensures
            r == self.awaiting(),
    {
        self.has_awaiting_components
    }

    /// Asks for a line of text.
    pub fn ask_input(&mut self, ui: &mut UIController, message: &str) -> (r: Prompt)
        ensures
            final(self).awaiting() == flag_after(old(self).awaiting(), FlagEffect::Raise),
            asks_text(r.request, message@),
            opened(old(ui)@, final(ui)@, r.request.id@),
    {
        self.has_awaiting_components = true;
        ui.ask_input(message)
    }

    /// Asks for one of `options`.
    pub fn ask_select(&mut self, ui: &mut UIController, message: &str, options: Vec<String>) -> (r:
        Prompt)
        ensures
            final(self).awaiting() == flag_after(old(self).awaiting(), FlagEffect::Raise),
            r.request.kind == RequestKind::Select,
            r.request.message@ == message@,
            r.request.options == Some(options),
            r.request.html_content is None,
            opened(old(ui)@, final(ui)@, r.request.id@),
    {
        self.has_awaiting_components = true;
        ui.ask_select(message, options)
    }

    /// Asks a yes/no question, offered as the two labels "Yes" and "No".
    pub fn confirm(&mut self, ui: &mut UIController, message: &str) -> (r: Prompt)
        ensures
            final(self).awaiting() == flag_after(old(self).awaiting(), FlagEffect::Raise),
            r.request.kind == RequestKind::Select,
            r.request.message@ == message@,
            r.request.options matches Some(o) && o.deep_view() == seq![YES@, NO@],
            r.request.html_content is None,
            opened(old(ui)@, final(ui)@, r.request.id@),
    {
        self.has_awaiting_components = true;
        let mut options: Vec<String> = Vec::new();
        options.push(String::from_str(YES));
        options.push(String::from_str(NO));
        let r = ui.ask_select(message, options);
        assert(options.deep_view() =~= seq![YES@, NO@]);
        r
    }

    /// What the answer to a confirmation means: true exactly when it reads
    /// "Yes", whatever the case of its letters.
    pub fn confirm_answer(answer: &str) -> (r: bool)
        ensures
            r == is_yes(answer@),
    {
        if answer.unicode_len() != 3 {
            return false;
        }
        let a = answer.get_char(0);
        let b = answer.get_char(1);
        let c = answer.get_char(2);
        (a == 'y' || a == 'Y') && (b == 'e' || b == 'E') && (c == 's' || c == 'S')
    }

    /// Starts asking for a number: a text prompt whose answer is read as one.
    pub fn ask_number(&mut self, ui: &mut UIController, message: &str) -> (r: Prompt)
        ensures
            final(self).awaiting() == flag_after(old(self).awaiting(), FlagEffect::Raise),
            asks_text(r.request, message@),
            opened(old(ui)@, final(ui)@, r.request.id@),
    {
        self.has_awaiting_components = true;
        ui.ask_input(message)
    }

    /// Decides what follows a number prompt once its wait is over. A failed
    /// wait ends the prompt with that failure; only an answer that reads as a
    /// number ends it with a value; anything else brings a notice and the same
    /// question again.
    pub fn number_reply(
        &mut self,
        ui: &mut UIController,
        message: &str,
        outcome: &Result<String, UiError>,
    ) -> (r: NumberStep)
        ensures
            final(self).awaiting() == flag_after(old(self).awaiting(), FlagEffect::Keep),
            outcome matches Err(e) ==> (r matches NumberStep::Fail(m) && m@ == error_text(*e)
                && final(ui)@ == old(ui)@),
            outcome matches Ok(a) ==> (reads_as_number(a@) ==> r is Accept && final(ui)@ == old(
                ui,
            )@),
            outcome matches Ok(a) ==> (!reads_as_number(a@) ==> (r matches NumberStep::Retry {
                notice,
                prompt,
            } && shows_html(
                notice,
                INVALID_NUMBER_TITLE@,
                message_card_spec(INVALID_NUMBER_TITLE@, INVALID_NUMBER_TEXT@),
            ) && asks_text(prompt.request, message@) && opened(
                old(ui)@,
                final(ui)@,
                prompt.request.id@,
            ))),
    {
        match outcome {
            Err(e) => NumberStep::Fail(e.message()),
            Ok(answer) => {
                if answer_is_number(answer.as_str()) {
                    NumberStep::Accept
                } else {
                    let notice = self.show_message(ui, INVALID_NUMBER_TITLE, INVALID_NUMBER_TEXT);
                    let prompt = ui.ask_input(message);
                    NumberStep::Retry { notice, prompt }
                }
            },
        }
    }

    /// Shows HTML under `title`; the flag is left as it is.
    pub fn render_html(&self, ui: &UIController, title: &str, html_content: &str) -> (r: UIRequest)
        ensures
            shows_html(r, title@, html_content@),
    {
        ui.show_html(title, String::from_str(html_content))
    }

    /// Clears the flag, so that the view stays up when the run ends.
    pub fn reset_awaiting_flag(&mut self)
        ensures
            final(self).awaiting() == flag_after(old(self).awaiting(), FlagEffect::Clear),
    {
        self.has_awaiting_components = false;
    }

    /// Shows a short message under a heading.
    pub fn show_message(&self, ui: &UIController, title: &str, message: &str) -> (r: UIRequest)
        ensures
            shows_html(r, title@, message_card_spec(title@, message@)),
    {
        ui.show_html(title, message_card(title, message))
    }

    /// Shows HTML from a script and keeps the view up afterwards.
    pub fn render_html_sync(&mut self, ui: &UIController, html_content: &str) -> (r: UIRequest)
        ensures
            final(self).awaiting() == flag_after(old(self).awaiting(), FlagEffect::Clear),
            shows_html(r, SCRIPT_OUTPUT_TITLE@, html_content@),
    {
        self.has_awaiting_components = false;
        self.render_html(ui, SCRIPT_OUTPUT_TITLE, html_content)
    }

    /// Shows Markdown from a script, rendered and styled, and keeps the view
    /// up afterwards.
    pub fn render_markdown_sync(&mut self, ui: &UIController, markdown_content: &str) -> (r:
        UIRequest)
        ensures
            final(self).awaiting() == flag_after(old(self).awaiting(), FlagEffect::Clear),
            shows_html(r, MARKDOWN_TITLE@, markdown_page_spec(markdown_html(markdown_content@))),
    {
        self.has_awaiting_components = false;
        ui.show_html(MARKDOWN_TITLE, render_markdown(markdown_content))
    }

    /// The completion signal: it asks the view to close by itself exactly
    /// when something in this run waited for the user.
    pub fn script_complete(&self) -> (r: UIRequest)
        ensures
            r.id@ == COMPLETE_ID@,
            r.kind == RequestKind::Complete,
            r.message@ == if self.awaiting() {
                AUTO_CLOSE_MESSAGE@
            } else {
                STAY_VISIBLE_MESSAGE@
            },
            r.options matches Some(o) && o@.len() == 1 && o@[0]@ == bool_text(self.awaiting()),
            r.html_content is None,
            r.signals_close() == self.awaiting(),
    {
        let message = if self.has_awaiting_components {
            AUTO_CLOSE_MESSAGE
        } else {
            STAY_VISIBLE_MESSAGE
        };
        let r = UIRequest::complete(COMPLETE_ID, message, self.has_awaiting_components);
        proof {
            reveal_strlit("true");
            reveal_strlit("false");
        }
        r
    }

    /// The forced-close signal, whatever happened in this run.
    pub fn exit(&self) -> (r: UIRequest)
        ensures
            r.id@ == EXIT_ID@,
            r.kind == RequestKind::Complete,
            r.message@ == EXIT_MESSAGE@,
            r.options matches Some(o) && o@.len() == 1 && o@[0]@ == bool_text(true),
            r.html_content is None,
            r.signals_close(),
    {
        let r = UIRequest::complete(EXIT_ID, EXIT_MESSAGE, true);
        proof {
            reveal_strlit("true");
        }
        r
    }

    /// Opens the editor on `source` and waits for what it hands back.
    pub fn editor(&mut self, ui: &mut UIController, source: &EditorSource) -> (r: Prompt)
        ensures
            final(self).awaiting() == flag_after(old(self).awaiting(), FlagEffect::Raise),
            opens_editor_on(r.request, json_object_text(editor_fields_spec(*source, false))),
            opened(old(ui)@, final(ui)@, r.request.id@),
    {
        self.has_awaiting_components = true;
        ui.show_editor(editor_payload(source, false))
    }

    /// Ends an editor session: once the editor answered, the flag is cleared
    /// so that the view stays up; a failed wait leaves it as it was.
    pub fn editor_closed(&mut self, outcome: Result<String, UiError>) -> (r: Result<String, UiError>)
        ensures
            r == outcome,
            outcome is Ok ==> final(self).awaiting() == flag_after(old(self).awaiting(), FlagEffect::Clear),
            outcome is Err ==> final(self).awaiting() == flag_after(old(self).awaiting(), FlagEffect::Keep),
    {
        if outcome.is_ok() {
            self.has_awaiting_components = false;
        }
        outcome
    }

    /// Opens the editor on `source` without waiting for it; the flag is
    /// cleared so that the editor stays up once the run ends.
    pub fn editor_persistent(&mut self, ui: &UIController, source: &EditorSource) -> (r: UIRequest)
        ensures
            final(self).awaiting() == flag_after(old(self).awaiting(), FlagEffect::Clear),
            opens_editor_on(r, json_object_text(editor_fields_spec(*source, true))),
    {
        self.has_awaiting_components = false;
        ui.show_editor_sync(editor_payload(source, true))
    }
}

/// Auto-close on completion. From a fresh kit, a run in which no operation
/// waited for the user (one that only rendered HTML or Markdown, say) ends
/// with the flag down, so the completion signal asks the view to stay; a run
/// whose last operation that changed the flag waited for the user (an
/// `ask_input`, say) ends with it up, so the signal asks the view to close.
/// The exit signal asks the view to close whatever the flag.
pub proof fn lemma_auto_close(effects: Seq<FlagEffect>)
    ensures
        (forall|i: int| 0 <= i < effects.len() ==> effects[i] != FlagEffect::Raise)
            ==> !flag_after_run(effects),
        effects.len() > 0 && effects.last() == FlagEffect::Raise ==> flag_after_run(effects),
    decreases effects.len(),
{
    if effects.len() > 0 {
        lemma_auto_close(effects.drop_last());
    }
}

} // verus!
