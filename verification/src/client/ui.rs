//! Client UI state.
use vstd::prelude::*;
use crate::client::game::chat_view;
use crate::text::{chars_of, string_of_chars, trim_range, trimmed};

verus! {

/// Widget kinds of the server-authored GUI.
#[derive(Debug, Clone, Copy, PartialEq, Eq, Structural)]
pub enum GuiWidgetKind {
    Window,
    Button,
    Text,
    Edit,
    Checkbox,
    RadioButton,
    List,
    ListItem,
}

/// The chat panel: the line being typed.
#[derive(Debug, Clone)]
pub struct ChatPanel {
    pub input: String,
}

/// How the typed chat line was submitted.
#[derive(Debug, Clone, Copy, PartialEq, Eq, Structural)]
pub enum ChatSubmit {
    /// Enter pressed in the input field.
    Enter,
    /// The Send button clicked.
    SendButton,
}

impl ChatPanel {
    /// An empty input line.
    pub fn new() -> (r: ChatPanel)
        ensures
            r.input@ == Seq::<char>::empty(),
    {
        ChatPanel { input: String::new() }
    }

    /// Submits the typed line. Its text without surrounding white space,
    /// when not empty, joins the chat log under `sender`; returns whether
    /// it did. Enter always empties the input; the Send button empties it
    /// only when a line was added.
    pub fn submit(&mut self, chat: &mut Vec<(String, String)>, sender: &str, how: ChatSubmit) -> (r: bool)
        ensures
            r == (trimmed(old(self).input@).len() > 0),
            chat_view(final(chat)@) == (if r {
                chat_view(old(chat)@).push((sender@, trimmed(old(self).input@)))
            } else {
                chat_view(old(chat)@)
            }),
            final(self).input@ == (if how == ChatSubmit::Enter || r {
                Seq::<char>::empty()
            } else {
                old(self).input@
            }),
    {
        let cs = chars_of(self.input.as_str());
        let t = trim_range(&cs, 0, cs.len());
        assert(cs@.subrange(0, cs@.len() as int) =~= cs@);
        let added = t.len() > 0;
        if added {
            let ghost before = chat@;
            let text = string_of_chars(t);
            chat.push((sender.to_string(), text));
            assert(chat_view(chat@) =~= chat_view(before).push((sender@, trimmed(old(self).input@))));
        }
        if how == ChatSubmit::Enter || added {
            self.input = String::new();
        }
        added
    }
}

} // verus!
