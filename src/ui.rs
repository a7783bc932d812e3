use vstd::prelude::*;
use vstd::string::StringExecFns;

use crate::input::{taken, opt_text, CaptureView, InputCapture};

verus! {

/// Which half of the handshake this session plays.
#[derive(Clone, Copy, Debug, PartialEq, Eq, Structural)]
pub enum ConnectionMode {
    /// Wait for a remote peer's offer and accept it.
    Receive,
    /// Connect to a peer whose id the user gives.
    Send,
}

/// One line of the chat log: who said it and what.
#[derive(Clone, Debug)]
pub struct ChatEntry {
    pub sender: String,
    pub text: String,
}

/// The sender and text of an entry.
pub open spec fn entry_text(e: ChatEntry) -> (Seq<char>, Seq<char>) {
    (e.sender@, e.text@)
}

/// The markup that shows an entry: the sender in bold, then the text.
pub open spec fn entry_markup(sender: Seq<char>, text: Seq<char>) -> Seq<char> {
    "<b>"@ + sender + ":</b> "@ + text
}

/// The script that copies a peer id to the clipboard.
pub open spec fn copy_script(id: Seq<char>) -> Seq<char> {
    "navigator.clipboard.writeText('"@ + id + "')"@
}

impl ChatEntry {
    /// The markup that shows this entry.
    pub fn markup(&self) -> (r: String)
        ensures
            r@ == entry_markup(self.sender@, self.text@),
    {
        String::from_str("<b>").concat(self.sender.as_str()).concat(":</b> ").concat(
            self.text.as_str(),
        )
    }
}

/// What the chat page shows and holds, as seen by contracts.
pub struct UIView {
    /// The local peer id on display.
    pub peer_id: Seq<char>,
    /// The action of the button that copies the local peer id.
    pub copy_action: Seq<char>,
    /// Whether the loading indicator is shown.
    pub loading: bool,
    /// The chat log, oldest entry first, as (sender, text) pairs.
    pub log: Seq<(Seq<char>, Seq<char>)>,
    /// The message input and its submission mailbox.
    pub input: CaptureView,
}

/// The chat page: the local peer id, the loading indicator, the append-only
/// chat log and the message input.
pub struct UI {
    peer_id: String,
    copy_action: String,
    loading: bool,
    log: Vec<ChatEntry>,
    input: InputCapture,
}

impl View for UI {
    type V = UIView;

    closed spec fn view(&self) -> UIView {
        UIView {
            peer_id: self.peer_id@,
            copy_action: self.copy_action@,
            loading: self.loading,
            log: self.log@.map_values(|e: ChatEntry| entry_text(e)),
            input: self.input@,
        }
    }
}

impl UI {
    /// A blank page: no peer id, no loading indicator, an empty log and an
    /// input that is not yet listened to.
    pub fn new() -> (r: UI)
        ensures
            r@.peer_id == Seq::<char>::empty(),
            r@.copy_action == Seq::<char>::empty(),
            !r@.loading,
            r@.log == Seq::<(Seq<char>, Seq<char>)>::empty(),
            r@.input == (CaptureView { armed: false, dirty: false, field: Seq::empty() }),
    {
        let r = UI {
            peer_id: String::new(),
            copy_action: String::new(),
            loading: false,
            log: Vec::new(),
            input: InputCapture::new(),
        };
        assert(r@.log =~= Seq::<(Seq<char>, Seq<char>)>::empty());
        r
    }

    /// Shows the local peer id and points the copy button at it.
    pub fn set_peer_id(&mut self, id: &str)
        ensures
            final(self)@ == (UIView { peer_id: id@, copy_action: copy_script(id@), ..old(self)@ }),
    {
        self.peer_id = String::from_str(id);
        self.copy_action = String::from_str("navigator.clipboard.writeText('").concat(id).concat(
            "')",
        );
    }

    /// Appends an entry to the chat log.
    pub fn insert_message(&mut self, name: &str, message: String)
        ensures
            final(self)@ == (UIView { log: old(self)@.log.push((name@, message@)), ..old(self)@ }),
    {
        let ghost before = self.log@;
        self.log.push(ChatEntry { sender: String::from_str(name), text: message });
        assert(self.log@.map_values(|e: ChatEntry| entry_text(e)) =~= before.map_values(
            |e: ChatEntry| entry_text(e),
        ).push((name@, message@)));
    }

    /// The mode the user picked: `Send` when they chose to start the connection.
    pub fn ask_for_connection_mode(send: bool) -> (r: ConnectionMode)
        ensures
            r == (if send {
                ConnectionMode::Send
            } else {
                ConnectionMode::Receive
            }),
    {
        if send {
            ConnectionMode::Send
        } else {
            ConnectionMode::Receive
        }
    }

    /// Shows the loading indicator.
    pub fn show_loading(&mut self)
        ensures
            final(self)@ == (UIView { loading: true, ..old(self)@ }),
    {
        self.loading = true;
    }

    /// Hides the loading indicator.
    pub fn hide_loading(&mut self)
        ensures
            final(self)@ == (UIView { loading: false, ..old(self)@ }),
    {
        self.loading = false;
    }

    /// The class of the loading indicator: none while shown, `hidden` otherwise.
    pub fn loading_class(&self) -> (r: &'static str)
        ensures
            r@ == (if self@.loading {
                ""@
            } else {
                "hidden"@
            }),
    {
        if self.loading {
            ""
        } else {
            "hidden"
        }
    }

    /// Starts listening to submissions of the message input.
    pub fn setup_chat_input(&mut self)
        ensures
            final(self)@ == (UIView {
                input: CaptureView { armed: true, dirty: false, ..old(self)@.input },
                ..old(self)@
            }),
    {
        self.input.arm();
    }

    /// The message form was submitted.
    pub fn submit(&mut self)
        ensures
            final(self)@ == (UIView { input: crate::input::notified(old(self)@.input), ..old(self)@ }),
    {
        self.input.notify();
    }

    /// The user typed into the message input.
    pub fn edit_input(&mut self, text: String)
        ensures
            final(self)@ == (UIView {
                input: CaptureView { field: text@, ..old(self)@.input },
                ..old(self)@
            }),
    {
        self.input.edit(text);
    }

    /// The submitted message, once per submission: reads and clears the
    /// input, or returns nothing when no submission is pending. Submissions
    /// are only listened to once `setup_chat_input` ran.
    pub fn get_message(&mut self) -> (r: Option<String>)
        requires
            old(self)@.input.armed,
        ensures
            final(self)@ == (UIView { input: taken(old(self)@.input).0, ..old(self)@ }),
            opt_text(r) == taken(old(self)@.input).1,
    {
        self.input.take()
    }

    /// Whether submissions of the message input are listened to.
    pub fn is_listening(&self) -> (r: bool)
        ensures
            r == self@.input.armed,
    {
        self.input.is_armed()
    }

    /// The text of the message input.
    pub fn input_value(&self) -> (r: &str)
        ensures
            r@ == self@.input.field,
    {
        self.input.field()
    }

    /// The local peer id on display.
    pub fn peer_id(&self) -> (r: &str)
        ensures
            r@ == self@.peer_id,
    {
        self.peer_id.as_str()
    }

    /// The action of the copy button.
    pub fn copy_action(&self) -> (r: &str)
        ensures
            r@ == self@.copy_action,
    {
        self.copy_action.as_str()
    }

    /// The number of entries in the chat log.
    pub fn log_len(&self) -> (r: usize)
        ensures
            r == self@.log.len(),
    {
        self.log.len()
    }

    /// The entry at position `i` of the chat log.
    pub fn entry(&self, i: usize) -> (r: &ChatEntry)
        requires
            i < self@.log.len(),
        ensures
            entry_text(*r) == self@.log[i as int],
    {
        &self.log[i]
    }
}

} // verus!
