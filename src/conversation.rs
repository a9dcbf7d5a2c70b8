//! The records shown by the interface: channels, users, messages, and the
//! conversation on display.

use vstd::prelude::*;
use crate::observer::{Event, Observer};

verus! {

/// An entry of a selectable list: an identifying key and a display label.
pub trait ListEntry {
    spec fn key_view(&self) -> Seq<char>;

    spec fn label_view(&self) -> Seq<char>;

    fn key(&self) -> (r: String)
        ensures
            r@ == self.key_view(),
    ;

    fn label(&self) -> (r: String)
        ensures
            r@ == self.label_view(),
    ;
}

/// A channel of the workspace.
pub struct Channel {
    pub id: String,
    pub name: String,
}

/// A user of the workspace.
pub struct User {
    pub id: String,
    pub name: String,
}

/// One message of a conversation.
pub struct Message {
    pub text: String,
    pub username: String,
    pub message_type: String,
    pub ts: String,
}

impl ListEntry for Channel {
    open spec fn key_view(&self) -> Seq<char> {
        self.id@
    }

    open spec fn label_view(&self) -> Seq<char> {
        self.name@
    }

    fn key(&self) -> (r: String) {
        self.id.clone()
    }

    fn label(&self) -> (r: String) {
        self.name.clone()
    }
}

impl ListEntry for User {
    open spec fn key_view(&self) -> Seq<char> {
        self.id@
    }

    open spec fn label_view(&self) -> Seq<char> {
        self.name@
    }

    fn key(&self) -> (r: String) {
        self.id.clone()
    }

    fn label(&self) -> (r: String) {
        self.name.clone()
    }
}

/// The conversation on display. Its identifier and name only ever change
/// together.
pub struct Conversation {
    pub conversation_name: String,
    pub conversation_id: String,
}

impl Conversation {
    pub open spec fn name_view(&self) -> Seq<char> {
        self.conversation_name@
    }

    pub open spec fn id_view(&self) -> Seq<char> {
        self.conversation_id@
    }

    pub fn new(conversation_name: String, conversation_id: String) -> (r: Conversation)
        ensures
            r.conversation_name == conversation_name,
            r.conversation_id == conversation_id,
    {
        Conversation { conversation_name, conversation_id }
    }

    pub fn set_conversation_name_and_id(&mut self, name: String, id: String)
        ensures
            final(self).conversation_name == name,
            final(self).conversation_id == id,
    {
        self.conversation_name = name;
        self.conversation_id = id;
    }

    pub fn name(&self) -> (r: &String)
        ensures
            r@ == self.name_view(),
    {
        &self.conversation_name
    }

    pub fn id(&self) -> (r: &String)
        ensures
            r@ == self.id_view(),
    {
        &self.conversation_id
    }
}

impl Observer for Conversation {
    /// A change of conversation replaces identifier and name at once.
    open spec fn notified(self, event: Event) -> Conversation {
        match event {
            Event::ChangeConversation { id, name } => Conversation {
                conversation_name: name,
                conversation_id: id,
            },
        }
    }

    fn notify(&mut self, event: &Event) {
        match event {
            Event::ChangeConversation { id, name } => {
                self.set_conversation_name_and_id(name.clone(), id.clone());
            },
        }
    }
}

} // verus!
