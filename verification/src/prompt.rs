//! The prompt of a generation: an optional system instruction and either a
//! text or a list of messages.

use vstd::prelude::*;

use crate::message::{Message, UserContent, UserMessage};
use crate::tool::opt_text;

verus! {

broadcast use vstd::string::group_string_axioms;

/// `m` is a message of the user with the text `text` and no options.
pub open spec fn is_user_text(m: Message, text: Seq<char>) -> bool {
    &&& m is User
    &&& m->User_0.role@ == "user"@
    &&& m->User_0.provider_options is None
    &&& m->User_0.content matches UserContent::Text(t) && t@ == text
}

/// What a prompt asks: a text, or a conversation of messages.
#[derive(Debug, Clone, PartialEq)]
pub enum PromptContent {
    Text { text: String },
    Messages { messages: Vec<Message> },
}

impl PromptContent {
    /// The conversation that the prompt asks: a text is one user message
    /// of that text.
    pub fn into_messages(self) -> (r: Vec<Message>)
        ensures
            match self {
                PromptContent::Text { text } => r@.len() == 1 && is_user_text(r@[0], text@),
                PromptContent::Messages { messages } => r == messages,
            },
    {
        match self {
            PromptContent::Text { text } => {
                let mut r: Vec<Message> = Vec::new();
                r.push(Message::User(UserMessage::new(text.as_str())));
                r
            },
            PromptContent::Messages { messages } => messages,
        }
    }

    /// Whether the prompt is a text.
    pub fn is_text(&self) -> (r: bool)
        ensures
            r == (self is Text),
    {
        match self {
            PromptContent::Text { .. } => true,
            PromptContent::Messages { .. } => false,
        }
    }

    /// Whether the prompt is a list of messages.
    pub fn is_messages(&self) -> (r: bool)
        ensures
            r == (self is Messages),
    {
        match self {
            PromptContent::Text { .. } => false,
            PromptContent::Messages { .. } => true,
        }
    }
}

/// A prompt: an optional system instruction and what is asked.
#[derive(Debug, Clone, PartialEq)]
pub struct Prompt {
    pub system: Option<String>,
    pub content: PromptContent,
}

impl Prompt {
    /// A prompt of the text `text`, without a system instruction.
    pub fn text(text: &str) -> (p: Self)
        ensures
            p.system is None,
            p.content matches PromptContent::Text { text: t } && t@ == text@,
    {
        Prompt { system: None, content: PromptContent::Text { text: text.to_string() } }
    }

    /// A prompt of the messages `messages`, without a system instruction.
    pub fn messages(messages: Vec<Message>) -> (p: Self)
        ensures
            p.system is None,
            p.content == (PromptContent::Messages { messages }),
    {
        Prompt { system: None, content: PromptContent::Messages { messages } }
    }

    /// Sets the system instruction.
    pub fn with_system(self, system: &str) -> (p: Self)
        ensures
            opt_text(p.system) == Some(system@),
            p.content == self.content,
    {
        Prompt { system: Some(system.to_string()), content: self.content }
    }

    /// The messages, if the prompt is a list of messages.
    pub fn get_messages(&self) -> (r: Option<&Vec<Message>>)
        ensures
            match self.content {
                PromptContent::Messages { messages } => r == Some(&messages),
                PromptContent::Text { .. } => r is None,
            },
    {
        match &self.content {
            PromptContent::Messages { messages } => Some(messages),
            PromptContent::Text { .. } => None,
        }
    }

    /// The text, if the prompt is a text.
    pub fn get_text(&self) -> (r: Option<&str>)
        ensures
            match self.content {
                PromptContent::Text { text } => r matches Some(t) && t@ == text@,
                PromptContent::Messages { .. } => r is None,
            },
    {
        match &self.content {
            PromptContent::Text { text } => Some(text.as_str()),
            PromptContent::Messages { .. } => None,
        }
    }

    /// The messages, for changing them, if the prompt is a list of messages.
    pub fn get_messages_mut(&mut self) -> (r: Option<&mut Vec<Message>>)
        ensures
            old(self).content is Text ==> r is None && *final(self) == *old(self),
            old(self).content is Messages ==> r is Some,
            r matches Some(m) ==> *m == old(self).content->Messages_messages,
            r matches Some(m) ==> *final(self) == (Prompt {
                system: old(self).system,
                content: PromptContent::Messages { messages: *final(m) },
            }),
    {
        match &mut self.content {
            PromptContent::Messages { messages } => Some(messages),
            PromptContent::Text { .. } => None,
        }
    }

    /// The system instruction and the content, handing them over.
    pub fn into_parts(self) -> (r: (Option<String>, PromptContent))
        ensures
            r == (self.system, self.content),
    {
        (self.system, self.content)
    }
}

impl From<String> for Prompt {
    fn from(text: String) -> (p: Self) {
        Prompt { system: None, content: PromptContent::Text { text } }
    }
}

impl vstd::std_specs::convert::FromSpecImpl<String> for Prompt {
    open spec fn obeys_from_spec() -> bool {
        true
    }

    open spec fn from_spec(text: String) -> Prompt {
        Prompt { system: None, content: PromptContent::Text { text } }
    }
}

impl<'a> From<&'a str> for Prompt {
    /// A prompt of the text `text`, without a system instruction.
    fn from(text: &'a str) -> (p: Self)
        ensures
            p.system is None,
            p.content matches PromptContent::Text { text: t } && t@ == text@,
    {
        Prompt { system: None, content: PromptContent::Text { text: text.to_string() } }
    }
}

impl<'a> vstd::std_specs::convert::FromSpecImpl<&'a str> for Prompt {
    /// A `String` is not determined by its characters in specifications,
    /// so the prompt is stated by the `ensures` of `from` instead.
    open spec fn obeys_from_spec() -> bool {
        false
    }

    open spec fn from_spec(text: &'a str) -> Prompt {
        Prompt {
            system: None,
            content: PromptContent::Text { text: choose|s: String| s@ == text@ },
        }
    }
}

impl From<Vec<Message>> for Prompt {
    fn from(messages: Vec<Message>) -> (p: Self) {
        Prompt { system: None, content: PromptContent::Messages { messages } }
    }
}

impl vstd::std_specs::convert::FromSpecImpl<Vec<Message>> for Prompt {
    open spec fn obeys_from_spec() -> bool {
        true
    }

    open spec fn from_spec(messages: Vec<Message>) -> Prompt {
        Prompt { system: None, content: PromptContent::Messages { messages } }
    }
}

/// What an agent is called with.
#[derive(Debug, Clone, PartialEq)]
pub struct AgentCallParameters {
    pub prompt: PromptContent,
}

impl AgentCallParameters {
    /// Parameters of the given prompt.
    pub fn new(prompt: PromptContent) -> (r: Self)
        ensures
            r.prompt == prompt,
    {
        AgentCallParameters { prompt }
    }

    /// Parameters of a text prompt.
    pub fn from_text(text: &str) -> (r: Self)
        ensures
            r.prompt matches PromptContent::Text { text: t } && t@ == text@,
    {
        AgentCallParameters { prompt: PromptContent::Text { text: text.to_string() } }
    }

    /// Parameters of a prompt of messages.
    pub fn from_messages(messages: Vec<Message>) -> (r: Self)
        ensures
            r.prompt == (PromptContent::Messages { messages }),
    {
        AgentCallParameters { prompt: PromptContent::Messages { messages } }
    }
}

} // verus!
