//! The conversation so far: a log of messages that only grows, and the
//! text the next response has to continue.

use vstd::prelude::*;
use vstd::string::*;
use super::stop_sequence::opt_view;

verus! {

/// Who a message is from.
#[derive(Debug, Clone, Copy, PartialEq, Eq, Structural)]
pub enum PromptRole {
    System,
    User,
    Assistant,
}

/// One message of the conversation.
#[derive(Debug, Clone, PartialEq, Eq)]
pub struct PromptMessage {
    pub role: PromptRole,
    pub content: String,
}

/// The messages sent so far and the text that the next response starts with.
#[derive(Debug, Clone, PartialEq, Eq)]
pub struct LLMPrompt {
    /// The log, oldest message first.
    pub messages: Vec<PromptMessage>,
    /// Text put into the model's mouth: the response continues it.
    pub generation_prefix: Option<String>,
}

/// A prompt as plain values.
pub struct PromptView {
    pub messages: Seq<(PromptRole, Seq<char>)>,
    pub generation_prefix: Option<Seq<char>>,
}

/// The role and text of each message.
pub open spec fn message_views(messages: Seq<PromptMessage>) -> Seq<(PromptRole, Seq<char>)> {
    messages.map_values(|m: PromptMessage| (m.role, m.content@))
}

impl View for LLMPrompt {
    type V = PromptView;

    open spec fn view(&self) -> PromptView {
        PromptView {
            messages: message_views(self.messages@),
            generation_prefix: opt_view(self.generation_prefix),
        }
    }
}

impl LLMPrompt {
    /// An empty conversation.
    pub fn new() -> (prompt: LLMPrompt)
        ensures
            prompt@.messages == Seq::<(PromptRole, Seq<char>)>::empty(),
            prompt@.generation_prefix is None,
    {
        let prompt = LLMPrompt { messages: Vec::new(), generation_prefix: None };
        assert(prompt@.messages =~= Seq::empty());
        prompt
    }

    /// A copy of the conversation.
    pub fn duplicate(&self) -> (copy: LLMPrompt)
        ensures
            copy@ == self@,
    {
        let mut messages: Vec<PromptMessage> = Vec::new();
        let mut i: usize = 0;
        while i < self.messages.len()
            invariant
                i <= self.messages.len(),
                message_views(messages@) == message_views(self.messages@).take(i as int),
            decreases self.messages.len() - i,
        {
            let ghost before = messages@;
            assert(message_views(before).len() == i);
            let message = PromptMessage {
                role: self.messages[i].role,
                content: self.messages[i].content.clone(),
            };
            messages.push(message);
            assert forall|j: int| 0 <= j < i + 1 implies message_views(messages@)[j]
                == message_views(self.messages@).take(i + 1)[j] by {
                if j < i {
                    assert(message_views(before)[j] == message_views(self.messages@).take(
                        i as int,
                    )[j]);
                }
            }
            assert(message_views(messages@) =~= message_views(self.messages@).take(i + 1));
            i += 1;
        }
        assert(message_views(self.messages@).take(i as int) =~= message_views(self.messages@));
        LLMPrompt {
            messages,
            generation_prefix: crate::text::clone_opt(&self.generation_prefix),
        }
    }

    /// Forgets the conversation.
    pub fn reset_prompt(&mut self)
        ensures
            final(self)@.messages == Seq::<(PromptRole, Seq<char>)>::empty(),
            final(self)@.generation_prefix is None,
    {
        self.messages = Vec::new();
        self.generation_prefix = None;
        assert(self@.messages =~= Seq::empty());
    }

    /// Appends a message to the log.
    pub fn add_message(&mut self, role: PromptRole, content: &str)
        ensures
            final(self)@.messages == old(self)@.messages.push((role, content@)),
            final(self)@.generation_prefix == old(self)@.generation_prefix,
    {
        self.messages.push(PromptMessage { role, content: content.to_owned() });
        assert(self@.messages =~= old(self)@.messages.push((role, content@)));
    }

    /// Appends a message from the user.
    pub fn add_user_message(&mut self, content: &str)
        ensures
            final(self)@.messages == old(self)@.messages.push((PromptRole::User, content@)),
            final(self)@.generation_prefix == old(self)@.generation_prefix,
    {
        self.add_message(PromptRole::User, content);
    }

    /// Appends a message from the assistant.
    pub fn add_assistant_message(&mut self, content: &str)
        ensures
            final(self)@.messages == old(self)@.messages.push((PromptRole::Assistant, content@)),
            final(self)@.generation_prefix == old(self)@.generation_prefix,
    {
        self.add_message(PromptRole::Assistant, content);
    }

    /// Sets the text that the next response continues.
    pub fn set_generation_prefix(&mut self, prefix: &str)
        ensures
            final(self)@.messages == old(self)@.messages,
            final(self)@.generation_prefix == Some(prefix@),
    {
        self.generation_prefix = Some(prefix.to_owned());
    }

    /// Lets the next response start on its own.
    pub fn clear_generation_prefix(&mut self)
        ensures
            final(self)@.messages == old(self)@.messages,
            final(self)@.generation_prefix is None,
    {
        self.generation_prefix = None;
    }
}

} // verus!
