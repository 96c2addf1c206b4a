//! The rolling dialogue history of one user, with its derived summary and
//! the counter that says when the summary is due for analysis.
use vstd::prelude::*;
use vstd::slice::slice_subrange;
use crate::store::{lemma_put, put, StringMap};
use crate::text::{owned, push_text, string_of};
use crate::time::{now, Timestamp};

verus! {

/// Most messages that a context keeps.
pub const MAX_CONTEXT_MESSAGES: usize = 15;

/// Number of counted messages after which a summary analysis is due. The
/// counter counts every call that counts a message, whether or not the
/// message is still within the window of kept messages.
pub const SUMMARY_TRIGGER: u32 = 20;

/// Who wrote a message.
#[derive(Debug, Clone, Copy, PartialEq, Eq, Structural)]
pub enum MessageRole {
    User,
    Assistant,
    System,
}

/// One message of a dialogue.
#[derive(Debug)]
pub struct AIMessage {
    pub role: MessageRole,
    pub content: String,
    pub timestamp: Timestamp,
    pub channel_id: Option<String>,
    pub discord_message_id: Option<String>,
}

impl Clone for AIMessage {
    fn clone(&self) -> (r: Self)
        ensures
            r == *self,
    {
        AIMessage {
            role: self.role,
            content: self.content.clone(),
            timestamp: self.timestamp,
            channel_id: self.channel_id.clone(),
            discord_message_id: self.discord_message_id.clone(),
        }
    }
}

impl AIMessage {
    /// A message written at `timestamp`, with no channel and no message id.
    pub fn new_at(role: MessageRole, content: String, timestamp: Timestamp) -> (r: Self)
        ensures
            r == (AIMessage {
                role,
                content,
                timestamp,
                channel_id: None,
                discord_message_id: None,
            }),
    {
        AIMessage { role, content, timestamp, channel_id: None, discord_message_id: None }
    }

    /// A message written now, with no channel and no message id.
    pub fn new(role: MessageRole, content: String) -> (r: Self)
        ensures
            r.role == role,
            r.content == content,
            r.channel_id.is_none(),
            r.discord_message_id.is_none(),
    {
        Self::new_at(role, content, now())
    }

    /// The same message, sent in the given channel.
    pub fn with_channel(self, channel_id: String) -> (r: Self)
        ensures
            r == (AIMessage { channel_id: Some(channel_id), ..self }),
    {
        let mut m = self;
        m.channel_id = Some(channel_id);
        m
    }

    /// The same message, known to the platform under the given id.
    pub fn with_discord_message_id(self, message_id: String) -> (r: Self)
        ensures
            r == (AIMessage { discord_message_id: Some(message_id), ..self }),
    {
        let mut m = self;
        m.discord_message_id = Some(message_id);
        m
    }
}

/// The last `n` elements of `s`, or all of `s` if it has no more.
pub open spec fn keep_last<T>(s: Seq<T>, n: int) -> Seq<T> {
    if s.len() > n {
        s.subrange(s.len() - n, s.len() as int)
    } else {
        s
    }
}

/// The history after one more message: the newest at the end, the oldest
/// dropped beyond the cap.
pub open spec fn appended(history: Seq<AIMessage>, message: AIMessage) -> Seq<AIMessage> {
    keep_last(history.push(message), MAX_CONTEXT_MESSAGES as int)
}

/// The history after a run of messages, appended one by one.
pub open spec fn appended_all(history: Seq<AIMessage>, messages: Seq<AIMessage>) -> Seq<AIMessage>
    decreases messages.len(),
{
    if messages.len() == 0 {
        history
    } else {
        appended(appended_all(history, messages.drop_last()), messages.last())
    }
}

/// The counter after one more counted message.
pub open spec fn counter_after(counter: int) -> int {
    if counter + 1 >= SUMMARY_TRIGGER {
        0
    } else {
        counter + 1
    }
}

/// The counter after `calls` counted messages.
pub open spec fn counter_after_calls(counter: int, calls: nat) -> int
    decreases calls,
{
    if calls == 0 {
        counter
    } else {
        counter_after(counter_after_calls(counter, (calls - 1) as nat))
    }
}

/// Whether the `call`-th counted message (from 1) after `counter` triggers
/// an analysis.
pub open spec fn triggers_at(counter: int, call: nat) -> bool
    recommends
        call >= 1,
{
    counter_after_calls(counter, (call - 1) as nat) + 1 >= SUMMARY_TRIGGER
}

/// The name under which a role appears in a transcript.
pub open spec fn role_label(role: MessageRole) -> Seq<char> {
    match role {
        MessageRole::User => "User"@,
        MessageRole::Assistant => "Assistant"@,
        MessageRole::System => "System"@,
    }
}

/// The first `n` messages as a transcript: `Role: text` and a line break for
/// each.
pub open spec fn transcript(messages: Seq<AIMessage>, n: int) -> Seq<char>
    decreases n,
{
    if n <= 0 {
        Seq::<char>::empty()
    } else {
        transcript(messages, n - 1) + role_label(messages[n - 1].role) + ": "@ + messages[n
            - 1].content@ + "\n"@
    }
}

/// Two contexts say the same: equal fields, the messages and the settings
/// entry for entry.
pub open spec fn same_context(a: ConversationContext, b: ConversationContext) -> bool {
    &&& a.user_name == b.user_name
    &&& a.messages@ == b.messages@
    &&& a.last_updated == b.last_updated
    &&& a.settings.entries() == b.settings.entries()
    &&& a.user_summary == b.user_summary
    &&& a.message_count_for_summary == b.message_count_for_summary
}

/// The dialogue state of one user.
#[derive(Debug)]
pub struct ConversationContext {
    pub user_name: String,
    pub messages: Vec<AIMessage>,
    pub last_updated: Timestamp,
    pub settings: StringMap,
    pub user_summary: String,
    pub message_count_for_summary: u32,
}

impl ConversationContext {
    /// An empty context, last updated at `timestamp`.
    pub fn new_at(timestamp: Timestamp) -> (r: Self)
        ensures
            r.user_name@.len() == 0,
            r.messages@.len() == 0,
            r.last_updated == timestamp,
            r.settings.entries().len() == 0,
            r.settings.wf(),
            r.user_summary@.len() == 0,
            r.message_count_for_summary == 0,
    {
        ConversationContext {
            user_name: String::new(),
            messages: Vec::new(),
            last_updated: timestamp,
            settings: StringMap::new(),
            user_summary: String::new(),
            message_count_for_summary: 0,
        }
    }

    /// An empty context, last updated now.
    pub fn new() -> (r: Self)
        ensures
            r.user_name@.len() == 0,
            r.messages@.len() == 0,
            r.settings.entries().len() == 0,
            r.settings.wf(),
            r.user_summary@.len() == 0,
            r.message_count_for_summary == 0,
    {
        Self::new_at(now())
    }

    /// The same context under the given display name.
    pub fn with_user_name(self, user_name: String) -> (r: Self)
        ensures
            r == (ConversationContext { user_name, ..self }),
    {
        let mut c = self;
        c.user_name = user_name;
        c
    }

    /// Appends a message at time `timestamp`; beyond the cap the oldest
    /// messages leave first.
    pub fn add_message_at(&mut self, message: AIMessage, timestamp: Timestamp)
        ensures
            final(self).messages@ == appended(old(self).messages@, message),
            final(self).messages@.len() <= MAX_CONTEXT_MESSAGES,
            final(self).last_updated == timestamp,
            final(self).user_name == old(self).user_name,
            final(self).settings == old(self).settings,
            final(self).user_summary == old(self).user_summary,
            final(self).message_count_for_summary == old(self).message_count_for_summary,
    {
        self.messages.push(message);
        self.last_updated = timestamp;
        let ghost all = self.messages@;
        proof {
            assert(self.messages@ =~= all.subrange(0, all.len() as int));
        }
        while self.messages.len() > MAX_CONTEXT_MESSAGES
            invariant
                all == old(self).messages@.push(message),
                self.messages@.len() <= all.len(),
                self.messages@.len() >= MAX_CONTEXT_MESSAGES || self.messages@.len() == all.len(),
                self.messages@ == all.subrange(all.len() - self.messages@.len(), all.len() as int),
                self.last_updated == timestamp,
                self.user_name == old(self).user_name,
                self.settings == old(self).settings,
                self.user_summary == old(self).user_summary,
                self.message_count_for_summary == old(self).message_count_for_summary,
            decreases self.messages@.len(),
        {
            let ghost before = self.messages@;
            self.messages.remove(0);
            proof {
                assert(self.messages@ =~= all.subrange(
                    all.len() - self.messages@.len(),
                    all.len() as int,
                ));
            }
        }
        proof {
            assert(self.messages@ =~= appended(old(self).messages@, message));
        }
    }

    /// Appends a message now; beyond the cap the oldest messages leave first.
    pub fn add_message(&mut self, message: AIMessage)
        ensures
            final(self).messages@ == appended(old(self).messages@, message),
            final(self).messages@.len() <= MAX_CONTEXT_MESSAGES,
            final(self).user_name == old(self).user_name,
            final(self).settings == old(self).settings,
            final(self).user_summary == old(self).user_summary,
            final(self).message_count_for_summary == old(self).message_count_for_summary,
    {
        self.add_message_at(message, now());
    }

    /// The last `count` messages, or all of them if there are fewer, oldest
    /// first.
    pub fn get_recent_messages(&self, count: usize) -> (r: &[AIMessage])
        ensures
            r@ == keep_last(self.messages@, count as int),
    {
        let len = self.messages.len();
        let start = if len > count {
            len - count
        } else {
            0
        };
        let r = slice_subrange(self.messages.as_slice(), start, len);
        proof {
            assert(r@ =~= keep_last(self.messages@, count as int));
        }
        r
    }

    /// All messages, oldest first.
    pub fn get_all_messages(&self) -> (r: &[AIMessage])
        ensures
            r@ == self.messages@,
    {
        self.messages.as_slice()
    }

    /// Drops every message, at time `timestamp`.
    pub fn clear_messages_at(&mut self, timestamp: Timestamp)
        ensures
            *final(self) == (ConversationContext {
                messages: final(self).messages,
                last_updated: timestamp,
                ..*old(self)
            }),
            final(self).messages@.len() == 0,
    {
        self.messages.clear();
        self.last_updated = timestamp;
    }

    /// Drops every message.
    pub fn clear_messages(&mut self)
        ensures
            *final(self) == (ConversationContext {
                messages: final(self).messages,
                last_updated: final(self).last_updated,
                ..*old(self)
            }),
            final(self).messages@.len() == 0,
    {
        self.clear_messages_at(now());
    }

    /// The dialogue as a transcript, or a fixed sentence if it is empty.
    pub fn get_conversation_summary(&self) -> (r: String)
        ensures
            r@ == if self.messages@.len() == 0 {
                "No previous conversation."@
            } else {
                transcript(self.messages@, self.messages@.len() as int)
            },
    {
        if self.messages.len() == 0 {
            return owned("No previous conversation.");
        }
        let mut out: Vec<char> = Vec::new();
        let mut i: usize = 0;
        while i < self.messages.len()
            invariant
                i <= self.messages.len(),
                out@ == transcript(self.messages@, i as int),
            decreases self.messages.len() - i,
        {
            let message = &self.messages[i];
            let label = match message.role {
                MessageRole::User => "User",
                MessageRole::Assistant => "Assistant",
                MessageRole::System => "System",
            };
            push_text(&mut out, label);
            push_text(&mut out, ": ");
            push_text(&mut out, message.content.as_str());
            push_text(&mut out, "\n");
            i += 1;
        }
        string_of(&out)
    }

    /// Whether the context holds no message.
    pub fn is_empty(&self) -> (r: bool)
        ensures
            r == (self.messages@.len() == 0),
    {
        self.messages.len() == 0
    }

    /// Number of messages held.
    pub fn message_count(&self) -> (r: usize)
        ensures
            r == self.messages@.len(),
    {
        self.messages.len()
    }

    /// Stores a setting, at time `timestamp`.
    pub fn set_setting_at(&mut self, key: String, value: String, timestamp: Timestamp)
        ensures
            final(self).settings.entries() == put(old(self).settings.entries(), key@, value),
            *final(self) == (ConversationContext {
                settings: final(self).settings,
                last_updated: timestamp,
                ..*old(self)
            }),
            old(self).settings.wf() ==> final(self).settings.wf(),
    {
        proof {
            if self.settings.wf() {
                lemma_put(self.settings.entries(), key@, value);
            }
        }
        self.settings.insert(key, value);
        self.last_updated = timestamp;
    }

    /// Stores a setting.
    pub fn set_setting(&mut self, key: String, value: String)
        ensures
            final(self).settings.entries() == put(old(self).settings.entries(), key@, value),
            *final(self) == (ConversationContext {
                settings: final(self).settings,
                last_updated: final(self).last_updated,
                ..*old(self)
            }),
            old(self).settings.wf() ==> final(self).settings.wf(),
    {
        self.set_setting_at(key, value, now());
    }

    /// The setting stored under `key`.
    pub fn get_setting(&self, key: &str) -> (r: Option<&String>)
        ensures
            match r {
                Some(v) => self.settings.value(key@) == Some(*v),
                None => self.settings.value(key@).is_none(),
            },
    {
        self.settings.get(key)
    }

    /// Counts one message, at time `timestamp`. On reaching the trigger the
    /// counter starts again from zero and the result is `true`.
    pub fn increment_message_counter_at(&mut self, timestamp: Timestamp) -> (r: bool)
        ensures
            r == (old(self).message_count_for_summary + 1 >= SUMMARY_TRIGGER),
            final(self).message_count_for_summary == counter_after(
                old(self).message_count_for_summary as int,
            ),
            *final(self) == (ConversationContext {
                message_count_for_summary: final(self).message_count_for_summary,
                last_updated: timestamp,
                ..*old(self)
            }),
    {
        self.last_updated = timestamp;
        if self.message_count_for_summary >= SUMMARY_TRIGGER - 1 {
            self.message_count_for_summary = 0;
            true
        } else {
            self.message_count_for_summary = self.message_count_for_summary + 1;
            false
        }
    }

    /// Counts one message. On reaching the trigger the counter starts again
    /// from zero and the result is `true`.
    pub fn increment_message_counter(&mut self) -> (r: bool)
        ensures
            r == (old(self).message_count_for_summary + 1 >= SUMMARY_TRIGGER),
            final(self).message_count_for_summary == counter_after(
                old(self).message_count_for_summary as int,
            ),
            *final(self) == (ConversationContext {
                message_count_for_summary: final(self).message_count_for_summary,
                last_updated: final(self).last_updated,
                ..*old(self)
            }),
    {
        self.increment_message_counter_at(now())
    }

    /// Replaces the summary, at time `timestamp`.
    pub fn update_summary_at(&mut self, new_summary: String, timestamp: Timestamp)
        ensures
            *final(self) == (ConversationContext {
                user_summary: new_summary,
                last_updated: timestamp,
                ..*old(self)
            }),
    {
        self.user_summary = new_summary;
        self.last_updated = timestamp;
    }

    /// Replaces the summary.
    pub fn update_summary(&mut self, new_summary: String)
        ensures
            *final(self) == (ConversationContext {
                user_summary: new_summary,
                last_updated: final(self).last_updated,
                ..*old(self)
            }),
    {
        self.update_summary_at(new_summary, now());
    }

    /// The summary.
    pub fn get_summary(&self) -> (r: &str)
        ensures
            r@ == self.user_summary@,
    {
        self.user_summary.as_str()
    }

    /// Whether a summary exists.
    pub fn has_summary(&self) -> (r: bool)
        ensures
            r == (self.user_summary@.len() > 0),
    {
        !self.user_summary.as_str().is_empty()
    }

    /// A copy of the context: equal field by field.
    pub fn duplicate(&self) -> (r: Self)
        ensures
            same_context(*self, r),
    {
        let mut messages: Vec<AIMessage> = Vec::new();
        let mut i: usize = 0;
        while i < self.messages.len()
            invariant
                i <= self.messages.len(),
                messages@ == self.messages@.subrange(0, i as int),
            decreases self.messages.len() - i,
        {
            messages.push(self.messages[i].clone());
            proof {
                assert(messages@ =~= self.messages@.subrange(0, i + 1));
            }
            i += 1;
        }
        proof {
            assert(self.messages@.subrange(0, self.messages@.len() as int) =~= self.messages@);
        }
        ConversationContext {
            user_name: self.user_name.clone(),
            messages,
            last_updated: self.last_updated,
            settings: self.settings.duplicate(),
            user_summary: self.user_summary.clone(),
            message_count_for_summary: self.message_count_for_summary,
        }
    }
}

impl Clone for ConversationContext {
    fn clone(&self) -> (r: Self)
        ensures
            same_context(*self, r),
    {
        self.duplicate()
    }
}

impl Default for ConversationContext {
    fn default() -> (r: Self)
        ensures
            r.user_name@.len() == 0,
            r.messages@.len() == 0,
            r.settings.entries().len() == 0,
            r.user_summary@.len() == 0,
            r.message_count_for_summary == 0,
    {
        Self::new()
    }
}

/// However many messages are appended to a history within the cap, what is
/// kept is the last fifteen of everything, in the order written, and never
/// more than fifteen.
pub proof fn lemma_history_keeps_most_recent(history: Seq<AIMessage>, messages: Seq<AIMessage>)
    requires
        history.len() <= MAX_CONTEXT_MESSAGES,
    ensures
        appended_all(history, messages) == keep_last(
            history + messages,
            MAX_CONTEXT_MESSAGES as int,
        ),
        appended_all(history, messages).len() <= MAX_CONTEXT_MESSAGES,
    decreases messages.len(),
{
    if messages.len() == 0 {
        assert(history + messages =~= history);
    } else {
        let front = messages.drop_last();
        lemma_history_keeps_most_recent(history, front);
        let before = appended_all(history, front);
        assert((history + front).push(messages.last()) =~= history + messages);
        assert(appended(before, messages.last()) =~= keep_last(
            history + messages,
            MAX_CONTEXT_MESSAGES as int,
        ));
    }
}

/// Counting from zero, a call triggers the analysis exactly when it is the
/// twentieth, fortieth, ... one, and the counter is zero after it; after any
/// other call the counter is the number of calls since the last trigger.
pub proof fn lemma_trigger_every_twentieth(call: nat)
    requires
        call >= 1,
    ensures
        triggers_at(0, call) <==> call % 20 == 0,
        counter_after_calls(0, call) == call % 20,
    decreases call,
{
    if call > 1 {
        lemma_trigger_every_twentieth((call - 1) as nat);
    }
}

} // verus!
