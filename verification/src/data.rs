//! The root aggregate: every keyed collection of the assistant and the time
//! of the last change.
use vstd::prelude::*;
use crate::conversation::{appended, same_context, AIMessage, ConversationContext};
use crate::message_data::{same_record, ButtonMessageData};
use crate::store::{
    distinct_keys, has_key, lemma_key_index, lemma_put, lemma_selected_distinct, lemma_without,
    lookup, put, selected, without, KeyedStore,
};
use crate::text::{chars_of, owned, parse_u64, u64_value};
use crate::time::{earlier, not_later, now, within_days, Timestamp};

verus! {

/// A scheduled reminder.
#[derive(Debug)]
pub struct Reminder {
    pub id: String,
    pub user_id: String,
    pub user_name: String,
    pub message: String,
    pub channel_id: String,
    pub reminder_time: Timestamp,
    pub created_at: Timestamp,
    pub is_sent: bool,
    pub is_private: bool,
    pub mention_type: String,
    pub has_status: bool,
}

impl Clone for Reminder {
    fn clone(&self) -> (r: Self)
        ensures
            r == *self,
    {
        Reminder {
            id: self.id.clone(),
            user_id: self.user_id.clone(),
            user_name: self.user_name.clone(),
            message: self.message.clone(),
            channel_id: self.channel_id.clone(),
            reminder_time: self.reminder_time,
            created_at: self.created_at,
            is_sent: self.is_sent,
            is_private: self.is_private,
            mention_type: self.mention_type.clone(),
            has_status: self.has_status,
        }
    }
}

/// A feedback card and its vote counts.
#[derive(Debug)]
pub struct FeedbackMessage {
    pub message_id: String,
    pub original_author_id: String,
    pub original_author_name: String,
    pub original_author_avatar: String,
    pub content: String,
    pub channel_id: String,
    pub upvotes: i32,
    pub downvotes: i32,
    pub created_at: Timestamp,
}

impl Clone for FeedbackMessage {
    fn clone(&self) -> (r: Self)
        ensures
            r == *self,
    {
        FeedbackMessage {
            message_id: self.message_id.clone(),
            original_author_id: self.original_author_id.clone(),
            original_author_name: self.original_author_name.clone(),
            original_author_avatar: self.original_author_avatar.clone(),
            content: self.content.clone(),
            channel_id: self.channel_id.clone(),
            upvotes: self.upvotes,
            downvotes: self.downvotes,
            created_at: self.created_at,
        }
    }
}

/// A reminder is due at `now`: not yet sent, and its time has come.
pub open spec fn is_due(r: Reminder, now: Timestamp) -> bool {
    !r.is_sent && not_later(r.reminder_time, now)
}

/// The destination of a reminder is a channel number.
pub open spec fn has_channel(r: Reminder) -> bool {
    u64_value(r.channel_id@).is_some()
}

/// A reminder can be claimed for delivery at `now`: it is due and has a
/// destination.
pub open spec fn is_claimable(r: Reminder, now: Timestamp) -> bool {
    is_due(r, now) && has_channel(r)
}

/// The claimable reminders among the first `n` entries, in order.
pub open spec fn claimable_of(s: Seq<(Seq<char>, Reminder)>, now: Timestamp, n: int) -> Seq<
    Reminder,
>
    decreases n,
{
    if n <= 0 {
        Seq::<Reminder>::empty()
    } else if is_claimable(s[n - 1].1, now) {
        claimable_of(s, now, n - 1).push(s[n - 1].1)
    } else {
        claimable_of(s, now, n - 1)
    }
}

/// The reminder entries after claiming the one under `id` at `now`: marked
/// as sent if it was claimable, unchanged otherwise.
pub open spec fn claimed(s: Seq<(Seq<char>, Reminder)>, id: Seq<char>, now: Timestamp) -> Seq<
    (Seq<char>, Reminder),
> {
    match lookup(s, id) {
        Some(r) => if is_claimable(r, now) {
            put(s, id, sent(r))
        } else {
            s
        },
        None => s,
    }
}

/// The reminder with its sent flag cleared.
pub open spec fn unsent(r: Reminder) -> Reminder {
    Reminder { is_sent: false, ..r }
}

/// The reminder entries after releasing the claim on the one under `id`: if
/// it is stored and marked as sent, the mark is taken back; anything else
/// stays as it is.
pub open spec fn released(s: Seq<(Seq<char>, Reminder)>, id: Seq<char>) -> Seq<
    (Seq<char>, Reminder),
> {
    match lookup(s, id) {
        Some(r) => if r.is_sent {
            put(s, id, unsent(r))
        } else {
            s
        },
        None => s,
    }
}

/// The reminder with its sent flag set.
pub open spec fn sent(r: Reminder) -> Reminder {
    Reminder { is_sent: true, ..r }
}

/// The due reminders among the first `n` entries, in order.
pub open spec fn pending_of(s: Seq<(Seq<char>, Reminder)>, now: Timestamp, n: int) -> Seq<Reminder>
    decreases n,
{
    if n <= 0 {
        Seq::<Reminder>::empty()
    } else if is_due(s[n - 1].1, now) {
        pending_of(s, now, n - 1).push(s[n - 1].1)
    } else {
        pending_of(s, now, n - 1)
    }
}

/// The entries with every reminder that is claimable at `now` marked as
/// sent.
pub open spec fn swept(s: Seq<(Seq<char>, Reminder)>, now: Timestamp) -> Seq<
    (Seq<char>, Reminder),
> {
    Seq::new(
        s.len(),
        |i: int|
            if is_claimable(s[i].1, now) {
                (s[i].0, sent(s[i].1))
            } else {
                s[i]
            },
    )
}

/// The reminder entries after marking the one under `id` as sent.
pub open spec fn marked_sent(s: Seq<(Seq<char>, Reminder)>, id: Seq<char>) -> Seq<
    (Seq<char>, Reminder),
> {
    match lookup(s, id) {
        Some(r) => put(s, id, sent(r)),
        None => s,
    }
}

/// Which conversations survive a clean-up: those updated within `days` days
/// before `now`.
pub open spec fn fresh_conversations(
    s: Seq<(Seq<char>, ConversationContext)>,
    now: Timestamp,
    days: int,
) -> Seq<bool> {
    Seq::new(s.len(), |i: int| within_days(s[i].1.last_updated, now, days))
}

/// Which reminders survive a clean-up: the unsent ones, and the sent ones
/// created within `days` days before `now`.
pub open spec fn live_reminders(s: Seq<(Seq<char>, Reminder)>, now: Timestamp, days: int) -> Seq<
    bool,
> {
    Seq::new(s.len(), |i: int| !s[i].1.is_sent || within_days(s[i].1.created_at, now, days))
}

/// Position of the oldest feedback entry among the first `n`, the first one
/// among equally old ones.
pub open spec fn oldest_index(s: Seq<(Seq<char>, FeedbackMessage)>, n: int) -> int
    decreases n,
{
    if n <= 1 {
        0
    } else {
        let best = oldest_index(s, n - 1);
        if earlier(s[n - 1].1.created_at, s[best].1.created_at) {
            n - 1
        } else {
            best
        }
    }
}

/// The feedback entries cut down to `max`: the oldest leaves, again and
/// again, until no more than `max` are left.
pub open spec fn trimmed(s: Seq<(Seq<char>, FeedbackMessage)>, max: int) -> Seq<
    (Seq<char>, FeedbackMessage),
>
    decreases s.len(),
{
    let oldest = oldest_index(s, s.len() as int);
    if s.len() <= max || !(0 <= oldest < s.len()) {
        s
    } else {
        trimmed(s.remove(oldest), max)
    }
}

/// The values that a list of references points to.
pub open spec fn pointed<T>(v: Seq<&T>) -> Seq<T> {
    Seq::new(v.len(), |i: int| *v[i])
}

/// How the context of a user looks after one more message: `before` is what
/// was stored (if anything), `name` the display name to set (if any).
pub open spec fn after_message(
    before: Option<ConversationContext>,
    name: Option<Seq<char>>,
    message: AIMessage,
    after: ConversationContext,
) -> bool {
    &&& after.messages@ == appended(
        match before {
            Some(c) => c.messages@,
            None => Seq::<AIMessage>::empty(),
        },
        message,
    )
    &&& match name {
        Some(n) => after.user_name@ == n,
        None => match before {
            Some(c) => after.user_name == c.user_name,
            None => after.user_name@.len() == 0,
        },
    }
    &&& match before {
        Some(c) => after.settings == c.settings && after.user_summary == c.user_summary
            && after.message_count_for_summary == c.message_count_for_summary,
        None => after.settings.entries().len() == 0 && after.user_summary@.len() == 0
            && after.message_count_for_summary == 0,
    }
}

/// Everything the assistant keeps.
#[derive(Debug)]
pub struct BotData {
    pub button_messages: KeyedStore<ButtonMessageData>,
    pub conversations: KeyedStore<ConversationContext>,
    pub reminders: KeyedStore<Reminder>,
    pub feedback_messages: KeyedStore<FeedbackMessage>,
    pub last_updated: Timestamp,
}

impl BotData {
    /// In each collection every key occurs once.
    pub open spec fn wf(&self) -> bool {
        &&& self.button_messages.wf()
        &&& self.conversations.wf()
        &&& self.reminders.wf()
        &&& self.feedback_messages.wf()
    }

    /// All collections are empty.
    pub open spec fn is_blank(&self) -> bool {
        &&& self.button_messages.entries().len() == 0
        &&& self.conversations.entries().len() == 0
        &&& self.reminders.entries().len() == 0
        &&& self.feedback_messages.entries().len() == 0
    }

    /// An empty aggregate, last changed at `timestamp`.
    pub fn new_at(timestamp: Timestamp) -> (r: Self)
        ensures
            r.is_blank(),
            r.wf(),
            r.last_updated == timestamp,
    {
        BotData {
            button_messages: KeyedStore::new(),
            conversations: KeyedStore::new(),
            reminders: KeyedStore::new(),
            feedback_messages: KeyedStore::new(),
            last_updated: timestamp,
        }
    }

    /// An empty aggregate.
    pub fn new() -> (r: Self)
        ensures
            r.is_blank(),
            r.wf(),
    {
        Self::new_at(now())
    }

    /// Stores the record of a message with controls.
    /// The change is stamped with `timestamp`.
    pub fn add_button_message_at(
        &mut self,
        message_id: String,
        data: ButtonMessageData,
        timestamp: Timestamp,
    )
        ensures
            final(self).button_messages.entries() == put(
                old(self).button_messages.entries(),
                message_id@,
                data,
            ),
            final(self).conversations == old(self).conversations,
            final(self).reminders == old(self).reminders,
            final(self).feedback_messages == old(self).feedback_messages,
            old(self).wf() ==> final(self).wf(),
            final(self).last_updated == timestamp,
    {
        proof {
            if self.wf() {
                lemma_put(self.button_messages.entries(), message_id@, data);
            }
        }
        self.button_messages.insert(message_id, data);
        self.last_updated = timestamp;
    }

    /// Stores the record of a message with controls.
    pub fn add_button_message(&mut self, message_id: String, data: ButtonMessageData)
        ensures
            final(self).button_messages.entries() == put(
                old(self).button_messages.entries(),
                message_id@,
                data,
            ),
            final(self).conversations == old(self).conversations,
            final(self).reminders == old(self).reminders,
            final(self).feedback_messages == old(self).feedback_messages,
            old(self).wf() ==> final(self).wf(),
    {
        self.add_button_message_at(message_id, data, now());
    }

    /// The record of a message with controls.
    pub fn get_button_message(&self, message_id: &str) -> (r: Option<&ButtonMessageData>)
        ensures
            match r {
                Some(d) => self.button_messages.value(message_id@) == Some(*d),
                None => self.button_messages.value(message_id@).is_none(),
            },
    {
        self.button_messages.get(message_id)
    }

    /// Removes the record of a message with controls and returns it,
    /// stamping the change with `timestamp`. An unknown id changes nothing,
    /// not even the time of the last change.
    pub fn remove_button_message_at(
        &mut self,
        message_id: &str,
        timestamp: Timestamp,
    ) -> (r: Option<ButtonMessageData>)
        ensures
            r == old(self).button_messages.value(message_id@),
            final(self).button_messages.entries() == without(
                old(self).button_messages.entries(),
                message_id@,
            ),
            r.is_none() ==>
                final(self).button_messages.entries() == old(self).button_messages.entries(),
            final(self).conversations == old(self).conversations,
            final(self).reminders == old(self).reminders,
            final(self).feedback_messages == old(self).feedback_messages,
            old(self).wf() ==> final(self).wf(),
            r.is_some() ==> final(self).last_updated == timestamp,
            r.is_none() ==> *final(self) == *old(self),
    {
        proof {
            if self.wf() {
                lemma_without(self.button_messages.entries(), message_id@);
            }
        }
        if !self.button_messages.contains_key(message_id) {
            return None;
        }
        self.last_updated = timestamp;
        self.button_messages.remove(message_id)
    }

    /// Removes the record of a message with controls and returns it. An
    /// unknown id changes nothing, not even the time of the last change.
    pub fn remove_button_message(&mut self, message_id: &str) -> (r: Option<ButtonMessageData>)
        ensures
            r == old(self).button_messages.value(message_id@),
            final(self).button_messages.entries() == without(
                old(self).button_messages.entries(),
                message_id@,
            ),
            r.is_none() ==>
                final(self).button_messages.entries() == old(self).button_messages.entries(),
            final(self).conversations == old(self).conversations,
            final(self).reminders == old(self).reminders,
            final(self).feedback_messages == old(self).feedback_messages,
            old(self).wf() ==> final(self).wf(),
            r.is_none() ==> *final(self) == *old(self),
    {
        self.remove_button_message_at(message_id, now())
    }

    /// Stores the context of a user.
    /// The change is stamped with `timestamp`.
    pub fn add_conversation_context_at(
        &mut self,
        user_id: String,
        context: ConversationContext,
        timestamp: Timestamp,
    )
        ensures
            final(self).conversations.entries() == put(
                old(self).conversations.entries(),
                user_id@,
                context,
            ),
            final(self).button_messages == old(self).button_messages,
            final(self).reminders == old(self).reminders,
            final(self).feedback_messages == old(self).feedback_messages,
            old(self).wf() ==> final(self).wf(),
            final(self).last_updated == timestamp,
    {
        proof {
            if self.wf() {
                lemma_put(self.conversations.entries(), user_id@, context);
            }
        }
        self.conversations.insert(user_id, context);
        self.last_updated = timestamp;
    }

    /// Stores the context of a user.
    pub fn add_conversation_context(&mut self, user_id: String, context: ConversationContext)
        ensures
            final(self).conversations.entries() == put(
                old(self).conversations.entries(),
                user_id@,
                context,
            ),
            final(self).button_messages == old(self).button_messages,
            final(self).reminders == old(self).reminders,
            final(self).feedback_messages == old(self).feedback_messages,
            old(self).wf() ==> final(self).wf(),
    {
        self.add_conversation_context_at(user_id, context, now());
    }

    /// The context of a user.
    pub fn get_conversation_context(&self, user_id: &str) -> (r: Option<&ConversationContext>)
        ensures
            match r {
                Some(c) => self.conversations.value(user_id@) == Some(*c),
                None => self.conversations.value(user_id@).is_none(),
            },
    {
        self.conversations.get(user_id)
    }

    /// The context of a user, for changing in place.
    pub fn get_conversation_context_mut(&mut self, user_id: &str) -> (r: Option<
        &mut ConversationContext,
    >)
        ensures
            match r {
                Some(c) => old(self).conversations.value(user_id@) == Some(*c)
                    && final(self).conversations.entries() =~= put(
                    old(self).conversations.entries(),
                    user_id@,
                    *final(c),
                ),
                None => old(self).conversations.value(user_id@).is_none()
                    && final(self).conversations.entries() == old(self).conversations.entries(),
            },
            final(self).button_messages == old(self).button_messages,
            final(self).reminders == old(self).reminders,
            final(self).feedback_messages == old(self).feedback_messages,
            final(self).last_updated == old(self).last_updated,
    {
        self.conversations.get_mut(user_id)
    }

    /// Stores a feedback entry.
    /// The change is stamped with `timestamp`.
    pub fn add_feedback_message_at(
        &mut self,
        message_id: String,
        data: FeedbackMessage,
        timestamp: Timestamp,
    )
        ensures
            final(self).feedback_messages.entries() == put(
                old(self).feedback_messages.entries(),
                message_id@,
                data,
            ),
            final(self).button_messages == old(self).button_messages,
            final(self).conversations == old(self).conversations,
            final(self).reminders == old(self).reminders,
            old(self).wf() ==> final(self).wf(),
            final(self).last_updated == timestamp,
    {
        proof {
            if self.wf() {
                lemma_put(self.feedback_messages.entries(), message_id@, data);
            }
        }
        self.feedback_messages.insert(message_id, data);
        self.last_updated = timestamp;
    }

    /// Stores a feedback entry.
    pub fn add_feedback_message(&mut self, message_id: String, data: FeedbackMessage)
        ensures
            final(self).feedback_messages.entries() == put(
                old(self).feedback_messages.entries(),
                message_id@,
                data,
            ),
            final(self).button_messages == old(self).button_messages,
            final(self).conversations == old(self).conversations,
            final(self).reminders == old(self).reminders,
            old(self).wf() ==> final(self).wf(),
    {
        self.add_feedback_message_at(message_id, data, now());
    }

    /// The feedback entry of a card.
    pub fn get_feedback_message(&self, message_id: &str) -> (r: Option<&FeedbackMessage>)
        ensures
            match r {
                Some(d) => self.feedback_messages.value(message_id@) == Some(*d),
                None => self.feedback_messages.value(message_id@).is_none(),
            },
    {
        self.feedback_messages.get(message_id)
    }

    /// The feedback entry of a card, for changing in place.
    pub fn get_feedback_message_mut(&mut self, message_id: &str) -> (r: Option<
        &mut FeedbackMessage,
    >)
        ensures
            match r {
                Some(c) => old(self).feedback_messages.value(message_id@) == Some(*c)
                    && final(self).feedback_messages.entries() =~= put(
                    old(self).feedback_messages.entries(),
                    message_id@,
                    *final(c),
                ),
                None => old(self).feedback_messages.value(message_id@).is_none()
                    && final(self).feedback_messages.entries() ==
                        old(self).feedback_messages.entries(),
            },
            final(self).button_messages == old(self).button_messages,
            final(self).conversations == old(self).conversations,
            final(self).reminders == old(self).reminders,
            final(self).last_updated == old(self).last_updated,
    {
        self.feedback_messages.get_mut(message_id)
    }

    /// Removes a feedback entry and returns it, stamping the change with
    /// `timestamp`. An unknown id changes nothing, not even the time of the
    /// last change.
    pub fn remove_feedback_message_at(
        &mut self,
        message_id: &str,
        timestamp: Timestamp,
    ) -> (r: Option<FeedbackMessage>)
        ensures
            r == old(self).feedback_messages.value(message_id@),
            final(self).feedback_messages.entries() == without(
                old(self).feedback_messages.entries(),
                message_id@,
            ),
            r.is_none() ==>
                final(self).feedback_messages.entries() == old(self).feedback_messages.entries(),
            final(self).button_messages == old(self).button_messages,
            final(self).conversations == old(self).conversations,
            final(self).reminders == old(self).reminders,
            old(self).wf() ==> final(self).wf(),
            r.is_some() ==> final(self).last_updated == timestamp,
            r.is_none() ==> *final(self) == *old(self),
    {
        proof {
            if self.wf() {
                lemma_without(self.feedback_messages.entries(), message_id@);
            }
        }
        if !self.feedback_messages.contains_key(message_id) {
            return None;
        }
        self.last_updated = timestamp;
        self.feedback_messages.remove(message_id)
    }

    /// Removes a feedback entry and returns it. An unknown id changes
    /// nothing, not even the time of the last change.
    pub fn remove_feedback_message(&mut self, message_id: &str) -> (r: Option<FeedbackMessage>)
        ensures
            r == old(self).feedback_messages.value(message_id@),
            final(self).feedback_messages.entries() == without(
                old(self).feedback_messages.entries(),
                message_id@,
            ),
            r.is_none() ==>
                final(self).feedback_messages.entries() == old(self).feedback_messages.entries(),
            final(self).button_messages == old(self).button_messages,
            final(self).conversations == old(self).conversations,
            final(self).reminders == old(self).reminders,
            old(self).wf() ==> final(self).wf(),
            r.is_none() ==> *final(self) == *old(self),
    {
        self.remove_feedback_message_at(message_id, now())
    }

    /// Position of the oldest feedback entry.
    fn oldest_feedback(&self) -> (r: usize)
        requires
            self.feedback_messages.entries().len() > 0,
        ensures
            r == oldest_index(
                self.feedback_messages.entries(),
                self.feedback_messages.entries().len() as int,
            ),
            r < self.feedback_messages.entries().len(),
    {
        let n = self.feedback_messages.len();
        let mut best: usize = 0;
        let mut i: usize = 1;
        while i < n
            invariant
                1 <= i <= n,
                n == self.feedback_messages.entries().len(),
                best == oldest_index(self.feedback_messages.entries(), i as int),
                best < i,
            decreases n - i,
        {
            let candidate = self.feedback_messages.value_at(i).created_at;
            let current = self.feedback_messages.value_at(best).created_at;
            if candidate.is_before(&current) {
                best = i;
            }
            i += 1;
        }
        best
    }

    /// Keeps the newest `max_messages` feedback entries: while there are
    /// more, the oldest one leaves.
    /// The change is stamped with `timestamp`.
    pub fn clean_old_feedback_messages_at(&mut self, max_messages: usize, timestamp: Timestamp)
        ensures
            final(self).feedback_messages.entries() == trimmed(
                old(self).feedback_messages.entries(),
                max_messages as int,
            ),
            final(self).button_messages == old(self).button_messages,
            final(self).conversations == old(self).conversations,
            final(self).reminders == old(self).reminders,
            old(self).feedback_messages.entries().len() <= max_messages ==>
                *final(self) == *old(self),
            old(self).wf() ==> final(self).wf(),
            final(self).last_updated == if old(self).feedback_messages.entries().len()
                > max_messages {
                timestamp
            } else {
                old(self).last_updated
            },
    {
        proof {
            lemma_trimmed_size(self.feedback_messages.entries(), max_messages as int);
        }
        if self.feedback_messages.len() <= max_messages {
            return ;
        }
        while self.feedback_messages.len() > max_messages
            invariant
                trimmed(old(self).feedback_messages.entries(), max_messages as int) == trimmed(
                    self.feedback_messages.entries(),
                    max_messages as int,
                ),
                self.button_messages == old(self).button_messages,
                self.conversations == old(self).conversations,
                self.reminders == old(self).reminders,
            decreases self.feedback_messages.entries().len(),
        {
            let i = self.oldest_feedback();
            self.feedback_messages.remove_at(i);
        }
        self.last_updated = timestamp;
    }

    /// Keeps the newest `max_messages` feedback entries: while there are
    /// more, the oldest one leaves.
    pub fn clean_old_feedback_messages(&mut self, max_messages: usize)
        ensures
            final(self).feedback_messages.entries() == trimmed(
                old(self).feedback_messages.entries(),
                max_messages as int,
            ),
            final(self).button_messages == old(self).button_messages,
            final(self).conversations == old(self).conversations,
            final(self).reminders == old(self).reminders,
            old(self).feedback_messages.entries().len() <= max_messages ==>
                *final(self) == *old(self),
            old(self).wf() ==> final(self).wf(),
    {
        self.clean_old_feedback_messages_at(max_messages, now());
    }

    /// Appends a message to the context stored for a user at time
    /// `timestamp`, starting a context where there is none. With `user_name`
    /// given, the context takes that display name.
    pub fn record_message_at(
        &mut self,
        user_id: &str,
        user_name: Option<&str>,
        message: AIMessage,
        timestamp: Timestamp,
    )
        ensures
            match final(self).conversations.value(user_id@) {
                Some(c) => after_message(
                    old(self).conversations.value(user_id@),
                    match user_name {
                        Some(n) => Some(n@),
                        None => None,
                    },
                    message,
                    c,
                ) && c.last_updated == timestamp && final(self).conversations.entries() == put(
                    old(self).conversations.entries(),
                    user_id@,
                    c,
                ),
                None => false,
            },
            final(self).button_messages == old(self).button_messages,
            final(self).reminders == old(self).reminders,
            final(self).feedback_messages == old(self).feedback_messages,
            final(self).last_updated == timestamp,
            old(self).wf() ==> final(self).wf(),
    {
        let ghost before = self.conversations.entries();
        match self.conversations.get_mut(user_id) {
            Some(context) => {
                match user_name {
                    Some(n) => {
                        context.user_name = owned(n);
                    },
                    None => {},
                }
                context.add_message_at(message, timestamp);
            },
            None => {
                let mut fresh = ConversationContext::new_at(timestamp);
                proof {
                    assert(fresh.messages@ =~= Seq::<AIMessage>::empty());
                }
                match user_name {
                    Some(n) => {
                        fresh.user_name = owned(n);
                    },
                    None => {},
                }
                fresh.add_message_at(message, timestamp);
                self.conversations.insert(owned(user_id), fresh);
            },
        }
        self.last_updated = timestamp;
        proof {
            let after = self.conversations.entries();
            crate::store::lemma_key_index(before, user_id@, 0);
            match crate::store::key_index(before, user_id@, 0) {
                Some(i) => {
                    crate::store::lemma_key_index_is(after, user_id@, 0, i);
                },
                None => {
                    crate::store::lemma_key_index_is(after, user_id@, 0, before.len() as int);
                },
            }
            if old(self).wf() {
                lemma_put(before, user_id@, lookup(after, user_id@).unwrap());
            }
        }
    }

    /// Appends a message to the context of a user, starting a context where
    /// there is none.
    pub fn add_message_to_conversation(&mut self, user_id: &str, message: AIMessage)
        ensures
            match final(self).conversations.value(user_id@) {
                Some(c) => after_message(
                    old(self).conversations.value(user_id@),
                    None,
                    message,
                    c,
                ) && final(self).conversations.entries() == put(
                    old(self).conversations.entries(),
                    user_id@,
                    c,
                ),
                None => false,
            },
            final(self).button_messages == old(self).button_messages,
            final(self).reminders == old(self).reminders,
            final(self).feedback_messages == old(self).feedback_messages,
            old(self).wf() ==> final(self).wf(),
    {
        self.record_message_at(user_id, None, message, now());
    }

    /// Appends a message to the context of a user and sets the display name,
    /// starting a context where there is none.
    pub fn add_message_to_conversation_with_name(
        &mut self,
        user_id: &str,
        user_name: &str,
        message: AIMessage,
    )
        ensures
            match final(self).conversations.value(user_id@) {
                Some(c) => after_message(
                    old(self).conversations.value(user_id@),
                    Some(user_name@),
                    message,
                    c,
                ) && final(self).conversations.entries() == put(
                    old(self).conversations.entries(),
                    user_id@,
                    c,
                ),
                None => false,
            },
            final(self).button_messages == old(self).button_messages,
            final(self).reminders == old(self).reminders,
            final(self).feedback_messages == old(self).feedback_messages,
            old(self).wf() ==> final(self).wf(),
    {
        self.record_message_at(user_id, Some(user_name), message, now());
    }

    /// Drops the conversations last updated `days` days before `now` or
    /// earlier.
    pub fn clean_old_conversations_at(&mut self, days: i64, now: Timestamp)
        ensures
            final(self).conversations.entries() == selected(
                old(self).conversations.entries(),
                fresh_conversations(old(self).conversations.entries(), now, days as int),
                old(self).conversations.entries().len() as int,
            ),
            final(self).button_messages == old(self).button_messages,
            final(self).reminders == old(self).reminders,
            final(self).feedback_messages == old(self).feedback_messages,
            final(self).last_updated == now,
            old(self).wf() ==> final(self).wf(),
    {
        let n = self.conversations.len();
        let mut marks: Vec<bool> = Vec::new();
        let mut i: usize = 0;
        while i < n
            invariant
                i <= n,
                n == self.conversations.entries().len(),
                marks.len() == i,
                forall|j: int|
                    0 <= j < i ==> marks[j] == within_days(
                        self.conversations.entries()[j].1.last_updated,
                        now,
                        days as int,
                    ),
            decreases n - i,
        {
            marks.push(self.conversations.value_at(i).last_updated.is_within_days(&now, days));
            i += 1;
        }
        proof {
            assert(marks@ =~= fresh_conversations(
                self.conversations.entries(),
                now,
                days as int,
            ));
            if self.wf() {
                lemma_selected_distinct(self.conversations.entries(), marks@, n as int);
            }
        }
        self.conversations.retain_marked(&marks);
        self.last_updated = now;
    }

    /// Drops the conversations not updated within the last `days` days.
    pub fn clean_old_conversations(&mut self, days: i64)
        ensures
            exists|now: Timestamp|
                final(self).conversations.entries() == selected(
                    old(self).conversations.entries(),
                    #[trigger] fresh_conversations(
                        old(self).conversations.entries(),
                        now,
                        days as int,
                    ),
                    old(self).conversations.entries().len() as int,
                ),
            final(self).button_messages == old(self).button_messages,
            final(self).reminders == old(self).reminders,
            final(self).feedback_messages == old(self).feedback_messages,
            old(self).wf() ==> final(self).wf(),
    {
        self.clean_old_conversations_at(days, now());
    }

    /// Stores a reminder under its id.
    /// The change is stamped with `timestamp`.
    pub fn add_reminder_at(&mut self, reminder: Reminder, timestamp: Timestamp)
        ensures
            final(self).reminders.entries() == put(
                old(self).reminders.entries(),
                reminder.id@,
                reminder,
            ),
            final(self).button_messages == old(self).button_messages,
            final(self).conversations == old(self).conversations,
            final(self).feedback_messages == old(self).feedback_messages,
            old(self).wf() ==> final(self).wf(),
            final(self).last_updated == timestamp,
    {
        proof {
            if self.wf() {
                lemma_put(self.reminders.entries(), reminder.id@, reminder);
            }
        }
        let key = reminder.id.clone();
        self.reminders.insert(key, reminder);
        self.last_updated = timestamp;
    }

    /// Stores a reminder under its id.
    pub fn add_reminder(&mut self, reminder: Reminder)
        ensures
            final(self).reminders.entries() == put(
                old(self).reminders.entries(),
                reminder.id@,
                reminder,
            ),
            final(self).button_messages == old(self).button_messages,
            final(self).conversations == old(self).conversations,
            final(self).feedback_messages == old(self).feedback_messages,
            old(self).wf() ==> final(self).wf(),
    {
        self.add_reminder_at(reminder, now());
    }

    /// The reminder under an id.
    pub fn get_reminder(&self, reminder_id: &str) -> (r: Option<&Reminder>)
        ensures
            match r {
                Some(d) => self.reminders.value(reminder_id@) == Some(*d),
                None => self.reminders.value(reminder_id@).is_none(),
            },
    {
        self.reminders.get(reminder_id)
    }

    /// The reminder under an id, for changing in place.
    pub fn get_reminder_mut(&mut self, reminder_id: &str) -> (r: Option<&mut Reminder>)
        ensures
            match r {
                Some(c) => old(self).reminders.value(reminder_id@) == Some(*c)
                    && final(self).reminders.entries() =~= put(
                    old(self).reminders.entries(),
                    reminder_id@,
                    *final(c),
                ),
                None => old(self).reminders.value(reminder_id@).is_none()
                    && final(self).reminders.entries() == old(self).reminders.entries(),
            },
            final(self).button_messages == old(self).button_messages,
            final(self).conversations == old(self).conversations,
            final(self).feedback_messages == old(self).feedback_messages,
            final(self).last_updated == old(self).last_updated,
    {
        self.reminders.get_mut(reminder_id)
    }

    /// Removes a reminder and returns it, stamping the change with
    /// `timestamp`. An unknown id changes nothing, not even the time of the
    /// last change.
    pub fn remove_reminder_at(
        &mut self,
        reminder_id: &str,
        timestamp: Timestamp,
    ) -> (r: Option<Reminder>)
        ensures
            r == old(self).reminders.value(reminder_id@),
            final(self).reminders.entries() == without(
                old(self).reminders.entries(),
                reminder_id@,
            ),
            r.is_none() ==> final(self).reminders.entries() == old(self).reminders.entries(),
            final(self).button_messages == old(self).button_messages,
            final(self).conversations == old(self).conversations,
            final(self).feedback_messages == old(self).feedback_messages,
            old(self).wf() ==> final(self).wf(),
            r.is_some() ==> final(self).last_updated == timestamp,
            r.is_none() ==> *final(self) == *old(self),
    {
        proof {
            if self.wf() {
                lemma_without(self.reminders.entries(), reminder_id@);
            }
        }
        if !self.reminders.contains_key(reminder_id) {
            return None;
        }
        self.last_updated = timestamp;
        self.reminders.remove(reminder_id)
    }

    /// Removes a reminder and returns it. An unknown id changes nothing, not
    /// even the time of the last change.
    pub fn remove_reminder(&mut self, reminder_id: &str) -> (r: Option<Reminder>)
        ensures
            r == old(self).reminders.value(reminder_id@),
            final(self).reminders.entries() == without(
                old(self).reminders.entries(),
                reminder_id@,
            ),
            r.is_none() ==> final(self).reminders.entries() == old(self).reminders.entries(),
            final(self).button_messages == old(self).button_messages,
            final(self).conversations == old(self).conversations,
            final(self).feedback_messages == old(self).feedback_messages,
            old(self).wf() ==> final(self).wf(),
            r.is_none() ==> *final(self) == *old(self),
    {
        self.remove_reminder_at(reminder_id, now())
    }

    /// The reminders that are due at `now`, in stored order.
    pub fn get_pending_reminders_at(&self, now: Timestamp) -> (r: Vec<&Reminder>)
        ensures
            pointed(r@) == pending_of(
                self.reminders.entries(),
                now,
                self.reminders.entries().len() as int,
            ),
    {
        let n = self.reminders.len();
        let mut out: Vec<&Reminder> = Vec::new();
        let mut i: usize = 0;
        while i < n
            invariant
                i <= n,
                n == self.reminders.entries().len(),
                pointed(out@) == pending_of(self.reminders.entries(), now, i as int),
            decreases n - i,
        {
            let reminder = self.reminders.value_at(i);
            let ghost before = out@;
            if !reminder.is_sent && reminder.reminder_time.is_at_or_before(&now) {
                out.push(reminder);
                proof {
                    assert(pointed(out@) =~= pointed(before).push(*reminder));
                }
            }
            i += 1;
        }
        out
    }

    /// The reminders that are due now, in stored order.
    pub fn get_pending_reminders(&self) -> (r: Vec<&Reminder>)
        ensures
            exists|now: Timestamp|
                pointed(r@) == #[trigger] pending_of(
                    self.reminders.entries(),
                    now,
                    self.reminders.entries().len() as int,
                ),
    {
        self.get_pending_reminders_at(now())
    }

    /// Marks the reminder under an id as sent; an unknown id changes
    /// nothing.
    /// The change is stamped with `timestamp`.
    pub fn mark_reminder_sent_at(&mut self, reminder_id: &str, timestamp: Timestamp)
        ensures
            final(self).reminders.entries() == marked_sent(
                old(self).reminders.entries(),
                reminder_id@,
            ),
            final(self).button_messages == old(self).button_messages,
            final(self).conversations == old(self).conversations,
            final(self).feedback_messages == old(self).feedback_messages,
            old(self).reminders.value(reminder_id@).is_none() ==> *final(self) == *old(self),
            old(self).wf() ==> final(self).wf(),
            final(self).last_updated == if old(self).reminders.value(reminder_id@).is_some() {
                timestamp
            } else {
                old(self).last_updated
            },
    {
        proof {
            match self.reminders.value(reminder_id@) {
                Some(r) => {
                    if self.wf() {
                        lemma_put(self.reminders.entries(), reminder_id@, sent(r));
                    }
                },
                None => {},
            }
        }
        if !self.reminders.contains_key(reminder_id) {
            return ;
        }
        let mut found = false;
        match self.reminders.get_mut(reminder_id) {
            Some(reminder) => {
                reminder.is_sent = true;
                found = true;
            },
            None => {},
        }
        if found {
            self.last_updated = timestamp;
        }
    }

    /// Marks the reminder under an id as sent; an unknown id changes
    /// nothing.
    pub fn mark_reminder_sent(&mut self, reminder_id: &str)
        ensures
            final(self).reminders.entries() == marked_sent(
                old(self).reminders.entries(),
                reminder_id@,
            ),
            final(self).button_messages == old(self).button_messages,
            final(self).conversations == old(self).conversations,
            final(self).feedback_messages == old(self).feedback_messages,
            old(self).reminders.value(reminder_id@).is_none() ==> *final(self) == *old(self),
            old(self).wf() ==> final(self).wf(),
    {
        self.mark_reminder_sent_at(reminder_id, now());
    }

    /// Whether the reminder has a channel number as its destination.
    pub fn reminder_has_channel(reminder: &Reminder) -> (r: bool)
        ensures
            r == has_channel(*reminder),
    {
        parse_u64(&chars_of(reminder.channel_id.as_str())).is_some()
    }

    /// Claims the reminder under `id` for delivery at `now`: if it is stored,
    /// unsent, due and has a destination, it is marked as sent and returned
    /// as it was. The check of the flag and its change are one step, so a
    /// reminder is handed out once.
    pub fn claim_reminder_at(&mut self, reminder_id: &str, now: Timestamp) -> (r: Option<Reminder>)
        ensures
            r == match old(self).reminders.value(reminder_id@) {
                Some(x) => if is_claimable(x, now) {
                    Some(x)
                } else {
                    None
                },
                None => None,
            },
            final(self).reminders.entries() == claimed(
                old(self).reminders.entries(),
                reminder_id@,
                now,
            ),
            final(self).button_messages == old(self).button_messages,
            final(self).conversations == old(self).conversations,
            final(self).feedback_messages == old(self).feedback_messages,
            r.is_none() ==> *final(self) == *old(self),
            r.is_some() ==> final(self).last_updated == now,
            old(self).wf() ==> final(self).wf(),
    {
        let claimable = match self.reminders.get(reminder_id) {
            Some(x) => !x.is_sent && x.reminder_time.is_at_or_before(&now)
                && Self::reminder_has_channel(x),
            None => false,
        };
        if !claimable {
            return None;
        }
        proof {
            if self.wf() {
                lemma_put(
                    self.reminders.entries(),
                    reminder_id@,
                    sent(self.reminders.value(reminder_id@).unwrap()),
                );
            }
        }
        let mut taken: Option<Reminder> = None;
        match self.reminders.get_mut(reminder_id) {
            Some(reminder) => {
                taken = Some(reminder.clone());
                reminder.is_sent = true;
            },
            None => {},
        }
        self.last_updated = now;
        taken
    }

    /// Releases the claim on the reminder under `id`, at time `timestamp`:
    /// a stored reminder that is marked as sent becomes unsent again, with
    /// nothing else of it changed, so that a later sweep hands it out once
    /// more. This is for a delivery that failed. The result says whether a
    /// mark was taken back; if none was, nothing changes.
    pub fn release_reminder_at(&mut self, reminder_id: &str, timestamp: Timestamp) -> (r: bool)
        ensures
            r == match old(self).reminders.value(reminder_id@) {
                Some(x) => x.is_sent,
                None => false,
            },
            final(self).reminders.entries() == released(
                old(self).reminders.entries(),
                reminder_id@,
            ),
            final(self).button_messages == old(self).button_messages,
            final(self).conversations == old(self).conversations,
            final(self).feedback_messages == old(self).feedback_messages,
            r ==> final(self).last_updated == timestamp,
            !r ==> *final(self) == *old(self),
            old(self).wf() ==> final(self).wf(),
    {
        let marked = match self.reminders.get(reminder_id) {
            Some(x) => x.is_sent,
            None => false,
        };
        if !marked {
            return false;
        }
        proof {
            if self.wf() {
                lemma_put(
                    self.reminders.entries(),
                    reminder_id@,
                    unsent(self.reminders.value(reminder_id@).unwrap()),
                );
            }
        }
        match self.reminders.get_mut(reminder_id) {
            Some(reminder) => {
                reminder.is_sent = false;
            },
            None => {},
        }
        self.last_updated = timestamp;
        true
    }

    /// Releases the claim on the reminder under `id`: a stored reminder that
    /// is marked as sent becomes unsent again. The result says whether a
    /// mark was taken back; if none was, nothing changes.
    pub fn release_reminder(&mut self, reminder_id: &str) -> (r: bool)
        ensures
            r == match old(self).reminders.value(reminder_id@) {
                Some(x) => x.is_sent,
                None => false,
            },
            final(self).reminders.entries() == released(
                old(self).reminders.entries(),
                reminder_id@,
            ),
            final(self).button_messages == old(self).button_messages,
            final(self).conversations == old(self).conversations,
            final(self).feedback_messages == old(self).feedback_messages,
            !r ==> *final(self) == *old(self),
            old(self).wf() ==> final(self).wf(),
    {
        self.release_reminder_at(reminder_id, now())
    }

    /// Marks every reminder that is claimable at `now` as sent and returns
    /// those reminders, as they were, in stored order. The check of each
    /// flag and its change happen in this one step.
    pub fn claim_due_reminders_at(&mut self, now: Timestamp) -> (r: Vec<Reminder>)
        ensures
            r@ == claimable_of(
                old(self).reminders.entries(),
                now,
                old(self).reminders.entries().len() as int,
            ),
            final(self).reminders.entries() == swept(old(self).reminders.entries(), now),
            final(self).button_messages == old(self).button_messages,
            final(self).conversations == old(self).conversations,
            final(self).feedback_messages == old(self).feedback_messages,
            final(self).last_updated == if r@.len() > 0 {
                now
            } else {
                old(self).last_updated
            },
            old(self).wf() ==> final(self).wf(),
    {
        let ghost orig = self.reminders.entries();
        let n = self.reminders.len();
        let mut out: Vec<Reminder> = Vec::new();
        let mut i: usize = 0;
        while i < n
            invariant
                i <= n,
                n == orig.len(),
                self.reminders.entries().len() == n,
                out@ == claimable_of(orig, now, i as int),
                forall|j: int| 0 <= j < i ==> self.reminders.entries()[j] == swept(orig, now)[j],
                forall|j: int| i <= j < n ==> self.reminders.entries()[j] == orig[j],
                self.button_messages == old(self).button_messages,
                self.conversations == old(self).conversations,
                self.feedback_messages == old(self).feedback_messages,
                self.last_updated == old(self).last_updated,
            decreases n - i,
        {
            let reminder = self.reminders.value_at(i);
            if !reminder.is_sent && reminder.reminder_time.is_at_or_before(&now)
                && Self::reminder_has_channel(reminder) {
                let copy = reminder.clone();
                let mut flagged = reminder.clone();
                flagged.is_sent = true;
                out.push(copy);
                self.reminders.set_value_at(i, flagged);
            }
            i += 1;
        }
        proof {
            assert(self.reminders.entries() =~= swept(orig, now));
            if old(self).wf() {
                assert(distinct_keys(swept(orig, now)));
            }
        }
        if out.len() > 0 {
            self.last_updated = now;
        }
        out
    }

    /// Drops the sent reminders created `days` days before `now` or earlier.
    pub fn clean_old_reminders_at(&mut self, days: i64, now: Timestamp)
        ensures
            final(self).reminders.entries() == selected(
                old(self).reminders.entries(),
                live_reminders(old(self).reminders.entries(), now, days as int),
                old(self).reminders.entries().len() as int,
            ),
            final(self).button_messages == old(self).button_messages,
            final(self).conversations == old(self).conversations,
            final(self).feedback_messages == old(self).feedback_messages,
            final(self).last_updated == now,
            old(self).wf() ==> final(self).wf(),
    {
        let n = self.reminders.len();
        let mut marks: Vec<bool> = Vec::new();
        let mut i: usize = 0;
        while i < n
            invariant
                i <= n,
                n == self.reminders.entries().len(),
                marks.len() == i,
                forall|j: int|
                    0 <= j < i ==> marks[j] == (!self.reminders.entries()[j].1.is_sent
                        || within_days(
                        self.reminders.entries()[j].1.created_at,
                        now,
                        days as int,
                    )),
            decreases n - i,
        {
            let reminder = self.reminders.value_at(i);
            marks.push(!reminder.is_sent || reminder.created_at.is_within_days(&now, days));
            i += 1;
        }
        proof {
            assert(marks@ =~= live_reminders(self.reminders.entries(), now, days as int));
            if self.wf() {
                lemma_selected_distinct(self.reminders.entries(), marks@, n as int);
            }
        }
        self.reminders.retain_marked(&marks);
        self.last_updated = now;
    }

    /// Drops the sent reminders not created within the last `days` days.
    pub fn clean_old_reminders(&mut self, days: i64)
        ensures
            exists|now: Timestamp|
                final(self).reminders.entries() == selected(
                    old(self).reminders.entries(),
                    #[trigger] live_reminders(old(self).reminders.entries(), now, days as int),
                    old(self).reminders.entries().len() as int,
                ),
            final(self).button_messages == old(self).button_messages,
            final(self).conversations == old(self).conversations,
            final(self).feedback_messages == old(self).feedback_messages,
            old(self).wf() ==> final(self).wf(),
    {
        self.clean_old_reminders_at(days, now());
    }
}

/// Two aggregates say the same: the same time, the same keys in the same
/// order in every collection, and under each key records that say the same.
pub open spec fn same_data(a: BotData, b: BotData) -> bool {
    &&& a.last_updated == b.last_updated
    &&& a.reminders.entries() == b.reminders.entries()
    &&& a.feedback_messages.entries() == b.feedback_messages.entries()
    &&& a.conversations.entries().len() == b.conversations.entries().len()
    &&& forall|i: int|
        0 <= i < a.conversations.entries().len() ==> a.conversations.entries()[i].0
            == b.conversations.entries()[i].0 && same_context(
            a.conversations.entries()[i].1,
            b.conversations.entries()[i].1,
        )
    &&& a.button_messages.entries().len() == b.button_messages.entries().len()
    &&& forall|i: int|
        0 <= i < a.button_messages.entries().len() ==> a.button_messages.entries()[i].0
            == b.button_messages.entries()[i].0 && same_record(
            a.button_messages.entries()[i].1,
            b.button_messages.entries()[i].1,
        )
}

impl Clone for BotData {
    fn clone(&self) -> (r: Self)
        ensures
            same_data(*self, r),
            self.wf() ==> r.wf(),
    {
        let reminders = self.reminders.clone();
        let feedback = self.feedback_messages.clone();
        let conversations = self.conversations.clone();
        let buttons = self.button_messages.clone();
        proof {
            assert(reminders.entries() =~= self.reminders.entries());
            assert(feedback.entries() =~= self.feedback_messages.entries());
        }
        BotData {
            button_messages: buttons,
            conversations,
            reminders,
            feedback_messages: feedback,
            last_updated: self.last_updated,
        }
    }
}

impl Default for BotData {
    fn default() -> (r: Self)
        ensures
            r.is_blank(),
            r.wf(),
    {
        Self::new()
    }
}

/// The oldest entry is in range, and no entry among the first `n` is older.
pub proof fn lemma_oldest(s: Seq<(Seq<char>, FeedbackMessage)>, n: int)
    requires
        1 <= n <= s.len(),
    ensures
        0 <= oldest_index(s, n) < n,
        forall|j: int|
            0 <= j < n ==> !earlier(
                (#[trigger] s[j]).1.created_at,
                s[oldest_index(s, n)].1.created_at,
            ),
    decreases n,
{
    if n > 1 {
        lemma_oldest(s, n - 1);
    }
}

/// Cutting the feedback down leaves `max` entries where there were more,
/// and every entry that stays was an entry before.
pub proof fn lemma_trimmed_size(s: Seq<(Seq<char>, FeedbackMessage)>, max: int)
    requires
        0 <= max,
    ensures
        trimmed(s, max).len() == if s.len() <= max {
            s.len() as int
        } else {
            max
        },
        forall|i: int| 0 <= i < trimmed(s, max).len() ==> s.contains(#[trigger] trimmed(s, max)[i]),
        distinct_keys(s) ==> distinct_keys(trimmed(s, max)),
    decreases s.len(),
{
    if s.len() > max {
        lemma_oldest(s, s.len() as int);
        let o = oldest_index(s, s.len() as int);
        let rest = s.remove(o);
        lemma_trimmed_size(rest, max);
        assert forall|i: int| 0 <= i < trimmed(s, max).len() implies s.contains(
            #[trigger] trimmed(s, max)[i],
        ) by {
            let x = trimmed(rest, max)[i];
            assert(rest.contains(x));
            let k = choose|k: int| 0 <= k < rest.len() && rest[k] == x;
            if k < o {
                assert(s[k] == x);
            } else {
                assert(s[k + 1] == x);
            }
        }
        if distinct_keys(s) {
            assert forall|a: int, b: int| 0 <= a < b < rest.len() implies rest[a].0
                != rest[b].0 by {
                let a2 = if a < o { a } else { a + 1 };
                let b2 = if b < o { b } else { b + 1 };
                assert(rest[a] == s[a2] && rest[b] == s[b2]);
            }
        }
    } else {
        assert forall|i: int| 0 <= i < trimmed(s, max).len() implies s.contains(
            #[trigger] trimmed(s, max)[i],
        ) by {
            assert(s[i] == trimmed(s, max)[i]);
        }
    }
}

/// Cutting the feedback down keeps the newest: no entry that stays is older
/// than an entry that had to go.
pub proof fn lemma_trimmed_keeps_newest(
    s: Seq<(Seq<char>, FeedbackMessage)>,
    max: int,
    i: int,
    j: int,
)
    requires
        0 <= max,
        0 <= i < trimmed(s, max).len(),
        0 <= j < s.len(),
        !trimmed(s, max).contains(s[j]),
    ensures
        !earlier(trimmed(s, max)[i].1.created_at, s[j].1.created_at),
    decreases s.len(),
{
    if s.len() > max {
        lemma_oldest(s, s.len() as int);
        let o = oldest_index(s, s.len() as int);
        let rest = s.remove(o);
        let kept = trimmed(rest, max)[i];
        lemma_trimmed_size(rest, max);
        assert(rest.contains(kept));
        let k = choose|k: int| 0 <= k < rest.len() && rest[k] == kept;
        let k2 = if k < o { k } else { k + 1 };
        assert(s[k2] == kept);
        if j == o {
        } else {
            let j2 = if j < o { j } else { j - 1 };
            assert(rest[j2] == s[j]);
            lemma_trimmed_keeps_newest(rest, max, i, j2);
        }
    } else {
        assert(trimmed(s, max)[j] == s[j]);
    }
}

/// A reminder claimed by one sweep is never due again: after the sweep at
/// `first`, no reminder that it handed out can be claimed at any other time
/// `second`, so no second sweep delivers it again.
pub proof fn lemma_sweep_never_redelivers(
    s: Seq<(Seq<char>, Reminder)>,
    first: Timestamp,
    second: Timestamp,
    i: int,
)
    requires
        0 <= i < s.len(),
        is_claimable(s[i].1, first),
    ensures
        !is_claimable(swept(s, first)[i].1, second),
        !is_due(swept(s, first)[i].1, second),
        swept(s, first)[i].0 == s[i].0,
{
}

/// What a sweep at `second` hands out after a sweep at `first` was not
/// handed out by the first: each such reminder stands in the store at a
/// place whose reminder the first sweep could not claim.
pub proof fn lemma_second_sweep_is_disjoint(
    s: Seq<(Seq<char>, Reminder)>,
    first: Timestamp,
    second: Timestamp,
    n: int,
    k: int,
) -> (j: int)
    requires
        0 <= n <= s.len(),
        0 <= k < claimable_of(swept(s, first), second, n).len(),
    ensures
        0 <= j < n,
        claimable_of(swept(s, first), second, n)[k] == s[j].1,
        !is_claimable(s[j].1, first),
        is_claimable(s[j].1, second),
    decreases n,
{
    let t = swept(s, first);
    if is_claimable(t[n - 1].1, second) && k == claimable_of(t, second, n - 1).len() {
        n - 1
    } else {
        lemma_second_sweep_is_disjoint(s, first, second, n - 1, k)
    }
}

/// A reminder is claimed at most once: after a claim of `id`, whether it
/// succeeded or not, a further claim of the same `id` finds nothing to
/// claim as long as it had anything to claim before.
pub proof fn lemma_claim_once(
    s: Seq<(Seq<char>, Reminder)>,
    id: Seq<char>,
    first: Timestamp,
    second: Timestamp,
)
    requires
        distinct_keys(s),
        match lookup(s, id) {
            Some(r) => is_claimable(r, first),
            None => false,
        },
    ensures
        match lookup(claimed(s, id, first), id) {
            Some(r) => !is_claimable(r, second),
            None => false,
        },
{
    lemma_put(s, id, sent(lookup(s, id).unwrap()));
}

/// A released claim undoes the claim: after a reminder was claimed and the
/// claim released, the reminder is stored as it was before, so it can be
/// claimed again.
pub proof fn lemma_release_undoes_claim(
    s: Seq<(Seq<char>, Reminder)>,
    id: Seq<char>,
    now: Timestamp,
)
    requires
        distinct_keys(s),
        match lookup(s, id) {
            Some(r) => is_claimable(r, now),
            None => false,
        },
    ensures
        lookup(released(claimed(s, id, now), id), id) == lookup(s, id),
        forall|k: Seq<char>| k != id ==> lookup(released(claimed(s, id, now), id), k) == lookup(s, k),
        released(claimed(s, id, now), id).len() == s.len(),
{
    let r = lookup(s, id).unwrap();
    lemma_put(s, id, sent(r));
    let c = claimed(s, id, now);
    lemma_put(c, id, unsent(sent(r)));
    lemma_key_index(s, id, 0);
}

/// Removing an id that is not stored changes nothing, and removing an id
/// twice is the same as removing it once.
pub proof fn lemma_remove_is_idempotent<V>(s: Seq<(Seq<char>, V)>, id: Seq<char>)
    requires
        distinct_keys(s),
    ensures
        !has_key(s, id) ==> without(s, id) == s,
        without(without(s, id), id) == without(s, id),
{
    lemma_without(s, id);
    lemma_without(without(s, id), id);
}

} // verus!
