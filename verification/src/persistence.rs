//! The state manager: the one owner of the aggregate. Every change goes
//! through it, is stamped with the time, and tells its caller whether the
//! aggregate is to be written to durable storage now.
use vstd::prelude::*;
use crate::conversation::{
    counter_after, same_context, AIMessage, ConversationContext, SUMMARY_TRIGGER,
};
use crate::data::{
    after_message, claimable_of, claimed, fresh_conversations, is_claimable, live_reminders,
    marked_sent, pending_of, released, same_data, swept, trimmed, BotData, FeedbackMessage,
    Reminder,
};
use crate::message_data::{same_record, ButtonMessageData, MessageType};
use crate::store::{
    key_index, lemma_key_index, lemma_key_index_is, lemma_selected_distinct, put, selected,
    without,
};
use crate::text::{byte_prefix, chars_of, owned, push_text, str_eq, string_of, take_bytes};
use crate::time::{now, Timestamp};

verus! {

/// How the state manager is set up.
#[derive(Debug)]
pub struct DataConfig {
    pub data_directory: String,
    pub data_filename: String,
    pub auto_save: bool,
    pub auto_save_interval: u64,
}

impl Default for DataConfig {
    fn default() -> (r: Self)
        ensures
            r.data_directory@ == "data"@,
            r.data_filename@ == "bot_data.json"@,
            r.auto_save,
            r.auto_save_interval == 30,
    {
        DataConfig {
            data_directory: owned("data"),
            data_filename: owned("bot_data.json"),
            auto_save: true,
            auto_save_interval: 30,
        }
    }
}

/// Counts over the aggregate.
#[derive(Debug)]
pub struct DataStats {
    pub button_messages_count: usize,
    pub conversations_count: usize,
    pub total_messages: usize,
    pub last_updated: Timestamp,
}

/// The number of messages in the first `n` conversations.
pub open spec fn message_total(s: Seq<(Seq<char>, ConversationContext)>, n: int) -> nat
    decreases n,
{
    if n <= 0 {
        0
    } else {
        message_total(s, n - 1) + s[n - 1].1.messages@.len()
    }
}

/// The record belongs to a ticket in the given channel.
pub open spec fn is_ticket_in(d: ButtonMessageData, channel: Seq<char>) -> bool {
    d.message_type == MessageType::Ticket && d.channel_id@ == channel
}

/// The record belongs to a ticket that the given user created.
pub open spec fn is_ticket_of(d: ButtonMessageData, user: Seq<char>) -> bool {
    d.message_type == MessageType::Ticket && match d.metadata.value("creator_id"@) {
        Some(c) => c@ == user,
        None => false,
    }
}

/// The channels of the tickets among the first `n` records that the user
/// created, in stored order.
pub open spec fn tickets_of(s: Seq<(Seq<char>, ButtonMessageData)>, user: Seq<char>, n: int) -> Seq<
    Seq<char>,
>
    decreases n,
{
    if n <= 0 {
        Seq::<Seq<char>>::empty()
    } else if is_ticket_of(s[n - 1].1, user) {
        tickets_of(s, user, n - 1).push(s[n - 1].1.channel_id@)
    } else {
        tickets_of(s, user, n - 1)
    }
}

/// Some record belongs to a ticket in the channel.
pub open spec fn has_ticket_in(s: Seq<(Seq<char>, ButtonMessageData)>, channel: Seq<char>) -> bool {
    exists|i: int| 0 <= i < s.len() && is_ticket_in(#[trigger] s[i].1, channel)
}

/// The creator named by the first ticket record of the channel that names
/// one, looking from position `from` on.
pub open spec fn ticket_creator(
    s: Seq<(Seq<char>, ButtonMessageData)>,
    channel: Seq<char>,
    from: int,
) -> Option<String>
    decreases s.len() - from,
{
    if from < 0 || from >= s.len() {
        None
    } else if is_ticket_in(s[from].1, channel) && s[from].1.metadata.value("creator_id"@).is_some() {
        s[from].1.metadata.value("creator_id"@)
    } else {
        ticket_creator(s, channel, from + 1)
    }
}

/// Which records survive the clean-up of a ticket channel: all but the
/// ticket records of that channel.
pub open spec fn outside_ticket(s: Seq<(Seq<char>, ButtonMessageData)>, channel: Seq<char>) -> Seq<
    bool,
> {
    Seq::new(s.len(), |i: int| !is_ticket_in(s[i].1, channel))
}

/// The placeholder name for a user id: `User_` and the first eight bytes of
/// the id. An id of fewer bytes is taken whole, and an id in which a
/// character straddles the eighth byte is taken up to that character.
pub open spec fn placeholder_name(id: Seq<char>) -> Seq<char> {
    "User_"@ + byte_prefix(id, 8)
}

/// Some conversation has no display name.
pub open spec fn needs_migration(s: Seq<(Seq<char>, ConversationContext)>) -> bool {
    exists|i: int| 0 <= i < s.len() && (#[trigger] s[i]).1.user_name@.len() == 0
}

/// `after` is `before` migrated: each conversation without a display name
/// got the placeholder for its id, and nothing else changed.
pub open spec fn is_migration(
    before: Seq<(Seq<char>, ConversationContext)>,
    after: Seq<(Seq<char>, ConversationContext)>,
) -> bool {
    &&& after.len() == before.len()
    &&& forall|i: int|
        0 <= i < before.len() ==> if (#[trigger] before[i]).1.user_name@.len() == 0 {
            &&& after[i].0 == before[i].0
            &&& after[i].1.user_name@ == placeholder_name(before[i].0)
            &&& after[i].1 == (ConversationContext {
                user_name: after[i].1.user_name,
                ..before[i].1
            })
        } else {
            after[i] == before[i]
        }
}

/// Migration settles: what was migrated needs no migration, and migrating
/// it again changes nothing.
pub proof fn lemma_migration_is_one_time(
    before: Seq<(Seq<char>, ConversationContext)>,
    after: Seq<(Seq<char>, ConversationContext)>,
    again: Seq<(Seq<char>, ConversationContext)>,
)
    requires
        is_migration(before, after),
        is_migration(after, again),
    ensures
        !needs_migration(after),
        again == after,
{
    reveal_strlit("User_");
    assert forall|i: int| 0 <= i < after.len() implies (#[trigger] after[i]).1.user_name@.len()
        > 0 by {
        let b = before[i];
        if b.1.user_name@.len() == 0 {
            assert(placeholder_name(b.0).len() >= 5);
        }
    }
    assert(again =~= after);
}

/// The owner of the aggregate.
#[derive(Debug)]
pub struct DataManager {
    data_dir: String,
    data: BotData,
    auto_save: bool,
}

impl DataManager {
    /// The aggregate.
    pub closed spec fn data(&self) -> BotData {
        self.data
    }

    /// Whether every change is to be written at once.
    pub closed spec fn auto_save(&self) -> bool {
        self.auto_save
    }

    /// The directory of the durable files.
    pub closed spec fn data_dir(&self) -> Seq<char> {
        self.data_dir@
    }

    /// Everything but the aggregate is as before.
    pub open spec fn same_setup(&self, other: &DataManager) -> bool {
        self.auto_save() == other.auto_save() && self.data_dir() == other.data_dir()
    }

    /// Starts the manager: on what durable storage held, if it held
    /// anything, and on an empty aggregate otherwise.
    pub fn with_config(config: DataConfig, stored: Option<BotData>) -> (r: Self)
        ensures
            r.auto_save() == config.auto_save,
            r.data_dir() == config.data_directory@,
            match stored {
                Some(d) => r.data() == d,
                None => r.data().is_blank() && r.data().wf(),
            },
    {
        let data = match stored {
            Some(d) => d,
            None => BotData::new(),
        };
        DataManager { data_dir: config.data_directory, data, auto_save: config.auto_save }
    }

    /// Starts the manager with the default set-up.
    pub fn new(stored: Option<BotData>) -> (r: Self)
        ensures
            r.auto_save(),
            r.data_dir() == "data"@,
            match stored {
                Some(d) => r.data() == d,
                None => r.data().is_blank() && r.data().wf(),
            },
    {
        Self::with_config(DataConfig::default(), stored)
    }

    /// Whether the aggregate is to be written after a change.
    pub fn should_save(&self) -> (r: bool)
        ensures
            r == self.auto_save(),
    {
        self.auto_save
    }

    /// A snapshot of the aggregate.
    pub fn get_data(&self) -> (r: BotData)
        ensures
            same_data(self.data(), r),
            self.data().wf() ==> r.wf(),
    {
        self.data.clone()
    }

    /// Applies a change to the aggregate and stamps the time. The result
    /// says whether the aggregate is to be written now.
    pub fn update_data<F: FnOnce(BotData) -> BotData>(&mut self, update_fn: F) -> (persist: bool)
        requires
            update_fn.requires((old(self).data(),)),
        ensures
            persist == old(self).auto_save(),
            final(self).same_setup(old(self)),
            exists|changed: BotData| #[trigger]
                update_fn.ensures((old(self).data(),), changed) && final(self).data() == (BotData {
                    last_updated: final(self).data().last_updated,
                    ..changed
                }),
    {
        let stamp = now();
        let mut taken = BotData::new_at(stamp);
        std::mem::swap(&mut taken, &mut self.data);
        let mut changed = update_fn(taken);
        let ghost result = changed;
        changed.last_updated = stamp;
        self.data = changed;
        proof {
            assert(update_fn.ensures((old(self).data(),), result));
        }
        self.auto_save
    }

    /// A copy of the record of a message with controls.
    pub fn get_button_message(&self, message_id: &str) -> (r: Option<ButtonMessageData>)
        ensures
            match (self.data().button_messages.value(message_id@), r) {
                (Some(stored), Some(d)) => same_record(stored, d),
                (None, None) => true,
                _ => false,
            },
    {
        match self.data.get_button_message(message_id) {
            Some(d) => Some(d.clone()),
            None => None,
        }
    }

    /// Stores the record of a message with controls.
    pub fn add_button_message(&mut self, message_id: String, message_data: ButtonMessageData) -> (persist:
        bool)
        ensures
            persist == old(self).auto_save(),
            final(self).same_setup(old(self)),
            final(self).data().button_messages.entries() == put(
                old(self).data().button_messages.entries(),
                message_id@,
                message_data,
            ),
            final(self).data().conversations == old(self).data().conversations,
            final(self).data().reminders == old(self).data().reminders,
            final(self).data().feedback_messages == old(self).data().feedback_messages,
            old(self).data().wf() ==> final(self).data().wf(),
    {
        self.data.add_button_message(message_id, message_data);
        self.auto_save
    }

    /// Removes the record of a message with controls. An unknown id changes
    /// nothing and asks for no write.
    pub fn remove_button_message(&mut self, message_id: &str) -> (r: (
        Option<ButtonMessageData>,
        bool,
    ))
        ensures
            r.1 == (r.0.is_some() && old(self).auto_save()),
            r.0.is_none() ==> final(self).data() == old(self).data(),
            final(self).same_setup(old(self)),
            r.0 == old(self).data().button_messages.value(message_id@),
            final(self).data().button_messages.entries() == without(
                old(self).data().button_messages.entries(),
                message_id@,
            ),
            r.0.is_none() ==>
                final(self).data().button_messages.entries() ==
                    old(self).data().button_messages.entries(),
            final(self).data().conversations == old(self).data().conversations,
            final(self).data().reminders == old(self).data().reminders,
            final(self).data().feedback_messages == old(self).data().feedback_messages,
            old(self).data().wf() ==> final(self).data().wf(),
    {
        let removed = self.data.remove_button_message(message_id);
        let persist = removed.is_some() && self.auto_save;
        (removed, persist)
    }

    /// A copy of the context of a user.
    pub fn get_conversation_context(&self, user_id: &str) -> (r: Option<ConversationContext>)
        ensures
            match (self.data().conversations.value(user_id@), r) {
                (Some(stored), Some(c)) => same_context(stored, c),
                (None, None) => true,
                _ => false,
            },
    {
        match self.data.get_conversation_context(user_id) {
            Some(c) => Some(c.clone()),
            None => None,
        }
    }

    /// Appends a message to the context of a user.
    pub fn add_conversation_message(&mut self, user_id: &str, message: AIMessage) -> (persist: bool)
        ensures
            persist == old(self).auto_save(),
            final(self).same_setup(old(self)),
            match final(self).data().conversations.value(user_id@) {
                Some(c) => after_message(
                    old(self).data().conversations.value(user_id@),
                    None,
                    message,
                    c,
                ) && final(self).data().conversations.entries() == put(
                    old(self).data().conversations.entries(),
                    user_id@,
                    c,
                ),
                None => false,
            },
            final(self).data().button_messages == old(self).data().button_messages,
            final(self).data().reminders == old(self).data().reminders,
            final(self).data().feedback_messages == old(self).data().feedback_messages,
            old(self).data().wf() ==> final(self).data().wf(),
    {
        self.data.add_message_to_conversation(user_id, message);
        self.auto_save
    }

    /// Appends a message to the context of a user and sets the display name.
    pub fn add_conversation_message_with_name(
        &mut self,
        user_id: &str,
        user_name: &str,
        message: AIMessage,
    ) -> (persist: bool)
        ensures
            persist == old(self).auto_save(),
            final(self).same_setup(old(self)),
            match final(self).data().conversations.value(user_id@) {
                Some(c) => after_message(
                    old(self).data().conversations.value(user_id@),
                    Some(user_name@),
                    message,
                    c,
                ) && final(self).data().conversations.entries() == put(
                    old(self).data().conversations.entries(),
                    user_id@,
                    c,
                ),
                None => false,
            },
            final(self).data().button_messages == old(self).data().button_messages,
            final(self).data().reminders == old(self).data().reminders,
            final(self).data().feedback_messages == old(self).data().feedback_messages,
            old(self).data().wf() ==> final(self).data().wf(),
    {
        self.data.add_message_to_conversation_with_name(user_id, user_name, message);
        self.auto_save
    }

    /// Replaces the summary of a user as a whole. A user without a context
    /// gets none: nothing changes then, and no write is asked for.
    pub fn update_summary(&mut self, user_id: &str, summary: String) -> (persist: bool)
        ensures
            persist == (old(self).data().conversations.value(user_id@).is_some() && old(self).auto_save()),
            final(self).same_setup(old(self)),
            match old(self).data().conversations.value(user_id@) {
                Some(before) => match final(self).data().conversations.value(user_id@) {
                    Some(c) => c == (ConversationContext {
                        user_summary: summary,
                        last_updated: c.last_updated,
                        ..before
                    }) && final(self).data().conversations.entries() == put(
                        old(self).data().conversations.entries(),
                        user_id@,
                        c,
                    ),
                    None => false,
                },
                None => final(self).data() == old(self).data(),
            },
            final(self).data().button_messages == old(self).data().button_messages,
            final(self).data().reminders == old(self).data().reminders,
            final(self).data().feedback_messages == old(self).data().feedback_messages,
            old(self).data().wf() ==> final(self).data().wf(),
    {
        if self.data.get_conversation_context(user_id).is_none() {
            return false;
        }
        let ghost before = self.data.conversations.entries();
        match self.data.get_conversation_context_mut(user_id) {
            Some(context) => {
                context.update_summary(summary);
            },
            None => {},
        }
        self.data.last_updated = now();
        proof {
            let after = self.data.conversations.entries();
            lemma_key_index(before, user_id@, 0);
            match key_index(before, user_id@, 0) {
                Some(i) => {
                    lemma_key_index_is(after, user_id@, 0, i);
                },
                None => {},
            }
        }
        self.auto_save
    }

    /// Drops every message of a user's context; a user without a context is
    /// left without one.
    pub fn clear_conversation(&mut self, user_id: &str) -> (persist: bool)
        ensures
            persist == old(self).auto_save(),
            final(self).same_setup(old(self)),
            match old(self).data().conversations.value(user_id@) {
                Some(before) => match final(self).data().conversations.value(user_id@) {
                    Some(c) => c.messages@.len() == 0 && c == (ConversationContext {
                        messages: c.messages,
                        last_updated: c.last_updated,
                        ..before
                    }) && final(self).data().conversations.entries() == put(
                        old(self).data().conversations.entries(),
                        user_id@,
                        c,
                    ),
                    None => false,
                },
                None => final(self).data().conversations.entries() ==
                    old(self).data().conversations.entries(),
            },
            final(self).data().button_messages == old(self).data().button_messages,
            final(self).data().reminders == old(self).data().reminders,
            final(self).data().feedback_messages == old(self).data().feedback_messages,
    {
        let ghost before = self.data.conversations.entries();
        match self.data.get_conversation_context_mut(user_id) {
            Some(context) => {
                context.clear_messages();
            },
            None => {},
        }
        self.data.last_updated = now();
        proof {
            let after = self.data.conversations.entries();
            lemma_key_index(before, user_id@, 0);
            match key_index(before, user_id@, 0) {
                Some(i) => {
                    lemma_key_index_is(after, user_id@, 0, i);
                },
                None => {},
            }
        }
        self.auto_save
    }

    /// Drops the conversations not updated within the last `days` days.
    pub fn clean_old_conversations(&mut self, days: i64) -> (persist: bool)
        ensures
            persist == old(self).auto_save(),
            final(self).same_setup(old(self)),
            exists|now: Timestamp|
                final(self).data().conversations.entries() == selected(
                    old(self).data().conversations.entries(),
                    #[trigger] fresh_conversations(
                        old(self).data().conversations.entries(),
                        now,
                        days as int,
                    ),
                    old(self).data().conversations.entries().len() as int,
                ),
            final(self).data().button_messages == old(self).data().button_messages,
            final(self).data().reminders == old(self).data().reminders,
            final(self).data().feedback_messages == old(self).data().feedback_messages,
            old(self).data().wf() ==> final(self).data().wf(),
    {
        let at = now();
        self.data.clean_old_conversations_at(days, at);
        proof {
            assert(self.data.conversations.entries() == selected(
                old(self).data().conversations.entries(),
                fresh_conversations(old(self).data().conversations.entries(), at, days as int),
                old(self).data().conversations.entries().len() as int,
            ));
        }
        self.auto_save
    }

    /// Stores a reminder under its id.
    pub fn add_reminder(&mut self, reminder: Reminder) -> (persist: bool)
        ensures
            persist == old(self).auto_save(),
            final(self).same_setup(old(self)),
            final(self).data().reminders.entries() == put(
                old(self).data().reminders.entries(),
                reminder.id@,
                reminder,
            ),
            final(self).data().button_messages == old(self).data().button_messages,
            final(self).data().conversations == old(self).data().conversations,
            final(self).data().feedback_messages == old(self).data().feedback_messages,
            old(self).data().wf() ==> final(self).data().wf(),
    {
        self.data.add_reminder(reminder);
        self.auto_save
    }

    /// A copy of the reminder under an id.
    pub fn get_reminder(&self, reminder_id: &str) -> (r: Option<Reminder>)
        ensures
            r == self.data().reminders.value(reminder_id@),
    {
        match self.data.get_reminder(reminder_id) {
            Some(x) => Some(x.clone()),
            None => None,
        }
    }

    /// Removes a reminder. An unknown id changes nothing and asks for no
    /// write.
    pub fn remove_reminder(&mut self, reminder_id: &str) -> (r: (Option<Reminder>, bool))
        ensures
            r.1 == (r.0.is_some() && old(self).auto_save()),
            r.0.is_none() ==> final(self).data() == old(self).data(),
            final(self).same_setup(old(self)),
            r.0 == old(self).data().reminders.value(reminder_id@),
            final(self).data().reminders.entries() == without(
                old(self).data().reminders.entries(),
                reminder_id@,
            ),
            r.0.is_none() ==>
                final(self).data().reminders.entries() == old(self).data().reminders.entries(),
            final(self).data().button_messages == old(self).data().button_messages,
            final(self).data().conversations == old(self).data().conversations,
            final(self).data().feedback_messages == old(self).data().feedback_messages,
            old(self).data().wf() ==> final(self).data().wf(),
    {
        let removed = self.data.remove_reminder(reminder_id);
        let persist = removed.is_some() && self.auto_save;
        (removed, persist)
    }

    /// Copies of the reminders that are due at `now`, in stored order.
    pub fn get_pending_reminders_at(&self, now: Timestamp) -> (r: Vec<Reminder>)
        ensures
            r@ == pending_of(
                self.data().reminders.entries(),
                now,
                self.data().reminders.entries().len() as int,
            ),
    {
        let found = self.data.get_pending_reminders_at(now);
        let mut out: Vec<Reminder> = Vec::new();
        let mut i: usize = 0;
        while i < found.len()
            invariant
                i <= found.len(),
                out@.len() == i,
                forall|j: int| 0 <= j < i ==> out@[j] == *found@[j],
            decreases found.len() - i,
        {
            out.push(found[i].clone());
            i += 1;
        }
        proof {
            assert(out@ =~= crate::data::pointed(found@));
        }
        out
    }

    /// Copies of the reminders that are due now, in stored order.
    pub fn get_pending_reminders(&self) -> (r: Vec<Reminder>)
        ensures
            exists|now: Timestamp|
                r@ == #[trigger] pending_of(
                    self.data().reminders.entries(),
                    now,
                    self.data().reminders.entries().len() as int,
                ),
    {
        self.get_pending_reminders_at(now())
    }

    /// Marks a reminder as sent; an unknown id changes nothing.
    pub fn mark_reminder_sent(&mut self, reminder_id: &str) -> (persist: bool)
        ensures
            persist == old(self).auto_save(),
            final(self).same_setup(old(self)),
            final(self).data().reminders.entries() == marked_sent(
                old(self).data().reminders.entries(),
                reminder_id@,
            ),
            final(self).data().button_messages == old(self).data().button_messages,
            final(self).data().conversations == old(self).data().conversations,
            final(self).data().feedback_messages == old(self).data().feedback_messages,
            old(self).data().wf() ==> final(self).data().wf(),
    {
        self.data.mark_reminder_sent(reminder_id);
        self.data.last_updated = now();
        self.auto_save
    }

    /// Claims one reminder for delivery at `now`: a stored, unsent, due
    /// reminder with a destination is marked as sent and returned as it
    /// was; anything else changes nothing. The second part of the result
    /// says whether the aggregate is to be written now.
    pub fn claim_reminder_at(&mut self, reminder_id: &str, now: Timestamp) -> (r: (
        Option<Reminder>,
        bool,
    ))
        ensures
            r.1 == (r.0.is_some() && old(self).auto_save()),
            final(self).same_setup(old(self)),
            r.0 == match old(self).data().reminders.value(reminder_id@) {
                Some(x) => if is_claimable(x, now) {
                    Some(x)
                } else {
                    None
                },
                None => None,
            },
            final(self).data().reminders.entries() == claimed(
                old(self).data().reminders.entries(),
                reminder_id@,
                now,
            ),
            final(self).data().button_messages == old(self).data().button_messages,
            final(self).data().conversations == old(self).data().conversations,
            final(self).data().feedback_messages == old(self).data().feedback_messages,
            r.0.is_none() ==> final(self).data() == old(self).data(),
            old(self).data().wf() ==> final(self).data().wf(),
    {
        let taken = self.data.claim_reminder_at(reminder_id, now);
        let persist = taken.is_some() && self.auto_save;
        (taken, persist)
    }

    /// Releases the claim on a reminder whose delivery failed: a stored
    /// reminder that is marked as sent becomes unsent again, with nothing
    /// else of it changed, so that the next sweep hands it out once more.
    /// The first part of the result says whether a mark was taken back; if
    /// none was, nothing changes and no write is asked for.
    pub fn release_reminder(&mut self, reminder_id: &str) -> (r: (bool, bool))
        ensures
            r.0 == match old(self).data().reminders.value(reminder_id@) {
                Some(x) => x.is_sent,
                None => false,
            },
            r.1 == (r.0 && old(self).auto_save()),
            final(self).same_setup(old(self)),
            final(self).data().reminders.entries() == released(
                old(self).data().reminders.entries(),
                reminder_id@,
            ),
            final(self).data().button_messages == old(self).data().button_messages,
            final(self).data().conversations == old(self).data().conversations,
            final(self).data().feedback_messages == old(self).data().feedback_messages,
            !r.0 ==> final(self).data() == old(self).data(),
            old(self).data().wf() ==> final(self).data().wf(),
    {
        let taken_back = self.data.release_reminder(reminder_id);
        (taken_back, taken_back && self.auto_save)
    }

    /// One sweep at `now`: every unsent, due reminder with a destination is
    /// marked as sent and handed out, as it was, in stored order. The second
    /// part of the result says whether the aggregate is to be written now.
    pub fn sweep_at(&mut self, now: Timestamp) -> (r: (Vec<Reminder>, bool))
        ensures
            r.1 == (r.0@.len() > 0 && old(self).auto_save()),
            final(self).same_setup(old(self)),
            r.0@ == claimable_of(
                old(self).data().reminders.entries(),
                now,
                old(self).data().reminders.entries().len() as int,
            ),
            final(self).data().reminders.entries() == swept(
                old(self).data().reminders.entries(),
                now,
            ),
            final(self).data().button_messages == old(self).data().button_messages,
            final(self).data().conversations == old(self).data().conversations,
            final(self).data().feedback_messages == old(self).data().feedback_messages,
            old(self).data().wf() ==> final(self).data().wf(),
    {
        let due = self.data.claim_due_reminders_at(now);
        let persist = due.len() > 0 && self.auto_save;
        (due, persist)
    }

    /// One sweep now.
    pub fn sweep(&mut self) -> (r: (Vec<Reminder>, bool))
        ensures
            r.1 == (r.0@.len() > 0 && old(self).auto_save()),
            final(self).same_setup(old(self)),
            exists|now: Timestamp|
                r.0@ == #[trigger] claimable_of(
                    old(self).data().reminders.entries(),
                    now,
                    old(self).data().reminders.entries().len() as int,
                ) && final(self).data().reminders.entries() == swept(
                    old(self).data().reminders.entries(),
                    now,
                ),
            final(self).data().button_messages == old(self).data().button_messages,
            final(self).data().conversations == old(self).data().conversations,
            final(self).data().feedback_messages == old(self).data().feedback_messages,
            old(self).data().wf() ==> final(self).data().wf(),
    {
        self.sweep_at(now())
    }

    /// Drops the sent reminders not created within the last `days` days.
    pub fn clean_old_reminders(&mut self, days: i64) -> (persist: bool)
        ensures
            persist == old(self).auto_save(),
            final(self).same_setup(old(self)),
            exists|now: Timestamp|
                final(self).data().reminders.entries() == selected(
                    old(self).data().reminders.entries(),
                    #[trigger] live_reminders(
                        old(self).data().reminders.entries(),
                        now,
                        days as int,
                    ),
                    old(self).data().reminders.entries().len() as int,
                ),
            final(self).data().button_messages == old(self).data().button_messages,
            final(self).data().conversations == old(self).data().conversations,
            final(self).data().feedback_messages == old(self).data().feedback_messages,
            old(self).data().wf() ==> final(self).data().wf(),
    {
        let at = now();
        self.data.clean_old_reminders_at(days, at);
        proof {
            assert(self.data.reminders.entries() == selected(
                old(self).data().reminders.entries(),
                live_reminders(old(self).data().reminders.entries(), at, days as int),
                old(self).data().reminders.entries().len() as int,
            ));
        }
        self.auto_save
    }

    /// Stores a feedback entry under its message id.
    pub fn add_feedback_message(&mut self, feedback_message: FeedbackMessage) -> (persist: bool)
        ensures
            persist == old(self).auto_save(),
            final(self).same_setup(old(self)),
            final(self).data().feedback_messages.entries() == put(
                old(self).data().feedback_messages.entries(),
                feedback_message.message_id@,
                feedback_message,
            ),
            final(self).data().button_messages == old(self).data().button_messages,
            final(self).data().conversations == old(self).data().conversations,
            final(self).data().reminders == old(self).data().reminders,
            old(self).data().wf() ==> final(self).data().wf(),
    {
        let message_id = feedback_message.message_id.clone();
        self.data.add_feedback_message(message_id, feedback_message);
        self.auto_save
    }

    /// A copy of the feedback entry of a card.
    pub fn get_feedback_message(&self, message_id: &str) -> (r: Option<FeedbackMessage>)
        ensures
            r == self.data().feedback_messages.value(message_id@),
    {
        match self.data.get_feedback_message(message_id) {
            Some(x) => Some(x.clone()),
            None => None,
        }
    }

    /// Replaces the feedback entry stored under the entry's message id.
    pub fn update_feedback_message(&mut self, feedback_message: FeedbackMessage) -> (persist: bool)
        ensures
            persist == old(self).auto_save(),
            final(self).same_setup(old(self)),
            final(self).data().feedback_messages.entries() == put(
                old(self).data().feedback_messages.entries(),
                feedback_message.message_id@,
                feedback_message,
            ),
            final(self).data().button_messages == old(self).data().button_messages,
            final(self).data().conversations == old(self).data().conversations,
            final(self).data().reminders == old(self).data().reminders,
            old(self).data().wf() ==> final(self).data().wf(),
    {
        self.add_feedback_message(feedback_message)
    }

    /// Removes a feedback entry. An unknown id changes nothing and asks for
    /// no write.
    pub fn remove_feedback_message(&mut self, message_id: &str) -> (r: (
        Option<FeedbackMessage>,
        bool,
    ))
        ensures
            r.1 == (r.0.is_some() && old(self).auto_save()),
            r.0.is_none() ==> final(self).data() == old(self).data(),
            final(self).same_setup(old(self)),
            r.0 == old(self).data().feedback_messages.value(message_id@),
            final(self).data().feedback_messages.entries() == without(
                old(self).data().feedback_messages.entries(),
                message_id@,
            ),
            r.0.is_none() ==>
                final(self).data().feedback_messages.entries() ==
                    old(self).data().feedback_messages.entries(),
            final(self).data().button_messages == old(self).data().button_messages,
            final(self).data().conversations == old(self).data().conversations,
            final(self).data().reminders == old(self).data().reminders,
            old(self).data().wf() ==> final(self).data().wf(),
    {
        let removed = self.data.remove_feedback_message(message_id);
        let persist = removed.is_some() && self.auto_save;
        (removed, persist)
    }

    /// Keeps the newest `max_messages` feedback entries.
    pub fn clean_old_feedback_messages(&mut self, max_messages: usize) -> (persist: bool)
        ensures
            persist == old(self).auto_save(),
            final(self).same_setup(old(self)),
            final(self).data().feedback_messages.entries() == trimmed(
                old(self).data().feedback_messages.entries(),
                max_messages as int,
            ),
            final(self).data().button_messages == old(self).data().button_messages,
            final(self).data().conversations == old(self).data().conversations,
            final(self).data().reminders == old(self).data().reminders,
            old(self).data().wf() ==> final(self).data().wf(),
    {
        self.data.clean_old_feedback_messages(max_messages);
        self.auto_save
    }

    /// The directory of the durable files.
    pub fn get_data_dir(&self) -> (r: &str)
        ensures
            r@ == self.data_dir(),
    {
        self.data_dir.as_str()
    }

    /// Replaces the whole aggregate by an imported one.
    pub fn import_data(&mut self, imported: BotData) -> (persist: bool)
        ensures
            persist == old(self).auto_save(),
            final(self).same_setup(old(self)),
            final(self).data() == imported,
    {
        self.data = imported;
        self.auto_save
    }

    /// Counts over the aggregate. The number of messages stops at the
    /// largest number a count can hold.
    pub fn get_stats(&self) -> (r: DataStats)
        ensures
            r.button_messages_count == self.data().button_messages.entries().len(),
            r.conversations_count == self.data().conversations.entries().len(),
            r.last_updated == self.data().last_updated,
            r.total_messages == if message_total(
                self.data().conversations.entries(),
                self.data().conversations.entries().len() as int,
            ) <= usize::MAX {
                message_total(
                    self.data().conversations.entries(),
                    self.data().conversations.entries().len() as int,
                )
            } else {
                usize::MAX as nat
            },
    {
        let n = self.data.conversations.len();
        let mut total: usize = 0;
        let mut i: usize = 0;
        while i < n
            invariant
                i <= n,
                n == self.data.conversations.entries().len(),
                total == if message_total(self.data.conversations.entries(), i as int)
                    <= usize::MAX {
                    message_total(self.data.conversations.entries(), i as int)
                } else {
                    usize::MAX as nat
                },
            decreases n - i,
        {
            let count = self.data.conversations.value_at(i).message_count();
            total = if total > usize::MAX - count {
                usize::MAX
            } else {
                total + count
            };
            i += 1;
        }
        DataStats {
            button_messages_count: self.data.button_messages.len(),
            conversations_count: n,
            total_messages: total,
            last_updated: self.data.last_updated,
        }
    }

    /// The placeholder name for a user id.
    pub fn placeholder_for(user_id: &str) -> (r: String)
        ensures
            r@ == placeholder_name(user_id@),
    {
        let mut out = chars_of("User_");
        push_text(&mut out, take_bytes(user_id, 8).as_str());
        string_of(&out)
    }

    /// Gives every conversation without a display name the placeholder for
    /// its id. The result says whether the aggregate is to be written now:
    /// only if something was changed.
    pub fn migrate_data_if_needed(&mut self) -> (persist: bool)
        ensures
            persist ==
                (needs_migration(old(self).data().conversations.entries()) && old(self).auto_save()),
            final(self).same_setup(old(self)),
            is_migration(
                old(self).data().conversations.entries(),
                final(self).data().conversations.entries(),
            ),
            !needs_migration(old(self).data().conversations.entries()) ==> final(self).data()
                == old(self).data(),
            final(self).data().button_messages == old(self).data().button_messages,
            final(self).data().reminders == old(self).data().reminders,
            final(self).data().feedback_messages == old(self).data().feedback_messages,
    {
        let ghost before = self.data.conversations.entries();
        let n = self.data.conversations.len();
        let mut needed = false;
        let mut i: usize = 0;
        while i < n
            invariant
                i <= n,
                n == before.len(),
                before == self.data.conversations.entries(),
                needed == exists|j: int|
                    0 <= j < i && (#[trigger] before[j]).1.user_name@.len() == 0,
            decreases n - i,
        {
            if self.data.conversations.value_at(i).user_name.as_str().is_empty() {
                needed = true;
            }
            i += 1;
        }
        if !needed {
            return false;
        }
        let mut i: usize = 0;
        while i < n
            invariant
                i <= n,
                n == before.len(),
                self.data.conversations.entries().len() == n,
                forall|j: int|
                    0 <= j < i ==> if (#[trigger] before[j]).1.user_name@.len() == 0 {
                        let after = self.data.conversations.entries();
                        &&& after[j].0 == before[j].0
                        &&& after[j].1.user_name@ == placeholder_name(before[j].0)
                        &&& after[j].1 == (ConversationContext {
                            user_name: after[j].1.user_name,
                            ..before[j].1
                        })
                    } else {
                        self.data.conversations.entries()[j] == before[j]
                    },
                forall|j: int| i <= j < n ==> self.data.conversations.entries()[j] == before[j],
                self.data.button_messages == old(self).data.button_messages,
                self.data.reminders == old(self).data.reminders,
                self.data.feedback_messages == old(self).data.feedback_messages,
                self.auto_save == old(self).auto_save,
                self.data_dir == old(self).data_dir,
            decreases n - i,
        {
            if self.data.conversations.value_at(i).user_name.as_str().is_empty() {
                let name = Self::placeholder_for(self.data.conversations.key_at(i).as_str());
                let context = self.data.conversations.value_at_mut(i);
                context.user_name = name;
            }
            i += 1;
        }
        self.data.last_updated = now();
        self.auto_save
    }

    /// Counts one message of a user. The first part of the result says
    /// whether a summary analysis is due; without a context for the user it
    /// is not. The second part says whether the aggregate is to be written
    /// now.
    pub fn increment_message_counter_and_check(&mut self, user_id: &str) -> (r: (bool, bool))
        ensures
            r.1 == old(self).auto_save(),
            final(self).same_setup(old(self)),
            match old(self).data().conversations.value(user_id@) {
                Some(before) => r.0 == (before.message_count_for_summary + 1 >= SUMMARY_TRIGGER)
                    && match final(self).data().conversations.value(user_id@) {
                    Some(c) => c.message_count_for_summary == counter_after(
                        before.message_count_for_summary as int,
                    ) && c == (ConversationContext {
                        message_count_for_summary: c.message_count_for_summary,
                        last_updated: c.last_updated,
                        ..before
                    }) && final(self).data().conversations.entries() == put(
                        old(self).data().conversations.entries(),
                        user_id@,
                        c,
                    ),
                    None => false,
                },
                None => !r.0
                    && final(self).data().conversations.entries() ==
                        old(self).data().conversations.entries(),
            },
            final(self).data().button_messages == old(self).data().button_messages,
            final(self).data().reminders == old(self).data().reminders,
            final(self).data().feedback_messages == old(self).data().feedback_messages,
    {
        let ghost before = self.data.conversations.entries();
        let mut should_analyze = false;
        match self.data.get_conversation_context_mut(user_id) {
            Some(context) => {
                should_analyze = context.increment_message_counter();
            },
            None => {},
        }
        self.data.last_updated = now();
        proof {
            let after = self.data.conversations.entries();
            lemma_key_index(before, user_id@, 0);
            match key_index(before, user_id@, 0) {
                Some(i) => {
                    lemma_key_index_is(after, user_id@, 0, i);
                },
                None => {},
            }
        }
        (should_analyze, self.auto_save)
    }

    /// The channels of the tickets that a user created, in stored order.
    pub fn get_user_active_tickets(&self, user_id: &str) -> (r: Vec<String>)
        ensures
            Seq::new(r@.len(), |i: int| r@[i]@) == tickets_of(
                self.data().button_messages.entries(),
                user_id@,
                self.data().button_messages.entries().len() as int,
            ),
    {
        let n = self.data.button_messages.len();
        let mut out: Vec<String> = Vec::new();
        let mut i: usize = 0;
        while i < n
            invariant
                i <= n,
                n == self.data.button_messages.entries().len(),
                Seq::new(out@.len(), |k: int| out@[k]@) == tickets_of(
                    self.data.button_messages.entries(),
                    user_id@,
                    i as int,
                ),
            decreases n - i,
        {
            let record = self.data.button_messages.value_at(i);
            let ghost before = out@;
            let mine = matches!(record.message_type, MessageType::Ticket)
                && match record.get_metadata("creator_id") {
                Some(creator) => str_eq(creator.as_str(), user_id),
                None => false,
            };
            if mine {
                out.push(record.channel_id.clone());
                proof {
                    assert(Seq::new(out@.len(), |k: int| out@[k]@) =~= Seq::new(
                        before.len(),
                        |k: int| before[k]@,
                    ).push(record.channel_id@));
                }
            }
            i += 1;
        }
        out
    }

    /// Whether a channel belongs to a ticket.
    pub fn is_ticket_channel(&self, channel_id: &str) -> (r: bool)
        ensures
            r == has_ticket_in(self.data().button_messages.entries(), channel_id@),
    {
        let n = self.data.button_messages.len();
        let mut i: usize = 0;
        while i < n
            invariant
                i <= n,
                n == self.data.button_messages.entries().len(),
                forall|j: int|
                    0 <= j < i ==> !is_ticket_in(
                        (#[trigger] self.data.button_messages.entries()[j]).1,
                        channel_id@,
                    ),
            decreases n - i,
        {
            let record = self.data.button_messages.value_at(i);
            if matches!(record.message_type, MessageType::Ticket) && str_eq(
                record.channel_id.as_str(),
                channel_id,
            ) {
                return true;
            }
            i += 1;
        }
        false
    }

    /// Whether a user created the ticket of a channel: decided by the first
    /// ticket record of the channel that names a creator.
    pub fn is_ticket_creator(&self, channel_id: &str, user_id: &str) -> (r: bool)
        ensures
            r == match ticket_creator(self.data().button_messages.entries(), channel_id@, 0) {
                Some(c) => c@ == user_id@,
                None => false,
            },
    {
        let n = self.data.button_messages.len();
        let mut i: usize = 0;
        while i < n
            invariant
                i <= n,
                n == self.data.button_messages.entries().len(),
                ticket_creator(self.data.button_messages.entries(), channel_id@, 0)
                    == ticket_creator(self.data.button_messages.entries(), channel_id@, i as int),
            decreases n - i,
        {
            let record = self.data.button_messages.value_at(i);
            if matches!(record.message_type, MessageType::Ticket) && str_eq(
                record.channel_id.as_str(),
                channel_id,
            ) {
                match record.get_metadata("creator_id") {
                    Some(creator) => {
                        return str_eq(creator.as_str(), user_id);
                    },
                    None => {},
                }
            }
            i += 1;
        }
        false
    }

    /// Removes every ticket record of a channel.
    pub fn cleanup_ticket_data(&mut self, channel_id: &str) -> (persist: bool)
        ensures
            persist == old(self).auto_save(),
            final(self).same_setup(old(self)),
            final(self).data().button_messages.entries() == selected(
                old(self).data().button_messages.entries(),
                outside_ticket(old(self).data().button_messages.entries(), channel_id@),
                old(self).data().button_messages.entries().len() as int,
            ),
            final(self).data().conversations == old(self).data().conversations,
            final(self).data().reminders == old(self).data().reminders,
            final(self).data().feedback_messages == old(self).data().feedback_messages,
            old(self).data().wf() ==> final(self).data().wf(),
    {
        let n = self.data.button_messages.len();
        let mut marks: Vec<bool> = Vec::new();
        let mut i: usize = 0;
        while i < n
            invariant
                i <= n,
                n == self.data.button_messages.entries().len(),
                marks.len() == i,
                forall|j: int|
                    0 <= j < i ==> marks[j] == !is_ticket_in(
                        self.data.button_messages.entries()[j].1,
                        channel_id@,
                    ),
            decreases n - i,
        {
            let record = self.data.button_messages.value_at(i);
            let hit = matches!(record.message_type, MessageType::Ticket) && str_eq(
                record.channel_id.as_str(),
                channel_id,
            );
            marks.push(!hit);
            i += 1;
        }
        proof {
            assert(marks@ =~= outside_ticket(self.data.button_messages.entries(), channel_id@));
            if self.data.wf() {
                lemma_selected_distinct(self.data.button_messages.entries(), marks@, n as int);
            }
        }
        self.data.button_messages.retain_marked(&marks);
        self.data.last_updated = now();
        self.auto_save
    }
}

} // verus!
