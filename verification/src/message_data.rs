//! Records of messages that carry interactive controls.
use vstd::prelude::*;
use crate::store::{lemma_put, put, KeyedStore, StringMap};
use crate::time::{now, Timestamp};

verus! {

/// What kind of flow a message with controls belongs to.
#[derive(Debug, Clone, Copy, PartialEq, Eq, Structural)]
pub enum MessageType {
    Ticket,
    Commission,
    Feedback,
    General,
}

/// The two feedback reactions.
#[derive(Debug, Clone, Copy, PartialEq, Eq, Structural)]
pub enum FeedbackReactionType {
    Upvote,
    Downvote,
}

/// What activating a control does.
#[derive(Debug)]
pub enum ButtonAction {
    CreateTicket { channel_id: String, user_id: String },
    CloseTicket { ticket_channel_id: String, creator_id: String },
    CreateCommission { channel_id: String, user_id: String },
    CloseCommission { commission_channel_id: String, creator_id: String },
    FeedbackReaction { reaction_type: FeedbackReactionType, original_user_id: String },
    Custom { action_name: String, parameters: StringMap },
}

/// Two actions say the same: the same variant with the same fields, the
/// parameters of a custom action entry for entry.
pub open spec fn same_action(a: ButtonAction, b: ButtonAction) -> bool {
    match (a, b) {
        (
            ButtonAction::Custom { action_name: n1, parameters: p1 },
            ButtonAction::Custom { action_name: n2, parameters: p2 },
        ) => n1 == n2 && p1.entries() == p2.entries(),
        (ButtonAction::Custom { .. }, _) => false,
        (_, ButtonAction::Custom { .. }) => false,
        _ => a == b,
    }
}

impl Clone for ButtonAction {
    fn clone(&self) -> (r: Self)
        ensures
            same_action(*self, r),
    {
        match self {
            ButtonAction::CreateTicket { channel_id, user_id } => ButtonAction::CreateTicket {
                channel_id: channel_id.clone(),
                user_id: user_id.clone(),
            },
            ButtonAction::CloseTicket { ticket_channel_id, creator_id } => ButtonAction::CloseTicket {
                ticket_channel_id: ticket_channel_id.clone(),
                creator_id: creator_id.clone(),
            },
            ButtonAction::CreateCommission {
                channel_id,
                user_id,
            } => ButtonAction::CreateCommission {
                channel_id: channel_id.clone(),
                user_id: user_id.clone(),
            },
            ButtonAction::CloseCommission {
                commission_channel_id,
                creator_id,
            } => ButtonAction::CloseCommission {
                commission_channel_id: commission_channel_id.clone(),
                creator_id: creator_id.clone(),
            },
            ButtonAction::FeedbackReaction {
                reaction_type,
                original_user_id,
            } => ButtonAction::FeedbackReaction {
                reaction_type: *reaction_type,
                original_user_id: original_user_id.clone(),
            },
            ButtonAction::Custom { action_name, parameters } => ButtonAction::Custom {
                action_name: action_name.clone(),
                parameters: parameters.duplicate(),
            },
        }
    }
}

/// What is stored for a message with controls.
///
/// The metadata is a small map from text to text. The keys in use are
/// `creator_id` and `ticket_id` on the records of a ticket, and
/// `commission_creator` and `commission_creator_name` on those of a
/// commission; any other key is kept as it is and never read here.
#[derive(Debug)]
pub struct ButtonMessageData {
    pub message_id: String,
    pub channel_id: String,
    pub message_type: MessageType,
    pub button_actions: KeyedStore<ButtonAction>,
    pub created_at: Timestamp,
    pub metadata: StringMap,
}

/// Two records say the same: equal fields, the maps entry for entry.
pub open spec fn same_record(a: ButtonMessageData, b: ButtonMessageData) -> bool {
    &&& a.message_id == b.message_id
    &&& a.channel_id == b.channel_id
    &&& a.message_type == b.message_type
    &&& a.created_at == b.created_at
    &&& a.metadata.entries() == b.metadata.entries()
    &&& a.button_actions.entries().len() == b.button_actions.entries().len()
    &&& forall|i: int|
        0 <= i < a.button_actions.entries().len() ==> a.button_actions.entries()[i].0
            == b.button_actions.entries()[i].0 && same_action(
            a.button_actions.entries()[i].1,
            b.button_actions.entries()[i].1,
        )
}

impl ButtonMessageData {
    /// A record created at `created_at`, without actions or metadata.
    pub fn new_at(
        message_id: String,
        channel_id: String,
        message_type: MessageType,
        created_at: Timestamp,
    ) -> (r: Self)
        ensures
            r.message_id == message_id,
            r.channel_id == channel_id,
            r.message_type == message_type,
            r.created_at == created_at,
            r.button_actions.entries().len() == 0,
            r.metadata.entries().len() == 0,
            r.wf(),
    {
        ButtonMessageData {
            message_id,
            channel_id,
            message_type,
            button_actions: KeyedStore::new(),
            created_at,
            metadata: StringMap::new(),
        }
    }

    /// A record created now, without actions or metadata.
    pub fn new(message_id: String, channel_id: String, message_type: MessageType) -> (r: Self)
        ensures
            r.message_id == message_id,
            r.channel_id == channel_id,
            r.message_type == message_type,
            r.button_actions.entries().len() == 0,
            r.metadata.entries().len() == 0,
            r.wf(),
    {
        Self::new_at(message_id, channel_id, message_type, now())
    }

    /// Each control id has one action and each metadata key one value.
    pub open spec fn wf(&self) -> bool {
        self.button_actions.wf() && self.metadata.wf()
    }

    /// Binds a control id to an action, replacing an earlier binding.
    pub fn add_button_action(&mut self, custom_id: String, action: ButtonAction)
        ensures
            final(self).button_actions.entries() == put(
                old(self).button_actions.entries(),
                custom_id@,
                action,
            ),
            *final(self) == (ButtonMessageData {
                button_actions: final(self).button_actions,
                ..*old(self)
            }),
            old(self).wf() ==> final(self).wf(),
    {
        proof {
            if self.wf() {
                lemma_put(self.button_actions.entries(), custom_id@, action);
            }
        }
        self.button_actions.insert(custom_id, action);
    }

    /// The action bound to a control id.
    pub fn get_button_action(&self, custom_id: &str) -> (r: Option<&ButtonAction>)
        ensures
            match r {
                Some(a) => self.button_actions.value(custom_id@) == Some(*a),
                None => self.button_actions.value(custom_id@).is_none(),
            },
    {
        self.button_actions.get(custom_id)
    }

    /// Stores a metadata value, replacing an earlier one.
    pub fn add_metadata(&mut self, key: String, value: String)
        ensures
            final(self).metadata.entries() == put(old(self).metadata.entries(), key@, value),
            *final(self) == (ButtonMessageData { metadata: final(self).metadata, ..*old(self) }),
            old(self).wf() ==> final(self).wf(),
    {
        proof {
            if self.wf() {
                lemma_put(self.metadata.entries(), key@, value);
            }
        }
        self.metadata.insert(key, value);
    }

    /// The metadata value under `key`.
    pub fn get_metadata(&self, key: &str) -> (r: Option<&String>)
        ensures
            match r {
                Some(v) => self.metadata.value(key@) == Some(*v),
                None => self.metadata.value(key@).is_none(),
            },
    {
        self.metadata.get(key)
    }

    /// Whether the record belongs to a ticket or a commission.
    pub fn is_ticket_message(&self) -> (r: bool)
        ensures
            r == (self.message_type == MessageType::Ticket || self.message_type
                == MessageType::Commission),
    {
        matches!(self.message_type, MessageType::Ticket | MessageType::Commission)
    }

    /// Whether the record belongs to feedback.
    pub fn is_feedback_message(&self) -> (r: bool)
        ensures
            r == (self.message_type == MessageType::Feedback),
    {
        matches!(self.message_type, MessageType::Feedback)
    }
}

impl Clone for ButtonMessageData {
    fn clone(&self) -> (r: Self)
        ensures
            same_record(*self, r),
    {
        let actions = self.button_actions.clone();
        ButtonMessageData {
            message_id: self.message_id.clone(),
            channel_id: self.channel_id.clone(),
            message_type: self.message_type,
            button_actions: actions,
            created_at: self.created_at,
            metadata: self.metadata.duplicate(),
        }
    }
}

} // verus!
