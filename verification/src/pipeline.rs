//! The orchestrator: a per-message state machine.  Each inbound message is
//! driven through acquisition, extraction, matching, deletion, audit logging
//! and enforcement; the caller performs one remote operation per step and
//! hands back its outcome as an event.  A permission-denied outcome never
//! aborts the pipeline: a best-effort fallback notice is issued and the run
//! continues; any other failure ends the run for that message alone.

use vstd::prelude::*;

use crate::chat::ChatInfo;
use crate::config::{Action, Config};
use crate::matching::{is_scam, scam_text};
use crate::text::{lower_of, lowercase};

verus! {

/// Notice sent into the chat when the offending message cannot be deleted.
pub const DELETE_FALLBACK_TEXT: &'static str = "I can't delete this photo\nI don't have enough rights.";

/// Notice sent to the audit-log destination after a removal.
pub const LOG_NOTICE_TEXT: &'static str = "Removed scam from group";

/// Notice sent into the chat when the log notice could not be delivered.
pub const NOTIFY_FALLBACK_TEXT: &'static str = "I can't write to the log destination\nI don't have enough rights.";

/// Notice sent into the chat when the sender could not be kicked.
pub const KICK_FALLBACK_TEXT: &'static str = "I can't kick the user\nI don't have enough rights.";

/// Notice sent into the chat when the sender could not be banned.
pub const BAN_FALLBACK_TEXT: &'static str = "I can't ban the user\nI don't have enough rights.";

/// What the pipeline reads of an inbound message: where it was posted, who
/// sent it, and the platform file ids of the attached photo's renditions
/// (the last one, the largest, is the one fetched).
#[derive(Debug, Clone, PartialEq, Eq)]
pub struct MessageInfo {
    /// The chat the message was posted in.
    pub chat: ChatInfo,
    /// The platform id of the sender, the target of enforcement.
    pub sender_id: i64,
    /// File ids of the attached photo, smallest rendition first; empty when
    /// the message carries no photo.
    pub photo_file_ids: Vec<String>,
}

/// One remote operation the caller must perform against the platform or the
/// recognizer before stepping the machine again.
#[derive(Debug, Clone, PartialEq, Eq)]
pub enum RemoteOp {
    /// Fetch the image bytes for `file_id` into transient storage.
    AcquireImage { file_id: String },
    /// Run the external recognizer on the acquired image and hand back its
    /// text in a `TextReady` event.
    ExtractText,
    /// Delete the offending message.
    DeleteMessage,
    /// Send `text` into chat `chat_id`.
    SendMessage { chat_id: i64, text: String },
    /// Lift the sender's restriction, realizing a kick-and-rejoin.
    UnbanMember { chat_id: i64, user_id: i64 },
    /// Remove the sender permanently.
    KickMember { chat_id: i64, user_id: i64 },
}

/// The outcome of the previous remote operation.
#[derive(Debug, Clone, PartialEq, Eq)]
pub enum Event {
    /// The operation succeeded.
    Succeeded,
    /// The recognizer produced `text` for the acquired image.
    TextReady { text: String },
    /// The platform refused the operation for lack of permission.
    PermissionDenied,
    /// The operation failed for any other reason.
    Failed,
}

/// Where a message's run stands; `Done` is terminal.
#[derive(Debug, Clone, Copy, PartialEq, Eq, Structural)]
pub enum State {
    /// Waiting for the image bytes to be fetched.
    Acquiring,
    /// Waiting for the recognizer's text.
    Extracting,
    /// Waiting for the outcome of deleting the message.
    Deleting,
    /// Waiting for the best-effort notice that deletion was refused.
    DeleteFallback,
    /// Waiting for the outcome of the audit-log notice.
    Notifying,
    /// Waiting for the best-effort notice that logging was refused.
    NotifyFallback,
    /// Waiting for the outcome of the kick or ban.
    Enforcing,
    /// Waiting for the best-effort notice that enforcement was refused.
    EnforceFallback,
    /// The run is over; no further operation is ever issued.
    Done,
}

/// `op` is a send of exactly `text` into chat `chat_id`.
pub open spec fn op_is_send_to(op: Option<RemoteOp>, chat_id: i64, text: Seq<char>) -> bool {
    match op {
        Some(RemoteOp::SendMessage { chat_id: c, text: t }) => c == chat_id && t@ == text,
        _ => false,
    }
}

/// What the machine does on entering the enforcement stage: the resolved
/// action decides between lifting the restriction, removing permanently,
/// and ending the run with no disciplinary operation at all.
pub open spec fn spec_enforce_entry(config: Config, msg: MessageInfo, r: (State, Option<RemoteOp>)) -> bool {
    match config.spec_resolve(msg.chat) {
        Action::Kick => r.0 == State::Enforcing && r.1 == Some(RemoteOp::UnbanMember { chat_id: msg.chat.id, user_id: msg.sender_id }),
        Action::Ban => r.0 == State::Enforcing && r.1 == Some(RemoteOp::KickMember { chat_id: msg.chat.id, user_id: msg.sender_id }),
        Action::Ignore => r == (State::Done, None::<RemoteOp>),
    }
}

/// What the machine does once deletion is dealt with: notify the audit-log
/// destination where one is configured, else go straight to enforcement.
pub open spec fn spec_notify_entry(config: Config, msg: MessageInfo, r: (State, Option<RemoteOp>)) -> bool {
    match config.spec_chat_lookup(msg.chat) {
        Some((Some(log_id), _act)) => r.0 == State::Notifying && op_is_send_to(r.1, log_id, LOG_NOTICE_TEXT@),
        Some((None, _act)) => spec_enforce_entry(config, msg, r),
        None => true,
    }
}

/// How a message's run begins: a chat the policy does not list, or a message
/// without a photo, ends at once with no remote operation; otherwise the
/// largest rendition of the photo is fetched.
pub open spec fn spec_start(config: Config, msg: MessageInfo) -> (State, Option<RemoteOp>) {
    if !config.spec_is_legit(msg.chat) || msg.photo_file_ids@.len() == 0 {
        (State::Done, None)
    } else {
        (State::Acquiring, Some(RemoteOp::AcquireImage { file_id: msg.photo_file_ids@.last() }))
    }
}

/// Begins the run for one inbound message.
pub fn start(config: &Config, msg: &MessageInfo) -> (r: (State, Option<RemoteOp>))
    ensures
        r == spec_start(*config, *msg),
{
    if msg.chat.is_channel() || msg.chat.is_private() || !config.is_chat_legit(&msg.chat) {
        return (State::Done, None);
    }
    if msg.photo_file_ids.len() == 0 {
        return (State::Done, None);
    }
    let file_id = msg.photo_file_ids[msg.photo_file_ids.len() - 1].clone();
    (State::Acquiring, Some(RemoteOp::AcquireImage { file_id }))
}

fn enforce_entry(config: &Config, msg: &MessageInfo) -> (r: (State, Option<RemoteOp>))
    requires
        config.spec_chat_lookup(msg.chat) is Some,
    ensures
        spec_enforce_entry(*config, *msg, r),
{
    match config.resolve(&msg.chat) {
        Action::Kick => (
            State::Enforcing,
            Some(RemoteOp::UnbanMember { chat_id: msg.chat.id, user_id: msg.sender_id }),
        ),
        Action::Ban => (
            State::Enforcing,
            Some(RemoteOp::KickMember { chat_id: msg.chat.id, user_id: msg.sender_id }),
        ),
        Action::Ignore => (State::Done, None),
    }
}

fn notify_entry(config: &Config, msg: &MessageInfo) -> (r: (State, Option<RemoteOp>))
    requires
        config.spec_chat_lookup(msg.chat) is Some,
    ensures
        spec_notify_entry(*config, *msg, r),
{
    match config.get_log_id(&msg.chat) {
        Some(log_id) => (
            State::Notifying,
            Some(RemoteOp::SendMessage { chat_id: log_id, text: String::from_str(LOG_NOTICE_TEXT) }),
        ),
        None => enforce_entry(config, msg),
    }
}

/// Advances the run by one step: `ev` is the outcome of the operation the
/// previous step issued.  Fallback notices are best-effort: whatever their
/// outcome, the run continues.  Unexpected events end the run.
pub fn step(config: &Config, msg: &MessageInfo, st: State, ev: Event) -> (r: (State, Option<RemoteOp>))
    requires
        st == State::Done || config.spec_chat_lookup(msg.chat) is Some,
    ensures
        st == State::Done ==> r == (State::Done, None::<RemoteOp>),
        st == State::Acquiring ==> if ev == Event::Succeeded {
            r == (State::Extracting, Some(RemoteOp::ExtractText))
        } else {
            r == (State::Done, None::<RemoteOp>)
        },
        st == State::Extracting ==> match ev {
            Event::TextReady { text } => if scam_text(
                lower_of(text@),
                config.keywords_groups.deep_view(),
            ) {
                r == (State::Deleting, Some(RemoteOp::DeleteMessage))
            } else {
                r == (State::Done, None::<RemoteOp>)
            },
            _ => r == (State::Done, None::<RemoteOp>),
        },
        st == State::Deleting ==> match ev {
            Event::Succeeded => spec_notify_entry(*config, *msg, r),
            Event::PermissionDenied => r.0 == State::DeleteFallback && op_is_send_to(
                r.1,
                msg.chat.id,
                DELETE_FALLBACK_TEXT@,
            ),
            _ => r == (State::Done, None::<RemoteOp>),
        },
        st == State::DeleteFallback ==> spec_notify_entry(*config, *msg, r),
        st == State::Notifying ==> match ev {
            Event::Succeeded => spec_enforce_entry(*config, *msg, r),
            Event::PermissionDenied => r.0 == State::NotifyFallback && op_is_send_to(
                r.1,
                msg.chat.id,
                NOTIFY_FALLBACK_TEXT@,
            ),
            _ => r == (State::Done, None::<RemoteOp>),
        },
        st == State::NotifyFallback ==> spec_enforce_entry(*config, *msg, r),
        st == State::Enforcing ==> match ev {
            Event::PermissionDenied => match config.spec_resolve(msg.chat) {
                Action::Kick => r.0 == State::EnforceFallback && op_is_send_to(
                    r.1,
                    msg.chat.id,
                    KICK_FALLBACK_TEXT@,
                ),
                Action::Ban => r.0 == State::EnforceFallback && op_is_send_to(
                    r.1,
                    msg.chat.id,
                    BAN_FALLBACK_TEXT@,
                ),
                Action::Ignore => r == (State::Done, None::<RemoteOp>),
            },
            _ => r == (State::Done, None::<RemoteOp>),
        },
        st == State::EnforceFallback ==> r == (State::Done, None::<RemoteOp>),
{
    match st {
        State::Done => (State::Done, None),
        State::Acquiring => match ev {
            Event::Succeeded => (State::Extracting, Some(RemoteOp::ExtractText)),
            _ => (State::Done, None),
        },
        State::Extracting => match ev {
            Event::TextReady { text } => {
                let low = lowercase(text.as_str());
                if is_scam(low.as_str(), &config.keywords_groups) {
                    (State::Deleting, Some(RemoteOp::DeleteMessage))
                } else {
                    (State::Done, None)
                }
            },
            _ => (State::Done, None),
        },
        State::Deleting => match ev {
            Event::Succeeded => notify_entry(config, msg),
            Event::PermissionDenied => (
                State::DeleteFallback,
                Some(RemoteOp::SendMessage {
                    chat_id: msg.chat.id,
                    text: String::from_str(DELETE_FALLBACK_TEXT),
                }),
            ),
            _ => (State::Done, None),
        },
        State::DeleteFallback => notify_entry(config, msg),
        State::Notifying => match ev {
            Event::Succeeded => enforce_entry(config, msg),
            Event::PermissionDenied => (
                State::NotifyFallback,
                Some(RemoteOp::SendMessage {
                    chat_id: msg.chat.id,
                    text: String::from_str(NOTIFY_FALLBACK_TEXT),
                }),
            ),
            _ => (State::Done, None),
        },
        State::NotifyFallback => enforce_entry(config, msg),
        State::Enforcing => match ev {
            Event::PermissionDenied => match config.resolve(&msg.chat) {
                Action::Kick => (
                    State::EnforceFallback,
                    Some(RemoteOp::SendMessage {
                        chat_id: msg.chat.id,
                        text: String::from_str(KICK_FALLBACK_TEXT),
                    }),
                ),
                Action::Ban => (
                    State::EnforceFallback,
                    Some(RemoteOp::SendMessage {
                        chat_id: msg.chat.id,
                        text: String::from_str(BAN_FALLBACK_TEXT),
                    }),
                ),
                Action::Ignore => (State::Done, None),
            },
            _ => (State::Done, None),
        },
        State::EnforceFallback => (State::Done, None),
    }
}

/// A chat that the policy does not list is not legitimate, and the run for
/// its message ends at once without a single remote operation.
pub proof fn lemma_unknown_chat_ignored(config: Config, msg: MessageInfo)
    requires
        config.spec_chat_lookup(msg.chat) is None,
    ensures
        !config.spec_is_legit(msg.chat),
        spec_start(config, msg) == (State::Done, None::<RemoteOp>),
{
}

} // verus!
