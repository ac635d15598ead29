use vstd::prelude::*;
use crate::channel::{MessageTx, SendError};
use crate::db::{Comment, MessageDb, comment_views, history, post};
use crate::message::{ChatMessageType, RoomMessage, WebSocketMessageType};

verus! {

/// What reading a client's socket gave.
#[derive(Debug)]
pub enum Incoming {
    /// A message arrived.
    Frame(WebSocketMessageType),
    /// The socket reported an error.
    Failed,
    /// The socket was closed.
    Ended,
}

/// Why a session cannot go on.
#[derive(Debug)]
pub enum SessionFault {
    /// The client sent a socket frame that carries no chat message.
    NotChatMessage,
    /// No receiver was left to broadcast the message to; the message is
    /// handed back.
    NoReceivers(WebSocketMessageType),
    /// The client sent a chat message other than a posted comment, after it
    /// had been broadcast; it cannot be stored.
    NotRoomMessage,
}

/// What the reading half of a session does after one read.
#[derive(Debug)]
pub enum InboundStep {
    /// Read the next message.
    Continue,
    /// The socket is finished with: stop reading.
    Stop,
    /// The session has failed.
    Fault(SessionFault),
}

/// Whether `step` is what the reading half does after reading `item`, given
/// the store before (`before`) and after (`after`) the read was handled.
pub open spec fn inbound_outcome(
    item: Incoming,
    step: InboundStep,
    before: Map<u128, crate::db::RoomView>,
    after: Map<u128, crate::db::RoomView>,
) -> bool {
    match item {
        Incoming::Frame(WebSocketMessageType::Message(chat)) => match step {
            InboundStep::Continue => {
                &&& chat is RoomMessage
                &&& after == post(before, chat->RoomMessage_0.room_id, chat->RoomMessage_0.comment@)
            },
            InboundStep::Fault(SessionFault::NoReceivers(m)) => {
                &&& m == WebSocketMessageType::Message(chat)
                &&& after == before
            },
            InboundStep::Fault(SessionFault::NotRoomMessage) => {
                &&& !(chat is RoomMessage)
                &&& after == before
            },
            _ => false,
        },
        Incoming::Frame(_) => step is Fault && step->Fault_0 is NotChatMessage && after == before,
        _ => step is Stop && after == before,
    }
}

/// Handles one read from a client's socket: a chat message is broadcast to
/// every session, and then, if it is a posted comment, stored in its room.
/// The session stops when the socket fails or closes, and fails on a frame
/// that carries no chat message, on a broadcast with no receiver left, and on
/// a broadcast chat message that is not a posted comment.
pub fn handle_incoming(db: &mut MessageDb, tx: &MessageTx, item: Incoming) -> (r: InboundStep)
    ensures
        inbound_outcome(item, r, old(db)@, final(db)@),
{
    match item {
        Incoming::Frame(frame) => {
            let chat = match frame {
                WebSocketMessageType::Message(chat) => chat,
                _ => {
                    return InboundStep::Fault(SessionFault::NotChatMessage);
                },
            };
            let ghost sent = chat;
            let stored = match &chat {
                ChatMessageType::RoomMessage(m) => Some(
                    RoomMessage {
                        room_id: m.room_id,
                        comment: Comment { from: m.comment.from, message: m.comment.message.clone() },
                    },
                ),
                _ => None,
            };
            assert(stored matches Some(m) ==> m.room_id == sent->RoomMessage_0.room_id
                && m.comment@ == sent->RoomMessage_0.comment@);
            let sent_result = tx.send(WebSocketMessageType::from(chat));
            after_broadcast(db, sent_result, stored)
        },
        _ => InboundStep::Stop,
    }
}

/// What a session does once a chat message was handed to the broadcast
/// channel, given what the broadcast returned (`sent`) and, where the message
/// is a posted comment, that comment (`stored`): with no receiver left it
/// fails and carries the message back; otherwise it stores a posted comment
/// in its room and goes on, and fails on any other chat message.
pub fn after_broadcast(db: &mut MessageDb, sent: Result<usize, SendError>, stored: Option<RoomMessage>) -> (r: InboundStep)
    ensures
        match sent {
            Err(e) => r == InboundStep::Fault(SessionFault::NoReceivers(e.0)) && final(db)@ == old(db)@,
            Ok(_) => match stored {
                Some(m) => r is Continue && final(db)@ == post(old(db)@, m.room_id, m.comment@),
                None => (r matches InboundStep::Fault(SessionFault::NotRoomMessage)) && final(db)@ == old(db)@,
            },
        },
{
    match sent {
        Err(e) => InboundStep::Fault(SessionFault::NoReceivers(e.0)),
        Ok(_) => match stored {
            Some(m) => {
                db.add_message(ChatMessageType::RoomMessage(m));
                InboundStep::Continue
            },
            None => InboundStep::Fault(SessionFault::NotRoomMessage),
        },
    }
}

/// Why reading the broadcast channel failed.
#[derive(Debug)]
pub enum RecvFailure {
    /// Every sender is gone.
    Closed,
    /// The receiver fell behind and this many messages were dropped for it.
    Lagged(u64),
}

/// What the writing half of a session does after one read of the broadcast
/// channel.
#[derive(Debug)]
pub enum OutboundStep {
    /// Write this message to the client's socket, then read the next one.
    Deliver(WebSocketMessageType),
    /// Stop forwarding.
    Stop,
}

/// Handles one read from the broadcast channel: a message is forwarded to
/// the client; any failure, a lag included, ends the forwarding.
pub fn handle_outgoing(item: Result<WebSocketMessageType, RecvFailure>) -> (r: OutboundStep)
    ensures
        match item {
            Ok(m) => r == OutboundStep::Deliver(m),
            Err(_) => r is Stop,
        },
{
    match item {
        Ok(msg) => OutboundStep::Deliver(msg),
        Err(_) => OutboundStep::Stop,
    }
}

/// The first message a client receives when it joins room `room_id`: the
/// room's history.
pub fn history_frame(db: &MessageDb, room_id: u128) -> (r: WebSocketMessageType)
    requires
        db@.contains_key(room_id),
    ensures
        r matches WebSocketMessageType::Message(ChatMessageType::Init(cs))
            && comment_views(cs@) == history(db@, room_id),
{
    WebSocketMessageType::Message(db.get_message_history(room_id))
}

/// How a client is described in the log: by its user agent, or as an
/// unknown browser when it sent none.
pub fn user_agent_label(agent: Option<String>) -> (r: String)
    ensures
        r@ == (match agent {
            Some(a) => a@,
            None => "Unknown browser"@,
        }),
{
    match agent {
        Some(a) => a,
        None => "Unknown browser".to_string(),
    }
}

/// A comment that a session read, broadcast and kept going after is stored:
/// its room exists and reads back as the earlier history followed by the
/// comment.
pub proof fn lemma_relayed_comment_is_stored(
    m: RoomMessage,
    before: Map<u128, crate::db::RoomView>,
    after: Map<u128, crate::db::RoomView>,
)
    requires
        inbound_outcome(
            Incoming::Frame(WebSocketMessageType::Message(ChatMessageType::RoomMessage(m))),
            InboundStep::Continue,
            before,
            after,
        ),
    ensures
        after.contains_key(m.room_id),
        history(after, m.room_id) == history(before, m.room_id).push(m.comment@),
{
    crate::db::lemma_post_then_history(before, m.room_id, m.comment@);
}

/// Only a session that keeps going changes the store: when a read makes the
/// session stop or fail, the store is left as it was.
pub proof fn lemma_only_continue_writes(
    item: Incoming,
    step: InboundStep,
    before: Map<u128, crate::db::RoomView>,
    after: Map<u128, crate::db::RoomView>,
)
    requires
        inbound_outcome(item, step, before, after),
        !(step is Continue),
    ensures
        after == before,
{
}

} // verus!
