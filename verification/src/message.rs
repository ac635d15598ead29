use vstd::prelude::*;
use vstd::std_specs::convert::FromSpecImpl;
use vstd::std_specs::convert::TryFromSpecImpl;
use vstd::std_specs::convert::FromSpec;
use vstd::std_specs::convert::TryFromSpec;
use crate::db::Comment;

verus! {

/// A comment posted to one room.
#[derive(Debug, Clone)]
pub struct RoomMessage {
    /// The room the comment is posted to.
    pub room_id: u128,
    pub comment: Comment,
}

/// A chat message, as exchanged with the clients.
#[derive(Debug, Clone)]
pub enum ChatMessageType {
    /// The history of a room, sent to a client when it joins.
    Init(Vec<Comment>),
    /// A new comment posted to a room.
    RoomMessage(RoomMessage),
    /// A list of room names.
    Rooms(Vec<String>),
}

impl ChatMessageType {
    /// The posted comment, if this message is one.
    pub fn into_room_message(self) -> (r: Option<RoomMessage>)
        ensures
            r == (match self {
                ChatMessageType::RoomMessage(m) => Some(m),
                _ => None,
            }),
    {
        match self {
            ChatMessageType::RoomMessage(msg) => Some(msg),
            _ => None,
        }
    }
}

/// The frame that closes a web socket: a status code and a reason.
#[derive(Debug, Clone)]
pub struct CloseFrame {
    pub code: u16,
    pub reason: String,
}

/// What travels over a client's web socket: a chat message (carried as
/// text), or one of the socket's own control and binary frames.
#[derive(Debug, Clone)]
pub enum WebSocketMessageType {
    Message(ChatMessageType),
    Binary(Vec<u8>),
    Ping(Vec<u8>),
    Pong(Vec<u8>),
    Close(Option<CloseFrame>),
}

impl From<ChatMessageType> for WebSocketMessageType {
    fn from(msg: ChatMessageType) -> (r: Self) {
        WebSocketMessageType::Message(msg)
    }
}

impl FromSpecImpl<ChatMessageType> for WebSocketMessageType {
    open spec fn obeys_from_spec() -> bool {
        true
    }

    open spec fn from_spec(msg: ChatMessageType) -> Self {
        WebSocketMessageType::Message(msg)
    }
}

impl TryFrom<WebSocketMessageType> for ChatMessageType {
    type Error = ();

    fn try_from(msg: WebSocketMessageType) -> (r: Result<Self, Self::Error>) {
        match msg {
            WebSocketMessageType::Message(msg) => Ok(msg),
            _ => Err(()),
        }
    }
}

impl TryFromSpecImpl<WebSocketMessageType> for ChatMessageType {
    open spec fn obeys_try_from_spec() -> bool {
        true
    }

    open spec fn try_from_spec(msg: WebSocketMessageType) -> Result<Self, Self::Error> {
        match msg {
            WebSocketMessageType::Message(m) => Ok(m),
            _ => Err(()),
        }
    }
}

/// A chat message carried over a socket and read back off it is the same
/// message; any other socket frame reads as no chat message.
pub proof fn lemma_chat_frame_round_trip(msg: ChatMessageType, frame: WebSocketMessageType)
    ensures
        <ChatMessageType as TryFromSpec<WebSocketMessageType>>::try_from_spec(
            <WebSocketMessageType as FromSpec<ChatMessageType>>::from_spec(msg),
        ) == Ok::<ChatMessageType, ()>(msg),
        !(frame is Message) ==> <ChatMessageType as TryFromSpec<WebSocketMessageType>>::try_from_spec(frame)
            == Err::<ChatMessageType, ()>(()),
{
}

} // verus!
