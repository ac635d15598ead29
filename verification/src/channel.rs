use vstd::prelude::*;
use tokio::sync::broadcast::{Receiver, Sender};
use crate::message::WebSocketMessageType;

verus! {

#[verifier::external_type_specification]
#[verifier::external_body]
#[verifier::reject_recursive_types(T)]
pub struct ExBroadcastSender<T>(Sender<T>);

#[verifier::external_type_specification]
#[verifier::external_body]
#[verifier::reject_recursive_types(T)]
pub struct ExBroadcastReceiver<T>(Receiver<T>);

/// The number of messages the broadcast channel buffers for a slow receiver.
pub const CHANNEL_CAPACITY: usize = 10;

/// Calls `tokio::sync::broadcast::channel`, which opens a channel with one
/// receiver. It panics on a capacity of zero or above `usize::MAX / 2`, which
/// `requires` leaves out. Nothing is claimed of the two handles.
#[verifier::external_body]
fn open_broadcast(capacity: usize) -> (r: (Sender<WebSocketMessageType>, Receiver<WebSocketMessageType>))
    requires
        0 < capacity <= usize::MAX / 2,
{
    tokio::sync::broadcast::channel(capacity)
}

/// Calls `Sender::subscribe`, which opens one more receiver of the channel;
/// nothing is claimed of the new handle.
#[verifier::external_body]
fn subscribe_to(tx: &Sender<WebSocketMessageType>) -> (r: Receiver<WebSocketMessageType>) {
    tx.subscribe()
}

/// Calls `Sender::clone`, a second handle to the same channel; nothing is
/// claimed of it.
#[verifier::external_body]
fn clone_sender(tx: &Sender<WebSocketMessageType>) -> (r: Sender<WebSocketMessageType>) {
    tx.clone()
}

/// Calls `Sender::send`. The contract promises that a success returns a
/// receiver count of at least one, and that a failure (no receiver left) hands
/// back the very value that was sent, unpacked from `SendError`. Which of the
/// two happens depends on how many receivers are alive, and is left unsaid.
#[verifier::external_body]
fn send_to(tx: &Sender<WebSocketMessageType>, value: WebSocketMessageType) -> (r: Result<usize, WebSocketMessageType>)
    ensures
        match r {
            Ok(n) => n > 0,
            Err(v) => v == value,
        },
{
    match tx.send(value) {
        Ok(n) => Ok(n),
        Err(e) => Err(e.0),
    }
}

/// A message that could not be broadcast because no receiver was left; it
/// carries the message back.
#[derive(Debug)]
pub struct SendError(pub WebSocketMessageType);

/// The sending end of the broadcast channel that fans messages out to
/// every open socket.
#[derive(Debug)]
pub struct MessageTx(Sender<WebSocketMessageType>);

/// One receiving end of the broadcast channel.
#[derive(Debug)]
pub struct MessageRx(pub Receiver<WebSocketMessageType>);

impl Clone for MessageTx {
    fn clone(&self) -> (r: Self) {
        MessageTx(clone_sender(&self.0))
    }
}

impl MessageTx {
    /// The channel handle this sending end sends through.
    pub closed spec fn sender(&self) -> Sender<WebSocketMessageType> {
        self.0
    }

    /// The sending end that sends through `tx`.
    pub fn new(tx: Sender<WebSocketMessageType>) -> (r: Self)
        ensures
            r.sender() == tx,
    {
        MessageTx(tx)
    }

    /// A new receiver, which gets every message sent after this call.
    pub fn subscribe(&self) -> (r: MessageRx) {
        MessageRx(subscribe_to(&self.0))
    }

    /// Broadcasts `msg` to every receiver. On success it returns how many
    /// receivers there were (at least one); when there is none it fails and
    /// gives `msg` back.
    pub fn send(&self, msg: WebSocketMessageType) -> (r: Result<usize, SendError>)
        ensures
            match r {
                Ok(n) => n > 0,
                Err(e) => e.0 == msg,
            },
    {
        match send_to(&self.0, msg) {
            Ok(n) => Ok(n),
            Err(v) => Err(SendError(v)),
        }
    }
}

/// Opens the broadcast channel, buffering `CHANNEL_CAPACITY` messages.
pub fn channel() -> (r: (MessageTx, MessageRx)) {
    let (tx, rx) = open_broadcast(CHANNEL_CAPACITY);
    (MessageTx::new(tx), MessageRx(rx))
}

} // verus!
