use std::sync::Arc;

use chat_back::channel::{channel, MessageTx, SendError, CHANNEL_CAPACITY};
use chat_back::db::{Comment, Members, MessageDb, MessageRoom};
use chat_back::message::{ChatMessageType, CloseFrame, RoomMessage, WebSocketMessageType};
use chat_back::model::{Id, JsonUserView, User, UserTag};
use chat_back::repository::{UserRepository, UserUseCase};
use chat_back::session::{
    after_broadcast, handle_incoming, handle_outgoing, history_frame, user_agent_label, InboundStep, Incoming,
    OutboundStep, RecvFailure, SessionFault,
};

fn is_v4(bits: u128) -> bool {
    bits & 0xF000_C000_0000_0000_0000u128 == 0x4000_8000_0000_0000_0000u128
}

fn post(room_id: u128, from: u128, text: &str) -> ChatMessageType {
    ChatMessageType::RoomMessage(RoomMessage {
        room_id,
        comment: Comment::new(from, text.to_string()),
    })
}

fn history_of(db: &MessageDb, room: u128) -> Vec<(u128, String)> {
    match db.get_message_history(room) {
        ChatMessageType::Init(cs) => cs.into_iter().map(|c| (c.from, c.message)).collect(),
        other => panic!("unexpected {:?}", other),
    }
}

#[test]
fn id_new_keeps_the_given_bits() {
    let id: Id<UserTag> = Id::new(0x1234_5678_9abc_def0_1122_3344_5566_7788);
    assert_eq!(id.id, 0x1234_5678_9abc_def0_1122_3344_5566_7788);
    let copy = id;
    assert_eq!(copy.id, id.id);
}

#[test]
fn id_gen_is_a_random_v4_uuid() {
    let a: Id<UserTag> = Id::gen();
    let b: Id<UserTag> = Id::gen();
    assert!(is_v4(a.id));
    assert!(is_v4(b.id));
    assert_eq!(uuid::Uuid::from_u128(a.id).get_version_num(), 4);
    assert_ne!(a.id, b.id);
}

#[test]
fn user_carries_its_id_and_name() {
    let user = User { id: Id::new(7), name: "alice".to_string() };
    let view = JsonUserView { id: user.id.id, name: user.name.clone() };
    assert_eq!(view.id, 7);
    assert_eq!(view.name, "alice");
}

struct NoUsers;

impl UserRepository for NoUsers {
    fn get_all_users(&self) -> Result<Vec<User>, anyhow::Error> {
        Ok(Vec::new())
    }
}

#[test]
fn use_case_wraps_a_repository() {
    let repo = Arc::new(NoUsers);
    let _use_case = UserUseCase::new(repo.clone());
    assert_eq!(Arc::strong_count(&repo), 2);
    assert!(repo.get_all_users().unwrap().is_empty());
}

#[test]
fn new_room_is_empty() {
    let room = MessageRoom::new();
    assert!(room.name.is_none());
    assert!(room.members.is_empty());
    assert!(room.comments.is_empty());
}

#[test]
fn add_comment_appends() {
    let mut room = MessageRoom::new();
    room.add_comment(Comment::new(1, "first".to_string()));
    room.add_comment(Comment::new(2, "second".to_string()));
    assert_eq!(room.comments.len(), 2);
    assert_eq!(room.comments[0].message, "first");
    assert_eq!(room.comments[1].from, 2);
}

#[test]
fn empty_db_has_no_rooms() {
    let db = MessageDb::new();
    assert!(!db.contains_room(1));
}

#[test]
fn posted_comment_reads_back() {
    let mut db = MessageDb::new();
    db.add_message(post(10, 1, "hello"));
    assert!(db.contains_room(10));
    assert_eq!(history_of(&db, 10), vec![(1, "hello".to_string())]);
    db.add_message(post(10, 2, "world"));
    assert_eq!(
        history_of(&db, 10),
        vec![(1, "hello".to_string()), (2, "world".to_string())]
    );
}

#[test]
fn posting_leaves_other_rooms_alone() {
    let mut db = MessageDb::new();
    db.add_message(post(1, 5, "in one"));
    let before = history_of(&db, 1);
    db.add_message(post(2, 6, "in two"));
    assert_eq!(history_of(&db, 1), before);
    assert_eq!(history_of(&db, 2), vec![(6, "in two".to_string())]);
    assert!(!db.contains_room(3));
}

#[test]
fn history_only_grows() {
    let mut db = MessageDb::new();
    db.add_message(post(4, 1, "a"));
    db.add_message(post(4, 1, "b"));
    let before = history_of(&db, 4);
    db.add_message(post(4, 2, "c"));
    let after = history_of(&db, 4);
    assert_eq!(&after[..before.len()], &before[..]);
    assert_eq!(after.len(), before.len() + 1);
}

#[test]
fn empty_comment_is_kept() {
    let mut db = MessageDb::new();
    db.add_message(post(0, 0, ""));
    assert_eq!(history_of(&db, 0), vec![(0, String::new())]);
}

#[test]
fn members_start_empty() {
    let members = Members::new();
    assert!(members.to_vec().is_empty());
    assert!(members.get_name(1).is_none());
}

#[test]
fn registered_member_can_be_looked_up() {
    let mut members = Members::new();
    let (id, name) = members.add_member("bob");
    assert_eq!(name, "bob");
    assert!(is_v4(id));
    assert_eq!(members.get_name(id).map(|s| s.as_str()), Some("bob"));
    let (id2, _) = members.add_member("carol");
    assert_ne!(id, id2);
    assert_eq!(members.get_name(id).map(|s| s.as_str()), Some("bob"));
    assert_eq!(members.get_name(id2).map(|s| s.as_str()), Some("carol"));
}

#[test]
fn to_vec_lists_every_member_once() {
    let mut members = Members::new();
    let (a, _) = members.add_member("a");
    let (b, _) = members.add_member("b");
    let (c, _) = members.add_member("a");
    let mut all = members.to_vec();
    assert_eq!(all.len(), 3);
    all.sort();
    let mut expected = vec![(a, "a".to_string()), (b, "b".to_string()), (c, "a".to_string())];
    expected.sort();
    assert_eq!(all, expected);
}

#[test]
fn into_room_message_picks_posted_comments() {
    match post(3, 4, "x").into_room_message() {
        Some(m) => {
            assert_eq!(m.room_id, 3);
            assert_eq!(m.comment.from, 4);
            assert_eq!(m.comment.message, "x");
        }
        None => panic!("expected a room message"),
    }
    assert!(ChatMessageType::Init(Vec::new()).into_room_message().is_none());
    assert!(ChatMessageType::Rooms(vec!["r".to_string()]).into_room_message().is_none());
}

#[test]
fn chat_frame_round_trip() {
    let frame = WebSocketMessageType::from(ChatMessageType::Rooms(vec!["lobby".to_string()]));
    match ChatMessageType::try_from(frame) {
        Ok(ChatMessageType::Rooms(names)) => assert_eq!(names, vec!["lobby".to_string()]),
        other => panic!("unexpected {:?}", other),
    }
    assert!(ChatMessageType::try_from(WebSocketMessageType::Binary(vec![1, 2])).is_err());
    assert!(ChatMessageType::try_from(WebSocketMessageType::Ping(vec![])).is_err());
    assert!(ChatMessageType::try_from(WebSocketMessageType::Close(Some(CloseFrame {
        code: 1000,
        reason: "bye".to_string(),
    })))
    .is_err());
}

#[test]
fn channel_counts_receivers() {
    assert_eq!(CHANNEL_CAPACITY, 10);
    let (tx, rx) = channel();
    assert_eq!(tx.send(WebSocketMessageType::Ping(vec![1])).unwrap(), 1);
    let rx2 = tx.subscribe();
    assert_eq!(tx.send(WebSocketMessageType::Ping(vec![2])).unwrap(), 2);
    drop(rx);
    drop(rx2);
}

#[test]
fn send_without_receivers_gives_the_message_back() {
    let (tx, rx) = channel();
    drop(rx);
    match tx.send(WebSocketMessageType::Pong(vec![9, 8])) {
        Err(SendError(WebSocketMessageType::Pong(p))) => assert_eq!(p, vec![9, 8]),
        other => panic!("unexpected {:?}", other),
    }
}

#[test]
fn cloned_sender_feeds_the_same_channel() {
    let (tx, mut rx) = channel();
    let tx2: MessageTx = tx.clone();
    assert_eq!(tx2.send(WebSocketMessageType::Binary(vec![7])).unwrap(), 1);
    match rx.0.try_recv() {
        Ok(WebSocketMessageType::Binary(b)) => assert_eq!(b, vec![7]),
        other => panic!("unexpected {:?}", other),
    }
}

#[test]
fn incoming_end_or_failure_stops() {
    let mut db = MessageDb::new();
    let (tx, _rx) = channel();
    assert!(matches!(handle_incoming(&mut db, &tx, Incoming::Ended), InboundStep::Stop));
    assert!(matches!(handle_incoming(&mut db, &tx, Incoming::Failed), InboundStep::Stop));
    assert!(!db.contains_room(0));
}

#[test]
fn incoming_non_chat_frame_faults() {
    let mut db = MessageDb::new();
    let (tx, mut rx) = channel();
    let step = handle_incoming(&mut db, &tx, Incoming::Frame(WebSocketMessageType::Binary(vec![1])));
    assert!(matches!(step, InboundStep::Fault(SessionFault::NotChatMessage)));
    assert!(rx.0.try_recv().is_err());
}

#[test]
fn incoming_comment_is_broadcast_and_stored() {
    let mut db = MessageDb::new();
    let (tx, mut rx) = channel();
    let step = handle_incoming(
        &mut db,
        &tx,
        Incoming::Frame(WebSocketMessageType::Message(post(42, 3, "hi all"))),
    );
    assert!(matches!(step, InboundStep::Continue));
    assert_eq!(history_of(&db, 42), vec![(3, "hi all".to_string())]);
    match rx.0.try_recv() {
        Ok(WebSocketMessageType::Message(ChatMessageType::RoomMessage(m))) => {
            assert_eq!(m.room_id, 42);
            assert_eq!(m.comment.message, "hi all");
        }
        other => panic!("unexpected {:?}", other),
    }
}

#[test]
fn incoming_other_chat_message_is_broadcast_then_faults() {
    let mut db = MessageDb::new();
    let (tx, mut rx) = channel();
    let step = handle_incoming(
        &mut db,
        &tx,
        Incoming::Frame(WebSocketMessageType::Message(ChatMessageType::Rooms(vec![]))),
    );
    assert!(matches!(step, InboundStep::Fault(SessionFault::NotRoomMessage)));
    assert!(matches!(
        rx.0.try_recv(),
        Ok(WebSocketMessageType::Message(ChatMessageType::Rooms(_)))
    ));
    assert!(!db.contains_room(0));
}

#[test]
fn incoming_without_receivers_faults_and_stores_nothing() {
    let mut db = MessageDb::new();
    let (tx, rx) = channel();
    drop(rx);
    let step = handle_incoming(
        &mut db,
        &tx,
        Incoming::Frame(WebSocketMessageType::Message(post(8, 1, "lost"))),
    );
    match step {
        InboundStep::Fault(SessionFault::NoReceivers(WebSocketMessageType::Message(
            ChatMessageType::RoomMessage(m),
        ))) => assert_eq!(m.comment.message, "lost"),
        other => panic!("unexpected {:?}", other),
    }
    assert!(!db.contains_room(8));
}

#[test]
fn outgoing_delivers_or_stops() {
    match handle_outgoing(Ok(WebSocketMessageType::Ping(vec![5]))) {
        OutboundStep::Deliver(WebSocketMessageType::Ping(p)) => assert_eq!(p, vec![5]),
        other => panic!("unexpected {:?}", other),
    }
    assert!(matches!(handle_outgoing(Err(RecvFailure::Closed)), OutboundStep::Stop));
    assert!(matches!(handle_outgoing(Err(RecvFailure::Lagged(3))), OutboundStep::Stop));
}

#[test]
fn history_frame_carries_the_history() {
    let mut db = MessageDb::new();
    db.add_message(post(5, 1, "one"));
    db.add_message(post(5, 2, "two"));
    match history_frame(&db, 5) {
        WebSocketMessageType::Message(ChatMessageType::Init(cs)) => {
            assert_eq!(cs.len(), 2);
            assert_eq!(cs[0].message, "one");
            assert_eq!(cs[1].from, 2);
        }
        other => panic!("unexpected {:?}", other),
    }
}

#[test]
fn user_agent_label_defaults() {
    assert_eq!(user_agent_label(Some("curl/8".to_string())), "curl/8");
    assert_eq!(user_agent_label(None), "Unknown browser");
}

fn room_message(room_id: u128, from: u128, text: &str) -> RoomMessage {
    RoomMessage { room_id, comment: Comment::new(from, text.to_string()) }
}

#[test]
fn after_broadcast_without_receivers_faults_and_keeps_the_store() {
    let mut db = MessageDb::new();
    let sent = Err(SendError(WebSocketMessageType::Ping(vec![4])));
    match after_broadcast(&mut db, sent, Some(room_message(1, 2, "x"))) {
        InboundStep::Fault(SessionFault::NoReceivers(WebSocketMessageType::Ping(p))) => {
            assert_eq!(p, vec![4])
        }
        other => panic!("unexpected {:?}", other),
    }
    assert!(!db.contains_room(1));
}

#[test]
fn after_broadcast_stores_a_comment() {
    let mut db = MessageDb::new();
    let step = after_broadcast(&mut db, Ok(3), Some(room_message(7, 2, "kept")));
    assert!(matches!(step, InboundStep::Continue));
    assert_eq!(history_of(&db, 7), vec![(2, "kept".to_string())]);
}

#[test]
fn after_broadcast_faults_on_other_chat_messages() {
    let mut db = MessageDb::new();
    let step = after_broadcast(&mut db, Ok(1), None);
    assert!(matches!(step, InboundStep::Fault(SessionFault::NotRoomMessage)));
    assert!(!db.contains_room(0));
}

#[test]
fn lookups_follow_every_registration() {
    let mut members = Members::new();
    let names = ["ann", "ben", "ann", "cid"];
    let ids: Vec<u128> = names.iter().map(|n| members.add_member(n).0).collect();
    for (id, name) in ids.iter().zip(names.iter()) {
        assert_eq!(members.get_name(*id).map(|s| s.as_str()), Some(*name));
    }
    assert_eq!(members.to_vec().len(), 4);
    assert!(members.get_name(0).is_none());
}
