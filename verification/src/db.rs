use vstd::prelude::*;
use crate::message::ChatMessageType;
use vstd::std_specs::iter::IteratorSpec;
use crate::model::{is_v4_uuid, random_uuid_bits};

verus! {

/// What a comment holds: who wrote it and what they wrote.
pub struct CommentView {
    pub from: u128,
    pub message: Seq<char>,
}

/// One comment of a chat room.
#[derive(Debug, Clone)]
pub struct Comment {
    /// The author.
    pub from: u128,
    pub message: String,
}

impl View for Comment {
    type V = CommentView;

    open spec fn view(&self) -> CommentView {
        CommentView { from: self.from, message: self.message@ }
    }
}

impl Comment {
    pub fn new(from: u128, message: String) -> (r: Self)
        ensures
            r.from == from,
            r.message == message,
    {
        Comment { from, message }
    }
}

} // verus!

verus! {

broadcast use vstd::std_specs::hash::group_hash_axioms;

/// What a room holds: its optional name, its member set and its comments,
/// oldest first.
pub struct RoomView {
    pub name: Option<Seq<char>>,
    pub members: Set<u128>,
    pub comments: Seq<CommentView>,
}

impl RoomView {
    /// A room with no name, no members and no comments.
    pub open spec fn empty() -> RoomView {
        RoomView { name: None, members: Set::empty(), comments: Seq::empty() }
    }

    /// The room with `c` appended to its comments.
    pub open spec fn with_comment(self, c: CommentView) -> RoomView {
        RoomView { comments: self.comments.push(c), ..self }
    }
}

/// The view of every comment of a sequence.
pub open spec fn comment_views(cs: Seq<Comment>) -> Seq<CommentView> {
    cs.map_values(|c: Comment| c@)
}

/// The room stored under `id`, or an empty room where there is none.
pub open spec fn room_or_empty(rooms: Map<u128, RoomView>, id: u128) -> RoomView {
    if rooms.contains_key(id) {
        rooms[id]
    } else {
        RoomView::empty()
    }
}

/// The rooms after comment `c` is posted to room `id`: the room is created
/// empty where it does not exist yet, and `c` goes to the end of its comments.
pub open spec fn post(rooms: Map<u128, RoomView>, id: u128, c: CommentView) -> Map<u128, RoomView> {
    rooms.insert(id, room_or_empty(rooms, id).with_comment(c))
}

/// The comments of room `id`, oldest first; none for a room that does not exist.
pub open spec fn history(rooms: Map<u128, RoomView>, id: u128) -> Seq<CommentView> {
    room_or_empty(rooms, id).comments
}

/// One chat room.
#[derive(Debug)]
pub struct MessageRoom {
    pub name: Option<String>,
    pub members: std::collections::HashSet<u128>,
    pub comments: Vec<Comment>,
}

impl View for MessageRoom {
    type V = RoomView;

    open spec fn view(&self) -> RoomView {
        RoomView {
            name: match self.name {
                Some(n) => Some(n@),
                None => None,
            },
            members: self.members@,
            comments: comment_views(self.comments@),
        }
    }
}

impl Default for MessageRoom {
    fn default() -> (r: Self)
        ensures
            r@ == RoomView::empty(),
    {
        let r = MessageRoom {
            name: None,
            members: std::collections::HashSet::new(),
            comments: Vec::new(),
        };
        assert(comment_views(r.comments@) =~= Seq::empty());
        r
    }
}

impl MessageRoom {
    /// An empty room.
    pub fn new() -> (r: Self)
        ensures
            r@ == RoomView::empty(),
    {
        MessageRoom::default()
    }

    /// Appends `comment` to the room's comments.
    pub fn add_comment(&mut self, comment: Comment)
        ensures
            final(self)@ == old(self)@.with_comment(comment@),
    {
        self.comments.push(comment);
        assert(comment_views(self.comments@) =~= comment_views(old(self).comments@).push(comment@));
    }
}

/// The store of every room's chat history, keyed by room id.
#[derive(Debug)]
pub struct MessageDb {
    rooms: std::collections::HashMap<u128, MessageRoom>,
}

impl View for MessageDb {
    type V = Map<u128, RoomView>;

    closed spec fn view(&self) -> Map<u128, RoomView> {
        self.rooms@.map_values(|r: MessageRoom| r@)
    }
}

impl Default for MessageDb {
    fn default() -> (r: Self)
        ensures
            r@ == Map::<u128, RoomView>::empty(),
    {
        let r = MessageDb { rooms: std::collections::HashMap::new() };
        assert(r@ =~= Map::<u128, RoomView>::empty());
        r
    }
}

impl MessageDb {
    /// A store with no rooms.
    pub fn new() -> (r: Self)
        ensures
            r@ == Map::<u128, RoomView>::empty(),
    {
        MessageDb::default()
    }

    /// Whether room `id` exists, that is, whether a comment was ever posted to it.
    pub fn contains_room(&self, id: u128) -> (r: bool)
        ensures
            r == self@.contains_key(id),
    {
        self.rooms.contains_key(&id)
    }

    /// Stores a posted comment: the comment goes to the end of its room's
    /// history, and the room is created where it does not exist yet.
    pub fn add_message(&mut self, msg: ChatMessageType)
        requires
            msg is RoomMessage,
        ensures
            final(self)@ == post(old(self)@, msg->RoomMessage_0.room_id, msg->RoomMessage_0.comment@),
    {
        let msg = match msg {
            ChatMessageType::RoomMessage(m) => m,
            _ => {
                proof { assert(false); }
                return;
            }
        };
        let ghost before = self@;
        let mut room = match self.rooms.remove(&msg.room_id) {
            Some(r) => r,
            None => MessageRoom::new(),
        };
        assert(room@ == room_or_empty(before, msg.room_id));
        room.add_comment(msg.comment);
        self.rooms.insert(msg.room_id, room);
        assert(self@ =~= post(before, msg.room_id, msg.comment@));
    }

    /// The history of room `id`, as the message a client receives when it joins.
    pub fn get_message_history(&self, id: u128) -> (r: ChatMessageType)
        requires
            self@.contains_key(id),
        ensures
            r matches ChatMessageType::Init(cs) && comment_views(cs@) == history(self@, id),
    {
        let room = self.rooms.get(&id).unwrap();
        let n = room.comments.len();
        let mut out: Vec<Comment> = Vec::new();
        for i in 0..n
            invariant
                n == room.comments@.len(),
                comment_views(out@) =~= comment_views(room.comments@.take(i as int)),
        {
            let ghost before = out@;
            let c = &room.comments[i];
            let copy = Comment { from: c.from, message: c.message.clone() };
            assert(copy@ == c@);
            out.push(copy);
            assert(comment_views(out@) =~= comment_views(before).push(c@));
            assert(room.comments@.take(i + 1) =~= room.comments@.take(i as int).push(room.comments@[i as int]));
        }
        assert(room.comments@.take(n as int) =~= room.comments@);
        ChatMessageType::Init(out)
    }
}

/// The registry of the chat's members: each member's id and name.
pub struct Members(std::collections::HashMap<u128, String>);

impl View for Members {
    type V = Map<u128, Seq<char>>;

    closed spec fn view(&self) -> Map<u128, Seq<char>> {
        self.0@.map_values(|s: String| s@)
    }
}

impl Members {
    /// A registry with no members.
    pub fn new() -> (r: Self)
        ensures
            r@ == Map::<u128, Seq<char>>::empty(),
    {
        let r = Members(std::collections::HashMap::new());
        assert(r@ =~= Map::<u128, Seq<char>>::empty());
        r
    }

    /// Registers a member named `name` under a fresh random id, and returns
    /// the id and the name.
    pub fn add_member(&mut self, name: &str) -> (r: (u128, String))
        ensures
            is_v4_uuid(r.0),
            r.1@ == name@,
            final(self)@ == old(self)@.insert(r.0, name@),
    {
        let id = random_uuid_bits();
        let stored = name.to_string();
        let ghost before = self@;
        self.0.insert(id, stored);
        assert(self@ =~= before.insert(id, name@));
        (id, name.to_string())
    }

    /// The name of member `id`, if there is one.
    pub fn get_name(&self, id: u128) -> (r: Option<&String>)
        ensures
            match r {
                Some(s) => self@.contains_key(id) && s@ == self@[id],
                None => !self@.contains_key(id),
            },
    {
        self.0.get(&id)
    }

    /// Every member as an (id, name) pair, in no particular order: each
    /// member appears exactly once.
    pub fn to_vec(&self) -> (r: Vec<(u128, String)>)
        ensures
            r@.len() == self@.len(),
            forall|i: int| 0 <= i < r@.len() ==> #[trigger] self@.contains_key(r@[i].0)
                && self@[r@[i].0] == r@[i].1@,
            forall|id: u128| #[trigger] self@.contains_key(id) ==> exists|i: int|
                0 <= i < r@.len() && r@[i].0 == id,
            forall|i: int, j: int| 0 <= i < j < r@.len() ==> r@[i].0 != r@[j].0,
    {
        let mut out: Vec<(u128, String)> = Vec::new();
        for kv in it: self.0.iter()
            invariant
                it.seq() == vstd::std_specs::hash::spec_hash_map_iter(&self.0).remaining(),
                it.seq().no_duplicates(),
                out@.len() == it.index(),
                forall|j: int| 0 <= j < it.index() ==> (#[trigger] out@[j]).0 == *it.seq()[j].0
                    && out@[j].1@ == (*it.seq()[j].1)@,
        {
            let (k, v) = kv;
            out.push((*k, v.clone()));
        }
        proof {
            let pairs = vstd::std_specs::hash::spec_hash_map_iter(&self.0).remaining();
            assert(self@.dom() =~= self.0@.dom());
            assert forall|id: u128| #[trigger] self@.contains_key(id) implies exists|i: int|
                0 <= i < out@.len() && out@[i].0 == id by {
                assert(pairs.contains((&id, &self.0@[id])));
                let i = choose|i: int| 0 <= i < pairs.len() && pairs[i] == (&id, &self.0@[id]);
                assert(out@[i].0 == id);
            }
            assert forall|i: int, j: int| 0 <= i < j < out@.len() implies out@[i].0 != out@[j].0 by {
                if out@[i].0 == out@[j].0 {
                    assert(self.0@.contains_key(*pairs[i].0));
                    assert(pairs[i] == pairs[j]);
                }
            }
        }
        out
    }
}

/// Reading a room right after a comment is posted to it gives the room's
/// earlier history followed by that comment, and the room exists afterwards.
pub proof fn lemma_post_then_history(rooms: Map<u128, RoomView>, id: u128, c: CommentView)
    ensures
        post(rooms, id, c).contains_key(id),
        history(post(rooms, id, c), id) == history(rooms, id).push(c),
{
}

/// Posting to one room leaves every other room exactly as it was.
pub proof fn lemma_post_isolated(rooms: Map<u128, RoomView>, id: u128, c: CommentView, other: u128)
    requires
        other != id,
    ensures
        post(rooms, id, c).contains_key(other) == rooms.contains_key(other),
        room_or_empty(post(rooms, id, c), other) == room_or_empty(rooms, other),
        history(post(rooms, id, c), other) == history(rooms, other),
{
}

/// Histories only grow: whatever room is posted to, every room's earlier
/// history is a prefix of its history afterwards, and no room disappears.
pub proof fn lemma_post_keeps_history(rooms: Map<u128, RoomView>, id: u128, c: CommentView, any: u128)
    ensures
        rooms.contains_key(any) ==> post(rooms, id, c).contains_key(any),
        history(rooms, any).len() <= history(post(rooms, id, c), any).len(),
        history(post(rooms, id, c), any).subrange(0, history(rooms, any).len() as int)
            == history(rooms, any),
{
    assert(history(post(rooms, id, c), any).subrange(0, history(rooms, any).len() as int)
        =~= history(rooms, any));
}

/// After a member is registered under `id`, looking `id` up gives the name
/// it was registered with, and every other member keeps their name.
pub proof fn lemma_register_then_lookup(members: Map<u128, Seq<char>>, id: u128, name: Seq<char>, other: u128)
    ensures
        members.insert(id, name).contains_key(id),
        members.insert(id, name)[id] == name,
        other != id ==> (members.insert(id, name).contains_key(other) == members.contains_key(other)),
        other != id && members.contains_key(other) ==> members.insert(id, name)[other] == members[other],
{
}

/// The registry that a sequence of registrations builds from an empty one,
/// each `(id, name)` registered in turn.
pub open spec fn registered(regs: Seq<(u128, Seq<char>)>) -> Map<u128, Seq<char>>
    decreases regs.len(),
{
    if regs.len() == 0 {
        Map::empty()
    } else {
        registered(regs.drop_last()).insert(regs.last().0, regs.last().1)
    }
}

/// One more registration: what `Members::add_member` does to the registry
/// (its `ensures`) is what one more step of `registered` does.
pub proof fn lemma_registered_step(regs: Seq<(u128, Seq<char>)>, id: u128, name: Seq<char>)
    ensures
        registered(regs.push((id, name))) == registered(regs).insert(id, name),
{
    assert(regs.push((id, name)).drop_last() =~= regs);
}

/// After any sequence of registrations from an empty registry, an id is
/// registered exactly when some registration used it, and its name is the
/// name of the last registration that used it.
pub proof fn lemma_lookup_after_registrations(regs: Seq<(u128, Seq<char>)>, id: u128)
    ensures
        registered(regs).contains_key(id) <==> exists|i: int| 0 <= i < regs.len() && #[trigger] regs[i].0 == id,
        forall|i: int|
            0 <= i < regs.len() && #[trigger] regs[i].0 == id
                && (forall|j: int| i < j < regs.len() ==> regs[j].0 != id)
                ==> registered(regs)[id] == regs[i].1,
    decreases regs.len(),
{
    if regs.len() > 0 {
        let prev = regs.drop_last();
        lemma_lookup_after_registrations(prev, id);
        let n = regs.len() - 1;
        if regs[n].0 != id {
            assert forall|i: int| 0 <= i < prev.len() && #[trigger] prev[i].0 == id
                implies regs[i].0 == id by {}
            assert((exists|i: int| 0 <= i < regs.len() && #[trigger] regs[i].0 == id)
                ==> (exists|i: int| 0 <= i < prev.len() && #[trigger] prev[i].0 == id)) by {
                if exists|i: int| 0 <= i < regs.len() && #[trigger] regs[i].0 == id {
                    let i = choose|i: int| 0 <= i < regs.len() && #[trigger] regs[i].0 == id;
                    assert(prev[i].0 == id);
                }
            }
            assert forall|i: int|
                0 <= i < regs.len() && #[trigger] regs[i].0 == id
                    && (forall|j: int| i < j < regs.len() ==> regs[j].0 != id)
                implies registered(regs)[id] == regs[i].1 by {
                assert(prev[i].0 == id);
                assert forall|j: int| i < j < prev.len() implies prev[j].0 != id by {
                    assert(regs[j].0 != id);
                }
            }
        } else {
            assert(regs[n].0 == id);
            assert forall|i: int|
                0 <= i < regs.len() && #[trigger] regs[i].0 == id
                    && (forall|j: int| i < j < regs.len() ==> regs[j].0 != id)
                implies registered(regs)[id] == regs[i].1 by {
                if i < n {
                    assert(regs[n].0 != id);
                }
            }
        }
    }
}

} // verus!
