//! Rooms, their occupant tables, and the registry of all rooms.
//!
//! The registry is a two-level map: room id to room, and inside each room
//! user id to occupant. Its model is a `Map<u64, RoomView>`. A user is an
//! occupant of at most one room at a time; the registry keeps a second map
//! from user id to room id so that joining can check this without walking
//! every room.

use crate::protocol::ServerMsg;
use futures_channel::mpsc::UnboundedSender;
use std::collections::HashMap;
use vstd::prelude::*;

verus! {

/// One entry of an occupant table: the name the user goes by in this
/// session and the sending half of the user's reply channel.
#[derive(Debug)]
pub struct Occupant {
    pub name: String,
    pub channel: UnboundedSender<ServerMsg>,
}

/// The model of a room.
pub struct RoomView {
    pub id: u64,
    pub name: Seq<char>,
    pub occupants: Map<u64, Occupant>,
}

/// A named group of connected users.
pub struct Room {
    id: u64,
    name: String,
    occupants: HashMap<u64, Occupant>,
}

impl View for Room {
    type V = RoomView;

    closed spec fn view(&self) -> RoomView {
        RoomView { id: self.id, name: self.name@, occupants: self.occupants@ }
    }
}

/// Whether `user` is an occupant of room `room` in `rooms`.
pub open spec fn occupies(rooms: Map<u64, RoomView>, room: u64, user: u64) -> bool {
    rooms.contains_key(room) && rooms[room].occupants.contains_key(user)
}

/// Whether `user` is an occupant of any room in `rooms`.
pub open spec fn is_member(rooms: Map<u64, RoomView>, user: u64) -> bool {
    exists|room: u64| occupies(rooms, room, user)
}

/// No user is an occupant of two rooms.
pub open spec fn single_membership(rooms: Map<u64, RoomView>) -> bool {
    forall|r1: u64, r2: u64, user: u64|
        #![trigger occupies(rooms, r1, user), occupies(rooms, r2, user)]
        occupies(rooms, r1, user) && occupies(rooms, r2, user) ==> r1 == r2
}

/// Every room is filed under its own id.
pub open spec fn ids_match(rooms: Map<u64, RoomView>) -> bool {
    forall|room: u64| #[trigger] rooms.contains_key(room) ==> rooms[room].id == room
}

/// `rooms` with `user` taken out of the occupant table of `room`. Where
/// the room is unknown or the user is not in it, this is `rooms` itself.
pub open spec fn without_occupant(rooms: Map<u64, RoomView>, room: u64, user: u64) -> Map<
    u64,
    RoomView,
> {
    if occupies(rooms, room, user) {
        rooms.insert(
            room,
            RoomView {
                id: rooms[room].id,
                name: rooms[room].name,
                occupants: rooms[room].occupants.remove(user),
            },
        )
    } else {
        rooms
    }
}

/// `rooms` with `occupant` entered for `user` in the occupant table of
/// `room`.
pub open spec fn with_occupant(
    rooms: Map<u64, RoomView>,
    room: u64,
    user: u64,
    occupant: Occupant,
) -> Map<u64, RoomView> {
    rooms.insert(
        room,
        RoomView {
            id: rooms[room].id,
            name: rooms[room].name,
            occupants: rooms[room].occupants.insert(user, occupant),
        },
    )
}

/// `rooms` with a new, empty room `room` named `name`.
pub open spec fn with_room(rooms: Map<u64, RoomView>, room: u64, name: Seq<char>) -> Map<
    u64,
    RoomView,
> {
    rooms.insert(room, RoomView { id: room, name, occupants: Map::empty() })
}

impl Room {
    /// The room's identifier.
    pub fn id(&self) -> (r: u64)
        ensures
            r == self@.id,
    {
        self.id
    }

    /// The room's name.
    pub fn name(&self) -> (r: &String)
        ensures
            r@ == self@.name,
    {
        &self.name
    }

    /// The entry of `user_id` in this room's occupant table, if there is
    /// one.
    pub fn occupant(&self, user_id: u64) -> (r: Option<&Occupant>)
        ensures
            match r {
                Some(o) => self@.occupants.contains_key(user_id) && *o
                    == self@.occupants[user_id],
                None => !self@.occupants.contains_key(user_id),
            },
    {
        self.occupants.get(&user_id)
    }

    /// How many users are in this room.
    pub fn occupant_count(&self) -> (n: usize)
        ensures
            n == self@.occupants.len(),
    {
        self.occupants.len()
    }
}

/// Why a user could not be entered into a room.
#[derive(Clone, Copy, Debug, PartialEq, Eq, Structural)]
pub enum JoinError {
    /// The registry has no room with the given id.
    UnknownRoom,
    /// The user is already an occupant of `room`.
    AlreadyJoined { room: u64 },
}

/// All rooms of the process, by room id.
pub struct RoomRegistry {
    rooms: HashMap<u64, Room>,
    membership: HashMap<u64, u64>,
}

impl View for RoomRegistry {
    type V = Map<u64, RoomView>;

    closed spec fn view(&self) -> Map<u64, RoomView> {
        Map::new(|room: u64| self.rooms@.contains_key(room), |room: u64| self.rooms@[room]@)
    }
}

impl RoomRegistry {
    /// The registry's invariant: every room is filed under its own id, and
    /// the membership index names, for each user, exactly the room whose
    /// occupant table holds the user.
    pub closed spec fn wf(&self) -> bool {
        &&& forall|room: u64| #[trigger]
            self.rooms@.contains_key(room) ==> self.rooms@[room].id == room
        &&& forall|room: u64, user: u64| #[trigger]
            occupies(self@, room, user) ==> self.membership@.contains_key(user)
                && self.membership@[user] == room
        &&& forall|user: u64| #[trigger]
            self.membership@.contains_key(user) ==> occupies(self@, self.membership@[user], user)
    }

    /// In a well-formed registry every room is filed under its own id and
    /// no user is in two rooms.
    pub proof fn lemma_wf_model(&self)
        requires
            self.wf(),
        ensures
            ids_match(self@),
            single_membership(self@),
            self@.dom().finite(),
    {
        assert(self@.dom() =~= self.rooms@.dom());
    }

    /// A registry without rooms.
    pub fn new() -> (r: RoomRegistry)
        ensures
            r.wf(),
            r@ == Map::<u64, RoomView>::empty(),
    {
        let r = RoomRegistry { rooms: HashMap::new(), membership: HashMap::new() };
        assert(r@ =~= Map::<u64, RoomView>::empty());
        r
    }

    /// The room filed under `room_id`, if there is one.
    pub fn lookup(&self, room_id: u64) -> (r: Option<&Room>)
        ensures
            match r {
                Some(room) => self@.contains_key(room_id) && room@ == self@[room_id],
                None => !self@.contains_key(room_id),
            },
    {
        self.rooms.get(&room_id)
    }

    /// The entry of `user_id` in the occupant table of `room_id`, if the
    /// room exists and the user is in it.
    pub fn occupant(&self, room_id: u64, user_id: u64) -> (r: Option<&Occupant>)
        ensures
            match r {
                Some(o) => occupies(self@, room_id, user_id) && *o
                    == self@[room_id].occupants[user_id],
                None => !occupies(self@, room_id, user_id),
            },
    {
        match self.rooms.get(&room_id) {
            Some(room) => room.occupant(user_id),
            None => None,
        }
    }

    /// The room that `user_id` is an occupant of, if any.
    pub fn room_of(&self, user_id: u64) -> (r: Option<u64>)
        requires
            self.wf(),
        ensures
            match r {
                Some(room) => occupies(self@, room, user_id),
                None => !is_member(self@, user_id),
            },
    {
        match self.membership.get(&user_id) {
            Some(room) => Some(*room),
            None => None,
        }
    }

    /// Files a new, empty room under `room_id`. Returns `false`, and
    /// changes nothing, when the id is taken.
    pub fn add_room(&mut self, room_id: u64, name: String) -> (added: bool)
        requires
            old(self).wf(),
        ensures
            final(self).wf(),
            added == !old(self)@.contains_key(room_id),
            added ==> final(self)@ == with_room(old(self)@, room_id, name@),
            !added ==> final(self)@ == old(self)@,
    {
        if self.rooms.contains_key(&room_id) {
            return false;
        }
        let room = Room { id: room_id, name, occupants: HashMap::new() };
        self.rooms.insert(room_id, room);
        assert(self@ =~= with_room(old(self)@, room_id, name@));
        assert forall|room: u64, user: u64| #[trigger] occupies(self@, room, user) implies occupies(
            old(self)@,
            room,
            user,
        ) by {}
        assert forall|user: u64| #[trigger]
            self.membership@.contains_key(user) implies occupies(
            self@,
            self.membership@[user],
            user,
        ) by {
            assert(occupies(old(self)@, old(self).membership@[user], user));
        }
        true
    }

    /// Enters `occupant` for `user_id` in the occupant table of `room_id`.
    /// Refused, and nothing changes, when the room is unknown or when the
    /// user is already in some room.
    pub fn join(&mut self, room_id: u64, user_id: u64, occupant: Occupant) -> (r: Result<
        (),
        JoinError,
    >)
        requires
            old(self).wf(),
        ensures
            final(self).wf(),
            match r {
                Ok(()) => {
                    &&& old(self)@.contains_key(room_id)
                    &&& !is_member(old(self)@, user_id)
                    &&& final(self)@ == with_occupant(old(self)@, room_id, user_id, occupant)
                },
                Err(JoinError::UnknownRoom) => {
                    &&& !old(self)@.contains_key(room_id)
                    &&& final(self)@ == old(self)@
                },
                Err(JoinError::AlreadyJoined { room }) => {
                    &&& old(self)@.contains_key(room_id)
                    &&& occupies(old(self)@, room, user_id)
                    &&& final(self)@ == old(self)@
                },
            },
    {
        if !self.rooms.contains_key(&room_id) {
            return Err(JoinError::UnknownRoom);
        }
        match self.membership.get(&user_id) {
            Some(room) => {
                return Err(JoinError::AlreadyJoined { room: *room });
            },
            None => {},
        }
        assert(!is_member(self@, user_id));
        let taken = self.rooms.remove(&room_id);
        let mut room = taken.unwrap();
        room.occupants.insert(user_id, occupant);
        self.rooms.insert(room_id, room);
        self.membership.insert(user_id, room_id);
        assert(self@ =~= with_occupant(old(self)@, room_id, user_id, occupant));
        assert forall|r: u64, u: u64| #[trigger] occupies(self@, r, u) implies self.membership@.contains_key(
            u,
        ) && self.membership@[u] == r by {
            if u != user_id {
                assert(occupies(old(self)@, r, u));
            } else if r != room_id {
                assert(occupies(old(self)@, r, u));
            }
        }
        assert forall|u: u64| #[trigger] self.membership@.contains_key(u) implies occupies(
            self@,
            self.membership@[u],
            u,
        ) by {
            if u != user_id {
                assert(occupies(old(self)@, old(self).membership@[u], u));
            }
        }
        Ok(())
    }

    /// Takes `user_id` out of the occupant table of `room_id`. An unknown
    /// room or an absent user is no error: nothing changes. Returns whether
    /// an entry was removed.
    pub fn remove_occupant(&mut self, room_id: u64, user_id: u64) -> (removed: bool)
        requires
            old(self).wf(),
        ensures
            final(self).wf(),
            removed == occupies(old(self)@, room_id, user_id),
            final(self)@ == without_occupant(old(self)@, room_id, user_id),
            !occupies(final(self)@, room_id, user_id),
    {
        if self.occupant(room_id, user_id).is_none() {
            return false;
        }
        let taken = self.rooms.remove(&room_id);
        let mut room = taken.unwrap();
        room.occupants.remove(&user_id);
        self.rooms.insert(room_id, room);
        self.membership.remove(&user_id);
        assert(self@ =~= without_occupant(old(self)@, room_id, user_id));
        assert forall|r: u64, u: u64| #[trigger] occupies(self@, r, u) implies self.membership@.contains_key(
            u,
        ) && self.membership@[u] == r by {
            assert(occupies(old(self)@, r, u));
            if u == user_id {
                assert(occupies(old(self)@, room_id, user_id));
            }
        }
        assert forall|u: u64| #[trigger] self.membership@.contains_key(u) implies occupies(
            self@,
            self.membership@[u],
            u,
        ) by {
            assert(occupies(old(self)@, old(self).membership@[u], u));
        }
        true
    }
}

/// Removing an occupant twice is the same as removing it once: the second
/// removal finds nothing to remove and changes nothing.
pub proof fn lemma_remove_occupant_idempotent(rooms: Map<u64, RoomView>, room: u64, user: u64)
    ensures
        !occupies(without_occupant(rooms, room, user), room, user),
        without_occupant(without_occupant(rooms, room, user), room, user) == without_occupant(
            rooms,
            room,
            user,
        ),
{
}

/// Removing an occupant touches nothing but that one entry: the same
/// rooms exist, and every other user is where it was.
pub proof fn lemma_remove_occupant_frame(
    rooms: Map<u64, RoomView>,
    room: u64,
    user: u64,
    other_room: u64,
    other_user: u64,
)
    ensures
        without_occupant(rooms, room, user).contains_key(other_room) == rooms.contains_key(
            other_room,
        ),
        rooms.contains_key(other_room) ==> {
            &&& without_occupant(rooms, room, user)[other_room].id == rooms[other_room].id
            &&& without_occupant(rooms, room, user)[other_room].name == rooms[other_room].name
        },
        (other_room != room || other_user != user) ==> {
            &&& occupies(without_occupant(rooms, room, user), other_room, other_user) == occupies(
                rooms,
                other_room,
                other_user,
            )
            &&& occupies(rooms, other_room, other_user) ==> without_occupant(
                rooms,
                room,
                user,
            )[other_room].occupants[other_user] == rooms[other_room].occupants[other_user]
        },
{
}

/// Removing an occupant keeps every room under its own id and keeps every
/// user in at most one room.
pub proof fn lemma_remove_occupant_keeps_validity(rooms: Map<u64, RoomView>, room: u64, user: u64)
    requires
        ids_match(rooms),
        single_membership(rooms),
    ensures
        ids_match(without_occupant(rooms, room, user)),
        single_membership(without_occupant(rooms, room, user)),
{
    let after = without_occupant(rooms, room, user);
    assert forall|r1: u64, r2: u64, u: u64|
        #![trigger occupies(after, r1, u), occupies(after, r2, u)]
        occupies(after, r1, u) && occupies(after, r2, u) implies r1 == r2 by {
        assert(occupies(rooms, r1, u));
        assert(occupies(rooms, r2, u));
    }
}

} // verus!
