use vstd::prelude::*;

use crate::room::RoomError;
use crate::text::str_eq;

verus! {

/// One registered room: its name and the id under which the process
/// reaches that room's broker.
pub struct RoomEntry {
    pub name: String,
    pub broker: u64,
}

/// The model of a registry entry.
pub struct RoomEntryModel {
    pub name: Seq<char>,
    pub broker: u64,
}

impl View for RoomEntry {
    type V = RoomEntryModel;

    open spec fn view(&self) -> RoomEntryModel {
        RoomEntryModel { name: self.name@, broker: self.broker }
    }
}

/// The broker id registered under `name`, if any: the first entry with
/// that name wins (well-formed registries have at most one).
pub open spec fn find_room(rooms: Seq<RoomEntryModel>, name: Seq<char>) -> Option<u64>
    decreases rooms.len(),
{
    if rooms.len() == 0 {
        None
    } else if rooms[0].name == name {
        Some(rooms[0].broker)
    } else {
        find_room(rooms.skip(1), name)
    }
}

/// Whether some entry is registered under `name`.
pub open spec fn has_room(rooms: Seq<RoomEntryModel>, name: Seq<char>) -> bool {
    find_room(rooms, name) is Some
}

/// Room names are unique.
pub open spec fn registry_wf(rooms: Seq<RoomEntryModel>) -> bool {
    forall|i: int, j: int| 0 <= i < j < rooms.len() ==> rooms[i].name != rooms[j].name
}

/// What `create` decides and leaves behind: a taken name fails and
/// changes nothing; a fresh name appends one entry.
pub open spec fn create_model(rooms: Seq<RoomEntryModel>, name: Seq<char>, broker: u64) -> (
    Result<(), RoomError>,
    Seq<RoomEntryModel>,
) {
    if has_room(rooms, name) {
        (Err(RoomError::RoomNameTaken), rooms)
    } else {
        (Ok(()), rooms.push(RoomEntryModel { name, broker }))
    }
}

proof fn lemma_find_room_at(rooms: Seq<RoomEntryModel>, name: Seq<char>, i: int)
    requires
        0 <= i < rooms.len(),
        rooms[i].name == name,
        forall|j: int| 0 <= j < i ==> rooms[j].name != name,
    ensures
        find_room(rooms, name) == Some(rooms[i].broker),
    decreases i,
{
    if i == 0 {
    } else {
        let t = rooms.skip(1);
        assert(forall|j: int| 0 <= j < i - 1 ==> t[j] == rooms[j + 1] && t[j].name != name);
        assert(t[i - 1] == rooms[i]);
        lemma_find_room_at(t, name, i - 1);
    }
}

proof fn lemma_find_room_none(rooms: Seq<RoomEntryModel>, name: Seq<char>)
    requires
        forall|i: int| 0 <= i < rooms.len() ==> rooms[i].name != name,
    ensures
        find_room(rooms, name) is None,
    decreases rooms.len(),
{
    if rooms.len() == 0 {
    } else {
        let t = rooms.skip(1);
        assert(forall|j: int| 0 <= j < t.len() ==> t[j] == rooms[j + 1] && t[j].name != name);
        lemma_find_room_none(t, name);
    }
}

/// A name is registered exactly when some entry carries it.
pub proof fn lemma_has_room_exists(rooms: Seq<RoomEntryModel>, name: Seq<char>)
    ensures
        has_room(rooms, name) <==> exists|i: int| 0 <= i < rooms.len() && rooms[i].name == name,
    decreases rooms.len(),
{
    if rooms.len() == 0 {
    } else {
        let t = rooms.skip(1);
        assert(forall|j: int| 0 <= j < t.len() ==> t[j] == rooms[j + 1]);
        lemma_has_room_exists(t, name);
        if rooms[0].name == name {
        } else if has_room(t, name) {
            let i = choose|i: int| 0 <= i < t.len() && t[i].name == name;
            assert(rooms[i + 1].name == name);
        } else {
            assert(forall|i: int| 0 < i < rooms.len() ==> rooms[i] == t[i - 1]);
        }
    }
}

/// The shared room registry: the process-wide map from room name to
/// that room's broker id. Create is insert-on-fresh-name; rooms are
/// never removed.
pub struct Registry {
    rooms: Vec<RoomEntry>,
}

impl View for Registry {
    type V = Seq<RoomEntryModel>;

    closed spec fn view(&self) -> Seq<RoomEntryModel> {
        self.rooms@.map_values(|e: RoomEntry| e@)
    }
}

impl Registry {
    /// An empty registry.
    pub fn new() -> (r: Registry)
        ensures
            r@ == Seq::<RoomEntryModel>::empty(),
            registry_wf(r@),
    {
        Registry { rooms: Vec::new() }
    }

    /// The broker id registered under `name`, or `None` when no room of
    /// that name exists.
    pub fn lookup(&self, name: &str) -> (r: Option<u64>)
        ensures
            r == find_room(self@, name@),
            r is Some <==> has_room(self@, name@),
    {
        let n = self.rooms.len();
        let mut k: usize = 0;
        while k < n
            invariant
                0 <= k <= n,
                n == self.rooms.len(),
                forall|j: int| 0 <= j < k ==> self@[j].name != name@,
            decreases n - k,
        {
            if str_eq(self.rooms[k].name.as_str(), name) {
                proof {
                    lemma_find_room_at(self@, name@, k as int);
                }
                return Some(self.rooms[k].broker);
            }
            k += 1;
        }
        proof {
            lemma_find_room_none(self@, name@);
        }
        None
    }

    /// Register a new room under `name`, reached through broker id
    /// `broker`. Fails with `RoomNameTaken`, leaving the registry
    /// unchanged, exactly when the name is already registered.
    pub fn create(&mut self, name: String, broker: u64) -> (r: Result<(), RoomError>)
        requires
            registry_wf(old(self)@),
        ensures
            r == create_model(old(self)@, name@, broker).0,
            final(self)@ == create_model(old(self)@, name@, broker).1,
            registry_wf(final(self)@),
            r is Err <==> has_room(old(self)@, name@),
    {
        let taken = self.lookup(name.as_str()).is_some();
        if taken {
            Err(RoomError::RoomNameTaken)
        } else {
            proof {
                lemma_has_room_exists(self@, name@);
            }
            let ghost before = self@;
            self.rooms.push(RoomEntry { name, broker });
            proof {
                assert(self@ =~= create_model(before, name@, broker).1);
                assert(forall|i: int| 0 <= i < before.len() ==> self@[i] == before[i]);
            }
            Ok(())
        }
    }
}

/// After a room name is created once, creating it again fails with
/// `RoomNameTaken` and leaves the registry exactly as it was.
pub proof fn lemma_create_same_name_twice(
    rooms: Seq<RoomEntryModel>,
    name: Seq<char>,
    b1: u64,
    b2: u64,
)
    requires
        create_model(rooms, name, b1).0 is Ok,
    ensures
        ({
            let after = create_model(rooms, name, b1).1;
            &&& create_model(after, name, b2).0 == Err::<(), RoomError>(RoomError::RoomNameTaken)
            &&& create_model(after, name, b2).1 == after
        }),
{
    let after = create_model(rooms, name, b1).1;
    assert(after[after.len() - 1].name == name);
    lemma_has_room_exists(after, name);
}

} // verus!
