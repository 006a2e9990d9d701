//! The room registry: a process-wide map from room code to that room's
//! broadcast channel pair. The first caller for a code creates the pair;
//! every later caller observes the same pair. Entries can be evicted when a
//! room's game has finished.
//!
//! The registry allocates channel handles; the surrounding transport owns
//! the actual broadcast primitives, one per handle.

use vstd::prelude::*;

verus! {

/// The broadcast channel pair of one room: a handle for the channel that
/// carries player events to the host's view, and a handle for the channel
/// that carries host events to all player views.
#[derive(Clone, Copy, Debug, PartialEq, Eq, Structural)]
pub struct RoomChannels {
    pub to_host: u64,
    pub to_players: u64,
}

/// One registry entry: a room code and its channel pair.
#[derive(Clone, Debug)]
pub struct RoomEntry {
    pub code: String,
    pub channels: RoomChannels,
}

/// The registry itself. `next_channel_id` is the allocation counter for
/// channel handles; every handle in use is below it.
#[derive(Debug)]
pub struct RoomRegistry {
    pub rooms: Vec<RoomEntry>,
    pub next_channel_id: u64,
}

impl RoomRegistry {
    /// Well-formedness: one entry per code, and channel handles allocated
    /// in adjacent pairs below the counter, so no two rooms ever share a
    /// broadcast channel.
    pub open spec fn wf(self) -> bool {
        &&& forall|i: int, j: int|
            0 <= i < j < self.rooms@.len() ==> (#[trigger] self.rooms@[i]).code@ != (
            #[trigger] self.rooms@[j]).code@
        &&& forall|i: int|
            0 <= i < self.rooms@.len() ==> (#[trigger] self.rooms@[i]).channels.to_players == (
            self.rooms@[i]).channels.to_host + 1
        &&& forall|i: int|
            0 <= i < self.rooms@.len() ==> (#[trigger] self.rooms@[i]).channels.to_players
                < self.next_channel_id
        &&& forall|i: int, j: int|
            0 <= i < j < self.rooms@.len() ==> (#[trigger] self.rooms@[i]).channels.to_host != (
            #[trigger] self.rooms@[j]).channels.to_host
    }

    /// Whether some room is registered under `code`.
    pub open spec fn has_room(self, code: Seq<char>) -> bool {
        exists|i: int| 0 <= i < self.rooms@.len() && (#[trigger] self.rooms@[i]).code@ == code
    }

    /// The index of the room registered under `code`.
    pub open spec fn room_index(self, code: Seq<char>) -> int {
        choose|i: int| 0 <= i < self.rooms@.len() && (#[trigger] self.rooms@[i]).code@ == code
    }

    /// The channel pair of the room registered under `code`.
    pub open spec fn channels_of(self, code: Seq<char>) -> RoomChannels {
        self.rooms@[self.room_index(code)].channels
    }

    /// An empty registry.
    pub fn new() -> (r: RoomRegistry)
        ensures
            r.wf(),
            r.rooms@.len() == 0,
            r.next_channel_id == 0,
    {
        RoomRegistry { rooms: Vec::new(), next_channel_id: 0 }
    }

    fn find_room_index(&self, code: &String) -> (r: Option<usize>)
        ensures
            match r {
                Some(i) => i < self.rooms@.len() && self.rooms@[i as int].code@ == code@,
                None => !self.has_room(code@),
            },
    {
        let mut i: usize = 0;
        while i < self.rooms.len()
            invariant
                i <= self.rooms@.len(),
                forall|k: int| 0 <= k < i ==> (#[trigger] self.rooms@[k]).code@ != code@,
            decreases self.rooms@.len() - i,
        {
            if self.rooms[i].code.eq(code) {
                return Some(i);
            }
            i += 1;
        }
        None
    }

    /// Returns the channel pair of the room registered under `code`,
    /// creating the entry on first access. Once a code has an entry, every
    /// call returns that entry's pair and changes nothing, so concurrent
    /// callers serialized through this registry all observe one pair per
    /// room.
    pub fn get_or_create_room(&mut self, code: &String) -> (r: RoomChannels)
        requires
            old(self).wf(),
            old(self).next_channel_id < u64::MAX - 1,
        ensures
            final(self).wf(),
            final(self).has_room(code@),
            r == final(self).channels_of(code@),
            old(self).has_room(code@) ==> *final(self) == *old(self) && r == old(
                self,
            ).channels_of(code@),
            !old(self).has_room(code@) ==> final(self).rooms@ == old(self).rooms@.push(
                RoomEntry { code: *code, channels: r },
            ) && final(self).next_channel_id == old(self).next_channel_id + 2,
    {
        match self.find_room_index(code) {
            Some(i) => {
                let r = self.rooms[i].channels;
                proof {
                    lemma_room_code_determines_entry(*self, i as int, self.room_index(code@));
                }
                r
            },
            None => {
                let channels = RoomChannels {
                    to_host: self.next_channel_id,
                    to_players: self.next_channel_id + 1,
                };
                self.next_channel_id = self.next_channel_id + 2;
                let entry = RoomEntry { code: code.clone(), channels };
                self.rooms.push(entry);
                proof {
                    let n = self.rooms@.len() - 1;
                    assert(self.rooms@[n].code@ == code@);
                    lemma_room_code_determines_entry(*self, n, self.room_index(code@));
                }
                channels
            },
        }
    }

    /// Evicts the entry registered under `code`, if any: rooms whose game
    /// has finished and has no live subscribers need not keep a channel
    /// pair alive. Every other entry is kept.
    pub fn remove_room(&mut self, code: &String) -> (removed: bool)
        requires
            old(self).wf(),
        ensures
            final(self).wf(),
            !final(self).has_room(code@),
            removed == old(self).has_room(code@),
            removed ==> final(self).rooms@ == old(self).rooms@.remove(
                old(self).room_index(code@),
            ),
            !removed ==> *final(self) == *old(self),
    {
        match self.find_room_index(code) {
            Some(i) => {
                proof {
                    lemma_room_code_determines_entry(*self, i as int, self.room_index(code@));
                }
                self.rooms.remove(i);
                proof {
                    assert forall|k: int|
                        0 <= k < self.rooms@.len() implies (#[trigger] self.rooms@[k]).code@
                        != code@ by {
                        if k < i {
                            assert(self.rooms@[k] == old(self).rooms@[k]);
                        } else {
                            assert(self.rooms@[k] == old(self).rooms@[k + 1]);
                        }
                    }
                }
                true
            },
            None => false,
        }
    }
}

/// Any two registry entries sharing a code are the same entry: the registry
/// never holds two channel pairs for one room.
pub proof fn lemma_room_code_determines_entry(reg: RoomRegistry, i: int, j: int)
    requires
        reg.wf(),
        0 <= i < reg.rooms@.len(),
        0 <= j < reg.rooms@.len(),
        reg.rooms@[i].code@ == reg.rooms@[j].code@,
    ensures
        i == j,
        reg.rooms@[i].channels == reg.rooms@[j].channels,
{
    if i < j {
        assert(reg.rooms@[i].code@ != reg.rooms@[j].code@);
    } else if j < i {
        assert(reg.rooms@[j].code@ != reg.rooms@[i].code@);
    }
}

} // verus!
