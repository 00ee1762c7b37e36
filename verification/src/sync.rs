//! The client's update cycle: where the local participant stands, which
//! peers are still there, when to announce the own identity, and what the
//! messages that came in since the last cycle change.

use crate::peers::{evict_spec, is_stale, receive_spec, PeerRecord, PeerRegistry};
use crate::wire::{encode_identity, identity_packet, Position};
use vstd::prelude::*;

verus! {

/// The time between two announcements of the own identity, in nanoseconds.
pub const IDENTITY_INTERVAL: u64 = 3_000_000_000;

/// The entity number of the local participant.
pub const LOCAL_ENTITY: u64 = 0;

/// The colour hash shown for the local participant.
pub const LOCAL_COLOR: u32 = 0x0000_FFFF;

/// What is shown of an entity: where it is and in which colour.
#[derive(Clone, Copy, Debug, PartialEq, Eq, Structural)]
pub struct Entity {
    pub position: Position,
    pub color_hash: u32,
}

/// The state that one client carries from cycle to cycle.
pub struct SyncState {
    pub local_position: Position,
    pub peers: PeerRegistry,
    pub last_identity_broadcast: u64,
}

/// Whether the own identity is to be announced at `now`, having been
/// announced last at `last`.
pub open spec fn identity_due(last: u64, now: u64) -> bool {
    now - last >= IDENTITY_INTERVAL
}

/// The registry after the forwarded frames `frames`, taken in order.
pub open spec fn drain_spec(peers: Map<u32, PeerRecord>, frames: Seq<Vec<u8>>, now: u64) -> Map<
    u32,
    PeerRecord,
>
    decreases frames.len(),
{
    if frames.len() == 0 {
        peers
    } else {
        receive_spec(drain_spec(peers, frames.drop_last(), now), frames.last()@, now)
    }
}

/// The low 32 bits of an entity number: the sender identifier it stands for.
pub open spec fn peer_of(entity: u64) -> u32 {
    (entity % 0x1_0000_0000) as u32
}

/// What is shown of entity `entity`: the local participant for number 0,
/// else the peer with that identifier, if it is present.
pub open spec fn entity_spec(
    local_position: Position,
    peers: Map<u32, PeerRecord>,
    entity: u64,
) -> Option<Entity> {
    if entity == LOCAL_ENTITY {
        Some(Entity { position: local_position, color_hash: LOCAL_COLOR })
    } else if peers.contains_key(peer_of(entity)) {
        Some(
            Entity {
                position: peers[peer_of(entity)].position,
                color_hash: peers[peer_of(entity)].color_hash,
            },
        )
    } else {
        None
    }
}

/// Whether no peer of the registry is stale at `now`.
pub open spec fn all_fresh(peers: Map<u32, PeerRecord>, now: u64) -> bool {
    forall|id: u32| #[trigger] peers.contains_key(id) ==> !is_stale(peers[id].last_update, now)
}

/// Frames folded in at `now` keep a registry free of stale peers: whoever
/// they touch was heard of at `now`.
pub proof fn lemma_drain_keeps_fresh(peers: Map<u32, PeerRecord>, frames: Seq<Vec<u8>>, now: u64)
    requires
        all_fresh(peers, now),
    ensures
        all_fresh(drain_spec(peers, frames, now), now),
    decreases frames.len(),
{
    if frames.len() > 0 {
        lemma_drain_keeps_fresh(peers, frames.drop_last(), now);
    }
}

/// After a cycle at `now` no peer in the registry is stale at `now`,
/// whatever the registry held before and whatever came in.
pub proof fn lemma_cycle_leaves_no_stale_peer(
    peers: Map<u32, PeerRecord>,
    frames: Seq<Vec<u8>>,
    now: u64,
)
    ensures
        all_fresh(drain_spec(evict_spec(peers, now), frames, now), now),
{
    lemma_drain_keeps_fresh(evict_spec(peers, now), frames, now);
}

/// Tells whether the own identity is to be announced at `now`.
pub fn due(last: u64, now: u64) -> (out: bool)
    ensures
        out == identity_due(last, now),
{
    now >= last && now - last >= IDENTITY_INTERVAL
}

impl SyncState {
    /// The state of a client that starts at `now`: at the origin, with no
    /// peers, the identity counted as announced at `now`.
    pub fn new(now: u64) -> (out: Self)
        ensures
            out.local_position == (Position { x: 0, y: 0, z: 0 }),
            out.peers@ == Map::<u32, PeerRecord>::empty(),
            out.last_identity_broadcast == now,
    {
        SyncState {
            local_position: Position { x: 0, y: 0, z: 0 },
            peers: PeerRegistry::new(),
            last_identity_broadcast: now,
        }
    }

    /// Folds the forwarded frames into the registry, in order.
    pub fn drain(&mut self, inbound: &Vec<Vec<u8>>, now: u64)
        ensures
            final(self).peers@ == drain_spec(old(self).peers@, inbound@, now),
            final(self).local_position == old(self).local_position,
            final(self).last_identity_broadcast == old(self).last_identity_broadcast,
    {
        let ghost before = self.peers@;
        let mut i: usize = 0;
        while i < inbound.len()
            invariant
                i <= inbound@.len(),
                self.peers@ == drain_spec(before, inbound@.subrange(0, i as int), now),
                self.local_position == old(self).local_position,
                self.last_identity_broadcast == old(self).last_identity_broadcast,
            decreases inbound@.len() - i,
        {
            proof {
                let next = inbound@.subrange(0, i + 1);
                assert(next.drop_last() =~= inbound@.subrange(0, i as int));
                assert(next.last() == inbound@[i as int]);
            }
            self.peers.receive(inbound[i].as_slice(), now);
            i += 1;
        }
        assert(inbound@.subrange(0, inbound@.len() as int) =~= inbound@);
    }

    /// One update cycle at `now`. Takes the local participant's new
    /// position, drops the stale peers, then folds in the frames that came
    /// in, in order. Returns the identity packet to send where the last
    /// announcement is at least the announcement interval old, and then
    /// counts the identity as announced at `now`.
    pub fn cycle(
        &mut self,
        now: u64,
        local_position: Position,
        public_id: &[u8; 32],
        inbound: &Vec<Vec<u8>>,
    ) -> (announce: Option<Vec<u8>>)
        ensures
            final(self).local_position == local_position,
            final(self).peers@ == drain_spec(evict_spec(old(self).peers@, now), inbound@, now),
            all_fresh(final(self).peers@, now),
            announce is Some <==> identity_due(old(self).last_identity_broadcast, now),
            announce matches Some(packet) ==> packet@ == identity_packet(public_id@),
            final(self).last_identity_broadcast == if identity_due(
                old(self).last_identity_broadcast,
                now,
            ) {
                now
            } else {
                old(self).last_identity_broadcast
            },
    {
        self.local_position = local_position;
        self.peers.evict(now);
        let announce = if due(self.last_identity_broadcast, now) {
            self.last_identity_broadcast = now;
            Some(encode_identity(public_id))
        } else {
            None
        };
        self.drain(inbound, now);
        proof {
            lemma_cycle_leaves_no_stale_peer(old(self).peers@, inbound@, now);
        }
        announce
    }

    /// What is shown of entity `entity`: the local participant for number
    /// 0, else the peer whose identifier is the low 32 bits of the number.
    pub fn entity(&self, entity: u64) -> (out: Option<Entity>)
        ensures
            out == entity_spec(self.local_position, self.peers@, entity),
    {
        if entity == LOCAL_ENTITY {
            return Some(Entity { position: self.local_position, color_hash: LOCAL_COLOR });
        }
        let id: u32 = (entity & 0xFFFF_FFFF) as u32;
        assert(entity & 0xFFFF_FFFF == entity % 0x1_0000_0000) by (bit_vector);
        match self.peers.get(id) {
            Some(r) => Some(Entity { position: r.position, color_hash: r.color_hash }),
            None => None,
        }
    }
}

} // verus!
