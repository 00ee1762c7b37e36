//! The client's registry of remote peers.
//!
//! A peer appears with the first position or identity packet that names it,
//! is refreshed by every later one, and is dropped once it has been silent
//! for the staleness window. Times are nanoseconds on a clock of the
//! caller's choosing that does not run backwards.

use crate::wire::{decode, decode_spec, split_forwarded, split_spec, Decoded, DecodedView, Position};
use std::collections::HashMap;
use vstd::prelude::*;
use vstd::std_specs::iter::IteratorSpec;

verus! {

broadcast use vstd::std_specs::hash::group_hash_axioms;

/// How long a peer may stay silent before it is dropped, in nanoseconds.
pub const STALE_AFTER: u64 = 5_000_000_000;

/// The colour hash of a peer whose identity has not arrived yet.
pub const UNKNOWN_COLOR: u32 = 0xFFFF_FFFF;

/// The first value of the colour hash.
pub const COLOR_SEED: u32 = 5381;

/// The last known state of one remote peer.
#[derive(Clone, Copy, Debug, PartialEq, Eq, Structural)]
pub struct PeerRecord {
    pub position: Position,
    pub color_hash: u32,
    pub last_update: u64,
}

/// The colour hash of a public identifier: starting from the seed, each byte
/// in turn takes the hash to `hash * 33 + byte`, kept to 32 bits.
pub open spec fn color_hash_spec(key: Seq<u8>) -> u32
    decreases key.len(),
{
    if key.len() == 0 {
        COLOR_SEED
    } else {
        ((color_hash_spec(key.drop_last()) as int * 33 + key.last() as int) % 0x1_0000_0000) as u32
    }
}

/// The position of a peer that has not sent one yet: the origin.
pub open spec fn origin() -> Position {
    Position { x: 0, y: 0, z: 0 }
}

/// Whether a peer last heard of at `last_update` is stale at `now`.
pub open spec fn is_stale(last_update: u64, now: u64) -> bool {
    now - last_update >= STALE_AFTER
}

/// The registry after a decoded packet from `sender`. A position or
/// identity packet makes the sender present and refreshes its time. A
/// position packet sets the position only, an identity packet the colour
/// hash only; a sender not seen before gets the unknown colour, or the
/// origin, for the other. Malformed packets and packets of unknown type
/// change nothing.
pub open spec fn apply_spec(
    peers: Map<u32, PeerRecord>,
    sender: u32,
    packet: DecodedView,
    now: u64,
) -> Map<u32, PeerRecord> {
    match packet {
        DecodedView::Position(p) => peers.insert(
            sender,
            PeerRecord {
                position: p,
                color_hash: if peers.contains_key(sender) {
                    peers[sender].color_hash
                } else {
                    UNKNOWN_COLOR
                },
                last_update: now,
            },
        ),
        DecodedView::Identity(key) => peers.insert(
            sender,
            PeerRecord {
                position: if peers.contains_key(sender) {
                    peers[sender].position
                } else {
                    origin()
                },
                color_hash: color_hash_spec(key),
                last_update: now,
            },
        ),
        DecodedView::Malformed => peers,
        DecodedView::UnknownType(_) => peers,
    }
}

/// The registry after a forwarded frame. A frame too short to name a sender
/// changes nothing.
pub open spec fn receive_spec(peers: Map<u32, PeerRecord>, frame: Seq<u8>, now: u64) -> Map<
    u32,
    PeerRecord,
> {
    match split_spec(frame) {
        Some((sender, packet)) => apply_spec(peers, sender, decode_spec(packet), now),
        None => peers,
    }
}

/// The registry without the peers that are stale at `now`.
pub open spec fn evict_spec(peers: Map<u32, PeerRecord>, now: u64) -> Map<u32, PeerRecord> {
    Map::new(
        |id: u32| peers.contains_key(id) && !is_stale(peers[id].last_update, now),
        |id: u32| peers[id],
    )
}

/// A peer survives eviction exactly while it has been silent for less than
/// the staleness window, and its record is then untouched.
pub proof fn lemma_eviction_by_age(peers: Map<u32, PeerRecord>, id: u32, now: u64)
    requires
        peers.contains_key(id),
    ensures
        evict_spec(peers, now).contains_key(id) <==> now - peers[id].last_update < STALE_AFTER,
        evict_spec(peers, now).contains_key(id) ==> evict_spec(peers, now)[id] == peers[id],
{
}

/// A position or identity packet makes its sender present with the time
/// refreshed. A position packet sets the position and keeps the colour hash;
/// an identity packet sets the colour hash and keeps the position. No other
/// peer is touched.
pub proof fn lemma_packet_updates_sender(
    peers: Map<u32, PeerRecord>,
    sender: u32,
    packet: DecodedView,
    now: u64,
)
    requires
        packet is Position || packet is Identity,
    ensures
        apply_spec(peers, sender, packet, now).contains_key(sender),
        apply_spec(peers, sender, packet, now)[sender].last_update == now,
        packet matches DecodedView::Position(p) ==> {
            &&& apply_spec(peers, sender, packet, now)[sender].position == p
            &&& peers.contains_key(sender) ==> apply_spec(peers, sender, packet, now)[sender].color_hash
                == peers[sender].color_hash
        },
        packet matches DecodedView::Identity(key) ==> {
            &&& apply_spec(peers, sender, packet, now)[sender].color_hash == color_hash_spec(key)
            &&& peers.contains_key(sender) ==> apply_spec(peers, sender, packet, now)[sender].position
                == peers[sender].position
        },
        forall|other: u32|
            other != sender ==> apply_spec(peers, sender, packet, now).get(other) == peers.get(
                other,
            ),
{
}

/// A malformed packet and one of unknown type leave the registry as it is.
pub proof fn lemma_bad_packet_changes_nothing(
    peers: Map<u32, PeerRecord>,
    sender: u32,
    packet: DecodedView,
    now: u64,
)
    requires
        packet is Malformed || packet is UnknownType,
    ensures
        apply_spec(peers, sender, packet, now) == peers,
{
}

/// Of two position packets from one peer, the one applied last decides the
/// position, whatever the order in which they were sent.
pub proof fn lemma_last_position_wins(
    peers: Map<u32, PeerRecord>,
    sender: u32,
    first: Position,
    second: Position,
    first_at: u64,
    second_at: u64,
)
    ensures
        ({
            let once = apply_spec(peers, sender, DecodedView::Position(first), first_at);
            let twice = apply_spec(once, sender, DecodedView::Position(second), second_at);
            &&& twice.contains_key(sender)
            &&& twice[sender].position == second
            &&& twice[sender].last_update == second_at
        }),
{
}

/// The colour hash depends on the identifier alone: equal identifiers have
/// equal hashes.
pub proof fn lemma_color_hash_deterministic(a: Seq<u8>, b: Seq<u8>)
    requires
        a =~= b,
    ensures
        color_hash_spec(a) == color_hash_spec(b),
{
}

/// Computes the colour hash of a public identifier.
pub fn color_hash(key: &[u8; 32]) -> (hash: u32)
    ensures
        hash == color_hash_spec(key@),
{
    let mut hash: u32 = COLOR_SEED;
    let mut i: usize = 0;
    while i < 32
        invariant
            i <= 32,
            hash == color_hash_spec(key@.subrange(0, i as int)),
        decreases 32 - i,
    {
        let byte: u8 = key[i];
        proof {
            let next = key@.subrange(0, i + 1);
            assert(next.drop_last() =~= key@.subrange(0, i as int));
            assert(next.last() == byte);
        }
        hash = hash.wrapping_mul(33).wrapping_add(byte as u32);
        i += 1;
    }
    assert(key@.subrange(0, 32) =~= key@);
    hash
}

/// Tells whether a peer last heard of at `last_update` is stale at `now`.
pub fn stale(last_update: u64, now: u64) -> (out: bool)
    ensures
        out == is_stale(last_update, now),
{
    now >= last_update && now - last_update >= STALE_AFTER
}

/// The remote peers that the client currently knows, by sender identifier.
pub struct PeerRegistry {
    peers: HashMap<u32, PeerRecord>,
}

impl View for PeerRegistry {
    type V = Map<u32, PeerRecord>;

    closed spec fn view(&self) -> Map<u32, PeerRecord> {
        self.peers@
    }
}

impl PeerRegistry {
    /// An empty registry.
    pub fn new() -> (out: Self)
        ensures
            out@ == Map::<u32, PeerRecord>::empty(),
    {
        PeerRegistry { peers: HashMap::new() }
    }

    /// The number of peers present.
    pub fn len(&self) -> (n: usize)
        ensures
            n == self@.len(),
            self@.dom().finite(),
    {
        self.peers.len()
    }

    /// Whether `id` is present.
    pub fn contains(&self, id: u32) -> (out: bool)
        ensures
            out == self@.contains_key(id),
    {
        self.peers.contains_key(&id)
    }

    /// The record of `id`, if it is present.
    pub fn get(&self, id: u32) -> (out: Option<PeerRecord>)
        ensures
            out == self@.get(id),
    {
        match self.peers.get(&id) {
            Some(r) => Some(*r),
            None => None,
        }
    }

    /// Folds one decoded packet from `sender` into the registry.
    pub fn apply(&mut self, sender: u32, packet: &Decoded, now: u64)
        ensures
            final(self)@ == apply_spec(old(self)@, sender, packet@, now),
    {
        let prev = self.get(sender);
        match packet {
            Decoded::Position(p) => {
                let color_hash: u32 = match prev {
                    Some(r) => r.color_hash,
                    None => UNKNOWN_COLOR,
                };
                self.peers.insert(sender, PeerRecord { position: *p, color_hash, last_update: now });
            },
            Decoded::Identity(key) => {
                let position = match prev {
                    Some(r) => r.position,
                    None => Position { x: 0, y: 0, z: 0 },
                };
                let color_hash: u32 = color_hash(key);
                self.peers.insert(sender, PeerRecord { position, color_hash, last_update: now });
            },
            Decoded::Malformed => {},
            Decoded::UnknownType(_) => {},
        }
    }

    /// Folds one forwarded frame into the registry: strips the sender
    /// prefix, decodes the packet and applies it. Frames that are too
    /// short, malformed or of unknown type change nothing.
    pub fn receive(&mut self, frame: &[u8], now: u64)
        ensures
            final(self)@ == receive_spec(old(self)@, frame@, now),
    {
        match split_forwarded(frame) {
            Some((sender, packet)) => {
                let decoded = decode(packet);
                self.apply(sender, &decoded, now);
            },
            None => {},
        }
    }

    /// Drops every peer that is stale at `now` and keeps the others as they
    /// are.
    pub fn evict(&mut self, now: u64)
        ensures
            final(self)@ == evict_spec(old(self)@, now),
    {
        let ghost before = self@;
        let ids = self.ids();
        let mut i: usize = 0;
        assert forall|j: int| 0 <= j < ids@.len() implies self@.contains_key(
            #[trigger] ids@[j],
        ) by {
            assert(ids@.contains(ids@[j]));
        }
        while i < ids.len()
            invariant
                i <= ids@.len(),
                ids@.no_duplicates(),
                forall|id: u32| ids@.contains(id) <==> before.contains_key(id),
                forall|id: u32| #[trigger]
                    self@.contains_key(id) ==> before.contains_key(id) && self@[id] == before[id],
                forall|j: int|
                    0 <= j < i ==> (self@.contains_key(#[trigger] ids@[j]) <==> !is_stale(
                        before[ids@[j]].last_update,
                        now,
                    )),
                forall|j: int| i <= j < ids@.len() ==> self@.contains_key(#[trigger] ids@[j]),
            decreases ids@.len() - i,
        {
            let id: u32 = ids[i];
            assert(ids@.contains(id));
            let last_update: u64 = match self.peers.get(&id) {
                Some(r) => r.last_update,
                None => now,
            };
            let ghost kept = self@;
            if stale(last_update, now) {
                self.peers.remove(&id);
                assert(self@ == kept.remove(id));
            }
            assert forall|k: u32| #[trigger] self@.contains_key(k) implies before.contains_key(k)
                && self@[k] == before[k] by {
                assert(kept.contains_key(k));
            }
            i += 1;
        }
        proof {
            assert forall|id: u32|
                self@.contains_key(id) <==> (before.contains_key(id) && !is_stale(
                    before[id].last_update,
                    now,
                )) by {
                if before.contains_key(id) {
                    assert(ids@.contains(id));
                    let j = choose|j: int| 0 <= j < ids@.len() && ids@[j] == id;
                    assert(self@.contains_key(ids@[j]) <==> !is_stale(
                        before[ids@[j]].last_update,
                        now,
                    ));
                }
            }
            assert(self@ =~= evict_spec(before, now));
        }
    }

    /// At most `max` identifiers of peers present, each once, in no
    /// particular order. All of them where `max` allows.
    pub fn ids_up_to(&self, max: usize) -> (out: Vec<u32>)
        ensures
            out@.no_duplicates(),
            out@.len() == if max <= self@.len() { max as nat } else { self@.len() },
            forall|id: u32| out@.contains(id) ==> self@.contains_key(id),
    {
        let all = self.ids();
        let mut out: Vec<u32> = Vec::new();
        let mut i: usize = 0;
        while i < all.len() && i < max
            invariant
                i <= all@.len(),
                i <= max,
                out@ == all@.subrange(0, i as int),
            decreases all@.len() - i,
        {
            out.push(all[i]);
            i += 1;
            assert(out@ =~= all@.subrange(0, i as int));
        }
        proof {
            assert forall|id: u32| out@.contains(id) implies self@.contains_key(id) by {
                let j = choose|j: int| 0 <= j < out@.len() && out@[j] == id;
                assert(all@[j] == id);
                assert(all@.contains(id));
            }
        }
        out
    }

    /// The identifiers of all peers present, each once, in no particular
    /// order.
    pub fn ids(&self) -> (out: Vec<u32>)
        ensures
            out@.no_duplicates(),
            out@.len() == self@.len(),
            forall|id: u32| out@.contains(id) <==> self@.contains_key(id),
    {
        let mut out: Vec<u32> = Vec::new();
        for id in it: self.peers.keys()
            invariant
                out@.len() == it.index(),
                forall|j: int| 0 <= j < out@.len() ==> out@[j] == *it.seq()[j],
        {
            out.push(*id);
        }
        proof {
            let keys = self.peers.keys().remaining();
            assert(out@ =~= keys.unref());
            assert forall|id: u32| out@.contains(id) <==> self@.contains_key(id) by {
                assert(keys.unref().to_set().contains(id) <==> self.peers@.dom().contains(id));
            }
            assert forall|i: int, j: int| 0 <= i < j < out@.len() implies out@[i] != out@[j] by {
                assert(keys[i] != keys[j]);
            }
        }
        out
    }
}

} // verus!
