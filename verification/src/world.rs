//! What the session layer keeps of a simulated world: the session entities
//! of its players, the handlers of multiplexed traffic, and the few values
//! that a handshake or a tick reads. The simulation itself lives with the
//! caller, which reports its changes as a [`WorldDiff`].

use crate::channel::{sent, Outbox, SendFailure};
use crate::protocol::DEFAULT_PROJECT_NAME;
use flume::Sender;
use std::collections::HashMap;
use vstd::prelude::*;
use vstd::string::*;

verus! {

/// Handler id under which the request/response service is registered among
/// the bidirectional-stream handlers.
pub const RPC_BISTREAM_ID: u32 = 1;

/// Most bytes that a request to the request/response service may have.
pub const RPC_REQUEST_LIMIT: usize = 100_000_000;

/// Names an entity of one world.
#[derive(Clone, Copy, Debug, PartialEq, Eq, Structural)]
pub struct EntityId(pub u64);

/// One of the three kinds of multiplexed traffic that handlers serve.
#[derive(Clone, Copy, Debug, PartialEq, Eq, Structural)]
pub enum HandlerKind {
    /// Ad-hoc bidirectional streams.
    BiStream,
    /// Ad-hoc unidirectional streams.
    UniStream,
    /// Datagrams.
    Datagram,
}

/// Handlers of ad-hoc bidirectional streams, by handler id.
pub type BiStreamHandlers<H> = HashMap<u32, H>;

/// Handlers of ad-hoc unidirectional streams, by handler id.
pub type UniStreamHandlers<H> = HashMap<u32, H>;

/// Handlers of datagrams, by handler id.
pub type DatagramHandlers<H> = HashMap<u32, H>;

/// Registers `handler` as the request/response service among the handlers
/// of bidirectional streams. It takes the place of a handler that was
/// registered as the service before.
pub fn register_rpc_bi_stream_handler<H>(handlers: &mut BiStreamHandlers<H>, handler: H)
    ensures
        final(handlers)@ == old(handlers)@.insert(RPC_BISTREAM_ID, handler),
{
    broadcast use vstd::std_specs::hash::group_hash_axioms;

    handlers.insert(RPC_BISTREAM_ID, handler);
}

/// What a handler of the request/response service is called with.
#[derive(Clone, Debug)]
pub struct RpcArgs {
    /// The user who asks.
    pub user_id: String,
}

impl RpcArgs {
    /// The session entity of the user who asks, if `world` holds one.
    pub fn get_player<H>(&self, world: &World<H>) -> (id: Option<EntityId>)
        ensures
            id == world.spec_player_by_user_id(self.user_id@),
    {
        world.player_by_user_id(self.user_id.as_str())
    }
}

/// One of the two outgoing channels of a player.
#[derive(Clone, Copy, Debug, PartialEq, Eq, Structural)]
pub enum StreamKind {
    /// World diffs.
    Entities,
    /// Performance samples.
    Stats,
}

/// The session entity of a player: who it stands for and how to reach the
/// player's connection. It is session state, not simulated data, and is
/// never stored with the world.
pub struct Entity {
    /// Display name, `Player ` followed by the user id.
    pub name: String,
    /// The user that the entity stands for.
    pub user_id: String,
    /// Outgoing world diffs.
    pub entity_stream: Outbox,
    /// Outgoing performance samples.
    pub stats_stream: Outbox,
    /// Id of the connection that serves the player now, once one is bound.
    pub connection: Option<String>,
    /// Keeps the entity out of whatever stores the world.
    pub dont_store: bool,
}

impl Entity {
    /// The outgoing channel of the given kind.
    pub open spec fn stream(&self, kind: StreamKind) -> Outbox {
        match kind {
            StreamKind::Entities => self.entity_stream,
            StreamKind::Stats => self.stats_stream,
        }
    }

    /// `after` is `self` once `msg` was offered to its channel of `kind` with
    /// `outcome`: the channel's record grew by `msg` if it was taken, and
    /// nothing else differs.
    pub open spec fn offered(
        &self,
        after: Entity,
        kind: StreamKind,
        msg: Seq<u8>,
        outcome: Result<(), SendFailure>,
    ) -> bool {
        &&& after.name == self.name
        &&& after.user_id == self.user_id
        &&& after.connection == self.connection
        &&& after.dont_store == self.dont_store
        &&& after.stream(kind).channel() == self.stream(kind).channel()
        &&& after.stream(kind)@ == sent(self.stream(kind)@, msg, outcome)
        &&& kind == StreamKind::Entities ==> after.stats_stream == self.stats_stream
        &&& kind == StreamKind::Stats ==> after.entity_stream == self.entity_stream
    }

    /// Offers `msg` to the channel of `kind`.
    pub fn offer(&mut self, kind: StreamKind, msg: Vec<u8>) -> (outcome: Result<(), SendFailure>)
        ensures
            old(self).offered(*final(self), kind, msg@, outcome),
    {
        match kind {
            StreamKind::Entities => self.entity_stream.push(msg),
            StreamKind::Stats => self.stats_stream.push(msg),
        }
    }
}

/// The name that a player's entity shows.
pub open spec fn player_name(user_id: Seq<char>) -> Seq<char> {
    "Player "@ + user_id
}

/// The session entity of a player who is about to join: named after the
/// user, sending through the two given channels, bound to no connection yet
/// and kept out of storage.
pub fn create_player_entity_data(
    user_id: &str,
    entities_tx: Sender<Vec<u8>>,
    stats_tx: Sender<Vec<u8>>,
) -> (entity: Entity)
    ensures
        entity.name@ == player_name(user_id@),
        entity.user_id@ == user_id@,
        entity.entity_stream.channel() == entities_tx,
        entity.entity_stream@ == Seq::<Seq<u8>>::empty(),
        entity.stats_stream.channel() == stats_tx,
        entity.stats_stream@ == Seq::<Seq<u8>>::empty(),
        entity.connection is None,
        entity.dont_store,
{
    Entity {
        name: "Player ".to_owned().concat(user_id),
        user_id: user_id.to_owned(),
        entity_stream: Outbox::new(entities_tx),
        stats_stream: Outbox::new(stats_tx),
        connection: None,
        dont_store: true,
    }
}

/// The user ids of `entities`, in order.
pub open spec fn user_ids(entities: Seq<(EntityId, Entity)>) -> Seq<Seq<char>> {
    Seq::new(entities.len(), |i: int| entities[i].1.user_id@)
}

/// The changes of a world since the diff before, as the simulation reports
/// them: how many there are and the one encoding that goes to every player.
pub struct WorldDiff {
    /// The world's version that the diff leads up to.
    pub version: u64,
    /// Number of changes.
    pub changes: usize,
    /// The encoded changes.
    pub encoded: Vec<u8>,
}

impl WorldDiff {
    /// Whether nothing changed.
    pub open spec fn spec_is_empty(&self) -> bool {
        self.changes == 0
    }

    /// Whether nothing changed.
    #[verifier::when_used_as_spec(spec_is_empty)]
    pub fn is_empty(&self) -> (r: bool)
        ensures
            r == self.spec_is_empty(),
    {
        self.changes == 0
    }
}

/// The session layer's part of a world. `H` is whatever the caller registers
/// as a handler.
pub struct World<H> {
    /// Name of the world.
    pub name: String,
    /// Name of the project that the world belongs to.
    pub project_name: String,
    /// Time of the last step, in nanoseconds since the epoch.
    pub time: u128,
    /// The players' session entities under their ids, oldest first.
    pub entities: Vec<(EntityId, Entity)>,
    /// The id that the next entity gets.
    pub next_id: u64,
    /// Handlers of ad-hoc bidirectional streams.
    pub bi_stream_handlers: BiStreamHandlers<H>,
    /// Handlers of ad-hoc unidirectional streams.
    pub uni_stream_handlers: UniStreamHandlers<H>,
    /// Handlers of datagrams.
    pub datagram_handlers: DatagramHandlers<H>,
}

/// Place of the first of `users` that equals `user`, if there is one.
pub open spec fn first_of(users: Seq<Seq<char>>, user: Seq<char>, at: Option<int>) -> bool {
    match at {
        Some(i) => 0 <= i < users.len() && users[i] == user && forall|j: int|
            0 <= j < i ==> users[j] != user,
        None => !users.contains(user),
    }
}

impl<H> World<H> {
    /// A world without players and without handlers.
    pub fn new(name: &str) -> (world: Self)
        ensures
            world.name@ == name@,
            world.project_name@ == DEFAULT_PROJECT_NAME@,
            world.time == 0,
            world.entities@ == Seq::<(EntityId, Entity)>::empty(),
            world.next_id == 0,
            world.bi_stream_handlers@ == Map::<u32, H>::empty(),
            world.uni_stream_handlers@ == Map::<u32, H>::empty(),
            world.datagram_handlers@ == Map::<u32, H>::empty(),
    {
        World {
            name: name.to_owned(),
            project_name: DEFAULT_PROJECT_NAME.to_owned(),
            time: 0,
            entities: Vec::new(),
            next_id: 0,
            bi_stream_handlers: HashMap::new(),
            uni_stream_handlers: HashMap::new(),
            datagram_handlers: HashMap::new(),
        }
    }

    /// `self` and `other` differ at most in their entities.
    pub open spec fn same_but_entities(&self, other: Self) -> bool {
        &&& self.name == other.name
        &&& self.project_name == other.project_name
        &&& self.time == other.time
        &&& self.next_id == other.next_id
        &&& self.bi_stream_handlers == other.bi_stream_handlers
        &&& self.uni_stream_handlers == other.uni_stream_handlers
        &&& self.datagram_handlers == other.datagram_handlers
    }

    /// Whether the world can name one more entity.
    pub open spec fn has_room(&self) -> bool {
        self.next_id < u64::MAX
    }

    /// Adds `entity` behind the others and names it. `None`, with nothing
    /// changed, exactly when the world has run out of names.
    pub fn spawn(&mut self, entity: Entity) -> (id: Option<EntityId>)
        ensures
            id is Some <==> old(self).has_room(),
            id is None ==> *final(self) == *old(self),
            id matches Some(id) ==> {
                &&& id == EntityId(old(self).next_id)
                &&& final(self).entities@ == old(self).entities@.push((id, entity))
                &&& final(self).next_id == old(self).next_id + 1
                &&& final(self).name == old(self).name
                &&& final(self).project_name == old(self).project_name
                &&& final(self).time == old(self).time
                &&& final(self).bi_stream_handlers == old(self).bi_stream_handlers
                &&& final(self).uni_stream_handlers == old(self).uni_stream_handlers
                &&& final(self).datagram_handlers == old(self).datagram_handlers
            },
    {
        if self.next_id == u64::MAX {
            return None;
        }
        let id = EntityId(self.next_id);
        self.next_id = self.next_id + 1;
        self.entities.push((id, entity));
        Some(id)
    }

    /// Place of the first entity that stands for `user_id`.
    pub fn find_player(&self, user_id: &str) -> (at: Option<usize>)
        ensures
            first_of(
                user_ids(self.entities@),
                user_id@,
                match at {
                    Some(i) => Some(i as int),
                    None => None,
                },
            ),
    {
        let mut i: usize = 0;
        while i < self.entities.len()
            invariant
                i <= self.entities@.len(),
                forall|j: int| 0 <= j < i ==> user_ids(self.entities@)[j] != user_id@,
            decreases self.entities@.len() - i,
        {
            if crate::str_map::same_str(self.entities[i].1.user_id.as_str(), user_id) {
                assert(user_ids(self.entities@)[i as int] == user_id@);
                return Some(i);
            }
            i += 1;
        }
        None
    }

    /// Id of the first entity that stands for `user`.
    pub open spec fn spec_player_by_user_id(&self, user: Seq<char>) -> Option<EntityId> {
        if user_ids(self.entities@).contains(user) {
            Some(self.entities@[user_ids(self.entities@).index_of_first(user)->0].0)
        } else {
            None
        }
    }

    /// Id of the first entity that stands for `user_id`.
    pub fn player_by_user_id(&self, user_id: &str) -> (id: Option<EntityId>)
        ensures
            id == self.spec_player_by_user_id(user_id@),
    {
        proof {
            user_ids(self.entities@).index_of_first_ensures(user_id@);
        }
        match self.find_player(user_id) {
            Some(at) => Some(self.entities[at].0),
            None => None,
        }
    }

    /// Number of players in the world.
    pub fn player_count(&self) -> (n: usize)
        ensures
            n == self.entities@.len(),
    {
        self.entities.len()
    }

    /// The handlers of the given kind of traffic.
    pub open spec fn handlers(&self, kind: HandlerKind) -> Map<u32, H> {
        match kind {
            HandlerKind::BiStream => self.bi_stream_handlers@,
            HandlerKind::UniStream => self.uni_stream_handlers@,
            HandlerKind::Datagram => self.datagram_handlers@,
        }
    }

    /// The handler that is registered for `handler_id` and the given kind of
    /// traffic.
    pub fn handler(&self, kind: HandlerKind, handler_id: u32) -> (handler: Option<&H>)
        ensures
            handler == match self.handlers(kind).get(handler_id) {
                Some(handler) => Some(&handler),
                None => None,
            },
    {
        broadcast use vstd::std_specs::hash::group_hash_axioms;

        match kind {
            HandlerKind::BiStream => self.bi_stream_handlers.get(&handler_id),
            HandlerKind::UniStream => self.uni_stream_handlers.get(&handler_id),
            HandlerKind::Datagram => self.datagram_handlers.get(&handler_id),
        }
    }

    /// Offers `msg` to the channel of `kind` of every player, oldest entity
    /// first, and reports the outcome for each. A refusal by one channel
    /// changes nothing for the others.
    pub fn send_to_all(&mut self, kind: StreamKind, msg: &Vec<u8>) -> (outcomes: Vec<
        Result<(), SendFailure>,
    >)
        ensures
            final(self).same_but_entities(*old(self)),
            all_offered(old(self).entities@, final(self).entities@, kind, msg@, outcomes@),
    {
        let mut outcomes: Vec<Result<(), SendFailure>> = Vec::new();
        let mut i: usize = 0;
        while i < self.entities.len()
            invariant
                self.same_but_entities(*old(self)),
                i <= self.entities@.len(),
                self.entities@.len() == old(self).entities@.len(),
                outcomes@.len() == i,
                forall|j: int|
                    0 <= j < i ==> (#[trigger] old(self).entities@[j]).0 == self.entities@[j].0
                        && old(self).entities@[j].1.offered(
                        self.entities@[j].1,
                        kind,
                        msg@,
                        outcomes@[j],
                    ),
                forall|j: int|
                    i <= j < self.entities@.len() ==> self.entities@[j] == old(self).entities@[j],
            decreases self.entities@.len() - i,
        {
            let copy = msg.clone();
            let entity = &mut self.entities[i].1;
            let outcome = entity.offer(kind, copy);
            outcomes.push(outcome);
            i += 1;
        }
        outcomes
    }
}

/// `after` is `before` once `msg` was offered to the channel of `kind` of
/// every entity, with `outcomes` in the order of the entities.
pub open spec fn all_offered(
    before: Seq<(EntityId, Entity)>,
    after: Seq<(EntityId, Entity)>,
    kind: StreamKind,
    msg: Seq<u8>,
    outcomes: Seq<Result<(), SendFailure>>,
) -> bool {
    &&& after.len() == before.len()
    &&& outcomes.len() == before.len()
    &&& forall|i: int|
        0 <= i < before.len() ==> (#[trigger] before[i]).0 == after[i].0 && before[i].1.offered(
            after[i].1,
            kind,
            msg,
            outcomes[i],
        )
}

/// `after` is `before` once a diff was broadcast with `outcomes`: an empty
/// diff reaches nobody, any other is offered to every entity's diff channel.
pub open spec fn flushed(
    before: Seq<(EntityId, Entity)>,
    after: Seq<(EntityId, Entity)>,
    diff: WorldDiff,
    outcomes: Seq<Result<(), SendFailure>>,
) -> bool {
    if diff.is_empty() {
        after == before && outcomes.len() == 0
    } else {
        all_offered(before, after, StreamKind::Entities, diff.encoded@, outcomes)
    }
}

/// How far the diffs of a world have been handed out.
#[derive(Clone, Copy, Debug, PartialEq, Eq, Structural)]
pub struct WorldStream {
    /// The world's version up to which its changes were broadcast.
    pub version: u64,
}

/// One simulated shard: a world and the state of its diff stream.
pub struct WorldInstance<H> {
    /// The world.
    pub world: World<H>,
    /// How far the world's diffs have been handed out.
    pub world_stream: WorldStream,
}

impl<H> WorldInstance<H> {
    /// An instance around `world` whose diff stream starts at version 0.
    pub fn new(world: World<H>) -> (instance: Self)
        ensures
            instance.world == world,
            instance.world_stream.version == 0,
    {
        WorldInstance { world, world_stream: WorldStream { version: 0 } }
    }

    /// Creates the session entity of a player. `None`, with nothing changed,
    /// exactly when the world has run out of entity names.
    pub fn spawn_player(&mut self, ed: Entity) -> (id: Option<EntityId>)
        ensures
            final(self).world_stream == old(self).world_stream,
            id is Some <==> old(self).world.has_room(),
            id is None ==> final(self).world == old(self).world,
            id matches Some(id) ==> {
                &&& id == EntityId(old(self).world.next_id)
                &&& final(self).world.entities@ == old(self).world.entities@.push((id, ed))
                &&& final(self).world.next_id == old(self).world.next_id + 1
                &&& final(self).world.name == old(self).world.name
                &&& final(self).world.project_name == old(self).world.project_name
                &&& final(self).world.time == old(self).world.time
                &&& final(self).world.bi_stream_handlers == old(self).world.bi_stream_handlers
                &&& final(self).world.uni_stream_handlers == old(self).world.uni_stream_handlers
                &&& final(self).world.datagram_handlers == old(self).world.datagram_handlers
            },
    {
        self.world.spawn(ed)
    }

    /// Removes the first entity that stands for `user_id` and hands it back.
    /// `None`, with nothing changed, exactly when no entity does.
    pub fn despawn_player(&mut self, user_id: &str) -> (gone: Option<Entity>)
        ensures
            final(self).world_stream == old(self).world_stream,
            gone is Some <==> user_ids(old(self).world.entities@).contains(user_id@),
            gone is None ==> final(self).world == old(self).world,
            gone matches Some(entity) ==> exists|at: int|
                {
                    &&& first_of(user_ids(old(self).world.entities@), user_id@, Some(at))
                    &&& entity == old(self).world.entities@[at].1
                    &&& final(self).world.entities@ == old(self).world.entities@.remove(at)
                    &&& final(self).world.same_but_entities(old(self).world)
                },
    {
        match self.world.find_player(user_id) {
            Some(at) => {
                let entity = self.world.entities.remove(at).1;
                assert(first_of(user_ids(old(self).world.entities@), user_id@, Some(at as int)));
                Some(entity)
            },
            None => None,
        }
    }

    /// Hands the changes of one tick to the players. An empty diff is not
    /// sent at all; any other goes, in one and the same encoding, to the
    /// diff channel of every player, and a channel that refuses it does not
    /// hold up the others. The outcomes come back in the order of the
    /// entities.
    pub fn broadcast_diffs(&mut self, diff: &WorldDiff) -> (outcomes: Vec<Result<(), SendFailure>>)
        ensures
            final(self).world_stream.version == diff.version,
            final(self).world.same_but_entities(old(self).world),
            flushed(old(self).world.entities@, final(self).world.entities@, *diff, outcomes@),
    {
        self.world_stream.version = diff.version;
        if diff.is_empty() {
            return Vec::new();
        }
        self.world.send_to_all(StreamKind::Entities, &diff.encoded)
    }

    /// Number of players in the instance.
    pub fn player_count(&self) -> (n: usize)
        ensures
            n == self.world.entities@.len(),
    {
        self.world.player_count()
    }

    /// Moves the instance's clock to `time`, nanoseconds since the epoch.
    pub fn step(&mut self, time: u128)
        ensures
            final(self).world.time == time,
            final(self).world.entities == old(self).world.entities,
            final(self).world.same_but_entities(World { time, ..old(self).world }),
            final(self).world_stream == old(self).world_stream,
    {
        self.world.time = time;
    }
}

} // verus!
