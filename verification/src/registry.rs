//! The registry of a server: its world instances and the players who are
//! connected to them.

use crate::channel::{sent, Outbox, SendFailure};
use crate::protocol::{ServerInfo, DEFAULT_PROJECT_NAME, VERSION};
use crate::str_map::{lemma_changed_under, StrMap};
use crate::task::{cancel, empty_cell, Cancellation};
use crate::world::{
    all_offered, create_player_entity_data, first_of, flushed, user_ids, Entity, EntityId,
    StreamKind, World, WorldDiff, WorldInstance,
};
use flume::Sender;
use once_cell::sync::OnceCell;
use std::sync::Arc;
use tokio::task::JoinHandle;
use vstd::prelude::*;

verus! {

/// Key of the instance that a server starts with and that new players join.
pub const MAIN_INSTANCE_ID: &'static str = "main";

/// A player known to the registry.
pub struct Player {
    /// Key of the instance that the player is in.
    pub instance: String,
    /// Cancels the task of the connection that serves the player.
    pub abort_handle: Arc<OnceCell<JoinHandle<()>>>,
    /// Id of the connection that serves the player. A connection with
    /// another id is stale.
    pub connection_id: String,
}

impl Player {
    /// A player in `instance`, served by the connection `connection_id` whose
    /// task `abort_handle` cancels.
    pub fn new(
        instance: String,
        abort_handle: Arc<OnceCell<JoinHandle<()>>>,
        connection_id: String,
    ) -> (player: Self)
        ensures
            player.instance == instance,
            player.abort_handle == abort_handle,
            player.connection_id == connection_id,
    {
        Self { instance, abort_handle, connection_id }
    }

    /// A player in `instance` without a task to cancel.
    pub fn new_local(instance: String, connection_id: String) -> (player: Self)
        ensures
            player.instance == instance,
            player.connection_id == connection_id,
    {
        Self { instance, abort_handle: Arc::new(empty_cell()), connection_id }
    }

    /// Asks the task of the player's connection to cancel, if one is on
    /// record. The receipt names the player's handle.
    pub fn cancel(&self) -> (done: Cancellation)
        ensures
            done.handle() == self.abort_handle,
    {
        cancel(&self.abort_handle)
    }
}

/// The registry: every world instance under its key and every connected
/// player under the user id. One lock guards both maps together.
pub struct ServerState<H> {
    /// The world instances.
    pub instances: StrMap<WorldInstance<H>>,
    /// The connected players.
    pub players: StrMap<Player>,
}

/// Number of players in all of `instances`.
pub open spec fn total_players<H>(instances: Seq<WorldInstance<H>>) -> nat
    decreases instances.len(),
{
    if instances.len() == 0 {
        0
    } else {
        total_players(instances.drop_last()) + instances.last().world.entities@.len()
    }
}

/// `after` is `before` with its clock moved to `time`.
pub open spec fn stepped<H>(before: WorldInstance<H>, after: WorldInstance<H>, time: u128) -> bool {
    &&& after.world.time == time
    &&& after.world.entities == before.world.entities
    &&& after.world.same_but_entities(World { time, ..before.world })
    &&& after.world_stream == before.world_stream
}

/// `after` is `before` once the diff reported for it, if any, was broadcast
/// with `outcomes`.
pub open spec fn instance_flushed<H>(
    before: WorldInstance<H>,
    after: WorldInstance<H>,
    diff: Option<WorldDiff>,
    outcomes: Seq<Result<(), SendFailure>>,
) -> bool {
    match diff {
        Some(diff) => {
            &&& after.world_stream.version == diff.version
            &&& after.world.same_but_entities(before.world)
            &&& flushed(before.world.entities@, after.world.entities@, diff, outcomes)
        },
        None => after == before && outcomes.len() == 0,
    }
}

/// `after` is `before` once `sample` was offered to the stat channel of each
/// of its players with `outcomes`.
pub open spec fn instance_sampled<H>(
    before: WorldInstance<H>,
    after: WorldInstance<H>,
    sample: Seq<u8>,
    outcomes: Seq<Result<(), SendFailure>>,
) -> bool {
    &&& after.world_stream == before.world_stream
    &&& after.world.same_but_entities(before.world)
    &&& all_offered(
        before.world.entities@,
        after.world.entities@,
        StreamKind::Stats,
        sample,
        outcomes,
    )
}

impl<H> ServerState<H> {
    /// A registry with the main instance alone, around an empty world, and
    /// no players.
    pub fn new_local() -> (state: Self)
        ensures
            state.players@ == Map::<Seq<char>, Player>::empty(),
            state.instances@.dom() == set![MAIN_INSTANCE_ID@],
            state.instances.spec_keys() == seq![MAIN_INSTANCE_ID@],
            state.instances@[MAIN_INSTANCE_ID@].world.name@ == "main_server"@,
            state.instances@[MAIN_INSTANCE_ID@].world.project_name@ == DEFAULT_PROJECT_NAME@,
            state.instances@[MAIN_INSTANCE_ID@].world.time == 0,
            state.instances@[MAIN_INSTANCE_ID@].world.entities@.len() == 0,
            state.instances@[MAIN_INSTANCE_ID@].world.next_id == 0,
            state.instances@[MAIN_INSTANCE_ID@].world.bi_stream_handlers@ == Map::<u32, H>::empty(),
            state.instances@[MAIN_INSTANCE_ID@].world.uni_stream_handlers@ == Map::<
                u32,
                H,
            >::empty(),
            state.instances@[MAIN_INSTANCE_ID@].world.datagram_handlers@ == Map::<u32, H>::empty(),
            state.instances@[MAIN_INSTANCE_ID@].world_stream.version == 0,
            state.wf(),
    {
        let mut instances = StrMap::new();
        instances.insert(MAIN_INSTANCE_ID.to_owned(), WorldInstance::new(World::new("main_server")));
        let state = ServerState { instances, players: StrMap::new() };
        proof {
            assert(state.instances@.dom() =~= set![MAIN_INSTANCE_ID@]);
            assert(state.instances.spec_keys() =~= seq![MAIN_INSTANCE_ID@]);
            assert forall|k: Seq<char>| #[trigger]
                state.instances@.contains_key(k) implies state.instance_sound(k) by {
                assert(k == MAIN_INSTANCE_ID@);
                assert(user_ids(state.instances@[k].world.entities@) =~= Seq::<Seq<char>>::empty());
            }
        }
        state
    }

    /// A registry over `instances` with no players. It meets the
    /// registry's invariant if no instance holds an entity.
    pub fn new(instances: StrMap<WorldInstance<H>>) -> (state: Self)
        ensures
            state.instances == instances,
            state.players@ == Map::<Seq<char>, Player>::empty(),
            (forall|key: Seq<char>| #[trigger]
                instances@.contains_key(key) ==> instances@[key].world.entities@.len() == 0)
                ==> state.wf(),
    {
        proof {
            use_type_invariant(&instances);
        }
        let state = ServerState { instances, players: StrMap::new() };
        proof {
            if forall|key: Seq<char>| #[trigger]
                instances@.contains_key(key) ==> instances@[key].world.entities@.len() == 0 {
                assert forall|key: Seq<char>| #[trigger]
                    state.instances@.contains_key(key) implies state.instance_sound(key) by {
                    assert(user_ids(state.instances@[key].world.entities@) =~= Seq::<
                        Seq<char>,
                    >::empty());
                }
            }
        }
        state
    }

    /// What the registry owes the player `user`: the player's instance is
    /// there and holds an entity for the user, and every entity that stands
    /// for the user there is bound to the connection on record.
    pub open spec fn player_sound(&self, user: Seq<char>) -> bool {
        let player = self.players@[user];
        let entities = self.instances@[player.instance@].world.entities@;
        &&& self.instances@.contains_key(player.instance@)
        &&& user_ids(entities).contains(user)
        &&& forall|i: int|
            0 <= i < entities.len() && #[trigger] entities[i].1.user_id@ == user ==> (
            entities[i].1.connection matches Some(c) && c@ == player.connection_id@)
    }

    /// What the registry owes the instance under `key`: no user has two
    /// entities in it, and each of its entities stands for a player who is
    /// on record in this instance.
    pub open spec fn instance_sound(&self, key: Seq<char>) -> bool {
        let entities = self.instances@[key].world.entities@;
        &&& user_ids(entities).no_duplicates()
        &&& forall|i: int|
            0 <= i < entities.len() ==> self.players@.contains_key(
                #[trigger] entities[i].1.user_id@,
            ) && self.players@[entities[i].1.user_id@].instance@ == key
    }

    /// The registry's invariant: every player is in a live instance, and
    /// players and session entities pair off one to one.
    pub open spec fn wf(&self) -> bool {
        &&& self.instances.wf()
        &&& self.players.wf()
        &&& forall|user: Seq<char>| #[trigger]
            self.players@.contains_key(user) ==> self.player_sound(user)
        &&& forall|key: Seq<char>| #[trigger]
            self.instances@.contains_key(key) ==> self.instance_sound(key)
    }

    /// Moves the clock of every instance to `time`, nanoseconds since the
    /// epoch.
    pub fn step(&mut self, time: u128)
        ensures
            final(self).players == old(self).players,
            final(self).instances.spec_keys() == old(self).instances.spec_keys(),
            final(self).instances.spec_values().len() == old(self).instances.spec_values().len(),
            forall|i: int|
                0 <= i < old(self).instances.spec_values().len() ==> stepped(
                    #[trigger] old(self).instances.spec_values()[i],
                    final(self).instances.spec_values()[i],
                    time,
                ),
            old(self).wf() ==> final(self).wf(),
    {
        let n = self.instances.len();
        let mut i: usize = 0;
        while i < n
            invariant
                i <= n,
                n == old(self).instances.spec_values().len(),
                self.players == old(self).players,
                self.instances.spec_keys() == old(self).instances.spec_keys(),
                self.instances.spec_values().len() == n,
                forall|j: int|
                    0 <= j < i ==> stepped(
                        #[trigger] old(self).instances.spec_values()[j],
                        self.instances.spec_values()[j],
                        time,
                    ),
                forall|j: int|
                    i <= j < n ==> self.instances.spec_values()[j] == old(
                        self,
                    ).instances.spec_values()[j],
            decreases n - i,
        {
            let instance = self.instances.value_at_mut(i);
            instance.step(time);
            i += 1;
        }
        proof {
            use_type_invariant(&self.instances);
            if old(self).wf() {
                lemma_same_bindings_keep_wf(*old(self), *self);
            }
        }
    }

    /// Broadcasts the diff that `diffs` holds under an instance's key to the
    /// players of that instance, for every instance in turn. The outcomes
    /// come back per instance, in the order of the instances.
    pub fn broadcast_diffs(&mut self, diffs: &StrMap<WorldDiff>) -> (outcomes: Vec<
        Vec<Result<(), SendFailure>>,
    >)
        ensures
            final(self).players == old(self).players,
            final(self).instances.spec_keys() == old(self).instances.spec_keys(),
            final(self).instances.spec_values().len() == old(self).instances.spec_values().len(),
            outcomes@.len() == old(self).instances.spec_values().len(),
            forall|i: int|
                0 <= i < old(self).instances.spec_values().len() ==> instance_flushed(
                    #[trigger] old(self).instances.spec_values()[i],
                    final(self).instances.spec_values()[i],
                    diffs@.get(old(self).instances.spec_keys()[i]),
                    outcomes@[i]@,
                ),
            old(self).wf() ==> final(self).wf(),
    {
        let mut outcomes: Vec<Vec<Result<(), SendFailure>>> = Vec::new();
        let n = self.instances.len();
        let mut i: usize = 0;
        while i < n
            invariant
                i <= n,
                n == old(self).instances.spec_values().len(),
                n == old(self).instances.spec_keys().len(),
                self.players == old(self).players,
                self.instances.spec_keys() == old(self).instances.spec_keys(),
                self.instances.spec_values().len() == n,
                outcomes@.len() == i,
                forall|j: int|
                    0 <= j < i ==> instance_flushed(
                        #[trigger] old(self).instances.spec_values()[j],
                        self.instances.spec_values()[j],
                        diffs@.get(old(self).instances.spec_keys()[j]),
                        outcomes@[j]@,
                    ),
                forall|j: int|
                    i <= j < n ==> self.instances.spec_values()[j] == old(
                        self,
                    ).instances.spec_values()[j],
            decreases n - i,
        {
            let diff = diffs.get(self.instances.key_at(i).as_str());
            let instance = self.instances.value_at_mut(i);
            let sent = match diff {
                Some(diff) => instance.broadcast_diffs(diff),
                None => Vec::new(),
            };
            outcomes.push(sent);
            i += 1;
        }
        proof {
            use_type_invariant(&self.instances);
            if old(self).wf() {
                lemma_same_bindings_keep_wf(*old(self), *self);
            }
        }
        outcomes
    }

    /// Offers a performance sample to the stat channel of every player of
    /// every instance. The outcomes come back per instance, in the order of
    /// the instances.
    pub fn broadcast_stats(&mut self, sample: &Vec<u8>) -> (outcomes: Vec<
        Vec<Result<(), SendFailure>>,
    >)
        ensures
            final(self).players == old(self).players,
            final(self).instances.spec_keys() == old(self).instances.spec_keys(),
            final(self).instances.spec_values().len() == old(self).instances.spec_values().len(),
            outcomes@.len() == old(self).instances.spec_values().len(),
            forall|i: int|
                0 <= i < old(self).instances.spec_values().len() ==> instance_sampled(
                    #[trigger] old(self).instances.spec_values()[i],
                    final(self).instances.spec_values()[i],
                    sample@,
                    outcomes@[i]@,
                ),
            old(self).wf() ==> final(self).wf(),
    {
        let mut outcomes: Vec<Vec<Result<(), SendFailure>>> = Vec::new();
        let n = self.instances.len();
        let mut i: usize = 0;
        while i < n
            invariant
                i <= n,
                n == old(self).instances.spec_values().len(),
                self.players == old(self).players,
                self.instances.spec_keys() == old(self).instances.spec_keys(),
                self.instances.spec_values().len() == n,
                outcomes@.len() == i,
                forall|j: int|
                    0 <= j < i ==> instance_sampled(
                        #[trigger] old(self).instances.spec_values()[j],
                        self.instances.spec_values()[j],
                        sample@,
                        outcomes@[j]@,
                    ),
                forall|j: int|
                    i <= j < n ==> self.instances.spec_values()[j] == old(
                        self,
                    ).instances.spec_values()[j],
            decreases n - i,
        {
            let instance = self.instances.value_at_mut(i);
            let sent = instance.world.send_to_all(StreamKind::Stats, sample);
            outcomes.push(sent);
            i += 1;
        }
        proof {
            use_type_invariant(&self.instances);
            if old(self).wf() {
                lemma_same_bindings_keep_wf(*old(self), *self);
            }
        }
        outcomes
    }

    /// Number of players in all instances together; `usize::MAX` should
    /// there be more.
    pub fn player_count(&self) -> (n: usize)
        ensures
            n == if total_players(self.instances.spec_values()) <= usize::MAX {
                total_players(self.instances.spec_values())
            } else {
                usize::MAX as nat
            },
    {
        let len = self.instances.len();
        let mut n: usize = 0;
        let mut i: usize = 0;
        while i < len
            invariant
                i <= len,
                len == self.instances.spec_values().len(),
                n == if total_players(self.instances.spec_values().take(i as int)) <= usize::MAX {
                    total_players(self.instances.spec_values().take(i as int))
                } else {
                    usize::MAX as nat
                },
            decreases len - i,
        {
            let c = self.instances.value_at(i).player_count();
            proof {
                let all = self.instances.spec_values();
                assert(all.take(i + 1).drop_last() =~= all.take(i as int));
                assert(all.take(i + 1).last() == all[i as int]);
            }
            if c > usize::MAX - n {
                n = usize::MAX;
            } else {
                n = n + c;
            }
            i += 1;
        }
        proof {
            let all = self.instances.spec_values();
            assert(all.take(len as int) =~= all);
        }
        n
    }
}

impl<H> ServerState<H> {
    /// Key of the instance that `user` is recorded in, where that instance
    /// is there.
    pub open spec fn spec_player_instance_key(&self, user: Seq<char>) -> Option<Seq<char>> {
        if self.players@.contains_key(user) && self.instances@.contains_key(
            self.players@[user].instance@,
        ) {
            Some(self.players@[user].instance@)
        } else {
            None
        }
    }

    /// The instance that the player `user_id` is in. `None` when no such
    /// player is on record, or when the player's instance is gone.
    pub fn get_player_world_instance(&self, user_id: &str) -> (instance: Option<&WorldInstance<H>>)
        ensures
            instance == match self.spec_player_instance_key(user_id@) {
                Some(key) => Some(&self.instances@[key]),
                None => None,
            },
    {
        match self.players.get(user_id) {
            Some(player) => self.instances.get(player.instance.as_str()),
            None => None,
        }
    }

    /// The instance that the player `user_id` is in, to be changed in place.
    /// `None` when no such player is on record, or when the player's
    /// instance is gone.
    pub fn get_player_world_instance_mut(&mut self, user_id: &str) -> (instance: Option<
        &mut WorldInstance<H>,
    >)
        ensures
            instance is Some <==> old(self).spec_player_instance_key(user_id@) is Some,
            instance is None ==> *final(self) == *old(self),
            instance matches Some(instance) ==> {
                let key = old(self).spec_player_instance_key(user_id@)->0;
                &&& *instance == old(self).instances@[key]
                &&& final(self).players == old(self).players
                &&& final(self).instances.spec_keys() == old(self).instances.spec_keys()
                &&& final(self).instances.spec_values() == old(self).instances.spec_values().update(
                    old(self).instances.spec_keys().index_of(key),
                    *final(instance),
                )
            },
    {
        let at = match self.players.get(user_id) {
            Some(player) => self.instances.position(player.instance.as_str()),
            None => None,
        };
        proof {
            use_type_invariant(&self.instances);
            self.instances.lemma_entries();
        }
        match at {
            Some(i) => Some(self.instances.value_at_mut(i)),
            None => None,
        }
    }

    /// The world of the player `user_id`. `None` when no such player is on
    /// record, or when the player's instance is gone.
    pub fn get_player_world(&self, user_id: &str) -> (world: Option<&World<H>>)
        ensures
            world == match self.spec_player_instance_key(user_id@) {
                Some(key) => Some(&self.instances@[key].world),
                None => None,
            },
    {
        match self.get_player_world_instance(user_id) {
            Some(instance) => Some(&instance.world),
            None => None,
        }
    }

    /// The world of the player `user_id`, to be changed in place. `None`
    /// when no such player is on record, or when the player's instance is
    /// gone.
    pub fn get_player_world_mut(&mut self, user_id: &str) -> (world: Option<&mut World<H>>)
        ensures
            world is Some <==> old(self).spec_player_instance_key(user_id@) is Some,
            world is None ==> *final(self) == *old(self),
            world matches Some(world) ==> {
                let key = old(self).spec_player_instance_key(user_id@)->0;
                let at = old(self).instances.spec_keys().index_of(key);
                &&& *world == old(self).instances@[key].world
                &&& final(self).players == old(self).players
                &&& final(self).instances.spec_keys() == old(self).instances.spec_keys()
                &&& final(self).instances.spec_values() == old(self).instances.spec_values().update(
                    at,
                    WorldInstance { world: *final(world), ..old(self).instances@[key] },
                )
            },
    {
        match self.get_player_world_instance_mut(user_id) {
            Some(instance) => Some(&mut instance.world),
            None => None,
        }
    }

    /// Why the instance under `key` cannot be taken out, if anything stands
    /// in the way.
    pub open spec fn remove_error(&self, key: Seq<char>) -> Option<RemoveError> {
        if !self.instances@.contains_key(key) {
            Some(RemoveError::MissingInstance)
        } else if exists|user: Seq<char>| #[trigger]
            self.players@.contains_key(user) && self.players@[user].instance@ == key {
            Some(RemoveError::PlayersAttached)
        } else {
            None
        }
    }

    /// Takes the instance under `instance_id` out of the registry and hands
    /// it back, once its world has been shut down.
    ///
    /// Fails, with nothing changed, exactly when `remove_error` names a
    /// reason: there is no such instance, or a player is on record in it.
    /// So no player is ever left without an instance.
    pub fn remove_instance(&mut self, instance_id: &str) -> (r: Result<
        WorldInstance<H>,
        RemoveError,
    >)
        ensures
            match r {
                Ok(instance) => {
                    &&& old(self).remove_error(instance_id@) is None
                    &&& instance == old(self).instances@[instance_id@]
                    &&& final(self).players == old(self).players
                    &&& final(self).instances@ == old(self).instances@.remove(instance_id@)
                    &&& final(self).instances.spec_keys() == old(self).instances.spec_keys().remove(
                        old(self).instances.spec_keys().index_of(instance_id@),
                    )
                    &&& final(self).instances.spec_values() == old(
                        self,
                    ).instances.spec_values().remove(
                        old(self).instances.spec_keys().index_of(instance_id@),
                    )
                },
                Err(e) => old(self).remove_error(instance_id@) == Some(e) && *final(self) == *old(
                    self,
                ),
            },
            old(self).wf() ==> final(self).wf(),
    {
        if !self.instances.contains_key(instance_id) {
            return Err(RemoveError::MissingInstance);
        }
        let n = self.players.len();
        proof {
            self.players.lemma_entries();
        }
        let mut i: usize = 0;
        while i < n
            invariant
                *self == *old(self),
                self.players.wf(),
                self.instances@.contains_key(instance_id@),
                i <= n,
                n == self.players.spec_values().len(),
                forall|j: int|
                    0 <= j < i ==> (#[trigger] self.players.spec_values()[j]).instance@
                        != instance_id@,
            decreases n - i,
        {
            if crate::str_map::same_str(self.players.value_at(i).instance.as_str(), instance_id) {
                proof {
                    self.players.lemma_entries();
                    let user = self.players.spec_keys()[i as int];
                    assert(self.players@.contains_key(user) && self.players@[user].instance@
                        == instance_id@);
                }
                return Err(RemoveError::PlayersAttached);
            }
            i += 1;
        }
        proof {
            self.players.lemma_entries();
            self.instances.lemma_entries();
            assert forall|user: Seq<char>| #[trigger]
                self.players@.contains_key(user) implies self.players@[user].instance@
                != instance_id@ by {
                let j = self.players.spec_keys().index_of(user);
                assert(self.players.spec_values()[j].instance@ != instance_id@);
            }
        }
        let ghost before = *self;
        let gone = self.instances.remove(instance_id);
        proof {
            if before.wf() {
                assert forall|user: Seq<char>| #[trigger]
                    self.players@.contains_key(user) implies self.player_sound(user) by {
                    assert(before.player_sound(user));
                }
                assert forall|key: Seq<char>| #[trigger]
                    self.instances@.contains_key(key) implies self.instance_sound(key) by {
                    assert(before.instance_sound(key));
                }
            }
        }
        match gone {
            Some(instance) => Ok(instance),
            None => Err(RemoveError::MissingInstance),
        }
    }
}

/// Why an instance could not be taken out of the registry.
#[derive(Clone, Copy, Debug, PartialEq, Eq, Structural)]
pub enum RemoveError {
    /// There is no instance under the key.
    MissingInstance,
    /// A player is on record in the instance.
    PlayersAttached,
}

/// What a connection brings along when its player is registered.
pub struct Connection {
    /// Id of the connection.
    pub id: String,
    /// Cancels the connection's task.
    pub abort_handle: Arc<OnceCell<JoinHandle<()>>>,
    /// Sending side of the connection's diff queue.
    pub entities_tx: Sender<Vec<u8>>,
    /// Sending side of the connection's stat queue.
    pub stats_tx: Sender<Vec<u8>>,
}

/// Why a player could not be registered.
#[derive(Clone, Copy, Debug, PartialEq, Eq, Structural)]
pub enum InitError {
    /// The instance that the player belongs in is not there.
    MissingInstance,
    /// A player on record has no entity in the player's instance.
    MissingEntity,
    /// The instance has run out of entity names.
    OutOfEntityIds,
}

/// What registering a player did.
pub struct InitOutcome {
    /// Whether the user was on record already, so that the connection took
    /// over from an earlier one.
    pub reconnected: bool,
    /// The player's session entity.
    pub entity: EntityId,
    /// How the pending diff fared with each player that was in the instance
    /// before, in the order of their entities. Empty when there was none.
    pub flushed: Vec<Result<(), SendFailure>>,
    /// How the full snapshot fared with the connection's diff queue.
    pub snapshot: Result<(), SendFailure>,
    /// The receipt for the cancellation of the earlier connection's task,
    /// when the connection took over from one.
    pub cancelled: Option<Cancellation>,
}

/// `entity` is bound to the connection `id` and sends through its two
/// queues; the snapshot, if the queue took it, is the first and only message
/// in the diff queue.
pub open spec fn attached(
    entity: Entity,
    id: Seq<char>,
    entities_tx: Sender<Vec<u8>>,
    stats_tx: Sender<Vec<u8>>,
    snapshot: Seq<u8>,
    first: Result<(), SendFailure>,
) -> bool {
    &&& entity.connection matches Some(c) && c@ == id
    &&& entity.entity_stream.channel() == entities_tx
    &&& entity.entity_stream@ == sent(Seq::empty(), snapshot, first)
    &&& entity.stats_stream.channel() == stats_tx
    &&& entity.stats_stream@ == Seq::<Seq<u8>>::empty()
}

/// The entity at place `i` after a broadcast of `diff` with `outcomes`.
pub open spec fn flushed_at(
    before: (EntityId, Entity),
    after: (EntityId, Entity),
    diff: WorldDiff,
    outcomes: Seq<Result<(), SendFailure>>,
    i: int,
) -> bool {
    if diff.is_empty() {
        after == before
    } else {
        after.0 == before.0 && before.1.offered(
            after.1,
            StreamKind::Entities,
            diff.encoded@,
            outcomes[i],
        )
    }
}

impl<H> ServerState<H> {
    /// Key of the instance in which `user` is registered: the one on record
    /// for a known player, the main instance for a new one.
    pub open spec fn spec_target_instance(&self, user: Seq<char>) -> Seq<char> {
        if self.players@.contains_key(user) {
            self.players@[user].instance@
        } else {
            MAIN_INSTANCE_ID@
        }
    }

    /// Key of the instance in which `user_id` is registered: the one on
    /// record for a known player, the main instance for a new one.
    pub fn target_instance(&self, user_id: &str) -> (key: String)
        ensures
            key@ == self.spec_target_instance(user_id@),
    {
        match self.players.get(user_id) {
            Some(player) => player.instance.clone(),
            None => MAIN_INSTANCE_ID.to_owned(),
        }
    }

    /// What the server tells a client about itself in the handshake: the
    /// project name of the main instance's world, the given base url of the
    /// content, and this build's version. `None` exactly when there is no
    /// main instance.
    pub fn server_info(&self, content_base_url: String) -> (info: Option<ServerInfo>)
        ensures
            info is Some <==> self.instances@.contains_key(MAIN_INSTANCE_ID@),
            info matches Some(info) ==> {
                &&& info.project_name == self.instances@[MAIN_INSTANCE_ID@].world.project_name
                &&& info.content_base_url == content_base_url
                &&& info.version@ == VERSION@
            },
    {
        match self.instances.get(MAIN_INSTANCE_ID) {
            Some(instance) => Some(
                ServerInfo {
                    project_name: instance.world.project_name.clone(),
                    content_base_url,
                    version: VERSION.to_owned(),
                },
            ),
            None => None,
        }
    }

    /// Why `user` cannot be registered, if anything stands in the way.
    pub open spec fn init_error(&self, user: Seq<char>) -> Option<InitError> {
        let key = self.spec_target_instance(user);
        if !self.instances@.contains_key(key) {
            Some(InitError::MissingInstance)
        } else if self.players@.contains_key(user) {
            if user_ids(self.instances@[key].world.entities@).contains(user) {
                None
            } else {
                Some(InitError::MissingEntity)
            }
        } else if self.instances@[key].world.has_room() {
            None
        } else {
            Some(InitError::OutOfEntityIds)
        }
    }

    /// `after` is `self` once `user` was registered on `connection`, with
    /// `pending` as the target instance's diff since its last broadcast and
    /// `snapshot` as its full state.
    pub open spec fn init_done(
        &self,
        after: Self,
        user: Seq<char>,
        connection: Connection,
        pending: WorldDiff,
        snapshot: Seq<u8>,
        outcome: InitOutcome,
    ) -> bool {
        let key = self.spec_target_instance(user);
        let at = self.instances.spec_keys().index_of(key);
        let old_instance = self.instances@[key];
        let new_instance = after.instances@[key];
        let old_entities = old_instance.world.entities@;
        let new_entities = new_instance.world.entities@;
        &&& after.instances.wf()
        &&& after.players.wf()
        &&& outcome.reconnected == self.players@.contains_key(user)
        // the task of the connection that was on record before
        &&& outcome.cancelled is Some == outcome.reconnected
        &&& outcome.reconnected ==> outcome.cancelled->0.handle()
            == self.players@[user].abort_handle
        // the player's record
        &&& after.players@.dom() == self.players@.dom().insert(user)
        &&& after.players.spec_keys() == if outcome.reconnected {
            self.players.spec_keys()
        } else {
            self.players.spec_keys().push(user)
        }
        &&& after.players@[user].instance@ == key
        &&& after.players@[user].connection_id@ == connection.id@
        &&& after.players@[user].abort_handle == connection.abort_handle
        &&& forall|other: Seq<char>|
            other != user && #[trigger] self.players@.contains_key(other) ==> after.players@[other]
                == self.players@[other]
        // the other instances
        &&& after.instances.spec_keys() == self.instances.spec_keys()
        &&& after.instances.spec_values() == self.instances.spec_values().update(at, new_instance)
        // the target instance
        &&& new_instance.world_stream.version == pending.version
        &&& new_instance.world.same_but_entities(
            World { next_id: new_instance.world.next_id, ..old_instance.world },
        )
        &&& outcome.flushed@.len() == if pending.is_empty() {
            0
        } else {
            old_entities.len()
        }
        &&& if outcome.reconnected {
            &&& new_instance.world.next_id == old_instance.world.next_id
            &&& new_entities.len() == old_entities.len()
            &&& exists|j: int|
                {
                    &&& first_of(user_ids(old_entities), user, Some(j))
                    &&& new_entities[j].0 == old_entities[j].0
                    &&& outcome.entity == old_entities[j].0
                    &&& new_entities[j].1.name == old_entities[j].1.name
                    &&& new_entities[j].1.user_id == old_entities[j].1.user_id
                    &&& new_entities[j].1.dont_store == old_entities[j].1.dont_store
                    &&& attached(
                        new_entities[j].1,
                        connection.id@,
                        connection.entities_tx,
                        connection.stats_tx,
                        snapshot,
                        outcome.snapshot,
                    )
                    &&& forall|i: int|
                        0 <= i < old_entities.len() && i != j ==> flushed_at(
                            #[trigger] old_entities[i],
                            new_entities[i],
                            pending,
                            outcome.flushed@,
                            i,
                        )
                }
        } else {
            &&& new_instance.world.next_id == old_instance.world.next_id + 1
            &&& new_entities.len() == old_entities.len() + 1
            &&& outcome.entity == EntityId(old_instance.world.next_id)
            &&& new_entities.last().0 == outcome.entity
            &&& new_entities.last().1.name@ == crate::world::player_name(user)
            &&& new_entities.last().1.user_id@ == user
            &&& new_entities.last().1.dont_store
            &&& attached(
                new_entities.last().1,
                connection.id@,
                connection.entities_tx,
                connection.stats_tx,
                snapshot,
                outcome.snapshot,
            )
            &&& forall|i: int|
                0 <= i < old_entities.len() ==> flushed_at(
                    #[trigger] old_entities[i],
                    new_entities[i],
                    pending,
                    outcome.flushed@,
                    i,
                )
        }
    }

    /// Registers the player of a connection that has completed its
    /// handshake.
    ///
    /// A user who is not on record joins the main instance: the registry
    /// gets a player and the instance a session entity. A user who is on
    /// record reconnects: the task of the earlier connection is cancelled,
    /// and the player and the existing entity are bound to the new
    /// connection; no second entity is made. Either way the instance's
    /// pending diff goes to those who were there before, and the full
    /// snapshot is the first message in the new connection's diff queue.
    ///
    /// Fails, with nothing changed, exactly when `init_error` names a
    /// reason.
    pub fn on_init(
        &mut self,
        user_id: &str,
        connection: Connection,
        pending: &WorldDiff,
        snapshot: Vec<u8>,
    ) -> (r: Result<InitOutcome, InitError>)
        ensures
            match r {
                Ok(outcome) => old(self).init_error(user_id@) is None && old(self).init_done(
                    *final(self),
                    user_id@,
                    connection,
                    *pending,
                    snapshot@,
                    outcome,
                ),
                Err(e) => old(self).init_error(user_id@) == Some(e) && *final(self) == *old(self),
            },
            old(self).wf() ==> final(self).wf(),
    {
        let key = self.target_instance(user_id);
        let reconnecting = self.players.contains_key(user_id);
        let at = match self.instances.position(key.as_str()) {
            Some(at) => at,
            None => {
                return Err(InitError::MissingInstance);
            },
        };
        proof {
            self.instances.lemma_entries();
            self.players.lemma_entries();
        }
        let found = self.instances.value_at(at).world.find_player(user_id);
        if reconnecting {
            if found.is_none() {
                return Err(InitError::MissingEntity);
            }
        } else if self.instances.value_at(at).world.next_id == u64::MAX {
            return Err(InitError::OutOfEntityIds);
        }
        let ghost old_entities = self.instances@[key@].world.entities@;
        let ghost whole = connection;
        let Connection { id, abort_handle, entities_tx, stats_tx } = connection;

        let cancelled = match self.players.position(user_id) {
            Some(p) => {
                let player = self.players.value_at_mut(p);
                let done = player.cancel();
                player.abort_handle = abort_handle;
                player.connection_id = id.clone();
                Some(done)
            },
            None => {
                self.players.insert(user_id.to_owned(), Player::new(key, abort_handle, id.clone()));
                None
            },
        };
        proof {
            self.players.lemma_entries();
            assert(self.players@.dom() =~= old(self).players@.dom().insert(user_id@));
            assert forall|other: Seq<char>|
                other != user_id@ && #[trigger] old(self).players@.contains_key(
                    other,
                ) implies self.players@[other] == old(self).players@[other] by {
                let j = old(self).players.spec_keys().index_of(other);
                assert(old(self).players.spec_keys()[j] == other);
                assert(self.players.spec_keys()[j] == other);
            }
        }

        let instance = self.instances.value_at_mut(at);
        let flushed = instance.broadcast_diffs(pending);
        let mut entity = create_player_entity_data(user_id, entities_tx, stats_tx);
        let first = entity.entity_stream.push(snapshot);
        entity.connection = Some(id);
        let ghost mid_entities = instance.world.entities@;
        assert(user_ids(mid_entities) =~= user_ids(old_entities));
        let rebind = if reconnecting {
            found
        } else {
            None
        };
        let entity_id = match rebind {
            Some(j) => {
                let slot = &mut instance.world.entities[j];
                slot.1.entity_stream = entity.entity_stream;
                slot.1.stats_stream = entity.stats_stream;
                slot.1.connection = entity.connection;
                slot.0
            },
            None => {
                match instance.spawn_player(entity) {
                    Some(entity_id) => entity_id,
                    None => EntityId(0),
                }
            },
        };
        let outcome = InitOutcome {
            reconnected: reconnecting,
            entity: entity_id,
            flushed,
            snapshot: first,
            cancelled,
        };
        proof {
            self.instances.lemma_entries();
            if reconnecting {
                let j = found->0 as int;
                assert(first_of(user_ids(old_entities), user_id@, Some(j)));
            }
            if old(self).wf() {
                lemma_init_keeps_wf(
                    *old(self),
                    *self,
                    user_id@,
                    whole,
                    *pending,
                    snapshot@,
                    outcome,
                );
            }
        }
        Ok(outcome)
    }
}

/// What one tick did to the players of the registry.
pub struct TickOutcome {
    /// How the diff of each instance fared with each of its players, per
    /// instance in the order of the instances. An instance whose diff was
    /// empty, or for which none was reported, has no outcomes.
    pub diffs: Vec<Vec<Result<(), SendFailure>>>,
    /// How the performance sample fared with each player, per instance in
    /// the order of the instances. Empty when no sample was due.
    pub stats: Vec<Vec<Result<(), SendFailure>>>,
}

/// The bytes of `diff` that go out to the players: those of a diff that
/// holds changes.
pub open spec fn outgoing(diff: Option<WorldDiff>) -> Option<Seq<u8>> {
    match diff {
        Some(diff) => if diff.is_empty() {
            None
        } else {
            Some(diff.encoded@)
        },
        None => None,
    }
}

/// `after` is the channel `before` once `msg`, if there is one, was offered
/// to it with the outcome at place `i` of `outcomes`.
pub open spec fn stream_ticked(
    before: Outbox,
    after: Outbox,
    msg: Option<Seq<u8>>,
    outcomes: Seq<Result<(), SendFailure>>,
    i: int,
) -> bool {
    match msg {
        Some(msg) => after.channel() == before.channel() && after@ == sent(
            before@,
            msg,
            outcomes[i],
        ),
        None => after == before,
    }
}

/// `after` is the instance `before` after one tick at `time`, in which
/// `diff` was reported for it and `sample` was due.
pub open spec fn instance_ticked<H>(
    before: WorldInstance<H>,
    after: WorldInstance<H>,
    time: u128,
    diff: Option<WorldDiff>,
    sample: Option<Seq<u8>>,
    diff_outcomes: Seq<Result<(), SendFailure>>,
    stat_outcomes: Seq<Result<(), SendFailure>>,
) -> bool {
    let was = before.world.entities@;
    let now = after.world.entities@;
    &&& after.world.same_but_entities(World { time, ..before.world })
    &&& after.world_stream.version == match diff {
        Some(diff) => diff.version,
        None => before.world_stream.version,
    }
    &&& now.len() == was.len()
    &&& diff_outcomes.len() == if outgoing(diff) is Some {
        was.len()
    } else {
        0
    }
    &&& stat_outcomes.len() == if sample is Some {
        was.len()
    } else {
        0
    }
    &&& forall|i: int|
        0 <= i < was.len() ==> {
            &&& (#[trigger] now[i]).0 == was[i].0
            &&& now[i].1.name == was[i].1.name
            &&& now[i].1.user_id == was[i].1.user_id
            &&& now[i].1.connection == was[i].1.connection
            &&& now[i].1.dont_store == was[i].1.dont_store
            &&& stream_ticked(
                was[i].1.entity_stream,
                now[i].1.entity_stream,
                outgoing(diff),
                diff_outcomes,
                i,
            )
            &&& stream_ticked(
                was[i].1.stats_stream,
                now[i].1.stats_stream,
                sample,
                stat_outcomes,
                i,
            )
        }
}

impl<H> ServerState<H> {
    /// One tick of the diff broadcast: the clock of every instance moves to
    /// `time`, nanoseconds since the epoch; the diff that `diffs` holds
    /// under an instance's key goes to the players of that instance, unless
    /// it is empty; and `sample`, if one is due, goes to the stat channel
    /// of every player, whether or not a diff went out.
    pub fn tick(&mut self, time: u128, diffs: &StrMap<WorldDiff>, sample: Option<&Vec<u8>>) -> (outcome:
        TickOutcome)
        ensures
            final(self).players == old(self).players,
            final(self).instances.spec_keys() == old(self).instances.spec_keys(),
            final(self).instances.spec_values().len() == old(self).instances.spec_values().len(),
            outcome.diffs@.len() == old(self).instances.spec_values().len(),
            outcome.stats@.len() == if sample is Some {
                old(self).instances.spec_values().len()
            } else {
                0
            },
            forall|i: int|
                0 <= i < old(self).instances.spec_values().len() ==> instance_ticked(
                    #[trigger] old(self).instances.spec_values()[i],
                    final(self).instances.spec_values()[i],
                    time,
                    diffs@.get(old(self).instances.spec_keys()[i]),
                    match sample {
                        Some(sample) => Some(sample@),
                        None => None,
                    },
                    outcome.diffs@[i]@,
                    if sample is Some {
                        outcome.stats@[i]@
                    } else {
                        Seq::empty()
                    },
                ),
            old(self).wf() ==> final(self).wf(),
    {
        self.step(time);
        let ghost stepped_values = self.instances.spec_values();
        let diffs_sent = self.broadcast_diffs(diffs);
        let ghost flushed_values = self.instances.spec_values();
        let stats_sent = match sample {
            Some(sample) => self.broadcast_stats(sample),
            None => Vec::new(),
        };
        proof {
            let first = old(self).instances.spec_values();
            let last = self.instances.spec_values();
            assert forall|i: int| 0 <= i < first.len() implies instance_ticked(
                #[trigger] first[i],
                last[i],
                time,
                diffs@.get(old(self).instances.spec_keys()[i]),
                match sample {
                    Some(sample) => Some(sample@),
                    None => None,
                },
                diffs_sent@[i]@,
                if sample is Some {
                    stats_sent@[i]@
                } else {
                    Seq::empty()
                },
            ) by {
                let diff = diffs@.get(old(self).instances.spec_keys()[i]);
                assert(stepped(first[i], stepped_values[i], time));
                assert(instance_flushed(
                    stepped_values[i],
                    flushed_values[i],
                    diff,
                    diffs_sent@[i]@,
                ));
                if sample is Some {
                    assert(instance_sampled(
                        flushed_values[i],
                        last[i],
                        sample->0@,
                        stats_sent@[i]@,
                    ));
                }
                let a = first[i].world.entities@;
                let b = flushed_values[i].world.entities@;
                let c = last[i].world.entities@;
                assert(stepped_values[i].world.entities@ == a);
                assert forall|j: int| 0 <= j < a.len() implies {
                    &&& (#[trigger] c[j]).0 == a[j].0
                    &&& c[j].1.name == a[j].1.name
                    &&& c[j].1.user_id == a[j].1.user_id
                    &&& c[j].1.connection == a[j].1.connection
                    &&& c[j].1.dont_store == a[j].1.dont_store
                    &&& stream_ticked(
                        a[j].1.entity_stream,
                        c[j].1.entity_stream,
                        outgoing(diff),
                        diffs_sent@[i]@,
                        j,
                    )
                    &&& stream_ticked(
                        a[j].1.stats_stream,
                        c[j].1.stats_stream,
                        match sample {
                            Some(sample) => Some(sample@),
                            None => None,
                        },
                        if sample is Some {
                            stats_sent@[i]@
                        } else {
                            Seq::empty()
                        },
                        j,
                    )
                } by {
                    if outgoing(diff) is Some {
                        assert(a[j].1.offered(
                            b[j].1,
                            StreamKind::Entities,
                            diff->0.encoded@,
                            diffs_sent@[i]@[j],
                        ));
                    } else {
                        assert(b[j] == a[j]);
                    }
                    if sample is Some {
                        assert(b[j].1.offered(
                            c[j].1,
                            StreamKind::Stats,
                            sample->0@,
                            stats_sent@[i]@[j],
                        ));
                    } else {
                        assert(c[j] == b[j]);
                    }
                }
            }
        }
        TickOutcome { diffs: diffs_sent, stats: stats_sent }
    }
}

/// Every entity of `after` stands for the user and is bound to the
/// connection of the entity at the same place of `before`.
pub open spec fn same_bindings(
    before: Seq<(EntityId, Entity)>,
    after: Seq<(EntityId, Entity)>,
) -> bool {
    &&& after.len() == before.len()
    &&& forall|i: int|
        0 <= i < before.len() ==> (#[trigger] after[i]).1.user_id == before[i].1.user_id
            && after[i].1.connection == before[i].1.connection
}

/// A change that leaves the players alone, and in every instance the user
/// and the connection of every entity, keeps the registry's invariant.
pub proof fn lemma_same_bindings_keep_wf<H>(before: ServerState<H>, after: ServerState<H>)
    requires
        before.wf(),
        after.instances.wf(),
        after.players == before.players,
        after.instances.spec_keys() == before.instances.spec_keys(),
        after.instances.spec_values().len() == before.instances.spec_values().len(),
        forall|i: int|
            0 <= i < before.instances.spec_values().len() ==> same_bindings(
                (#[trigger] before.instances.spec_values()[i]).world.entities@,
                after.instances.spec_values()[i].world.entities@,
            ),
    ensures
        after.wf(),
{
    before.instances.lemma_entries();
    after.instances.lemma_entries();
    assert forall|key: Seq<char>| #[trigger] after.instances@.contains_key(key) implies same_bindings(
        before.instances@[key].world.entities@,
        after.instances@[key].world.entities@,
    ) && user_ids(after.instances@[key].world.entities@) == user_ids(
        before.instances@[key].world.entities@,
    ) by {
        let at = before.instances.spec_keys().index_of(key);
        assert(same_bindings(
            before.instances.spec_values()[at].world.entities@,
            after.instances.spec_values()[at].world.entities@,
        ));
        assert(user_ids(after.instances@[key].world.entities@) =~= user_ids(
            before.instances@[key].world.entities@,
        ));
    }
    assert forall|key: Seq<char>| #[trigger]
        after.instances@.contains_key(key) implies after.instance_sound(key) by {
        assert(before.instance_sound(key));
        let was = before.instances@[key].world.entities@;
        let entities = after.instances@[key].world.entities@;
        assert forall|i: int| 0 <= i < entities.len() implies after.players@.contains_key(
            #[trigger] entities[i].1.user_id@,
        ) && after.players@[entities[i].1.user_id@].instance@ == key by {
            assert(before.players@.contains_key(was[i].1.user_id@));
        }
    }
    assert forall|user: Seq<char>| #[trigger]
        after.players@.contains_key(user) implies after.player_sound(user) by {
        assert(before.player_sound(user));
        let key = after.players@[user].instance@;
        let was = before.instances@[key].world.entities@;
        let entities = after.instances@[key].world.entities@;
        assert forall|i: int|
            0 <= i < entities.len() && #[trigger] entities[i].1.user_id@ == user implies (
        entities[i].1.connection matches Some(c) && c@ == after.players@[user].connection_id@) by {
            assert(was[i].1.user_id@ == user);
        }
    }
}

/// A player who joins starts from the full state: if the new connection's
/// diff queue took the snapshot, the snapshot is the first and only message
/// in it when the registration is done.
pub proof fn lemma_first_message_is_snapshot<H>(
    before: ServerState<H>,
    after: ServerState<H>,
    user: Seq<char>,
    connection: Connection,
    pending: WorldDiff,
    snapshot: Seq<u8>,
    outcome: InitOutcome,
)
    requires
        before.init_done(after, user, connection, pending, snapshot, outcome),
        !outcome.reconnected,
        outcome.snapshot is Ok,
    ensures
        ({
            let entities = after.instances@[MAIN_INSTANCE_ID@].world.entities@;
            &&& entities.len() > 0
            &&& entities.last().1.user_id@ == user
            &&& entities.last().1.entity_stream.channel() == connection.entities_tx
            &&& entities.last().1.entity_stream@ == seq![snapshot]
        }),
{
    let entities = after.instances@[MAIN_INSTANCE_ID@].world.entities@;
    assert(entities.last().1.entity_stream@ =~= seq![snapshot]);
}

/// Registering a player keeps the registry's invariant.
pub proof fn lemma_init_keeps_wf<H>(
    before: ServerState<H>,
    after: ServerState<H>,
    user: Seq<char>,
    connection: Connection,
    pending: WorldDiff,
    snapshot: Seq<u8>,
    outcome: InitOutcome,
)
    requires
        before.wf(),
        before.init_error(user) is None,
        before.init_done(after, user, connection, pending, snapshot, outcome),
    ensures
        after.wf(),
{
    let key = before.spec_target_instance(user);
    let old_entities = before.instances@[key].world.entities@;
    let new_entities = after.instances@[key].world.entities@;
    lemma_changed_under(before.instances, after.instances, key);
    assert(before.instance_sound(key));
    if outcome.reconnected {
        assert(before.player_sound(user));
    }
    // where the user's own entity stands afterwards
    let own: int = if outcome.reconnected {
        choose|j: int|
            {
                &&& first_of(user_ids(old_entities), user, Some(j))
                &&& new_entities[j].1.user_id == old_entities[j].1.user_id
                &&& attached(
                    new_entities[j].1,
                    connection.id@,
                    connection.entities_tx,
                    connection.stats_tx,
                    snapshot,
                    outcome.snapshot,
                )
                &&& forall|i: int|
                    0 <= i < old_entities.len() && i != j ==> flushed_at(
                        #[trigger] old_entities[i],
                        new_entities[i],
                        pending,
                        outcome.flushed@,
                        i,
                    )
            }
    } else {
        old_entities.len() as int
    };
    assert(0 <= own < new_entities.len());
    assert(new_entities[own].1.user_id@ == user);
    assert(new_entities[own].1.connection matches Some(c) && c@ == connection.id@);
    // every other entity stands for whom it stood for, bound as it was
    assert forall|i: int| 0 <= i < new_entities.len() && i != own implies 0 <= i
        < old_entities.len() && (#[trigger] new_entities[i]).1.user_id
        == old_entities[i].1.user_id && new_entities[i].1.connection
        == old_entities[i].1.connection && new_entities[i].1.user_id@ != user by {
        assert(flushed_at(old_entities[i], new_entities[i], pending, outcome.flushed@, i));
        if old_entities[i].1.user_id@ == user {
            assert(user_ids(old_entities)[i] == user);
            if outcome.reconnected {
                assert(user_ids(old_entities)[own] == user);
            } else {
                assert(before.players@.contains_key(old_entities[i].1.user_id@));
            }
        }
    }
    assert(user_ids(new_entities).no_duplicates()) by {
        assert forall|a: int, b: int|
            0 <= a < new_entities.len() && 0 <= b < new_entities.len() && a != b implies user_ids(
            new_entities,
        )[a] != user_ids(new_entities)[b] by {
            if a != own && b != own {
                assert(new_entities[a].1.user_id == old_entities[a].1.user_id);
                assert(new_entities[b].1.user_id == old_entities[b].1.user_id);
                assert(user_ids(old_entities)[a] != user_ids(old_entities)[b]);
            } else if a == own {
                assert(new_entities[b].1.user_id@ != user);
            } else {
                assert(new_entities[a].1.user_id@ != user);
            }
        }
    }
    assert forall|k: Seq<char>| #[trigger]
        after.instances@.contains_key(k) implies after.instance_sound(k) by {
        assert(before.instances@.contains_key(k));
        assert(before.instance_sound(k));
        let entities = after.instances@[k].world.entities@;
        assert forall|i: int| 0 <= i < entities.len() implies after.players@.contains_key(
            #[trigger] entities[i].1.user_id@,
        ) && after.players@[entities[i].1.user_id@].instance@ == k by {
            let who = entities[i].1.user_id@;
            if k == key {
                if i != own {
                    assert(new_entities[i].1.user_id == old_entities[i].1.user_id);
                    assert(before.players@.contains_key(old_entities[i].1.user_id@));
                }
            } else {
                let was = before.instances@[k].world.entities@;
                assert(before.players@.contains_key(was[i].1.user_id@));
            }
        }
    }
    assert forall|who: Seq<char>| #[trigger]
        after.players@.contains_key(who) implies after.player_sound(who) by {
        let player = after.players@[who];
        let entities = after.instances@[player.instance@].world.entities@;
        if who == user {
            assert(user_ids(new_entities)[own] == user);
            assert forall|i: int|
                0 <= i < entities.len() && #[trigger] entities[i].1.user_id@ == who implies (
            entities[i].1.connection matches Some(c) && c@ == player.connection_id@) by {
                if i != own {
                    assert(new_entities[i].1.user_id@ != user);
                }
            }
        } else {
            assert(before.players@.contains_key(who));
            assert(before.player_sound(who));
            let k = player.instance@;
            let was = before.instances@[k].world.entities@;
            let w = choose|w: int| 0 <= w < was.len() && user_ids(was)[w] == who;
            if k == key {
                assert(w != own);
                assert(new_entities[w].1.user_id == old_entities[w].1.user_id);
                assert(user_ids(new_entities)[w] == who);
                assert forall|i: int|
                    0 <= i < entities.len() && #[trigger] entities[i].1.user_id@
                        == who implies (entities[i].1.connection matches Some(c) && c@
                    == player.connection_id@) by {
                    assert(i != own);
                    assert(new_entities[i].1.user_id == old_entities[i].1.user_id);
                    assert(old_entities[i].1.user_id@ == who);
                }
            } else {
                assert(user_ids(entities)[w] == who);
            }
        }
    }
}

/// How the end of a connection changed the registry.
#[derive(Clone, Copy, Debug, PartialEq, Eq, Structural)]
pub enum DisconnectOutcome {
    /// The connection ended before it had named its user. Nothing changed.
    NotIdentified,
    /// No player is on record for the user. Nothing changed.
    NotRegistered,
    /// A newer connection serves the player. Nothing changed.
    Superseded,
    /// The player left: record and session entity are gone.
    Left,
    /// The player's record is gone; the player's instance held no entity for
    /// the user. Does not happen in a registry that meets its invariant.
    LeftWithoutEntity,
    /// The player's record is gone; the player's instance was not there.
    /// Does not happen in a registry that meets its invariant.
    LeftWithoutInstance,
}

/// The user id inside `user_id`, as characters.
pub open spec fn user_view(user_id: Option<String>) -> Option<Seq<char>> {
    match user_id {
        Some(user) => Some(user@),
        None => None,
    }
}

impl<H> ServerState<H> {
    /// What the end of connection `connection_id` of `user` comes to.
    pub open spec fn disconnect_outcome(
        &self,
        user: Option<Seq<char>>,
        connection_id: Seq<char>,
    ) -> DisconnectOutcome {
        match user {
            None => DisconnectOutcome::NotIdentified,
            Some(user) => if !self.players@.contains_key(user) {
                DisconnectOutcome::NotRegistered
            } else if self.players@[user].connection_id@ != connection_id {
                DisconnectOutcome::Superseded
            } else if !self.instances@.contains_key(self.players@[user].instance@) {
                DisconnectOutcome::LeftWithoutInstance
            } else if !user_ids(
                self.instances@[self.players@[user].instance@].world.entities@,
            ).contains(user) {
                DisconnectOutcome::LeftWithoutEntity
            } else {
                DisconnectOutcome::Left
            },
        }
    }

    /// `after` is `self` once connection `connection_id` of `user` has
    /// ended.
    pub open spec fn disconnect_done(
        &self,
        after: Self,
        user: Option<Seq<char>>,
        connection_id: Seq<char>,
        outcome: DisconnectOutcome,
    ) -> bool {
        &&& outcome == self.disconnect_outcome(user, connection_id)
        &&& match outcome {
            DisconnectOutcome::NotIdentified
            | DisconnectOutcome::NotRegistered
            | DisconnectOutcome::Superseded => after == *self,
            DisconnectOutcome::LeftWithoutEntity | DisconnectOutcome::LeftWithoutInstance => {
                &&& after.players.wf()
                &&& after.players@ == self.players@.remove(user->0)
                &&& after.instances == self.instances
            },
            DisconnectOutcome::Left => {
                let key = self.players@[user->0].instance@;
                let old_instance = self.instances@[key];
                let new_instance = after.instances@[key];
                &&& after.players.wf()
                &&& after.instances.wf()
                &&& after.players@ == self.players@.remove(user->0)
                &&& after.instances.spec_keys() == self.instances.spec_keys()
                &&& after.instances.spec_values() == self.instances.spec_values().update(
                    self.instances.spec_keys().index_of(key),
                    new_instance,
                )
                &&& new_instance.world_stream == old_instance.world_stream
                &&& new_instance.world.same_but_entities(old_instance.world)
                &&& exists|at: int|
                    {
                        &&& first_of(user_ids(old_instance.world.entities@), user->0, Some(at))
                        &&& new_instance.world.entities@ == old_instance.world.entities@.remove(
                            at,
                        )
                    }
            },
        }
    }

    /// Cleans up after a connection that has ended.
    ///
    /// The player leaves only if the connection is still the one on record
    /// for the user: then the player's record and session entity go. A
    /// connection that a reconnection has replaced changes nothing, nor does
    /// one that never named its user.
    pub fn on_disconnect(&mut self, user_id: &Option<String>, connection_id: &str) -> (outcome:
        DisconnectOutcome)
        ensures
            old(self).disconnect_done(
                *final(self),
                user_view(*user_id),
                connection_id@,
                outcome,
            ),
            old(self).wf() ==> final(self).wf(),
    {
        let user = match user_id {
            Some(user) => user,
            None => {
                return DisconnectOutcome::NotIdentified;
            },
        };
        match self.players.get(user.as_str()) {
            None => {
                return DisconnectOutcome::NotRegistered;
            },
            Some(player) => {
                if !crate::str_map::same_str(player.connection_id.as_str(), connection_id) {
                    return DisconnectOutcome::Superseded;
                }
            },
        }
        let player = match self.players.remove(user.as_str()) {
            Some(player) => player,
            None => {
                return DisconnectOutcome::NotRegistered;
            },
        };
        let at = match self.instances.position(player.instance.as_str()) {
            Some(at) => at,
            None => {
                proof {
                    if old(self).wf() {
                        assert(old(self).player_sound(user@));
                    }
                }
                return DisconnectOutcome::LeftWithoutInstance;
            },
        };
        proof {
            self.instances.lemma_entries();
        }
        if self.instances.value_at(at).world.find_player(user.as_str()).is_none() {
            proof {
                if old(self).wf() {
                    assert(old(self).player_sound(user@));
                }
            }
            return DisconnectOutcome::LeftWithoutEntity;
        }
        let instance = self.instances.value_at_mut(at);
        instance.despawn_player(user.as_str());
        proof {
            self.instances.lemma_entries();
            if old(self).wf() {
                lemma_disconnect_keeps_wf(
                    *old(self),
                    *self,
                    user_view(*user_id),
                    connection_id@,
                    DisconnectOutcome::Left,
                );
            }
        }
        DisconnectOutcome::Left
    }
}

/// The end of a connection keeps the registry's invariant, and in a registry
/// that meets it the player's record never goes without the entity.
pub proof fn lemma_disconnect_keeps_wf<H>(
    before: ServerState<H>,
    after: ServerState<H>,
    user: Option<Seq<char>>,
    connection_id: Seq<char>,
    outcome: DisconnectOutcome,
)
    requires
        before.wf(),
        before.disconnect_done(after, user, connection_id, outcome),
    ensures
        after.wf(),
        outcome != DisconnectOutcome::LeftWithoutEntity,
        outcome != DisconnectOutcome::LeftWithoutInstance,
{
    if user is Some && before.players@.contains_key(user->0) {
        assert(before.player_sound(user->0));
    }
    if outcome == DisconnectOutcome::Left {
        let who = user->0;
        let key = before.players@[who].instance@;
        let old_entities = before.instances@[key].world.entities@;
        let new_entities = after.instances@[key].world.entities@;
        lemma_changed_under(before.instances, after.instances, key);
        assert(before.instance_sound(key));
        let at = choose|at: int|
            first_of(user_ids(old_entities), who, Some(at)) && new_entities == old_entities.remove(
                at,
            );
        assert(user_ids(new_entities) =~= user_ids(old_entities).remove(at));
        crate::str_map::lemma_remove_keeps_distinct(user_ids(old_entities), at);
        assert forall|i: int| 0 <= i < new_entities.len() implies (#[trigger] new_entities[i])
            == old_entities[if i < at { i } else { i + 1 }] && new_entities[i].1.user_id@
            != who by {
            let i0 = if i < at { i } else { i + 1 };
            assert(user_ids(old_entities)[i0] != user_ids(old_entities)[at]);
        }
        assert forall|k: Seq<char>| #[trigger]
            after.instances@.contains_key(k) implies after.instance_sound(k) by {
            assert(before.instance_sound(k));
            let entities = after.instances@[k].world.entities@;
            assert forall|i: int| 0 <= i < entities.len() implies after.players@.contains_key(
                #[trigger] entities[i].1.user_id@,
            ) && after.players@[entities[i].1.user_id@].instance@ == k by {
                if k == key {
                    let i0 = if i < at { i } else { i + 1 };
                    assert(new_entities[i] == old_entities[i0]);
                    assert(before.players@.contains_key(old_entities[i0].1.user_id@));
                } else {
                    let was = before.instances@[k].world.entities@;
                    assert(before.players@.contains_key(was[i].1.user_id@));
                }
            }
        }
        assert forall|other: Seq<char>| #[trigger]
            after.players@.contains_key(other) implies after.player_sound(other) by {
            assert(before.player_sound(other));
            let player = after.players@[other];
            let k = player.instance@;
            let was = before.instances@[k].world.entities@;
            let entities = after.instances@[k].world.entities@;
            let w = choose|w: int| 0 <= w < was.len() && user_ids(was)[w] == other;
            if k == key {
                assert(w != at);
                let w1 = if w < at { w } else { w - 1 };
                assert(new_entities[w1] == old_entities[w]);
                assert(user_ids(new_entities)[w1] == other);
                assert forall|i: int|
                    0 <= i < entities.len() && #[trigger] entities[i].1.user_id@
                        == other implies (entities[i].1.connection matches Some(c) && c@
                    == player.connection_id@) by {
                    let i0 = if i < at { i } else { i + 1 };
                    assert(new_entities[i] == old_entities[i0]);
                }
            } else {
                assert(user_ids(entities)[w] == other);
            }
        }
    }
}

/// `x` stands at exactly one place of `s`.
pub open spec fn occurs_once(s: Seq<Seq<char>>, x: Seq<char>) -> bool {
    exists|i: int| 0 <= i < s.len() && s[i] == x && forall|j: int| 0 <= j < s.len() && s[j] == x ==> j == i
}

/// A user who was never seen joins once and for all: the first registration
/// adds one player and one session entity in the main instance; a second
/// one for the same user, on another connection, always succeeds, leaves one
/// player and the same one entity, and puts the newer connection on record.
pub proof fn lemma_join_then_reconnect<H>(
    s0: ServerState<H>,
    s1: ServerState<H>,
    s2: ServerState<H>,
    user: Seq<char>,
    first: Connection,
    pending1: WorldDiff,
    snapshot1: Seq<u8>,
    joined: InitOutcome,
    second: Connection,
    pending2: WorldDiff,
    snapshot2: Seq<u8>,
    rejoined: InitOutcome,
)
    requires
        s0.wf(),
        !s0.players@.contains_key(user),
        s0.init_error(user) is None,
        s0.init_done(s1, user, first, pending1, snapshot1, joined),
        s1.init_done(s2, user, second, pending2, snapshot2, rejoined),
    ensures
        !joined.reconnected,
        s1.players@.dom() == s0.players@.dom().insert(user),
        s1.players.spec_keys().len() == s0.players.spec_keys().len() + 1,
        total_players(s1.instances.spec_values()) == total_players(s0.instances.spec_values())
            + 1,
        s2.players.spec_keys().len() == s1.players.spec_keys().len(),
        total_players(s2.instances.spec_values()) == total_players(s1.instances.spec_values()),
        s1.players@[user].connection_id@ == first.id@,
        s1.instances@[MAIN_INSTANCE_ID@].world.entities@.len()
            == s0.instances@[MAIN_INSTANCE_ID@].world.entities@.len() + 1,
        occurs_once(user_ids(s1.instances@[MAIN_INSTANCE_ID@].world.entities@), user),
        s1.init_error(user) is None,
        rejoined.reconnected,
        rejoined.entity == joined.entity,
        s2.players@.dom() == s1.players@.dom(),
        s2.players@[user].connection_id@ == second.id@,
        s2.instances@[MAIN_INSTANCE_ID@].world.entities@.len()
            == s1.instances@[MAIN_INSTANCE_ID@].world.entities@.len(),
        occurs_once(user_ids(s2.instances@[MAIN_INSTANCE_ID@].world.entities@), user),
        s2.wf(),
{
    let main = MAIN_INSTANCE_ID@;
    s0.instances.lemma_entries();
    lemma_total_players_update(
        s0.instances.spec_values(),
        s0.instances.spec_keys().index_of(main),
        s1.instances@[main],
    );
    lemma_init_keeps_wf(s0, s1, user, first, pending1, snapshot1, joined);
    s1.instances.lemma_entries();
    lemma_total_players_update(
        s1.instances.spec_values(),
        s1.instances.spec_keys().index_of(main),
        s2.instances@[main],
    );
    assert(s1.players@.contains_key(user));
    assert(s1.player_sound(user));
    assert(s1.instance_sound(main));
    let e1 = s1.instances@[main].world.entities@;
    lemma_occurs_once(user_ids(e1), user);
    lemma_init_keeps_wf(s1, s2, user, second, pending2, snapshot2, rejoined);
    assert(s2.players@.dom() =~= s1.players@.dom());
    assert(s2.player_sound(user));
    assert(s2.instance_sound(main));
    let e2 = s2.instances@[main].world.entities@;
    lemma_occurs_once(user_ids(e2), user);
    // the entity that the reconnection found is the one that the join made
    let last = e1.len() - 1;
    assert(user_ids(e1)[last] == user);
    let j = choose|j: int| first_of(user_ids(e1), user, Some(j)) && rejoined.entity == e1[j].0;
    assert(user_ids(e1)[j] == user);
    assert(j == last);
}

/// Putting another instance in the place of one changes the number of
/// players by the difference between the two.
pub proof fn lemma_total_players_update<H>(
    instances: Seq<WorldInstance<H>>,
    at: int,
    instance: WorldInstance<H>,
)
    requires
        0 <= at < instances.len(),
    ensures
        total_players(instances.update(at, instance)) == total_players(instances)
            - instances[at].world.entities@.len() + instance.world.entities@.len(),
    decreases instances.len(),
{
    let changed = instances.update(at, instance);
    if at == instances.len() - 1 {
        assert(changed.drop_last() =~= instances.drop_last());
    } else {
        assert(changed.drop_last() =~= instances.drop_last().update(at, instance));
        lemma_total_players_update(instances.drop_last(), at, instance);
    }
}

/// What stands in a sequence without repeats stands there once.
pub proof fn lemma_occurs_once(s: Seq<Seq<char>>, x: Seq<char>)
    requires
        s.no_duplicates(),
        s.contains(x),
    ensures
        occurs_once(s, x),
{
    let i = choose|i: int| 0 <= i < s.len() && s[i] == x;
    assert(forall|j: int| 0 <= j < s.len() && s[j] == x ==> j == i);
}

/// A connection that a reconnection has replaced cannot evict the player:
/// when connection `a` of a user is superseded by connection `b` and `a`
/// ends afterwards, nothing changes, and the player stays on record with
/// `b`.
pub proof fn lemma_stale_disconnect_changes_nothing<H>(
    s1: ServerState<H>,
    s2: ServerState<H>,
    s3: ServerState<H>,
    user: Seq<char>,
    a: Connection,
    b: Connection,
    pending: WorldDiff,
    snapshot: Seq<u8>,
    rejoined: InitOutcome,
    outcome: DisconnectOutcome,
)
    requires
        s1.players@.contains_key(user),
        s1.players@[user].connection_id@ == a.id@,
        a.id@ != b.id@,
        s1.init_done(s2, user, b, pending, snapshot, rejoined),
        s2.disconnect_done(s3, Some(user), a.id@, outcome),
    ensures
        outcome == DisconnectOutcome::Superseded,
        s3 == s2,
        s3.players@.contains_key(user),
        s3.players@[user].connection_id@ == b.id@,
{
    assert(s2.players@.dom().contains(user));
}

} // verus!
