//! Spawning, saving and killing an actor: what each does to the record and
//! the health record that the store holds for the actor.

use vstd::prelude::*;
use crate::error::{SystemActorError, SystemActorErrorView};
use crate::health::{
    beat_view, health_view, healthy, HealthConfig, HealthRecord, HealthRecordView,
};
use crate::identity::ActorId;
use crate::text::copy_bytes;
use crate::time::{Span, Timestamp};

verus! {

/// What a spawn does when a record for the id exists already.
#[derive(Clone, Copy, Debug, PartialEq, Eq, Structural)]
pub enum SpawnExistsOptions {
    /// Fail.
    Error,
    /// Delete the record and what is pending for the id, then start afresh.
    Reset,
    /// Start from the state that the record holds.
    Restore,
}

impl Default for SpawnExistsOptions {
    fn default() -> (mode: SpawnExistsOptions)
        ensures
            mode == SpawnExistsOptions::Error,
    {
        SpawnExistsOptions::Error
    }
}

/// Options of a spawn.
#[derive(Clone, Copy, Debug, PartialEq, Eq, Structural)]
pub struct SpawnOptions {
    /// What to do when a record exists already.
    pub if_exists: SpawnExistsOptions,
    /// How to watch the actor's health; `None` leaves it unwatched.
    pub health_config: Option<HealthConfig>,
}

impl Default for SpawnOptions {
    fn default() -> (options: SpawnOptions)
        ensures
            options.if_exists == SpawnExistsOptions::Error,
            options.health_config.is_none(),
    {
        SpawnOptions { if_exists: SpawnExistsOptions::Error, health_config: None }
    }
}

/// Collects the spawn options that were given.
#[derive(Clone, Copy, Debug)]
pub struct SpawnOptionsBuilder {
    pub if_exists: Option<SpawnExistsOptions>,
    pub health_config: Option<HealthConfig>,
}

impl SpawnOptionsBuilder {
    /// Sets what to do when a record exists already.
    pub fn if_exists(self, mode: SpawnExistsOptions) -> (builder: SpawnOptionsBuilder)
        ensures
            builder.if_exists == Some(mode),
            builder.health_config == self.health_config,
    {
        SpawnOptionsBuilder { if_exists: Some(mode), health_config: self.health_config }
    }

    /// Asks for the actor's health to be watched.
    pub fn health_config(self, health_config: HealthConfig) -> (builder: SpawnOptionsBuilder)
        ensures
            builder.if_exists == self.if_exists,
            builder.health_config == Some(health_config),
    {
        SpawnOptionsBuilder { if_exists: self.if_exists, health_config: Some(health_config) }
    }

    /// The options: an existing record is an error unless something else
    /// was asked for, and the actor is watched only if that was asked for.
    pub fn build(self) -> (options: SpawnOptions)
        ensures
            options.if_exists == match self.if_exists {
                Some(mode) => mode,
                None => SpawnExistsOptions::Error,
            },
            options.health_config == self.health_config,
    {
        let if_exists = match self.if_exists {
            Some(mode) => mode,
            None => SpawnExistsOptions::Error,
        };
        SpawnOptions { if_exists, health_config: self.health_config }
    }
}

impl SpawnOptions {
    /// A builder in which no option is set yet.
    pub fn builder() -> (builder: SpawnOptionsBuilder)
        ensures
            builder.if_exists.is_none(),
            builder.health_config.is_none(),
    {
        SpawnOptionsBuilder { if_exists: None, health_config: None }
    }
}

/// A write to what the store holds for one actor, as plain values.
pub enum ActorWriteView {
    PutRecord(Seq<u8>),
    UpdateRecord(Seq<u8>),
    DeleteRecord,
    DeletePending,
    PutHealth(HealthRecordView),
    DeleteHealth,
}

/// A write to what the store holds for one actor.
#[derive(Debug)]
pub enum ActorWrite {
    /// Create the actor's record with this state, or overwrite it.
    PutRecord(Vec<u8>),
    /// Put this state into the actor's record, if there is one.
    UpdateRecord(Vec<u8>),
    /// Delete the actor's record.
    DeleteRecord,
    /// Delete the requests and replies that are pending for the actor.
    DeletePending,
    /// Create the actor's health record, or overwrite it.
    PutHealth(HealthRecord),
    /// Delete the actor's health record.
    DeleteHealth,
}

impl View for ActorWrite {
    type V = ActorWriteView;

    open spec fn view(&self) -> ActorWriteView {
        match self {
            ActorWrite::PutRecord(state) => ActorWriteView::PutRecord(state@),
            ActorWrite::UpdateRecord(state) => ActorWriteView::UpdateRecord(state@),
            ActorWrite::DeleteRecord => ActorWriteView::DeleteRecord,
            ActorWrite::DeletePending => ActorWriteView::DeletePending,
            ActorWrite::PutHealth(record) => ActorWriteView::PutHealth(record@),
            ActorWrite::DeleteHealth => ActorWriteView::DeleteHealth,
        }
    }
}

/// A list of writes as plain values.
pub open spec fn writes_view(writes: Seq<ActorWrite>) -> Seq<ActorWriteView> {
    writes.map_values(|write: ActorWrite| write@)
}

/// What the store holds for one actor: the state in its record, if it has
/// a record, and its health record, if it is watched.
pub struct StoredActor {
    pub record: Option<Seq<u8>>,
    pub health: Option<HealthRecordView>,
}

impl StoredActor {
    /// What the store holds for an actor that was never spawned.
    pub open spec fn absent() -> StoredActor {
        StoredActor { record: None, health: None }
    }

    /// What the store holds after `write`.
    pub open spec fn after(self, write: ActorWriteView) -> StoredActor {
        match write {
            ActorWriteView::PutRecord(state) => StoredActor { record: Some(state), ..self },
            ActorWriteView::UpdateRecord(state) => if self.record.is_some() {
                StoredActor { record: Some(state), ..self }
            } else {
                self
            },
            ActorWriteView::DeleteRecord => StoredActor { record: None, ..self },
            ActorWriteView::DeletePending => self,
            ActorWriteView::PutHealth(record) => StoredActor { health: Some(record), ..self },
            ActorWriteView::DeleteHealth => StoredActor { health: None, ..self },
        }
    }

    /// What the store holds after the writes of `writes`, made in order.
    pub open spec fn after_all(self, writes: Seq<ActorWriteView>) -> StoredActor
        decreases writes.len(),
    {
        if writes.len() == 0 {
            self
        } else {
            self.after(writes[0]).after_all(writes.subrange(1, writes.len() as int))
        }
    }

    /// Whether the actor is healthy at `now`.
    pub open spec fn is_healthy(self, now: int) -> bool {
        healthy(self.record.is_some(), self.health, now)
    }
}

/// The state with which a spawn starts the actor, as a function of the
/// mode, the state in the record that exists (if one does) and the initial
/// state that the caller brought; `None` where the spawn fails.
pub open spec fn spawn_state(
    mode: SpawnExistsOptions,
    existing: Option<Seq<u8>>,
    initial: Seq<u8>,
) -> Option<Seq<u8>> {
    match (mode, existing) {
        (SpawnExistsOptions::Error, Some(_)) => None,
        (SpawnExistsOptions::Restore, Some(state)) => Some(state),
        _ => Some(initial),
    }
}

/// The writes that watching, or not watching, an actor from `now` on takes.
pub open spec fn health_write(health_config: Option<HealthConfig>, now: int) -> ActorWriteView {
    match health_config {
        Some(config) => ActorWriteView::PutHealth(
            HealthRecordView { last_heartbeat: now, update_interval: config.update_interval@ },
        ),
        None => ActorWriteView::DeleteHealth,
    }
}

/// The writes of a spawn that succeeds.
pub open spec fn spawn_writes(
    options: SpawnOptions,
    existing: Option<Seq<u8>>,
    initial: Seq<u8>,
    now: int,
) -> Seq<ActorWriteView> {
    match (options.if_exists, existing) {
        (SpawnExistsOptions::Reset, _) => seq![
            ActorWriteView::DeleteRecord,
            ActorWriteView::DeletePending,
            ActorWriteView::DeleteHealth,
            ActorWriteView::PutRecord(initial),
            health_write(options.health_config, now),
        ],
        (SpawnExistsOptions::Restore, Some(_)) => seq![health_write(options.health_config, now)],
        _ => seq![ActorWriteView::PutRecord(initial), health_write(options.health_config, now)],
    }
}

/// What a spawn that succeeds does.
#[derive(Debug)]
pub struct SpawnPlan {
    /// The state with which the actor starts.
    pub state: Vec<u8>,
    /// The writes to the store, in order.
    pub writes: Vec<ActorWrite>,
    /// The health monitor to start, if the actor is watched.
    pub monitor: Option<HealthConfig>,
}

fn health_write_for(health_config: &Option<HealthConfig>, now: Timestamp) -> (write: ActorWrite)
    ensures
        write@ == health_write(*health_config, now@),
{
    match health_config {
        Some(config) => ActorWrite::PutHealth(HealthRecord::start(config, now)),
        None => ActorWrite::DeleteHealth,
    }
}

/// Decides a spawn of the actor `id` at `now`. `existing` is the state in
/// the record that the store holds for `id`, if it holds one; `initial` is
/// the state that the caller brought.
///
/// With a record and the mode `Error` the spawn fails with
/// `ActorAlreadyExists`. In every other case it succeeds. `Reset` deletes
/// the record, what is pending for the id and its health record, and
/// creates the record afresh from `initial`. `Restore` starts from the
/// state of the record and leaves the record alone; without a record it
/// creates one from `initial`, as `Error` does. The health record is
/// written when the options ask for watching, and deleted when they do not.
pub fn plan_spawn(
    id: &ActorId,
    existing: Option<Vec<u8>>,
    initial: Vec<u8>,
    options: &SpawnOptions,
    now: Timestamp,
) -> (plan: Result<SpawnPlan, SystemActorError>)
    ensures
        match spawn_state(options.if_exists, bytes_view(existing), initial@) {
            None => plan is Err && plan->Err_0@ == SystemActorErrorView::ActorAlreadyExists(id@),
            Some(state) => {
                &&& plan is Ok
                &&& plan->Ok_0.state@ == state
                &&& writes_view(plan->Ok_0.writes@) == spawn_writes(
                    *options,
                    bytes_view(existing),
                    initial@,
                    now@,
                )
                &&& plan->Ok_0.monitor == options.health_config
            },
        },
{
    let watch = health_write_for(&options.health_config, now);
    let mut writes: Vec<ActorWrite> = Vec::new();
    match options.if_exists {
        SpawnExistsOptions::Reset => {
            writes.push(ActorWrite::DeleteRecord);
            writes.push(ActorWrite::DeletePending);
            writes.push(ActorWrite::DeleteHealth);
            writes.push(ActorWrite::PutRecord(copy_bytes(&initial)));
            writes.push(watch);
            assert(writes_view(writes@) =~= spawn_writes(
                *options,
                bytes_view(existing),
                initial@,
                now@,
            ));
            Ok(SpawnPlan { state: initial, writes, monitor: options.health_config })
        },
        SpawnExistsOptions::Error => {
            match existing {
                Some(_) => Err(SystemActorError::ActorAlreadyExists(id.clone())),
                None => {
                    writes.push(ActorWrite::PutRecord(copy_bytes(&initial)));
                    writes.push(watch);
                    assert(writes_view(writes@) =~= spawn_writes(
                        *options,
                        bytes_view(existing),
                        initial@,
                        now@,
                    ));
                    Ok(SpawnPlan { state: initial, writes, monitor: options.health_config })
                },
            }
        },
        SpawnExistsOptions::Restore => {
            match existing {
                Some(state) => {
                    writes.push(watch);
                    assert(writes_view(writes@) =~= spawn_writes(
                        *options,
                        bytes_view(existing),
                        initial@,
                        now@,
                    ));
                    Ok(SpawnPlan { state, writes, monitor: options.health_config })
                },
                None => {
                    writes.push(ActorWrite::PutRecord(copy_bytes(&initial)));
                    writes.push(watch);
                    assert(writes_view(writes@) =~= spawn_writes(
                        *options,
                        bytes_view(existing),
                        initial@,
                        now@,
                    ));
                    Ok(SpawnPlan { state: initial, writes, monitor: options.health_config })
                },
            }
        },
    }
}

/// The bytes of a blob that may be absent.
pub open spec fn bytes_view(bytes: Option<Vec<u8>>) -> Option<Seq<u8>> {
    match bytes {
        Some(bytes) => Some(bytes@),
        None => None,
    }
}

/// The writes of a save: the state goes into the actor's record. An actor
/// without a record gets none.
pub fn plan_save(state: Vec<u8>) -> (writes: Vec<ActorWrite>)
    ensures
        writes_view(writes@) == seq![ActorWriteView::UpdateRecord(state@)],
{
    let mut writes: Vec<ActorWrite> = Vec::new();
    writes.push(ActorWrite::UpdateRecord(state));
    assert(writes_view(writes@) =~= seq![ActorWriteView::UpdateRecord(state@)]);
    writes
}

/// What a kill does.
#[derive(Debug)]
pub struct KillPlan {
    /// The writes to the store, in order.
    pub writes: Vec<ActorWrite>,
    /// Whether the actor's health monitor is to be cancelled.
    pub cancel_monitor: bool,
}

/// The writes of a kill.
pub open spec fn kill_writes() -> Seq<ActorWriteView> {
    seq![ActorWriteView::DeleteRecord]
}

/// Decides a kill: the actor's record is deleted and its health monitor
/// cancelled.
pub fn plan_kill() -> (plan: KillPlan)
    ensures
        writes_view(plan.writes@) == kill_writes(),
        plan.cancel_monitor,
{
    let mut writes: Vec<ActorWrite> = Vec::new();
    writes.push(ActorWrite::DeleteRecord);
    assert(writes_view(writes@) =~= kill_writes());
    KillPlan { writes, cancel_monitor: true }
}

/// What the health monitor does on one of its turns.
#[derive(Debug)]
pub struct BeatPlan {
    /// The write of the heartbeat.
    pub write: ActorWrite,
    /// How long the monitor sleeps before its next turn.
    pub pause: Span,
}

/// Decides one turn of the health monitor at `now`: it writes a heartbeat
/// for `now` over the health record `record`, and sleeps for one update
/// interval of `config`.
pub fn plan_beat(config: &HealthConfig, record: &HealthRecord, now: Timestamp) -> (plan: BeatPlan)
    ensures
        plan.write@ == ActorWriteView::PutHealth(beat_view(record@, now@)),
        plan.pause == config.update_interval,
{
    BeatPlan { write: ActorWrite::PutHealth(record.beat(now)), pause: config.update_interval }
}

/// Whether the actor is healthy at `now`, given the state in its record,
/// if it has one, and its health record, if it has one.
pub fn health(
    record: &Option<Vec<u8>>,
    health_record: &Option<HealthRecord>,
    now: &Timestamp,
) -> (is: bool)
    ensures
        is == (StoredActor {
            record: bytes_view(*record),
            health: health_view(*health_record),
        }).is_healthy(now@),
{
    crate::health::is_healthy(record.is_some(), health_record, now)
}

/// What the store holds after a spawn that succeeds: the record holds the
/// state with which the actor starts, and there is a health record exactly
/// when the options ask for watching, with its first heartbeat at `now`.
pub proof fn lemma_spawn_effect(
    stored: StoredActor,
    options: SpawnOptions,
    initial: Seq<u8>,
    now: int,
)
    requires
        spawn_state(options.if_exists, stored.record, initial) is Some,
    ensures
        stored.after_all(spawn_writes(options, stored.record, initial, now)) == (StoredActor {
            record: spawn_state(options.if_exists, stored.record, initial),
            health: match options.health_config {
                Some(config) => Some(
                    HealthRecordView {
                        last_heartbeat: now,
                        update_interval: config.update_interval@,
                    },
                ),
                None => None,
            },
        }),
{
    reveal_with_fuel(StoredActor::after_all, 6);
}

/// What the store holds after a save: the state is in the record if there
/// is a record, and nothing else has changed.
pub proof fn lemma_save_effect(stored: StoredActor, state: Seq<u8>)
    ensures
        stored.after_all(seq![ActorWriteView::UpdateRecord(state)]) == (StoredActor {
            record: if stored.record is Some {
                Some(state)
            } else {
                None
            },
            health: stored.health,
        }),
{
    reveal_with_fuel(StoredActor::after_all, 2);
}

/// What the store holds after a kill: no record, and the health record as
/// it was.
pub proof fn lemma_kill_effect(stored: StoredActor)
    ensures
        stored.after_all(kill_writes()) == (StoredActor { record: None, health: stored.health }),
{
    reveal_with_fuel(StoredActor::after_all, 2);
}

/// Whether none of the writes creates a record.
pub open spec fn none_creates_record(writes: Seq<ActorWriteView>) -> bool {
    forall|i: int| 0 <= i < writes.len() ==> !(#[trigger] writes[i] is PutRecord)
}

/// An actor without a record has none after any writes of which none
/// creates one.
pub proof fn lemma_record_stays_absent(stored: StoredActor, writes: Seq<ActorWriteView>)
    requires
        stored.record is None,
        none_creates_record(writes),
    ensures
        stored.after_all(writes).record is None,
    decreases writes.len(),
{
    if writes.len() > 0 {
        let rest = writes.subrange(1, writes.len() as int);
        assert(!(writes[0] is PutRecord));
        assert forall|i: int| 0 <= i < rest.len() implies !(#[trigger] rest[i] is PutRecord) by {
            assert(rest[i] == writes[i + 1]);
        }
        lemma_record_stays_absent(stored.after(writes[0]), rest);
    }
}

/// Once an actor is killed it is unhealthy, at every instant and whatever
/// is written for it later, until a spawn creates its record again.
pub proof fn lemma_killed_is_unhealthy(stored: StoredActor, later: Seq<ActorWriteView>, now: int)
    requires
        none_creates_record(later),
    ensures
        !stored.after_all(kill_writes()).after_all(later).is_healthy(now),
{
    lemma_kill_effect(stored);
    lemma_record_stays_absent(stored.after_all(kill_writes()), later);
}

/// An actor that is not watched is healthy, at every instant, exactly
/// while its record exists.
pub proof fn lemma_unwatched_is_healthy_while_recorded(stored: StoredActor, now: int)
    requires
        stored.health is None,
    ensures
        stored.is_healthy(now) == stored.record is Some,
{
}

/// An actor spawned without watching is healthy at every instant, and
/// still is after any number of saves.
pub proof fn lemma_spawned_unwatched_is_healthy(
    stored: StoredActor,
    options: SpawnOptions,
    initial: Seq<u8>,
    spawned_at: int,
    saved: Seq<u8>,
    now: int,
)
    requires
        spawn_state(options.if_exists, stored.record, initial) is Some,
        options.health_config is None,
    ensures
        stored.after_all(spawn_writes(options, stored.record, initial, spawned_at)).is_healthy(now),
        stored.after_all(spawn_writes(options, stored.record, initial, spawned_at)).after_all(
            seq![ActorWriteView::UpdateRecord(saved)],
        ).is_healthy(now),
{
    lemma_spawn_effect(stored, options, initial, spawned_at);
    lemma_save_effect(
        stored.after_all(spawn_writes(options, stored.record, initial, spawned_at)),
        saved,
    );
}

/// A watched actor whose record exists is healthy at every instant up to
/// three update intervals after a heartbeat.
pub proof fn lemma_watched_is_healthy_after_beat(stored: StoredActor, beat_at: int, now: int)
    requires
        stored.record is Some,
        stored.health is Some,
        now <= beat_at + 3 * stored.health.unwrap().update_interval,
    ensures
        stored.after(
            ActorWriteView::PutHealth(beat_view(stored.health.unwrap(), beat_at)),
        ).is_healthy(now),
{
}

/// An actor spawned with watching is healthy at every instant up to three
/// update intervals after the spawn.
pub proof fn lemma_spawned_watched_is_healthy(
    stored: StoredActor,
    options: SpawnOptions,
    initial: Seq<u8>,
    spawned_at: int,
    now: int,
)
    requires
        spawn_state(options.if_exists, stored.record, initial) is Some,
        options.health_config is Some,
        now <= spawned_at + 3 * options.health_config.unwrap().update_interval@,
    ensures
        stored.after_all(spawn_writes(options, stored.record, initial, spawned_at)).is_healthy(now),
{
    lemma_spawn_effect(stored, options, initial, spawned_at);
}

/// A watched actor whose heartbeats have stopped is unhealthy at every
/// instant later than three update intervals after the last one.
pub proof fn lemma_watched_is_unhealthy_when_stale(stored: StoredActor, now: int)
    requires
        stored.health is Some,
        now > stored.health.unwrap().last_heartbeat + 3 * stored.health.unwrap().update_interval,
    ensures
        !stored.is_healthy(now),
{
}

/// Restore brings back what was saved: after a spawn, a save of `saved`
/// and a second spawn with `Restore`, the actor starts with `saved`, and
/// the initial state brought to the second spawn is ignored.
pub proof fn lemma_restore_round_trip(
    stored: StoredActor,
    first: SpawnOptions,
    initial: Seq<u8>,
    spawned_at: int,
    saved: Seq<u8>,
    ignored: Seq<u8>,
)
    requires
        spawn_state(first.if_exists, stored.record, initial) is Some,
    ensures
        spawn_state(
            SpawnExistsOptions::Restore,
            stored.after_all(spawn_writes(first, stored.record, initial, spawned_at)).after_all(
                seq![ActorWriteView::UpdateRecord(saved)],
            ).record,
            ignored,
        ) == Some(saved),
{
    lemma_spawn_effect(stored, first, initial, spawned_at);
    lemma_save_effect(
        stored.after_all(spawn_writes(first, stored.record, initial, spawned_at)),
        saved,
    );
}

} // verus!
