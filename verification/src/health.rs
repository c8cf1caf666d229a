//! Heartbeats and the rule by which an actor counts as healthy.

use vstd::prelude::*;
use crate::time::{Span, Timestamp};

verus! {

/// An actor whose last heartbeat is more than this many update intervals
/// old is unhealthy.
pub const STALE_AFTER_BEATS: u8 = 3;

/// How an actor's health is watched: a heartbeat is written every
/// `update_interval`.
#[derive(Clone, Copy, Debug, PartialEq, Eq, Structural)]
pub struct HealthConfig {
    pub update_interval: Span,
}

/// A health record as plain values: nanoseconds since 1970 and
/// nanoseconds.
pub struct HealthRecordView {
    pub last_heartbeat: int,
    pub update_interval: nat,
}

/// What the store holds about the health of one actor. There is a record
/// only while the actor is watched.
#[derive(Clone, Copy, Debug, PartialEq, Eq, Structural)]
pub struct HealthRecord {
    pub last_heartbeat: Timestamp,
    pub update_interval: Span,
}

impl View for HealthRecord {
    type V = HealthRecordView;

    open spec fn view(&self) -> HealthRecordView {
        HealthRecordView {
            last_heartbeat: self.last_heartbeat@,
            update_interval: self.update_interval@,
        }
    }
}

/// The health record of an actor that may have none, as plain values.
pub open spec fn health_view(health: Option<HealthRecord>) -> Option<HealthRecordView> {
    match health {
        Some(record) => Some(record@),
        None => None,
    }
}

/// Whether a heartbeat written at `last_heartbeat` is fresh at `now`: no
/// more than three update intervals have passed since.
pub open spec fn fresh(record: HealthRecordView, now: int) -> bool {
    now - record.last_heartbeat <= STALE_AFTER_BEATS * record.update_interval
}

/// Whether an actor is healthy at `now`: its record exists, and it is
/// either not watched or its last heartbeat is fresh.
pub open spec fn healthy(record_exists: bool, health: Option<HealthRecordView>, now: int) -> bool {
    record_exists && match health {
        None => true,
        Some(record) => fresh(record, now),
    }
}

impl HealthConfig {
    /// A configuration that asks for a heartbeat every `update_interval`.
    pub fn new(update_interval: Span) -> (config: HealthConfig)
        ensures
            config.update_interval == update_interval,
    {
        HealthConfig { update_interval }
    }
}

/// The record after a heartbeat at `now`: the heartbeat never moves back.
pub open spec fn beat_view(record: HealthRecordView, now: int) -> HealthRecordView {
    HealthRecordView {
        last_heartbeat: if now >= record.last_heartbeat {
            now
        } else {
            record.last_heartbeat
        },
        update_interval: record.update_interval,
    }
}

impl HealthRecord {
    /// The record written when watching starts at `now`.
    pub fn start(config: &HealthConfig, now: Timestamp) -> (record: HealthRecord)
        ensures
            record.last_heartbeat == now,
            record.update_interval == config.update_interval,
    {
        HealthRecord { last_heartbeat: now, update_interval: config.update_interval }
    }

    /// The record after a heartbeat at `now`. The last heartbeat becomes
    /// `now`, unless `now` lies before it: it never moves back.
    pub fn beat(&self, now: Timestamp) -> (record: HealthRecord)
        ensures
            record@ == beat_view(self@, now@),
            record.last_heartbeat@ >= self.last_heartbeat@,
    {
        HealthRecord {
            last_heartbeat: now.latest(self.last_heartbeat),
            update_interval: self.update_interval,
        }
    }

    /// Whether the last heartbeat is fresh at `now`.
    pub fn is_fresh(&self, now: &Timestamp) -> (is_fresh: bool)
        ensures
            is_fresh == fresh(self@, now@),
    {
        !now.is_more_than_after(STALE_AFTER_BEATS, &self.update_interval, &self.last_heartbeat)
    }
}

/// Whether an actor is healthy at `now`, given whether its record exists
/// and the health record that the store holds for it, if any.
pub fn is_healthy(record_exists: bool, health: &Option<HealthRecord>, now: &Timestamp) -> (is: bool)
    ensures
        is == healthy(record_exists, health_view(*health), now@),
{
    if !record_exists {
        return false;
    }
    match health {
        None => true,
        Some(record) => record.is_fresh(now),
    }
}

/// An actor without a record is unhealthy, whatever its health record says
/// and whenever it is asked.
pub proof fn lemma_no_record_is_unhealthy(health: Option<HealthRecordView>, now: int)
    ensures
        !healthy(false, health, now),
{
}

/// An actor that is not watched is healthy for as long as its record
/// exists.
pub proof fn lemma_unwatched_is_healthy(now: int)
    ensures
        healthy(true, None, now),
{
}

/// A watched actor whose record exists is healthy at every instant that
/// lies no more than three update intervals after its last heartbeat, and
/// at no later one.
pub proof fn lemma_watched_is_healthy_while_fresh(record: HealthRecordView, now: int)
    ensures
        healthy(true, Some(record), now) <==> now <= record.last_heartbeat + 3
            * record.update_interval,
{
}

/// After a heartbeat at `beat_at`, the actor is healthy at every instant
/// up to three update intervals later, whatever the record held before.
pub proof fn lemma_beat_keeps_healthy(record: HealthRecordView, beat_at: int, now: int)
    requires
        now <= beat_at + 3 * record.update_interval,
    ensures
        healthy(true, Some(beat_view(record, beat_at)), now),
{
}

/// Heartbeats never move the last heartbeat back.
pub proof fn lemma_beat_is_monotone(record: HealthRecordView, now: int)
    ensures
        beat_view(record, now).last_heartbeat >= record.last_heartbeat,
        beat_view(record, now).last_heartbeat >= now,
        beat_view(record, now).update_interval == record.update_interval,
{
}

} // verus!
