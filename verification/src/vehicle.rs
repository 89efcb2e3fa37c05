//! A concrete configuration payload and its full reload pipeline.
//!
//! `VehicleConfig` is the payload type this crate ships wired end to end:
//! bytes polled from the store are decoded through the external parser and
//! published by the controller, all inside [`Controller::tick`].

use vstd::prelude::*;

use crate::controller::{publish_model, Controller, LoadOutcome, Phase, PublishModel};
use crate::decode::{lookup_field, parse_fields, ron_fields_of};
use crate::error::DecodeError;
use crate::handle::{LoadState, LoadStateModel, ReloadEventModel};
use crate::store::Store;

verus! {

/// A vehicle's tuning parameters, the demonstration payload.
#[derive(Clone, Copy, PartialEq, Eq, Structural, Debug)]
pub struct VehicleConfig {
    pub max_speed: i64,
    pub acceleration: i64,
    pub turn_speed: i64,
}

/// The declared default payload, published until a first load completes.
pub open spec fn default_vehicle() -> VehicleConfig {
    VehicleConfig { max_speed: 100, acceleration: 10, turn_speed: 10 }
}

impl Default for VehicleConfig {
    fn default() -> (r: VehicleConfig)
        ensures
            r == default_vehicle(),
    {
        VehicleConfig { max_speed: 100, acceleration: 10, turn_speed: 10 }
    }
}

/// The payload a list of parsed fields describes: all three fields must be
/// present; the first occurrence of each name wins.
pub open spec fn vehicle_of_fields(fields: Seq<(Seq<char>, i64)>) -> Option<VehicleConfig> {
    match (
        lookup_field(fields, "max_speed"@),
        lookup_field(fields, "acceleration"@),
        lookup_field(fields, "turn_speed"@),
    ) {
        (Some(ms), Some(acc), Some(ts)) => Some(
            VehicleConfig { max_speed: ms, acceleration: acc, turn_speed: ts },
        ),
        _ => None,
    }
}

/// Build the payload from parsed fields, if all three are present.
pub fn vehicle_from_fields(fields: &Vec<(String, i64)>) -> (r: Option<VehicleConfig>)
    ensures
        r == vehicle_of_fields(fields.deep_view()),
{
    let ms = crate::decode::find_field(fields, &String::from_str("max_speed"));
    let acc = crate::decode::find_field(fields, &String::from_str("acceleration"));
    let ts = crate::decode::find_field(fields, &String::from_str("turn_speed"));
    match (ms, acc, ts) {
        (Some(ms), Some(acc), Some(ts)) => Some(
            VehicleConfig { max_speed: ms, acceleration: acc, turn_speed: ts },
        ),
        _ => None,
    }
}

/// What decoding a byte sequence yields: `Some` exactly where the bytes
/// parse as a field map holding all three vehicle fields. A function of the
/// bytes alone, so decoding identical bytes yields identical results.
pub open spec fn decode_vehicle_spec(bytes: Seq<u8>) -> Option<VehicleConfig> {
    match ron_fields_of(bytes) {
        Some(fields) => vehicle_of_fields(fields),
        None => None,
    }
}

/// Decode a payload from raw bytes. Deterministic and side-effect free;
/// returns the decoded payload exactly where [`decode_vehicle_spec`] is
/// `Some`, and a positioned decode error otherwise.
pub fn decode_vehicle(bytes: &[u8]) -> (r: Result<VehicleConfig, DecodeError>)
    ensures
        r is Ok <==> decode_vehicle_spec(bytes@) is Some,
        r matches Ok(v) ==> decode_vehicle_spec(bytes@) == Some(v),
        (ron_fields_of(bytes@) matches Some(fields) && vehicle_of_fields(fields) is None) ==> (
        r matches Err(e) && e.line == 0 && e.col == 0),
    {
    match parse_fields(bytes) {
        Ok(fields) => match vehicle_from_fields(&fields) {
            Some(v) => Ok(v),
            None => Err(
                DecodeError {
                    line: 0,
                    col: 0,
                    message: String::from_str(
                        "expected fields max_speed, acceleration and turn_speed",
                    ),
                },
            ),
        },
        Err(e) => Err(e),
    }
}

/// Decoding is deterministic: identical byte sequences decode to identical
/// results.
pub proof fn lemma_decode_deterministic(b1: Seq<u8>, b2: Seq<u8>)
    requires
        b1 == b2,
    ensures
        decode_vehicle_spec(b1) == decode_vehicle_spec(b2),
{
}

/// A completion queue as the fold specifications see it: handle identifiers
/// paired with load-state models.
pub open spec fn queue_view(q: Seq<(crate::handle::LoadHandle, LoadState)>) -> Seq<
    (u64, LoadStateModel),
> {
    q.map_values(|p: (crate::handle::LoadHandle, LoadState)| (p.0.id, p.1@))
}

/// Effect of one polled completion on the publish-relevant state: only a
/// successfully decoded completion of the active handle publishes.
pub open spec fn vehicle_publish_step(
    p: PublishModel<VehicleConfig>,
    active: Option<u64>,
    location: Seq<char>,
    h: u64,
    st: LoadStateModel,
) -> PublishModel<VehicleConfig> {
    if active != Some(h) {
        p
    } else {
        match st {
            LoadStateModel::Loaded(bytes) => match decode_vehicle_spec(bytes) {
                Some(v) => PublishModel {
                    phase: Phase::Ready,
                    published: v,
                    generation: (p.generation + 1) as u64,
                    events: p.events.push(
                        ReloadEventModel {
                            location: location,
                            generation: (p.generation + 1) as u64,
                        },
                    ),
                },
                None => p,
            },
            _ => p,
        }
    }
}

/// The publish-relevant state after draining a whole completion queue.
pub open spec fn vehicle_publish_fold(
    p: PublishModel<VehicleConfig>,
    active: Option<u64>,
    location: Seq<char>,
    q: Seq<(u64, LoadStateModel)>,
) -> PublishModel<VehicleConfig>
    decreases q.len(),
{
    if q.len() == 0 {
        p
    } else {
        vehicle_publish_fold(
            vehicle_publish_step(p, active, location, q[0].0, q[0].1),
            active,
            location,
            q.drop_first(),
        )
    }
}

/// How many completions of the queue get a failure recorded: completions of
/// the active handle that either failed to read or failed to decode.
pub open spec fn vehicle_failure_count(active: Option<u64>, q: Seq<(u64, LoadStateModel)>) -> nat
    decreases q.len(),
{
    if q.len() == 0 {
        0
    } else {
        (if active == Some(q[0].0) && match q[0].1 {
            LoadStateModel::Loaded(bytes) => decode_vehicle_spec(bytes) is None,
            LoadStateModel::Failed(_) => true,
            LoadStateModel::Pending => false,
        } {
            1 as nat
        } else {
            0 as nat
        }) + vehicle_failure_count(active, q.drop_first())
    }
}

/// Folding one more completion is stepping the fold's result once.
proof fn lemma_vehicle_fold_snoc(
    p: PublishModel<VehicleConfig>,
    active: Option<u64>,
    location: Seq<char>,
    q: Seq<(u64, LoadStateModel)>,
    e: (u64, LoadStateModel),
)
    ensures
        vehicle_publish_fold(p, active, location, q.push(e)) == vehicle_publish_step(
            vehicle_publish_fold(p, active, location, q),
            active,
            location,
            e.0,
            e.1,
        ),
        vehicle_failure_count(active, q.push(e)) == vehicle_failure_count(active, q) + (
        if active == Some(e.0) && match e.1 {
            LoadStateModel::Loaded(bytes) => decode_vehicle_spec(bytes) is None,
            LoadStateModel::Failed(_) => true,
            LoadStateModel::Pending => false,
        } {
            1 as nat
        } else {
            0 as nat
        }),
    decreases q.len(),
{
    if q.len() == 0 {
        assert(q.push(e)[0] == e);
        assert(q.push(e).drop_first() =~= Seq::<(u64, LoadStateModel)>::empty());
        assert(vehicle_publish_fold(p, active, location, q) == p);
        assert(vehicle_publish_fold(p, active, location, q.push(e)) == vehicle_publish_fold(
            vehicle_publish_step(p, active, location, e.0, e.1),
            active,
            location,
            q.push(e).drop_first(),
        ));
        assert(vehicle_failure_count(active, q) == 0);
        assert(vehicle_failure_count(active, q.push(e).drop_first()) == 0);
    } else {
        assert(q.push(e)[0] == q[0]);
        assert(q.push(e).drop_first() =~= q.drop_first().push(e));
        lemma_vehicle_fold_snoc(
            vehicle_publish_step(p, active, location, q[0].0, q[0].1),
            active,
            location,
            q.drop_first(),
            e,
        );
    }
}

impl Controller<VehicleConfig> {
    /// One scheduler tick: drain every completion the store has queued and
    /// consume each in order. Decoded payloads of the active handle are
    /// published with one event each; failures are recorded; completions of
    /// superseded handles are ignored. The publish-relevant state afterwards
    /// is exactly the fold of the drained queue.
    pub fn tick(&mut self, store: &mut Store)
        requires
            old(self).wf(),
            old(store).wf(),
            old(self)@.generation + old(store).queue@.len() <= u64::MAX,
        ensures
            final(self).wf(),
            final(store).wf(),
            final(store).queue@.len() == 0,
            final(store).loads == old(store).loads,
            final(store).authoritative == old(store).authoritative,
            final(self)@.location == old(self)@.location,
            final(self)@.active == old(self)@.active,
            final(self)@.initial == old(self)@.initial,
            publish_model(final(self)@) == vehicle_publish_fold(
                publish_model(old(self)@),
                old(self)@.active,
                old(self)@.location,
                queue_view(old(store).queue@),
            ),
            final(self)@.errors.len() == old(self)@.errors.len() + vehicle_failure_count(
                old(self)@.active,
                queue_view(old(store).queue@),
            ),
            forall|i: int|
                0 <= i < old(self)@.errors.len() ==> final(self)@.errors[i] == old(
                    self,
                )@.errors[i],
    {
        let events = store.poll_events();
        let ghost q = queue_view(events@);
        let n = events.len();
        let mut k: usize = 0;
        proof {
            assert(q.take(0) =~= Seq::<(u64, LoadStateModel)>::empty());
        }
        while k < n
            invariant
                self.wf(),
                n == events@.len(),
                q == queue_view(events@),
                k <= n,
                self@.generation + (n - k) <= u64::MAX,
                self@.location == old(self)@.location,
                self@.active == old(self)@.active,
                self@.initial == old(self)@.initial,
                publish_model(self@) == vehicle_publish_fold(
                    publish_model(old(self)@),
                    old(self)@.active,
                    old(self)@.location,
                    q.take(k as int),
                ),
                self@.errors.len() == old(self)@.errors.len() + vehicle_failure_count(
                    old(self)@.active,
                    q.take(k as int),
                ),
                forall|i: int|
                    0 <= i < old(self)@.errors.len() ==> self@.errors[i] == old(self)@.errors[i],
            decreases n - k,
        {
            let ghost prev = self@;
            let pair = &events[k];
            let h = pair.0;
            match &pair.1 {
                LoadState::Loaded(bytes) => {
                    match decode_vehicle(bytes.as_slice()) {
                        Ok(v) => self.apply(h, LoadOutcome::Decoded(v)),
                        Err(e) => self.apply(h, LoadOutcome::DecodeFailed(e)),
                    }
                },
                LoadState::Failed(reason) => {
                    self.apply(h, LoadOutcome::IoFailed(reason.clone()));
                },
                LoadState::Pending => {},
            }
            proof {
                assert(q.take(k as int + 1) =~= q.take(k as int).push(q[k as int]));
                lemma_vehicle_fold_snoc(
                    publish_model(old(self)@),
                    old(self)@.active,
                    old(self)@.location,
                    q.take(k as int),
                    q[k as int],
                );
                assert(publish_model(self@) =~= vehicle_publish_step(
                    publish_model(prev),
                    prev.active,
                    prev.location,
                    q[k as int].0,
                    q[k as int].1,
                ));
            }
            k += 1;
        }
        proof {
            assert(q.take(n as int) =~= q);
        }
    }
}

} // verus!

