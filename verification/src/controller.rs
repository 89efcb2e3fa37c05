//! The reload controller: the state machine at the heart of the crate.
//!
//! One controller tracks one configuration type loaded from one source
//! location. It requests the initial load, consumes completions polled from
//! the store, atomically republishes the decoded value, and appends exactly
//! one [`ReloadEvent`] to its log per publish. Decode and I/O failures are
//! recorded and leave the published value untouched; completions of
//! superseded handles are ignored.

use vstd::prelude::*;

use crate::error::{ConfigError, ConfigErrorModel, DecodeError, DecodeErrorModel};
use crate::handle::{LoadHandle, ReloadEvent, ReloadEventModel};
use crate::store::{auth_lookup, Store};

verus! {

/// Lifecycle phase of a controller. There is no failed phase: a failure
/// leaves the controller where it was.
#[derive(Clone, Copy, PartialEq, Eq, Structural, Debug)]
pub enum Phase {
    /// No load requested yet; the published value is the declared default.
    Uninitialized,
    /// The first load was requested and has not yet published.
    Loading,
    /// At least one decode succeeded and was published.
    Ready,
}

/// What one completion amounted to once the decoder has run: a decoded
/// payload, a decode failure, or an I/O failure reported by the byte source.
pub enum LoadOutcome<T> {
    Decoded(T),
    DecodeFailed(DecodeError),
    IoFailed(String),
}

/// Mathematical model of a [`LoadOutcome`].
pub enum LoadOutcomeModel<T> {
    Decoded(T),
    DecodeFailed(DecodeErrorModel),
    IoFailed(Seq<char>),
}

impl<T> View for LoadOutcome<T> {
    type V = LoadOutcomeModel<T>;

    open spec fn view(&self) -> LoadOutcomeModel<T> {
        match self {
            LoadOutcome::Decoded(v) => LoadOutcomeModel::Decoded(*v),
            LoadOutcome::DecodeFailed(e) => LoadOutcomeModel::DecodeFailed(e@),
            LoadOutcome::IoFailed(m) => LoadOutcomeModel::IoFailed(m@),
        }
    }
}

/// Mathematical model of a [`Controller`].
#[verifier::ext_equal]
pub struct ControllerModel<T> {
    pub location: Seq<char>,
    pub phase: Phase,
    pub active: Option<u64>,
    pub published: T,
    pub initial: T,
    pub generation: u64,
    pub events: Seq<ReloadEventModel>,
    pub errors: Seq<ConfigErrorModel>,
}

/// How a controller reacts to one completion `(h, outcome)`: a completion of
/// a handle other than the active one changes nothing; a decoded payload is
/// published, bumping the generation and appending exactly one event; a
/// failure only records an error.
pub open spec fn controller_step<T>(
    m: ControllerModel<T>,
    h: u64,
    outcome: LoadOutcomeModel<T>,
) -> ControllerModel<T> {
    if m.active != Some(h) {
        m
    } else {
        match outcome {
            LoadOutcomeModel::Decoded(v) => ControllerModel {
                phase: Phase::Ready,
                published: v,
                generation: (m.generation + 1) as u64,
                events: m.events.push(
                    ReloadEventModel {
                        location: m.location,
                        generation: (m.generation + 1) as u64,
                    },
                ),
                ..m
            },
            LoadOutcomeModel::DecodeFailed(e) => ControllerModel {
                errors: m.errors.push(ConfigErrorModel::Decode(e)),
                ..m
            },
            LoadOutcomeModel::IoFailed(msg) => ControllerModel {
                errors: m.errors.push(ConfigErrorModel::Io(msg)),
                ..m
            },
        }
    }
}

/// The publish-relevant part of a controller's state: everything a reader
/// of the current value or of the event log can observe.
#[verifier::ext_equal]
pub struct PublishModel<T> {
    pub phase: Phase,
    pub published: T,
    pub generation: u64,
    pub events: Seq<ReloadEventModel>,
}

/// Projection of a controller model onto its publish-relevant part.
pub open spec fn publish_model<T>(m: ControllerModel<T>) -> PublishModel<T> {
    PublishModel {
        phase: m.phase,
        published: m.published,
        generation: m.generation,
        events: m.events,
    }
}

/// A controller folded over a sequence of completions, first to last.
pub open spec fn run_steps<T>(
    m: ControllerModel<T>,
    steps: Seq<(u64, LoadOutcomeModel<T>)>,
) -> ControllerModel<T>
    decreases steps.len(),
{
    if steps.len() == 0 {
        m
    } else {
        run_steps(controller_step(m, steps[0].0, steps[0].1), steps.drop_first())
    }
}

/// State machine for one configuration type read from one source location.
pub struct Controller<T> {
    /// Where the payload is read from; fixed for the controller's lifetime.
    pub location: String,
    /// Current lifecycle phase.
    pub phase: Phase,
    /// The authoritative handle whose completions this controller accepts.
    pub active: Option<LoadHandle>,
    /// The current value: the declared default until a first decode
    /// succeeds, then always the most recently decoded payload.
    pub published: T,
    /// The declared default, remembered for specification purposes.
    pub initial: Ghost<T>,
    /// Number of publishes so far; generation `g` was published `g`-th.
    pub generation: u64,
    /// Log of all emitted events; one per publish, in publish order.
    pub events: Vec<ReloadEvent>,
    /// Log of all reported failures, in report order.
    pub errors: Vec<ConfigError>,
}

impl<T> View for Controller<T> {
    type V = ControllerModel<T>;

    open spec fn view(&self) -> ControllerModel<T> {
        ControllerModel {
            location: self.location@,
            phase: self.phase,
            active: match self.active {
                Some(h) => Some(h.id),
                None => None,
            },
            published: self.published,
            initial: self.initial@,
            generation: self.generation,
            events: self.events.deep_view(),
            errors: self.errors.deep_view(),
        }
    }
}

impl<T> Controller<T> {
    /// Well-formedness: the event log has exactly one entry per publish,
    /// numbered 1 upward and naming this controller's location; the
    /// controller is ready exactly after its first publish; before the
    /// first publish the published value is still the declared default;
    /// and a handle is active exactly once a load was requested.
    pub open spec fn wf(self) -> bool {
        let m = self@;
        &&& m.events.len() == m.generation as int
        &&& (m.phase is Ready <==> m.generation > 0)
        &&& (m.generation == 0 ==> m.published == m.initial)
        &&& forall|i: int|
            0 <= i < m.events.len() ==> (#[trigger] m.events[i]).generation == i + 1
                && m.events[i].location == m.location
        &&& (m.phase is Uninitialized ==> m.active is None)
    }

    /// A controller for a payload read from `location`, publishing
    /// `default_value` until a first load completes.
    pub fn new(default_value: T, location: String) -> (c: Controller<T>)
        ensures
            c.wf(),
            c@.location == location@,
            c@.phase is Uninitialized,
            c@.active is None,
            c@.published == default_value,
            c@.initial == default_value,
            c@.generation == 0,
            c@.events.len() == 0,
            c@.errors.len() == 0,
    {
        let ghost init = default_value;
        Controller {
            location,
            phase: Phase::Uninitialized,
            active: None,
            published: default_value,
            initial: Ghost(init),
            generation: 0,
            events: Vec::new(),
            errors: Vec::new(),
        }
    }

    /// First activation: request the load of this controller's location from
    /// the store and start tracking the returned handle.
    pub fn activate(&mut self, store: &mut Store)
        requires
            old(self).wf(),
            old(store).wf(),
            old(self)@.phase is Uninitialized,
            old(store).loads@.len() < u64::MAX,
        ensures
            final(self).wf(),
            final(store).wf(),
            final(self)@.phase is Loading,
            final(self)@.active == Some(old(store).loads@.len() as u64),
            final(self)@ == (ControllerModel {
                phase: Phase::Loading,
                active: final(self)@.active,
                ..old(self)@
            }),
            auth_lookup(final(store).authoritative@, old(self)@.location) == final(self)@.active,
            final(store).loads@.len() == old(store).loads@.len() + 1,
            final(store).loads@[old(store).loads@.len() as int].location@ == old(self)@.location,
            final(store).loads@[old(store).loads@.len() as int].completed == false,
            forall|i: int|
                0 <= i < old(store).loads@.len() ==> final(store).loads@[i] == old(
                    store,
                ).loads@[i],
            forall|loc: Seq<char>|
                loc != old(self)@.location ==> auth_lookup(final(store).authoritative@, loc)
                    == auth_lookup(old(store).authoritative@, loc),
            final(store).queue@ == old(store).queue@,
    {
        let h = store.request_load(self.location.clone());
        self.active = Some(h);
        self.phase = Phase::Loading;
    }

    /// Explicit re-request of this controller's location: a fresh handle is
    /// issued and becomes the active one, superseding the previous handle.
    /// Completions of the superseded handle will from now on be ignored.
    pub fn request_reload(&mut self, store: &mut Store)
        requires
            old(self).wf(),
            old(store).wf(),
            !(old(self)@.phase is Uninitialized),
            old(store).loads@.len() < u64::MAX,
        ensures
            final(self).wf(),
            final(store).wf(),
            final(self)@.active == Some(old(store).loads@.len() as u64),
            final(self)@ == (ControllerModel { active: final(self)@.active, ..old(self)@ }),
            auth_lookup(final(store).authoritative@, old(self)@.location) == final(self)@.active,
            final(store).loads@.len() == old(store).loads@.len() + 1,
            final(store).loads@[old(store).loads@.len() as int].location@ == old(self)@.location,
            final(store).loads@[old(store).loads@.len() as int].completed == false,
            forall|i: int|
                0 <= i < old(store).loads@.len() ==> final(store).loads@[i] == old(
                    store,
                ).loads@[i],
            forall|loc: Seq<char>|
                loc != old(self)@.location ==> auth_lookup(final(store).authoritative@, loc)
                    == auth_lookup(old(store).authoritative@, loc),
            final(store).queue@ == old(store).queue@,
    {
        let h = store.request_load(self.location.clone());
        self.active = Some(h);
    }

    /// Consume one completion: publish on a successful decode of the active
    /// handle, record a failure, and ignore completions of superseded
    /// handles. Behaves exactly as [`controller_step`] on the model.
    pub fn apply(&mut self, h: LoadHandle, outcome: LoadOutcome<T>)
        requires
            old(self).wf(),
            old(self)@.generation < u64::MAX,
        ensures
            final(self).wf(),
            final(self)@ == controller_step(old(self)@, h.id, outcome@),
    {
        let accepts = match &self.active {
            Some(t) => t.id == h.id,
            None => false,
        };
        if !accepts {
            proof {
                assert(final(self)@ =~= controller_step(old(self)@, h.id, outcome@));
            }
            return ;
        }
        match outcome {
            LoadOutcome::Decoded(v) => {
                self.published = v;
                self.generation = self.generation + 1;
                let ev = ReloadEvent { location: self.location.clone(), generation: self.generation };
                self.events.push(ev);
                self.phase = Phase::Ready;
                proof {
                    assert(self.events.deep_view() =~= old(self).events.deep_view().push(ev@));
                    assert(final(self)@ =~= controller_step(old(self)@, h.id, outcome@));
                }
            },
            LoadOutcome::DecodeFailed(e) => {
                let ghost em = e@;
                self.errors.push(ConfigError::Decode(e));
                proof {
                    assert(self.errors.deep_view() =~= old(self).errors.deep_view().push(
                        ConfigErrorModel::Decode(em),
                    ));
                    assert(final(self)@ =~= controller_step(old(self)@, h.id, outcome@));
                }
            },
            LoadOutcome::IoFailed(m) => {
                let ghost mm = m@;
                self.errors.push(ConfigError::Io { message: m });
                proof {
                    assert(self.errors.deep_view() =~= old(self).errors.deep_view().push(
                        ConfigErrorModel::Io(mm),
                    ));
                    assert(final(self)@ =~= controller_step(old(self)@, h.id, outcome@));
                }
            },
        }
    }

    /// Tear the controller down: stop tracking the active handle. Work
    /// still in flight for that handle may complete, but its completions
    /// match no active handle any more and are discarded. The published
    /// value remains readable.
    pub fn shutdown(&mut self)
        requires
            old(self).wf(),
        ensures
            final(self).wf(),
            final(self)@ == (ControllerModel { active: None, ..old(self)@ }),
    {
        self.active = None;
    }

    /// The current value. Never blocks and never fails: before the first
    /// successful load this is the declared default, afterwards the most
    /// recently published payload.
    pub fn current(&self) -> (r: &T)
        ensures
            *r == self@.published,
    {
        &self.published
    }

    /// Begin observing this controller's events. Each subscription receives
    /// every event independently, starting from the first.
    pub fn subscribe(&self) -> (s: Subscription)
        ensures
            s.cursor == 0,
    {
        Subscription { cursor: 0 }
    }

    /// The next event this subscription has not yet seen, if any, advancing
    /// the subscription past it.
    pub fn next_event(&self, sub: &mut Subscription) -> (r: Option<&ReloadEvent>)
        ensures
            old(sub).cursor < self@.events.len() ==> (final(sub).cursor == old(sub).cursor + 1 && (
            r matches Some(e) && e@ == self@.events[old(sub).cursor as int])),
            old(sub).cursor >= self@.events.len() ==> (r is None && final(sub).cursor == old(
                sub,
            ).cursor),
    {
        if sub.cursor < self.events.len() {
            let e = &self.events[sub.cursor];
            sub.cursor = sub.cursor + 1;
            Some(e)
        } else {
            None
        }
    }
}

/// One observer's position in a controller's event log. Events are
/// broadcast: subscriptions advance independently and each sees every event.
pub struct Subscription {
    pub cursor: usize,
}

/// Before any load completes the current value equals the declared default.
pub proof fn lemma_default_before_first_publish<T>(c: Controller<T>)
    requires
        c.wf(),
        c@.generation == 0,
    ensures
        c@.published == c@.initial,
{
}

/// For any sequence of successful decode completions delivered for the
/// active handle, exactly one event is emitted per completion, the
/// generation advances once per completion, and the published value is the
/// most recently decoded payload.
pub proof fn lemma_one_event_per_publish<T>(
    m: ControllerModel<T>,
    h: u64,
    steps: Seq<(u64, LoadOutcomeModel<T>)>,
)
    requires
        m.active == Some(h),
        m.generation + steps.len() <= u64::MAX,
        forall|i: int|
            0 <= i < steps.len() ==> (#[trigger] steps[i]).0 == h && steps[i].1 is Decoded,
    ensures
        run_steps(m, steps).events.len() == m.events.len() + steps.len(),
        run_steps(m, steps).generation == m.generation + steps.len(),
        forall|i: int|
            0 <= i < m.events.len() ==> #[trigger] run_steps(m, steps).events[i] == m.events[i],
        steps.len() > 0 ==> (steps.last().1 matches LoadOutcomeModel::Decoded(v) && run_steps(
            m,
            steps,
        ).published == v),
        steps.len() == 0 ==> run_steps(m, steps).published == m.published,
    decreases steps.len(),
{
    if steps.len() > 0 {
        let m1 = controller_step(m, steps[0].0, steps[0].1);
        assert(steps[0].0 == h && steps[0].1 is Decoded);
        assert(m1.events.len() == m.events.len() + 1);
        assert forall|i: int|
            0 <= i < steps.drop_first().len() implies (#[trigger] steps.drop_first()[i]).0 == h
            && steps.drop_first()[i].1 is Decoded by {
            assert(steps.drop_first()[i] == steps[i + 1]);
        }
        lemma_one_event_per_publish(m1, h, steps.drop_first());
        if steps.len() > 1 {
            assert(steps.drop_first().last() == steps.last());
        } else {
            assert(steps.drop_first().len() == 0);
            assert(steps.last() == steps[0]);
        }
    }
}

/// A completion whose decode failed, or whose read failed, leaves the
/// published value, the phase, the generation and the event log unchanged:
/// no event is emitted for a failure.
pub proof fn lemma_failure_preserves_value<T>(
    m: ControllerModel<T>,
    h: u64,
    outcome: LoadOutcomeModel<T>,
)
    requires
        outcome is DecodeFailed || outcome is IoFailed,
    ensures
        controller_step(m, h, outcome).published == m.published,
        controller_step(m, h, outcome).phase == m.phase,
        controller_step(m, h, outcome).generation == m.generation,
        controller_step(m, h, outcome).events == m.events,
{
}

/// A completion delivered for a handle that has been superseded by a newer
/// request changes nothing: it is not published and not even recorded.
pub proof fn lemma_stale_handle_ignored<T>(
    m: ControllerModel<T>,
    h: u64,
    outcome: LoadOutcomeModel<T>,
)
    requires
        m.active != Some(h),
    ensures
        controller_step(m, h, outcome) == m,
{
}

} // verus!
