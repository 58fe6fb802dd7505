//! The supervisor's core: one worker handle at a time, a restart decision
//! that is exact about when a respawn happens, and a ghost protocol model
//! under which request/response exchanges are proved to be strictly paired.

use vstd::prelude::*;
use vstd::string::StrSliceExecFns;

verus! {

/// What one non-blocking poll of the worker process reported.
#[derive(Clone, Copy, Debug, PartialEq, Eq, Structural)]
pub enum PollOutcome {
    /// The process has not exited.
    StillRunning,
    /// The process has exited.
    Exited,
    /// The poll itself failed.
    PollFailed,
}

/// A poll outcome counts as alive only when the process is still running: an
/// exited process and a failed poll both mean "not alive".
pub open spec fn alive_after_poll(p: PollOutcome) -> bool {
    p is StillRunning
}

/// Interpret a poll outcome.
pub fn poll_says_alive(p: PollOutcome) -> (r: bool)
    ensures
        r == alive_after_poll(p),
{
    match p {
        PollOutcome::StillRunning => true,
        PollOutcome::Exited => false,
        PollOutcome::PollFailed => false,
    }
}

/// A restart is needed unless a live worker launched with the requested
/// state-file path is at hand: when no worker exists, when the worker is not
/// alive, or when it was launched with a different state-file path.
pub open spec fn restart_needed(current: Option<Seq<char>>, alive: bool, requested: Seq<
    char,
>) -> bool {
    match current {
        Some(path) => !alive || path != requested,
        None => true,
    }
}

/// Law: a worker that is not alive forces a restart, whatever state-file path
/// is requested and whatever path it was launched with.
pub proof fn lemma_dead_worker_restarts(current: Option<Seq<char>>, requested: Seq<char>)
    ensures
        restart_needed(current, false, requested),
{
}

/// Law: a live worker launched with a different state-file path than the one
/// requested forces a restart.
pub proof fn lemma_stale_path_restarts(path: Seq<char>, requested: Seq<char>)
    requires
        path != requested,
    ensures
        restart_needed(Some(path), true, requested),
{
}

/// Law: a live worker launched with exactly the requested state-file path is
/// kept; no respawn happens.
pub proof fn lemma_matching_live_worker_kept(path: Seq<char>)
    ensures
        !restart_needed(Some(path), true, path),
{
}

/// Ghost model of the supervisor: the state-file path of the live worker, if
/// any, and how many requests are in flight on its pipes.
pub struct ProtocolModel {
    pub worker: Option<Seq<char>>,
    pub in_flight: nat,
}

/// The model before anything happened: no worker, nothing in flight.
pub open spec fn init_model() -> ProtocolModel {
    ProtocolModel { worker: None, in_flight: 0 }
}

/// One observable step of the supervisor against the worker's pipes.
pub enum ProtocolEvent {
    /// A fresh worker was spawned with the given state-file path.
    Spawn(Seq<char>),
    /// The current worker handle was dropped (dead or stale).
    Discard,
    /// One request line was written to the worker's input.
    Send,
    /// One response line (or end of stream) was read from its output.
    Receive,
}

/// When a step is allowed: requests are sent only to a live slot with nothing
/// in flight, a response is read only for the one outstanding request, and
/// handles are replaced only between exchanges.
pub open spec fn event_allowed(m: ProtocolModel, e: ProtocolEvent) -> bool {
    match e {
        ProtocolEvent::Spawn(_) => m.in_flight == 0 && m.worker is None,
        ProtocolEvent::Discard => m.in_flight == 0,
        ProtocolEvent::Send => m.in_flight == 0 && m.worker is Some,
        ProtocolEvent::Receive => m.in_flight == 1,
    }
}

/// The state a step leads to.
pub open spec fn apply_event(m: ProtocolModel, e: ProtocolEvent) -> ProtocolModel {
    match e {
        ProtocolEvent::Spawn(p) => ProtocolModel { worker: Some(p), in_flight: m.in_flight },
        ProtocolEvent::Discard => ProtocolModel { worker: None, in_flight: m.in_flight },
        ProtocolEvent::Send => ProtocolModel { worker: m.worker, in_flight: m.in_flight + 1 },
        ProtocolEvent::Receive => ProtocolModel {
            worker: m.worker,
            in_flight: (m.in_flight - 1) as nat,
        },
    }
}

/// Whether every step of `events`, taken from `m`, is allowed.
pub open spec fn trace_allowed(m: ProtocolModel, events: Seq<ProtocolEvent>) -> bool
    decreases events.len(),
{
    events.len() == 0 || (event_allowed(m, events[0]) && trace_allowed(
        apply_event(m, events[0]),
        events.skip(1),
    ))
}

/// The state after all of `events`, taken from `m`.
pub open spec fn state_after(m: ProtocolModel, events: Seq<ProtocolEvent>) -> ProtocolModel
    decreases events.len(),
{
    if events.len() == 0 {
        m
    } else {
        state_after(apply_event(m, events[0]), events.skip(1))
    }
}

/// The protocol invariant: never more than one request in flight, and one in
/// flight only on the pipes of an installed worker.
pub open spec fn model_inv(m: ProtocolModel) -> bool {
    m.in_flight <= 1 && (m.in_flight == 1 ==> m.worker is Some)
}

proof fn lemma_inv_preserved(m: ProtocolModel, events: Seq<ProtocolEvent>, i: int)
    requires
        model_inv(m),
        trace_allowed(m, events),
        0 <= i <= events.len(),
    ensures
        model_inv(state_after(m, events.take(i))),
    decreases i,
{
    if i == 0 {
        assert(events.take(0).len() == 0);
    } else {
        let e = events[0];
        let m1 = apply_event(m, e);
        assert(event_allowed(m, e));
        assert(model_inv(m1));
        lemma_inv_preserved(m1, events.skip(1), i - 1);
        assert(events.take(i).skip(1) =~= events.skip(1).take(i - 1));
        assert(events.take(i)[0] == e);
        assert(state_after(m, events.take(i)) == state_after(m1, events.skip(1).take(i - 1)));
    }
}

/// Appending one step: the final state steps once more, and an allowed trace
/// stays allowed when the appended step is allowed in its final state.
pub proof fn lemma_state_after_push(m: ProtocolModel, events: Seq<ProtocolEvent>, e: ProtocolEvent)
    ensures
        state_after(m, events.push(e)) == apply_event(state_after(m, events), e),
        trace_allowed(m, events) && event_allowed(state_after(m, events), e) ==> trace_allowed(
            m,
            events.push(e),
        ),
    decreases events.len(),
{
    let snoc = events.push(e);
    assert(snoc.len() == events.len() + 1);
    if events.len() == 0 {
        assert(snoc[0] == e);
        assert(snoc.skip(1) =~= Seq::<ProtocolEvent>::empty());
        assert(state_after(m, snoc) == state_after(apply_event(m, e), snoc.skip(1)));
        assert(state_after(m, events) == m);
        assert(trace_allowed(apply_event(m, e), snoc.skip(1)));
    } else {
        let m1 = apply_event(m, events[0]);
        lemma_state_after_push(m1, events.skip(1), e);
        assert(snoc[0] == events[0]);
        assert(snoc.skip(1) =~= events.skip(1).push(e));
        assert(state_after(m, snoc) == state_after(m1, events.skip(1).push(e)));
        assert(state_after(m, events) == state_after(m1, events.skip(1)));
        assert(state_after(m, snoc) == apply_event(state_after(m, events), e));
        if trace_allowed(m, events) && event_allowed(state_after(m, events), e) {
            assert(trace_allowed(m1, events.skip(1)));
            assert(trace_allowed(m1, events.skip(1).push(e)));
            assert(trace_allowed(m, snoc));
        }
    }
}

/// Law: along any allowed trace from the initial state, at most one request
/// is in flight at every instant, and only on the pipes of an installed
/// worker.
pub proof fn lemma_requests_serialized(events: Seq<ProtocolEvent>, i: int)
    requires
        trace_allowed(init_model(), events),
        0 <= i <= events.len(),
    ensures
        model_inv(state_after(init_model(), events.take(i))),
        state_after(init_model(), events.take(i)).in_flight <= 1,
{
    lemma_inv_preserved(init_model(), events, i);
}

/// Law: no request can be sent while no worker is installed; a spawn must
/// come first.
pub proof fn lemma_send_needs_worker(m: ProtocolModel)
    requires
        m.worker is None,
    ensures
        !event_allowed(m, ProtocolEvent::Send),
{
}

/// The one worker handle the supervisor owns, tagged with the state-file path
/// it was launched with. `H` is whatever the caller uses as the raw process
/// handle; this crate never looks inside it.
pub struct WorkerEntry<H> {
    pub handle: H,
    pub state_path: String,
}

/// The supervisor's single slot for a live worker, together with the
/// in-flight flag that pairs each request with exactly one response. Its
/// methods are the only way to move it, and each one's contract is a step of
/// the protocol model.
pub struct WorkerSlot<H> {
    entry: Option<WorkerEntry<H>>,
    busy: bool,
    history: Ghost<Seq<ProtocolEvent>>,
}

impl<H> WorkerSlot<H> {
    /// The protocol-model view of this slot.
    pub closed spec fn model(self) -> ProtocolModel {
        ProtocolModel {
            worker: match self.entry {
                Some(e) => Some(e.state_path@),
                None => None,
            },
            in_flight: if self.busy {
                1nat
            } else {
                0nat
            },
        }
    }

    /// Whether a request has been written whose response is not yet read.
    pub open spec fn in_flight(self) -> bool {
        self.model().in_flight == 1
    }

    /// Whether the slot holds a worker handle.
    pub open spec fn has_worker(self) -> bool {
        self.model().worker is Some
    }

    /// The entry in the slot, for specification.
    pub closed spec fn spec_entry(self) -> Option<WorkerEntry<H>> {
        self.entry
    }

    /// The events this slot has gone through, oldest first.
    pub closed spec fn history(self) -> Seq<ProtocolEvent> {
        self.history@
    }

    /// The slot's history is an allowed trace from the initial state and
    /// leads exactly to its current model. `new` establishes this and every
    /// method keeps it, so it holds of any slot however it was driven.
    pub closed spec fn consistent(self) -> bool {
        trace_allowed(init_model(), self.history@) && state_after(init_model(), self.history@)
            == self.model()
    }

    /// An empty slot: no worker, nothing in flight.
    pub fn new() -> (r: Self)
        ensures
            r.model() == init_model(),
            !r.in_flight(),
            !r.has_worker(),
            r.consistent(),
            r.history() == Seq::<ProtocolEvent>::empty(),
    {
        let slot = WorkerSlot { entry: None, busy: false, history: Ghost(Seq::empty()) };
        proof {
            assert(state_after(init_model(), slot.history@) == slot.model());
        }
        slot
    }

    /// Whether a request is currently in flight.
    pub fn is_in_flight(&self) -> (r: bool)
        ensures
            r == self.in_flight(),
    {
        self.busy
    }

    /// Whether the slot holds a worker handle.
    pub fn holds_worker(&self) -> (r: bool)
        ensures
            r == self.has_worker(),
    {
        self.entry.is_some()
    }

    /// The current worker entry, if any; the raw handle inside it is the
    /// caller's to poll or to talk to.
    pub fn current(&self) -> (r: Option<&WorkerEntry<H>>)
        ensures
            match r {
                Some(e) => self.spec_entry() == Some(*e),
                None => self.spec_entry() is None,
            },
    {
        self.entry.as_ref()
    }

    /// Keep the current worker only when it is alive and was launched with
    /// the requested state-file path; otherwise drop it, so that a fresh one
    /// is spawned. Returns whether the worker was kept.
    pub fn retain_matching(&mut self, alive: bool, requested: &str) -> (kept: bool)
        requires
            !old(self).in_flight(),
            old(self).consistent(),
        ensures
            kept == !restart_needed(old(self).model().worker, alive, requested@),
            !final(self).in_flight(),
            final(self).consistent(),
            kept ==> *final(self) == *old(self),
            !kept ==> final(self).model() == apply_event(old(self).model(), ProtocolEvent::Discard),
            !kept ==> final(self).spec_entry() is None,
            !kept ==> final(self).history() == old(self).history().push(ProtocolEvent::Discard),
            kept ==> final(self).history() == old(self).history(),
            event_allowed(old(self).model(), ProtocolEvent::Discard),
    {
        let keep = match &self.entry {
            Some(e) => alive && str_eq(e.state_path.as_str(), requested),
            None => false,
        };
        if !keep {
            self.entry = None;
            proof {
                lemma_state_after_push(init_model(), self.history@, ProtocolEvent::Discard);
            }
            self.history = Ghost(self.history@.push(ProtocolEvent::Discard));
        }
        keep
    }

    /// Install a freshly spawned worker, tagged with the state-file path it
    /// was launched with. Only an empty, idle slot takes one: a spawn never
    /// replaces a handle that was not dropped first, and never happens while
    /// a request is in flight.
    pub fn install(&mut self, handle: H, state_path: String)
        requires
            !old(self).in_flight(),
            !old(self).has_worker(),
            old(self).consistent(),
        ensures
            final(self).model() == apply_event(
                old(self).model(),
                ProtocolEvent::Spawn(state_path@),
            ),
            event_allowed(old(self).model(), ProtocolEvent::Spawn(state_path@)),
            !final(self).in_flight(),
            final(self).consistent(),
            final(self).history() == old(self).history().push(ProtocolEvent::Spawn(state_path@)),
            final(self).spec_entry() matches Some(e) && e.handle == handle && e.state_path
                == state_path,
    {
        let ghost path = state_path@;
        proof {
            lemma_state_after_push(init_model(), self.history@, ProtocolEvent::Spawn(path));
        }
        self.history = Ghost(self.history@.push(ProtocolEvent::Spawn(path)));
        self.entry = Some(WorkerEntry { handle, state_path });
    }

    /// Mark one request line written: from now until `end_exchange`, exactly
    /// one request is in flight, and no second one can be started.
    pub fn begin_exchange(&mut self)
        requires
            !old(self).in_flight(),
            old(self).has_worker(),
            old(self).consistent(),
        ensures
            final(self).model() == apply_event(old(self).model(), ProtocolEvent::Send),
            event_allowed(old(self).model(), ProtocolEvent::Send),
            final(self).in_flight(),
            final(self).consistent(),
            final(self).history() == old(self).history().push(ProtocolEvent::Send),
            final(self).spec_entry() == old(self).spec_entry(),
    {
        proof {
            lemma_state_after_push(init_model(), self.history@, ProtocolEvent::Send);
        }
        self.history = Ghost(self.history@.push(ProtocolEvent::Send));
        self.busy = true;
    }

    /// Mark the one response line (or end of stream) read: the exchange is
    /// over and the slot is idle again.
    pub fn end_exchange(&mut self)
        requires
            old(self).in_flight(),
            old(self).consistent(),
        ensures
            final(self).model() == apply_event(old(self).model(), ProtocolEvent::Receive),
            event_allowed(old(self).model(), ProtocolEvent::Receive),
            !final(self).in_flight(),
            final(self).consistent(),
            final(self).history() == old(self).history().push(ProtocolEvent::Receive),
            final(self).spec_entry() == old(self).spec_entry(),
    {
        proof {
            lemma_state_after_push(init_model(), self.history@, ProtocolEvent::Receive);
        }
        self.history = Ghost(self.history@.push(ProtocolEvent::Receive));
        self.busy = false;
    }
}

/// Law: however a slot has been driven since `new`, its event history is an
/// allowed trace, and at every instant of that history at most one request
/// was in flight, and only on the pipes of an installed worker.
pub proof fn lemma_slot_serialized<H>(slot: WorkerSlot<H>, i: int)
    requires
        slot.consistent(),
        0 <= i <= slot.history().len(),
    ensures
        trace_allowed(init_model(), slot.history()),
        model_inv(state_after(init_model(), slot.history().take(i))),
        state_after(init_model(), slot.history().take(i)).in_flight <= 1,
{
    lemma_requests_serialized(slot.history(), i);
}

/// Character-by-character string equality, so path comparison is itself
/// verified.
pub fn str_eq(a: &str, b: &str) -> (r: bool)
    ensures
        r == (a@ == b@),
{
    let a_len = a.unicode_len();
    let b_len = b.unicode_len();
    if a_len != b_len {
        return false;
    }
    let mut i: usize = 0;
    while i < a_len
        invariant
            0 <= i <= a_len,
            a_len == a@.len(),
            b_len == b@.len(),
            a@.len() == b@.len(),
            forall|j: int| 0 <= j < i ==> a@[j] == b@[j],
        decreases a_len - i,
    {
        if a.get_char(i) != b.get_char(i) {
            return false;
        }
        i += 1;
    }
    proof {
        assert(a@ =~= b@);
    }
    true
}

} // verus!
