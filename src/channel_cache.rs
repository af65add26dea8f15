//! Decision core of the write-coalescing batch queue.
//!
//! A single worker drains an intake channel of pending items (a value paired
//! with the responder of the caller that submitted it), keeps them in an
//! index-aligned buffer, and decides when the whole buffer is handed to the
//! batch processor. The runtime around it performs one non-blocking receive
//! per step, reports what it saw as an [`Intake`], and carries out the
//! returned [`Action`].
use vstd::prelude::*;

verus! {

/// Why a buffer was flushed.
#[derive(Debug, Clone, Copy, PartialEq, Eq, Structural)]
pub enum FlushReason {
    /// The buffer reached `max_size` items.
    BufferFull,
    /// `trigger_ms` elapsed since the first item of the window arrived.
    Interval,
    /// The worker was told to stop, and drains what it holds.
    Shutdown,
}

/// What one non-blocking receive on the intake channel observed.
pub enum Intake<S, T> {
    /// A pending item: the submitted value and the responder of its caller.
    Item(S, T),
    /// The stop sentinel.
    Sentinel,
    /// Nothing was waiting.
    Empty,
    /// Every producer handle is gone.
    Disconnected,
}

/// What the worker has to do after one step.
pub enum Action<S, T> {
    /// Hand `values` to the batch processor, then deliver output `i` to `responders[i]`.
    Flush { reason: FlushReason, values: Vec<S>, responders: Vec<T> },
    /// The buffer holds items that are not due yet: poll again at once.
    Wait,
    /// The buffer is empty: yield briefly before polling again.
    Idle,
}

/// Mathematical state of a [`BatchWorker`].
pub struct WorkerState<S, T> {
    pub max_size: nat,
    pub trigger_ms: nat,
    pub values: Seq<S>,
    pub responders: Seq<T>,
    /// Arrival time of the first item of the current window; `None` while the buffer is empty.
    pub started_at: Option<nat>,
    pub running: bool,
}

/// Milliseconds from `since` to `now`, zero if the clock reads earlier than `since`.
pub open spec fn elapsed(now: nat, since: nat) -> nat {
    if now >= since { (now - since) as nat } else { 0 }
}

/// The state after the buffer took in what one receive observed.
pub open spec fn receive<S, T>(s: WorkerState<S, T>, event: Intake<S, T>, now: nat) -> WorkerState<S, T> {
    match event {
        Intake::Item(v, t) => WorkerState {
            values: s.values.push(v),
            responders: s.responders.push(t),
            started_at: if s.values.len() == 0 { Some(now) } else { s.started_at },
            ..s
        },
        Intake::Empty => s,
        Intake::Sentinel => WorkerState { running: false, ..s },
        Intake::Disconnected => WorkerState { running: false, ..s },
    }
}

/// Whether, and why, the buffer of `s` is flushed at time `now`.
/// The size threshold is checked before the time threshold.
pub open spec fn flush_reason<S, T>(s: WorkerState<S, T>, now: nat) -> Option<FlushReason> {
    if s.values.len() == 0 {
        None
    } else if s.values.len() >= s.max_size {
        Some(FlushReason::BufferFull)
    } else if s.started_at is Some && elapsed(now, s.started_at->0) >= s.trigger_ms {
        Some(FlushReason::Interval)
    } else if !s.running {
        Some(FlushReason::Shutdown)
    } else {
        None
    }
}

/// `s` with its buffer and flush window reset.
pub open spec fn emptied<S, T>(s: WorkerState<S, T>) -> WorkerState<S, T> {
    WorkerState { values: Seq::empty(), responders: Seq::empty(), started_at: None, ..s }
}

/// `a` is a flush for `reason` of exactly `values`, paired with `responders`.
pub open spec fn is_flush_of<S, T>(
    a: Action<S, T>,
    reason: FlushReason,
    values: Seq<S>,
    responders: Seq<T>,
) -> bool {
    match a {
        Action::Flush { reason: r, values: v, responders: p } => r == reason && v@ == values
            && p@ == responders,
        _ => false,
    }
}

/// Outputs paired by position with the responders they belong to.
pub open spec fn paired<T, R>(responders: Seq<T>, outputs: Seq<R>) -> Seq<(T, R)> {
    Seq::new(outputs.len(), |i: int| (responders[i], outputs[i]))
}

/// The batch worker: its buffer, its flush window and whether it still takes input.
pub struct BatchWorker<S, T> {
    max_size: usize,
    trigger_ms: u64,
    values: Vec<S>,
    responders: Vec<T>,
    started_at: Option<u64>,
    running: bool,
}

impl<S, T> View for BatchWorker<S, T> {
    type V = WorkerState<S, T>;

    closed spec fn view(&self) -> WorkerState<S, T> {
        WorkerState {
            max_size: self.max_size as nat,
            trigger_ms: self.trigger_ms as nat,
            values: self.values@,
            responders: self.responders@,
            started_at: match self.started_at {
                Some(t) => Some(t as nat),
                None => None,
            },
            running: self.running,
        }
    }
}

/// Between steps: the buffer sequences are index-aligned, the window is open
/// exactly while the buffer is non-empty, a full buffer has been flushed, and
/// a stopped worker holds nothing.
pub open spec fn state_wf<S, T>(s: WorkerState<S, T>) -> bool {
    &&& s.max_size > 0
    &&& s.values.len() == s.responders.len()
    &&& s.values.len() < s.max_size
    &&& (s.started_at is Some <==> s.values.len() > 0)
    &&& (!s.running ==> s.values.len() == 0)
}

impl<S, T> BatchWorker<S, T> {
    pub open spec fn wf(&self) -> bool {
        state_wf(self@)
    }

    /// A running worker with an empty buffer.
    pub fn new(max_size: usize, trigger_ms: u64) -> (w: Self)
        requires
            max_size > 0,
        ensures
            w.wf(),
            w@ == (WorkerState::<S, T> {
                max_size: max_size as nat,
                trigger_ms: trigger_ms as nat,
                values: Seq::empty(),
                responders: Seq::empty(),
                started_at: None,
                running: true,
            }),
    {
        let w = BatchWorker {
            max_size,
            trigger_ms,
            values: Vec::new(),
            responders: Vec::new(),
            started_at: None,
            running: true,
        };
        assert(w@.values =~= Seq::<S>::empty());
        assert(w@.responders =~= Seq::<T>::empty());
        w
    }

    /// Whether the worker still takes input.
    pub fn is_running(&self) -> (r: bool)
        ensures
            r == self@.running,
    {
        self.running
    }

    /// Number of buffered items.
    pub fn buffered(&self) -> (r: usize)
        ensures
            r == self@.values.len(),
    {
        self.values.len()
    }

    /// One turn of the worker loop: take in what the receive observed at time
    /// `now` (milliseconds on a monotonic clock), then decide whether to flush.
    /// A flush moves the whole buffer out in arrival order and resets the window.
    pub fn step(&mut self, event: Intake<S, T>, now: u64) -> (a: Action<S, T>)
        requires
            old(self).wf(),
            old(self)@.running,
        ensures
            final(self).wf(),
            ({
                let r = receive(old(self)@, event, now as nat);
                match flush_reason(r, now as nat) {
                    Some(reason) => is_flush_of(a, reason, r.values, r.responders)
                        && final(self)@ == emptied(r),
                    None => final(self)@ == r && (if r.values.len() == 0 {
                        a is Idle
                    } else {
                        a is Wait
                    }),
                }
            }),
    {
        let ghost r = receive(self@, event, now as nat);
        match event {
            Intake::Item(v, t) => {
                if self.values.len() == 0 {
                    self.started_at = Some(now);
                }
                self.values.push(v);
                self.responders.push(t);
            },
            Intake::Empty => {},
            Intake::Sentinel => {
                self.running = false;
            },
            Intake::Disconnected => {
                self.running = false;
            },
        }
        assert(self@.values =~= r.values);
        assert(self@.responders =~= r.responders);
        assert(self@ == r);
        if self.values.len() == 0 {
            return Action::Idle;
        }
        let due = match self.started_at {
            Some(t) => {
                let waited: u64 = if now >= t { now - t } else { 0 };
                waited >= self.trigger_ms
            },
            None => false,
        };
        let reason = if self.values.len() >= self.max_size {
            FlushReason::BufferFull
        } else if due {
            FlushReason::Interval
        } else if !self.running {
            FlushReason::Shutdown
        } else {
            return Action::Wait;
        };
        let mut values: Vec<S> = Vec::new();
        let mut responders: Vec<T> = Vec::new();
        std::mem::swap(&mut values, &mut self.values);
        std::mem::swap(&mut responders, &mut self.responders);
        self.started_at = None;
        proof {
            assert(self@.values =~= Seq::<S>::empty());
            assert(self@.responders =~= Seq::<T>::empty());
        }
        Action::Flush { reason, values, responders }
    }
}

/// The batch processor returned a different number of outputs than it was given inputs.
#[derive(Debug, Clone, Copy, PartialEq, Eq, Structural)]
pub struct InvariantViolation {
    pub responders: usize,
    pub outputs: usize,
}

/// Pairs each output with the responder at the same position: output `i` goes
/// to the caller that submitted input `i`. A length mismatch is refused, and
/// nothing is paired then.
pub fn pair_outputs<T, R>(responders: Vec<T>, outputs: Vec<R>) -> (r: Result<
    Vec<(T, R)>,
    InvariantViolation,
>)
    ensures
        responders@.len() == outputs@.len() ==> (r matches Ok(p) && p@ == paired(
            responders@,
            outputs@,
        )),
        responders@.len() != outputs@.len() ==> r == Err::<Vec<(T, R)>, _>(
            InvariantViolation { responders: responders.len(), outputs: outputs.len() },
        ),
{
    if responders.len() != outputs.len() {
        return Err(InvariantViolation { responders: responders.len(), outputs: outputs.len() });
    }
    let ghost n = outputs@.len();
    let ghost full = paired(responders@, outputs@);
    let mut responders = responders;
    let mut outputs = outputs;
    let mut reversed: Vec<(T, R)> = Vec::new();
    while outputs.len() > 0
        invariant
            responders@.len() == outputs@.len(),
            outputs@.len() + reversed@.len() == n,
            full.len() == n,
            forall|i: int| 0 <= i < outputs@.len() ==> full[i] == (responders@[i], outputs@[i]),
            forall|k: int| 0 <= k < reversed@.len() ==> reversed@[k] == full[n - 1 - k],
        decreases outputs@.len(),
    {
        let o = outputs.pop().unwrap();
        let t = responders.pop().unwrap();
        reversed.push((t, o));
    }
    let mut result: Vec<(T, R)> = Vec::new();
    while reversed.len() > 0
        invariant
            reversed@.len() + result@.len() == n,
            full.len() == n,
            forall|k: int| 0 <= k < reversed@.len() ==> reversed@[k] == full[n - 1 - k],
            forall|i: int| 0 <= i < result@.len() ==> result@[i] == full[i],
        decreases reversed@.len(),
    {
        let p = reversed.pop().unwrap();
        result.push(p);
    }
    assert(result@ =~= full);
    Ok(result)
}

/// Error seen by a caller of `send`.
#[derive(Debug, Clone, Copy, PartialEq, Eq, Structural)]
pub enum QueueError {
    /// The worker was gone before it accepted the item.
    SendFailed,
    /// The worker dropped the caller's responder without answering.
    ReceiveFailed,
}

/// What `send` returns, given whether the intake channel accepted the item and
/// what then came back on the caller's response channel.
pub fn send_outcome<R>(accepted: bool, response: Option<R>) -> (r: Result<R, QueueError>)
    ensures
        !accepted ==> r == Err::<R, QueueError>(QueueError::SendFailed),
        accepted && response is None ==> r == Err::<R, QueueError>(QueueError::ReceiveFailed),
        accepted && response is Some ==> r == Ok::<R, QueueError>(response->0),
{
    if !accepted {
        Err(QueueError::SendFailed)
    } else {
        match response {
            Some(v) => Ok(v),
            None => Err(QueueError::ReceiveFailed),
        }
    }
}

/// Taking from a slot holding `slot`: what is handed out, and what stays.
pub open spec fn taken<H>(slot: Option<H>) -> (Option<H>, Option<H>) {
    (slot, None)
}

/// Stopping twice: the second take from a slot hands out nothing, so the
/// worker's handle is awaited at most once.
pub proof fn lemma_stop_idempotent<H>(slot: Option<H>)
    ensures
        taken(taken(slot).1).0 is None,
        taken(taken(slot).1).1 is None,
{
}

/// The take-once slot that owns the worker's task handle.
pub struct TaskSlot<H> {
    handle: Option<H>,
}

impl<H> View for TaskSlot<H> {
    type V = Option<H>;

    closed spec fn view(&self) -> Option<H> {
        self.handle
    }
}

impl<H> TaskSlot<H> {
    /// A slot holding the handle of a freshly started worker.
    pub fn new(handle: H) -> (s: Self)
        ensures
            s@ == Some(handle),
    {
        TaskSlot { handle: Some(handle) }
    }

    /// Moves the handle out for the caller to await; every later call gets `None`.
    pub fn take(&mut self) -> (h: Option<H>)
        ensures
            (h, final(self)@) == taken(old(self)@),
    {
        self.handle.take()
    }
}

/// The state after the buffer took in `items` one by one, each a value, its
/// responder and its arrival time, with no flush in between.
pub open spec fn receive_items<S, T>(s: WorkerState<S, T>, items: Seq<(S, T, nat)>) -> WorkerState<
    S,
    T,
>
    decreases items.len(),
{
    if items.len() == 0 {
        s
    } else {
        let last = items.last();
        receive(receive_items(s, items.drop_last()), Intake::Item(last.0, last.1), last.2)
    }
}

/// Values of `items`, in order.
pub open spec fn item_values<S, T>(items: Seq<(S, T, nat)>) -> Seq<S> {
    Seq::new(items.len(), |i: int| items[i].0)
}

/// Responders of `items`, in order.
pub open spec fn item_responders<S, T>(items: Seq<(S, T, nat)>) -> Seq<T> {
    Seq::new(items.len(), |i: int| items[i].1)
}

/// Receiving items appends their values and responders in arrival order and
/// keeps the two sequences aligned.
pub proof fn lemma_receive_items<S, T>(s: WorkerState<S, T>, items: Seq<(S, T, nat)>)
    ensures
        receive_items(s, items).values == s.values + item_values(items),
        receive_items(s, items).responders == s.responders + item_responders(items),
        receive_items(s, items).max_size == s.max_size,
        receive_items(s, items).trigger_ms == s.trigger_ms,
        receive_items(s, items).running == s.running,
        s.values.len() == 0 && items.len() > 0 ==> receive_items(s, items).started_at == Some(
            items[0].2,
        ),
        s.values.len() > 0 ==> receive_items(s, items).started_at == s.started_at,
    decreases items.len(),
{
    if items.len() > 0 {
        lemma_receive_items(s, items.drop_last());
        assert(item_values(items.drop_last()).push(items.last().0) =~= item_values(items));
        assert(item_responders(items.drop_last()).push(items.last().1) =~= item_responders(items));
        assert(s.values + item_values(items) =~= (s.values + item_values(items.drop_last())).push(
            items.last().0,
        ));
        assert(s.responders + item_responders(items) =~= (s.responders + item_responders(
            items.drop_last(),
        )).push(items.last().1));
        if items.len() > 1 {
            assert(items.drop_last()[0] == items[0]);
        }
    }
}

/// Position correlation: when the items submitted into an empty buffer are
/// flushed together, the caller that submitted the `i`-th value is paired with
/// the `i`-th output of the batch processor on those values.
pub proof fn lemma_position_correlation<S, T, R>(
    s: WorkerState<S, T>,
    items: Seq<(S, T, nat)>,
    processor: spec_fn(Seq<S>) -> Seq<R>,
)
    requires
        s.values.len() == 0,
        s.responders.len() == 0,
        processor(item_values(items)).len() == items.len(),
    ensures
        ({
            let r = receive_items(s, items);
            let out = processor(r.values);
            &&& r.values == item_values(items)
            &&& paired(r.responders, out).len() == items.len()
            &&& forall|i: int|
                0 <= i < items.len() ==> #[trigger] paired(r.responders, out)[i] == (
                    items[i].1,
                    processor(item_values(items))[i],
                )
        }),
{
    lemma_receive_items(s, items);
    assert(s.values + item_values(items) =~= item_values(items));
    assert(s.responders + item_responders(items) =~= item_responders(items));
}

/// Size trigger: once the buffer holds `max_size` items, the flush is due at
/// once, whatever the time, and takes all of them.
pub proof fn lemma_size_trigger<S, T>(s: WorkerState<S, T>, items: Seq<(S, T, nat)>, now: nat)
    requires
        s.max_size > 0,
        s.values.len() + items.len() >= s.max_size,
    ensures
        flush_reason(receive_items(s, items), now) == Some(FlushReason::BufferFull),
{
    lemma_receive_items(s, items);
    assert((s.values + item_values(items)).len() == s.values.len() + items.len());
}

/// Time trigger: a running worker whose buffer holds fewer than `max_size`
/// items and sees no new item flushes exactly when `trigger_ms` have elapsed
/// since the first buffered item, and the flush takes exactly the items present.
pub proof fn lemma_time_trigger<S, T>(s: WorkerState<S, T>, now: nat)
    requires
        state_wf(s),
        s.running,
        s.values.len() > 0,
    ensures
        receive(s, Intake::Empty, now) == s,
        flush_reason(s, now) == Some(FlushReason::Interval) <==> elapsed(
            now,
            s.started_at->0,
        ) >= s.trigger_ms,
        flush_reason(s, now) is None <==> elapsed(now, s.started_at->0) < s.trigger_ms,
{
}

/// What reaches each caller of a flush: the paired output, unless the caller
/// abandoned its wait.
pub open spec fn deliveries<T, R>(pairs: Seq<(T, R)>, abandoned: Set<int>) -> Seq<Option<R>> {
    Seq::new(pairs.len(), |i: int| if abandoned.contains(i) { None } else { Some(pairs[i].1) })
}

/// Cancellation isolation: a caller that keeps waiting receives its own output,
/// whichever other callers of the same flush abandoned theirs.
pub proof fn lemma_cancellation_isolation<T, R>(
    responders: Seq<T>,
    outputs: Seq<R>,
    abandoned: Set<int>,
    i: int,
)
    requires
        responders.len() == outputs.len(),
        0 <= i < outputs.len(),
        !abandoned.contains(i),
    ensures
        deliveries(paired(responders, outputs), abandoned)[i] == Some(outputs[i]),
        deliveries(paired(responders, outputs), abandoned)[i] == deliveries(
            paired(responders, outputs),
            Set::empty(),
        )[i],
{
}

} // verus!
