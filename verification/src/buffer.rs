//! Batching of tracked records before they are written: records wait in
//! a buffer that is flushed when it holds ten, when the flush interval
//! has passed, on the interval timer, and at shutdown; records whose
//! writes failed wait in a retry queue and go first in the next flush.

use vstd::prelude::*;

verus! {

/// Buffered records that trigger a flush.
pub const FLUSH_AT: usize = 10;

/// Write attempts per record in one flush.
pub const MAX_ATTEMPTS: u32 = 3;

/// The buffer's state. Instants are monotonic nanoseconds.
pub struct FlushBuffer<T> {
    pub buffer: Vec<T>,
    pub retry_queue: Vec<T>,
    pub last_flush: u64,
    /// The flush interval in nanoseconds.
    pub flush_interval: u64,
}

/// The buffer's state as sequences.
pub struct BufferModel<T> {
    pub buffer: Seq<T>,
    pub retry_queue: Seq<T>,
    pub last_flush: u64,
    pub flush_interval: u64,
}

impl<T> View for FlushBuffer<T> {
    type V = BufferModel<T>;

    open spec fn view(&self) -> BufferModel<T> {
        BufferModel {
            buffer: self.buffer@,
            retry_queue: self.retry_queue@,
            last_flush: self.last_flush,
            flush_interval: self.flush_interval,
        }
    }
}

/// Nanoseconds elapsed from `since` to `now` (none if `now` is earlier).
pub open spec fn elapsed(since: u64, now: u64) -> int {
    if now >= since { now - since } else { 0 }
}

/// Whether a record arriving at `now` makes the buffer flush: it would be
/// the tenth, or the interval has passed since the last flush.
pub open spec fn flush_due<T>(b: BufferModel<T>, now: u64) -> bool {
    b.buffer.len() + 1 >= FLUSH_AT || elapsed(b.last_flush, now) >= b.flush_interval
}

/// Everything waiting is handed out at `now`: retries first.
pub open spec fn flushed<T>(b: BufferModel<T>, now: u64) -> (BufferModel<T>, Seq<T>) {
    (
        BufferModel { buffer: Seq::empty(), retry_queue: Seq::empty(), last_flush: now, ..b },
        b.retry_queue + b.buffer,
    )
}

/// The buffer after `record` arrives at `now`, and the batch to write.
pub open spec fn after_record<T>(b: BufferModel<T>, record: T, now: u64) -> (BufferModel<T>, Option<Seq<T>>) {
    let b2 = BufferModel { buffer: b.buffer.push(record), ..b };
    if flush_due(b, now) {
        let (b3, batch) = flushed(b2, now);
        (b3, Some(batch))
    } else {
        (b2, None)
    }
}

/// The buffer after the flush timer fires at `now`.
pub open spec fn after_timer<T>(b: BufferModel<T>, now: u64) -> (BufferModel<T>, Option<Seq<T>>) {
    if b.buffer.len() > 0 {
        let (b2, batch) = flushed(b, now);
        (b2, Some(batch))
    } else {
        (b, None)
    }
}

/// `secs` seconds in nanoseconds, saturating.
pub open spec fn secs_to_nanos_of(secs: u64) -> u64 {
    if secs <= u64::MAX / 1_000_000_000 { (secs * 1_000_000_000) as u64 } else { u64::MAX }
}

fn secs_to_nanos(secs: u64) -> (r: u64)
    ensures
        r == secs_to_nanos_of(secs),
{
    if secs <= u64::MAX / 1_000_000_000 {
        secs * 1_000_000_000
    } else {
        u64::MAX
    }
}

/// The records of an optional batch.
pub open spec fn batch_view<T>(o: Option<Vec<T>>) -> Option<Seq<T>> {
    match o {
        Some(v) => Some(v@),
        None => None,
    }
}

impl<T> FlushBuffer<T> {
    /// An empty buffer with the interval given in seconds.
    pub fn new(now: u64, interval_secs: u64) -> (b: FlushBuffer<T>)
        ensures
            b@.buffer.len() == 0,
            b@.retry_queue.len() == 0,
            b@.last_flush == now,
            b@.flush_interval == secs_to_nanos_of(interval_secs),
    {
        FlushBuffer {
            buffer: Vec::new(),
            retry_queue: Vec::new(),
            last_flush: now,
            flush_interval: secs_to_nanos(interval_secs),
        }
    }

    fn take_batch(&mut self, now: u64) -> (batch: Vec<T>)
        ensures
            (final(self)@, batch@) == flushed(old(self)@, now),
    {
        let mut batch: Vec<T> = Vec::new();
        batch.append(&mut self.retry_queue);
        batch.append(&mut self.buffer);
        self.last_flush = now;
        assert(final(self)@.buffer =~= Seq::<T>::empty());
        assert(final(self)@.retry_queue =~= Seq::<T>::empty());
        batch
    }

    /// A record arrived at `now` (see [`after_record`]).
    pub fn on_record(&mut self, record: T, now: u64) -> (r: Option<Vec<T>>)
        ensures
            (final(self)@, batch_view(r)) == after_record(old(self)@, record, now),
    {
        let due = self.buffer.len() >= FLUSH_AT - 1 || (if now >= self.last_flush {
            now - self.last_flush
        } else {
            0
        }) >= self.flush_interval;
        self.buffer.push(record);
        if due {
            Some(self.take_batch(now))
        } else {
            None
        }
    }

    /// The flush timer fired at `now` (see [`after_timer`]).
    pub fn on_timer(&mut self, now: u64) -> (r: Option<Vec<T>>)
        ensures
            (final(self)@, batch_view(r)) == after_timer(old(self)@, now),
    {
        if self.buffer.len() > 0 {
            Some(self.take_batch(now))
        } else {
            None
        }
    }

    /// The flush interval changed to `secs` seconds.
    pub fn set_interval(&mut self, secs: u64)
        ensures
            final(self)@ == (BufferModel { flush_interval: secs_to_nanos_of(secs), ..old(self)@ }),
    {
        self.flush_interval = secs_to_nanos(secs);
    }

    /// Records whose writes failed wait for the next flush, after those
    /// already waiting.
    pub fn requeue(&mut self, failed: Vec<T>)
        ensures
            final(self)@ == (BufferModel { retry_queue: old(self)@.retry_queue + failed@, ..old(self)@ }),
    {
        let mut failed = failed;
        self.retry_queue.append(&mut failed);
    }

    /// Shutdown at `now`: the records still in the channel (`pending`, in
    /// order) join the buffer, and everything waiting is handed out.
    pub fn on_shutdown(&mut self, pending: Vec<T>, now: u64) -> (batch: Vec<T>)
        ensures
            (final(self)@, batch@) == flushed(
                BufferModel { buffer: old(self)@.buffer + pending@, ..old(self)@ },
                now,
            ),
    {
        let mut pending = pending;
        self.buffer.append(&mut pending);
        self.take_batch(now)
    }
}

/// After a failed write attempt (`attempts` failed before it): the pause
/// before the next attempt in milliseconds, or none when the record has
/// had its three attempts.
pub fn retry_pause_ms(attempts: u32) -> (r: Option<u64>)
    ensures
        attempts + 1 >= MAX_ATTEMPTS ==> r is None,
        attempts + 1 < MAX_ATTEMPTS ==> r == Some((200 * (attempts + 1)) as u64),
        attempts == 0 ==> r == Some(200u64),
        attempts == 1 ==> r == Some(400u64),
        attempts >= 2 ==> r is None,
{
    if attempts >= MAX_ATTEMPTS - 1 {
        None
    } else {
        Some(200 * (attempts as u64 + 1))
    }
}

/// No record is lost, duplicated or reordered when a record arrives: what
/// waits (retries, then the buffer) followed by what is handed out is what
/// waited before, followed by the new record.
pub proof fn lemma_record_conserved<T>(b: BufferModel<T>, record: T, now: u64)
    ensures
        ({
            let (b2, out) = after_record(b, record, now);
            match out {
                Some(batch) => b2.retry_queue + b2.buffer + batch == b.retry_queue + b.buffer.push(record),
                None => b2.retry_queue + b2.buffer == b.retry_queue + b.buffer.push(record),
            }
        }),
{
    let (b2, out) = after_record(b, record, now);
    if out is Some {
        assert(b2.retry_queue + b2.buffer =~= Seq::<T>::empty());
        assert(Seq::<T>::empty() + (b.retry_queue + b.buffer.push(record)) =~= b.retry_queue
            + b.buffer.push(record));
    }
}

/// A buffer below ten records stays below ten when a record arrives.
pub proof fn lemma_buffer_bounded<T>(b: BufferModel<T>, record: T, now: u64)
    requires
        b.buffer.len() < FLUSH_AT,
    ensures
        after_record(b, record, now).0.buffer.len() < FLUSH_AT,
{
}

/// A record makes the buffer flush exactly when it is the tenth one
/// waiting (or more) or the flush interval has passed since the last
/// flush; a flush leaves nothing waiting and restarts the interval at the
/// record's instant, and otherwise the record is kept waiting last.
pub proof fn lemma_flush_trigger<T>(b: BufferModel<T>, record: T, now: u64)
    ensures
        (after_record(b, record, now).1 is Some) <==> (b.buffer.len() + 1 >= 10 || elapsed(b.last_flush, now)
            >= b.flush_interval),
        after_record(b, record, now).1 is Some ==> after_record(b, record, now).0.buffer.len() == 0
            && after_record(b, record, now).0.retry_queue.len() == 0 && after_record(b, record, now).0.last_flush
            == now,
        after_record(b, record, now).1 is None ==> after_record(b, record, now).0.buffer == b.buffer.push(record)
            && after_record(b, record, now).0.retry_queue == b.retry_queue && after_record(b, record, now).0.last_flush
            == b.last_flush,
{
}

/// A flush hands out the records that waited for a retry before the new
/// ones, and leaves nothing waiting.
pub proof fn lemma_retries_first<T>(b: BufferModel<T>, now: u64)
    requires
        b.buffer.len() > 0,
    ensures
        after_timer(b, now).1 == Some(b.retry_queue + b.buffer),
        after_timer(b, now).0.buffer.len() == 0,
        after_timer(b, now).0.retry_queue.len() == 0,
{
}

/// What reaches the buffer's loop before shutdown.
pub enum BufferInput<T> {
    /// A record arrived at the instant.
    Record(T, u64),
    /// The flush timer fired at the instant.
    Timer(u64),
}

/// What waits to be written: retries, then the buffer.
pub open spec fn waiting<T>(b: BufferModel<T>) -> Seq<T> {
    b.retry_queue + b.buffer
}

/// The buffer after one input, and the batch handed out (empty if none).
pub open spec fn after_input<T>(b: BufferModel<T>, i: BufferInput<T>) -> (BufferModel<T>, Seq<T>) {
    let (b2, out) = match i {
        BufferInput::Record(r, now) => after_record(b, r, now),
        BufferInput::Timer(now) => after_timer(b, now),
    };
    (b2, match out {
        Some(batch) => batch,
        None => Seq::empty(),
    })
}

/// The buffer after the inputs in order, and everything handed out.
pub open spec fn after_inputs<T>(b: BufferModel<T>, inputs: Seq<BufferInput<T>>) -> (BufferModel<T>, Seq<T>)
    decreases inputs.len(),
{
    if inputs.len() == 0 {
        (b, Seq::empty())
    } else {
        let (b1, out1) = after_input(b, inputs[0]);
        let (b2, rest) = after_inputs(b1, inputs.drop_first());
        (b2, out1 + rest)
    }
}

/// The records among the inputs, in order.
pub open spec fn records_in<T>(inputs: Seq<BufferInput<T>>) -> Seq<T>
    decreases inputs.len(),
{
    if inputs.len() == 0 {
        Seq::empty()
    } else {
        let first = match inputs[0] {
            BufferInput::Record(r, _) => seq![r],
            BufferInput::Timer(_) => Seq::empty(),
        };
        first + records_in(inputs.drop_first())
    }
}

proof fn lemma_input_conserved<T>(b: BufferModel<T>, i: BufferInput<T>)
    ensures
        after_input(b, i).1 + waiting(after_input(b, i).0) == waiting(b) + match i {
            BufferInput::Record(r, _) => seq![r],
            BufferInput::Timer(_) => Seq::<T>::empty(),
        },
{
    match i {
        BufferInput::Record(r, now) => {
            let b2 = BufferModel { buffer: b.buffer.push(r), ..b };
            if flush_due(b, now) {
                assert(waiting(after_input(b, i).0) =~= Seq::<T>::empty());
                assert(after_input(b, i).1 =~= b.retry_queue + b.buffer.push(r));
            } else {
                assert(after_input(b, i).1 =~= Seq::<T>::empty());
            }
            assert(b.retry_queue + b.buffer.push(r) =~= waiting(b) + seq![r]);
        },
        BufferInput::Timer(now) => {
            if b.buffer.len() > 0 {
                assert(waiting(after_input(b, i).0) =~= Seq::<T>::empty());
            } else {
                assert(after_input(b, i).1 =~= Seq::<T>::empty());
            }
        },
    }
}

/// The loop loses, repeats and reorders nothing: over any inputs, what
/// was handed out followed by what still waits is what waited at first
/// followed by the records that arrived, in order.
pub proof fn lemma_inputs_conserved<T>(b: BufferModel<T>, inputs: Seq<BufferInput<T>>)
    ensures
        after_inputs(b, inputs).1 + waiting(after_inputs(b, inputs).0) == waiting(b) + records_in(inputs),
    decreases inputs.len(),
{
    if inputs.len() == 0 {
        assert(Seq::<T>::empty() + waiting(b) =~= waiting(b));
        assert(waiting(b) + Seq::<T>::empty() =~= waiting(b));
    } else {
        let (b1, out1) = after_input(b, inputs[0]);
        let (b2, rest) = after_inputs(b1, inputs.drop_first());
        lemma_input_conserved(b, inputs[0]);
        lemma_inputs_conserved(b1, inputs.drop_first());
        let first = match inputs[0] {
            BufferInput::Record(r, _) => seq![r],
            BufferInput::Timer(_) => Seq::<T>::empty(),
        };
        assert((out1 + rest) + waiting(b2) =~= out1 + (rest + waiting(b2)));
        assert(out1 + (waiting(b1) + records_in(inputs.drop_first())) =~= (out1 + waiting(b1)) + records_in(
            inputs.drop_first(),
        ));
        assert((waiting(b) + first) + records_in(inputs.drop_first()) =~= waiting(b) + (first + records_in(
            inputs.drop_first(),
        )));
    }
}

/// Every record accepted before shutdown is handed to a write before the
/// loop ends, in the order it arrived, after the retries that waited
/// before it: over any inputs followed by shutdown with the records still
/// in the channel (`pending`), everything handed out is what waited at
/// first, then the records, then `pending`.
pub proof fn lemma_shutdown_hands_out_all<T>(b: BufferModel<T>, inputs: Seq<BufferInput<T>>, pending: Seq<T>, now: u64)
    ensures
        ({
            let (b2, out) = after_inputs(b, inputs);
            let (b3, last) = flushed(BufferModel { buffer: b2.buffer + pending, ..b2 }, now);
            &&& out + last == waiting(b) + records_in(inputs) + pending
            &&& waiting(b3).len() == 0
        }),
{
    lemma_inputs_conserved(b, inputs);
    let (b2, out) = after_inputs(b, inputs);
    assert(out + (b2.retry_queue + (b2.buffer + pending)) =~= (out + waiting(b2)) + pending);
}

} // verus!
