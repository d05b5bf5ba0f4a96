//! Cooperative lock adapters.
//!
//! Each lock owns its payload together with explicit holder and poison
//! state, so the whole acquisition protocol is plain verified data: a
//! non-blocking attempt either takes the lock, reports contention, or
//! reports poison, and a blocking acquisition returns only with a
//! successful acquisition or the poison error — contention never escapes a
//! blocking call, it only makes the waiting task yield its turn.
//!
//! The retry protocol the blocking operations follow is stated and verified
//! once, in [`acquire_protocol`], over an explicit record of what
//! successive attempts observe. A lock reached through these adapters is
//! exclusively borrowed for the duration of a call, so no other task can
//! release it between two attempts of the same call: for the methods below
//! the first attempt is therefore decisive, and a call that could never
//! return — blocking on a lock that this very borrow proves nobody else can
//! release — is excluded by precondition instead of diverging.

use vstd::prelude::*;

use crate::sched::Scheduler;

verus! {

/// Outcome of a single non-blocking acquisition attempt: the three-way
/// shape (success, not ready, error) that every try-operation of this
/// library follows.
#[derive(Clone, Copy, PartialEq, Eq, Structural, Debug)]
pub enum TryAcquire {
    /// The attempt took the lock in the requested mode.
    Acquired,
    /// Another holder currently owns the lock; nothing changed.
    WouldBlock,
    /// The lock is poisoned; access is never granted again.
    Poisoned,
}

/// The one fatal error a blocking acquisition can surface: a prior holder
/// failed while holding the lock. Contention is never an error on a
/// blocking call; it is absorbed by yielding and retrying.
#[derive(Clone, Copy, PartialEq, Eq, Structural, Debug)]
pub enum LockError {
    Poisoned,
}

/// The cooperative acquisition protocol, verified once over an explicit
/// record of attempt outcomes: `attempts[i]` is what the `i`-th
/// non-blocking attempt observes, as the other tasks' holds and releases
/// interleave with it. The protocol yields the task to the scheduler on
/// every contended attempt and stops at the first decisive one, returning
/// success or the poison error; contention itself is never returned.
/// `None` means every recorded attempt was contended: the task is still
/// waiting, after exactly one yield per attempt.
pub fn acquire_protocol<S: Scheduler>(attempts: &Vec<TryAcquire>, sched: &mut S) -> (r: Option<
    Result<(), LockError>,
>)
    ensures
        (r is None <==> forall|i: int|
            0 <= i < attempts@.len() ==> (#[trigger] attempts@[i]) is WouldBlock),
        r matches Some(d) ==> exists|i: int|
            {
                &&& 0 <= i < attempts@.len()
                &&& (#[trigger] attempts@[i]) !is WouldBlock
                &&& forall|j: int| 0 <= j < i ==> (#[trigger] attempts@[j]) is WouldBlock
                &&& d == (if attempts@[i] is Acquired {
                    Ok::<(), LockError>(())
                } else {
                    Err::<(), LockError>(LockError::Poisoned)
                })
            },
{
    let mut i: usize = 0;
    while i < attempts.len()
        invariant
            i <= attempts.len(),
            forall|j: int| 0 <= j < i ==> (#[trigger] attempts@[j]) is WouldBlock,
        decreases attempts.len() - i,
    {
        match attempts[i] {
            TryAcquire::Acquired => {
                return Some(Ok(()));
            }
            TryAcquire::Poisoned => {
                return Some(Err(LockError::Poisoned));
            }
            TryAcquire::WouldBlock => {
                sched.yield_now();
            }
        }
        i = i + 1;
    }
    None
}

/// The raw mutual-exclusion primitive: payload, holder flag, poison flag.
///
/// Its operations are single non-blocking attempts and holder-only
/// transitions; it never touches the scheduler, so it is also the form in
/// which the lock is used from code running outside any task.
#[derive(Debug)]
pub struct RawMutex<T> {
    /// The protected payload; read or replaced only while holding.
    pub value: T,
    /// Whether some task currently holds the mutex.
    pub locked: bool,
    /// Whether a holder failed while holding; permanent once set.
    pub poisoned: bool,
}

impl<T> RawMutex<T> {
    /// The state a fresh mutex starts in: unlocked, unpoisoned, holding `t`.
    pub open spec fn spec_new(t: T) -> RawMutex<T> {
        RawMutex { value: t, locked: false, poisoned: false }
    }

    /// What a single acquisition attempt on this state reports.
    pub open spec fn spec_try_outcome(self) -> TryAcquire {
        if self.poisoned {
            TryAcquire::Poisoned
        } else if self.locked {
            TryAcquire::WouldBlock
        } else {
            TryAcquire::Acquired
        }
    }

    /// The state after a single acquisition attempt: taken when the attempt
    /// succeeds, unchanged otherwise.
    pub open spec fn spec_after_try(self) -> RawMutex<T> {
        if self.spec_try_outcome() is Acquired {
            RawMutex { locked: true, ..self }
        } else {
            self
        }
    }

    /// The state after the holder replaces the payload with `v`.
    pub open spec fn spec_store(self, v: T) -> RawMutex<T> {
        RawMutex { value: v, ..self }
    }

    /// The state after the holder releases the mutex.
    pub open spec fn spec_release(self) -> RawMutex<T> {
        RawMutex { locked: false, ..self }
    }

    /// The state after the holder fails while holding: released, but
    /// poisoned for good.
    pub open spec fn spec_poison(self) -> RawMutex<T> {
        RawMutex { locked: false, poisoned: true, ..self }
    }

    /// Creates a new unlocked, unpoisoned mutex holding `t`.
    pub fn new(t: T) -> (s: Self)
        ensures
            s == Self::spec_new(t),
    {
        RawMutex { value: t, locked: false, poisoned: false }
    }

    /// A single acquisition attempt: takes the mutex if it is free, reports
    /// contention if it is held, reports poison if it is poisoned. One
    /// attempt, then it returns; the caller is never suspended.
    pub fn try_lock(&mut self) -> (r: TryAcquire)
        ensures
            r == old(self).spec_try_outcome(),
            *final(self) == old(self).spec_after_try(),
    {
        if self.poisoned {
            TryAcquire::Poisoned
        } else if self.locked {
            TryAcquire::WouldBlock
        } else {
            self.locked = true;
            TryAcquire::Acquired
        }
    }

    /// Reads the payload; only the current holder may look.
    pub fn get(&self) -> (r: &T)
        requires
            self.locked,
        ensures
            *r == self.value,
    {
        &self.value
    }

    /// Replaces the payload; only the current holder may write.
    pub fn set(&mut self, v: T)
        requires
            old(self).locked,
        ensures
            *final(self) == old(self).spec_store(v),
    {
        self.value = v;
    }

    /// Releases the mutex; only the current holder may release.
    pub fn unlock(&mut self)
        requires
            old(self).locked,
        ensures
            *final(self) == old(self).spec_release(),
    {
        self.locked = false;
    }

    /// Records that the holder failed while holding: the mutex is released
    /// and permanently poisoned, so every later attempt reports the poison
    /// error.
    pub fn poison(&mut self)
        requires
            old(self).locked,
        ensures
            *final(self) == old(self).spec_poison(),
    {
        self.locked = false;
        self.poisoned = true;
    }

    /// Whether a holder has failed while holding.
    pub fn is_poisoned(&self) -> (r: bool)
        ensures
            r == self.poisoned,
    {
        self.poisoned
    }
}

/// A mutex for cooperative tasks.
///
/// Blocking acquisition follows [`acquire_protocol`]: it returns only a
/// successful acquisition or the poison error, never contention. The mutex
/// is exclusively borrowed for the call, so the first attempt decides it;
/// the one input on which the protocol would retry forever — the mutex
/// already held through this same borrow, which no other task could ever
/// release — is excluded by precondition.
#[derive(Debug)]
pub struct Mutex<T> {
    /// The wrapped raw primitive; the adapter adds no state of its own.
    pub lock: RawMutex<T>,
}

impl<T> Mutex<T> {
    /// Creates a new instance of a `Mutex<T>` which is unlocked.
    pub fn new(t: T) -> (s: Self)
        ensures
            s.lock == RawMutex::spec_new(t),
    {
        Mutex { lock: RawMutex::new(t) }
    }

    /// Get a reference to the raw mutex, to perform operations outside of
    /// cooperative tasks; no scheduler is ever touched through it.
    pub fn native_lock(&mut self) -> (r: &mut RawMutex<T>)
        ensures
            *r == old(self).lock,
            final(self).lock == *final(r),
    {
        &mut self.lock
    }

    /// Acquire the mutex, blocking the current task until it is able to do
    /// so. A poisoned mutex surfaces the poison error at once, without any
    /// yield; contention is never returned.
    pub fn lock(&mut self) -> (r: Result<(), LockError>)
        requires
            old(self).lock.spec_try_outcome() !is WouldBlock,
        ensures
            (r is Ok <==> !old(self).lock.poisoned),
            r is Ok ==> final(self).lock == old(self).lock.spec_after_try()
                && final(self).lock.locked,
            r is Err ==> old(self).lock.poisoned && *final(self) == *old(self),
    {
        match self.lock.try_lock() {
            TryAcquire::Acquired => Ok(()),
            _ => Err(LockError::Poisoned),
        }
    }

    /// Attempt to acquire this lock: a single non-blocking attempt with the
    /// three-way outcome, and no scheduler interaction at all.
    pub fn try_lock(&mut self) -> (r: TryAcquire)
        ensures
            r == old(self).lock.spec_try_outcome(),
            final(self).lock == old(self).lock.spec_after_try(),
    {
        self.lock.try_lock()
    }
}

/// The raw reader-writer primitive: payload, reader count, writer flag,
/// poison flag. At most one writer, or any number of readers, hold it at
/// once ([`RawRwLock::wf`]); every operation preserves that invariant.
#[derive(Debug)]
pub struct RawRwLock<T> {
    /// The protected payload; read while holding, replaced only by the
    /// writer.
    pub value: T,
    /// How many tasks currently hold shared read access.
    pub readers: usize,
    /// Whether some task currently holds exclusive write access.
    pub writer: bool,
    /// Whether a writer failed while holding; permanent once set.
    pub poisoned: bool,
}

impl<T> RawRwLock<T> {
    /// The state a fresh lock starts in: no holders, unpoisoned, holding
    /// `t`.
    pub open spec fn spec_new(t: T) -> RawRwLock<T> {
        RawRwLock { value: t, readers: 0, writer: false, poisoned: false }
    }

    /// The mutual-exclusion invariant: a writer never coexists with a
    /// reader.
    pub open spec fn wf(self) -> bool {
        self.writer ==> self.readers == 0
    }

    /// What a single shared-read acquisition attempt on this state reports.
    pub open spec fn spec_try_read_outcome(self) -> TryAcquire {
        if self.poisoned {
            TryAcquire::Poisoned
        } else if self.writer {
            TryAcquire::WouldBlock
        } else {
            TryAcquire::Acquired
        }
    }

    /// The state after a single shared-read attempt: one more reader when
    /// it succeeds, unchanged otherwise.
    pub open spec fn spec_after_try_read(self) -> RawRwLock<T> {
        if self.spec_try_read_outcome() is Acquired {
            RawRwLock { readers: (self.readers + 1) as usize, ..self }
        } else {
            self
        }
    }

    /// What a single exclusive-write acquisition attempt on this state
    /// reports.
    pub open spec fn spec_try_write_outcome(self) -> TryAcquire {
        if self.poisoned {
            TryAcquire::Poisoned
        } else if self.writer || self.readers > 0 {
            TryAcquire::WouldBlock
        } else {
            TryAcquire::Acquired
        }
    }

    /// The state after a single exclusive-write attempt: taken when it
    /// succeeds, unchanged otherwise.
    pub open spec fn spec_after_try_write(self) -> RawRwLock<T> {
        if self.spec_try_write_outcome() is Acquired {
            RawRwLock { writer: true, ..self }
        } else {
            self
        }
    }

    /// The state after the writer replaces the payload with `v`.
    pub open spec fn spec_store(self, v: T) -> RawRwLock<T> {
        RawRwLock { value: v, ..self }
    }

    /// The state after one reader releases its shared access.
    pub open spec fn spec_release_read(self) -> RawRwLock<T> {
        RawRwLock { readers: (self.readers - 1) as usize, ..self }
    }

    /// The state after the writer releases its exclusive access.
    pub open spec fn spec_release_write(self) -> RawRwLock<T> {
        RawRwLock { writer: false, ..self }
    }

    /// The state after the writer fails while holding: released, but
    /// poisoned for good.
    pub open spec fn spec_poison(self) -> RawRwLock<T> {
        RawRwLock { writer: false, poisoned: true, ..self }
    }

    /// Creates a new lock with no holders, unpoisoned, holding `t`.
    pub fn new(t: T) -> (s: Self)
        ensures
            s == Self::spec_new(t),
            s.wf(),
    {
        RawRwLock { value: t, readers: 0, writer: false, poisoned: false }
    }

    /// A single shared-read acquisition attempt. One attempt, then it
    /// returns; the caller is never suspended.
    pub fn try_read(&mut self) -> (r: TryAcquire)
        requires
            old(self).readers < usize::MAX,
        ensures
            r == old(self).spec_try_read_outcome(),
            *final(self) == old(self).spec_after_try_read(),
            old(self).wf() ==> final(self).wf(),
    {
        if self.poisoned {
            TryAcquire::Poisoned
        } else if self.writer {
            TryAcquire::WouldBlock
        } else {
            self.readers = self.readers + 1;
            TryAcquire::Acquired
        }
    }

    /// A single exclusive-write acquisition attempt. One attempt, then it
    /// returns; the caller is never suspended.
    pub fn try_write(&mut self) -> (r: TryAcquire)
        ensures
            r == old(self).spec_try_write_outcome(),
            *final(self) == old(self).spec_after_try_write(),
            old(self).wf() ==> final(self).wf(),
    {
        if self.poisoned {
            TryAcquire::Poisoned
        } else if self.writer || self.readers > 0 {
            TryAcquire::WouldBlock
        } else {
            self.writer = true;
            TryAcquire::Acquired
        }
    }

    /// Reads the payload; only a current holder, shared or exclusive, may
    /// look.
    pub fn get(&self) -> (r: &T)
        requires
            self.readers > 0 || self.writer,
        ensures
            *r == self.value,
    {
        &self.value
    }

    /// Replaces the payload; only the current writer may write.
    pub fn set(&mut self, v: T)
        requires
            old(self).writer,
        ensures
            *final(self) == old(self).spec_store(v),
    {
        self.value = v;
    }

    /// Releases one shared read hold.
    pub fn release_read(&mut self)
        requires
            old(self).readers > 0,
        ensures
            *final(self) == old(self).spec_release_read(),
    {
        self.readers = self.readers - 1;
    }

    /// Releases the exclusive write hold.
    pub fn release_write(&mut self)
        requires
            old(self).writer,
        ensures
            *final(self) == old(self).spec_release_write(),
    {
        self.writer = false;
    }

    /// Records that the writer failed while holding: the lock is released
    /// and permanently poisoned, so every later attempt reports the poison
    /// error.
    pub fn poison(&mut self)
        requires
            old(self).writer,
        ensures
            *final(self) == old(self).spec_poison(),
    {
        self.writer = false;
        self.poisoned = true;
    }

    /// Whether a writer has failed while holding.
    pub fn is_poisoned(&self) -> (r: bool)
        ensures
            r == self.poisoned,
    {
        self.poisoned
    }
}

/// A reader-writer lock for cooperative tasks.
///
/// Blocking acquisition follows [`acquire_protocol`]: it returns only a
/// successful acquisition or the poison error, never contention. The lock
/// is exclusively borrowed for the call, so the first attempt decides it;
/// the inputs on which the protocol would retry forever — a hold taken
/// through this same borrow, which no other task could ever release — are
/// excluded by precondition.
#[derive(Debug)]
pub struct RwLock<T> {
    /// The wrapped raw primitive; the adapter adds no state of its own.
    pub lock: RawRwLock<T>,
}

impl<T> RwLock<T> {
    /// Creates a new instance of an `RwLock<T>` which is unlocked.
    pub fn new(t: T) -> (s: Self)
        ensures
            s.lock == RawRwLock::spec_new(t),
            s.lock.wf(),
    {
        RwLock { lock: RawRwLock::new(t) }
    }

    /// Get a reference to the raw lock, to perform operations outside of
    /// cooperative tasks; no scheduler is ever touched through it.
    pub fn native_lock(&mut self) -> (r: &mut RawRwLock<T>)
        ensures
            *r == old(self).lock,
            final(self).lock == *final(r),
    {
        &mut self.lock
    }

    /// Locks this rwlock with shared read access, blocking the current
    /// task until it can be acquired. A poisoned lock surfaces the poison
    /// error at once, without any yield; contention is never returned.
    pub fn read(&mut self) -> (r: Result<(), LockError>)
        requires
            old(self).lock.spec_try_read_outcome() !is WouldBlock,
            old(self).lock.readers < usize::MAX,
        ensures
            (r is Ok <==> !old(self).lock.poisoned),
            r is Ok ==> final(self).lock == old(self).lock.spec_after_try_read()
                && final(self).lock.readers == old(self).lock.readers + 1,
            r is Err ==> old(self).lock.poisoned && *final(self) == *old(self),
    {
        match self.lock.try_read() {
            TryAcquire::Acquired => Ok(()),
            _ => Err(LockError::Poisoned),
        }
    }

    /// Attempts to acquire this rwlock with shared read access: a single
    /// non-blocking attempt with the three-way outcome, and no scheduler
    /// interaction at all.
    pub fn try_read(&mut self) -> (r: TryAcquire)
        requires
            old(self).lock.readers < usize::MAX,
        ensures
            r == old(self).lock.spec_try_read_outcome(),
            final(self).lock == old(self).lock.spec_after_try_read(),
    {
        self.lock.try_read()
    }

    /// Locks this rwlock with exclusive write access, blocking the current
    /// task until it can be acquired. A poisoned lock surfaces the poison
    /// error at once, without any yield; contention is never returned.
    pub fn write(&mut self) -> (r: Result<(), LockError>)
        requires
            old(self).lock.spec_try_write_outcome() !is WouldBlock,
        ensures
            (r is Ok <==> !old(self).lock.poisoned),
            r is Ok ==> final(self).lock == old(self).lock.spec_after_try_write()
                && final(self).lock.writer,
            r is Err ==> old(self).lock.poisoned && *final(self) == *old(self),
    {
        match self.lock.try_write() {
            TryAcquire::Acquired => Ok(()),
            _ => Err(LockError::Poisoned),
        }
    }

    /// Attempts to lock this rwlock with exclusive write access: a single
    /// non-blocking attempt with the three-way outcome, and no scheduler
    /// interaction at all.
    pub fn try_write(&mut self) -> (r: TryAcquire)
        ensures
            r == old(self).lock.spec_try_write_outcome(),
            final(self).lock == old(self).lock.spec_after_try_write(),
    {
        self.lock.try_write()
    }

    /// Determines whether the lock is poisoned.
    pub fn is_poisoned(&self) -> (r: bool)
        ensures
            r == self.lock.poisoned,
    {
        self.lock.is_poisoned()
    }
}

/// A fresh mutex is unlocked and unpoisoned, and the first acquisition
/// attempt on it succeeds and grants exactly the initial payload, for every
/// payload type.
pub proof fn lemma_fresh_mutex_yields_initial<T>(t: T)
    ensures
        !RawMutex::spec_new(t).locked,
        !RawMutex::spec_new(t).poisoned,
        RawMutex::spec_new(t).spec_try_outcome() is Acquired,
        RawMutex::spec_new(t).spec_after_try().value == t,
{
}

/// A fresh reader-writer lock has no holders and no poison, and the first
/// acquisition attempt on it — shared or exclusive — succeeds and grants
/// exactly the initial payload, for every payload type.
pub proof fn lemma_fresh_rwlock_yields_initial<T>(t: T)
    ensures
        RawRwLock::spec_new(t).readers == 0,
        !RawRwLock::spec_new(t).writer,
        !RawRwLock::spec_new(t).poisoned,
        RawRwLock::spec_new(t).spec_try_read_outcome() is Acquired,
        RawRwLock::spec_new(t).spec_after_try_read().value == t,
        RawRwLock::spec_new(t).spec_try_write_outcome() is Acquired,
        RawRwLock::spec_new(t).spec_after_try_write().value == t,
{
}

/// While a task holds the mutex, every acquisition attempt by another task
/// reports contention and leaves the lock — payload included — unchanged;
/// the retry protocol therefore yields on it instead of returning
/// ([`acquire_protocol`]), and no number of such attempts affects the
/// holder.
pub proof fn lemma_contended_mutex_attempt_is_noop<T>(s: RawMutex<T>)
    requires
        s.locked,
        !s.poisoned,
    ensures
        s.spec_try_outcome() is WouldBlock,
        s.spec_after_try() == s,
{
}

/// While a writer holds the reader-writer lock, every acquisition attempt
/// by another task — shared or exclusive — reports contention and leaves
/// the lock unchanged: a blocking acquisition started meanwhile cannot
/// return before the writer releases.
pub proof fn lemma_writer_blocks_others<T>(s: RawRwLock<T>)
    requires
        s.writer,
        !s.poisoned,
    ensures
        s.spec_try_read_outcome() is WouldBlock,
        s.spec_after_try_read() == s,
        s.spec_try_write_outcome() is WouldBlock,
        s.spec_after_try_write() == s,
{
}

/// Read-after-write handover: once the writer stores `v` and releases, the
/// next acquisition — shared or exclusive — succeeds and observes exactly
/// the value the writer left. Together with [`lemma_writer_blocks_others`]:
/// a task blocked on the lock returns only after the release, and then sees
/// the released value.
pub proof fn lemma_write_handover<T>(s: RawRwLock<T>, v: T)
    requires
        s.wf(),
        s.writer,
        !s.poisoned,
    ensures
        ({
            let released = s.spec_store(v).spec_release_write();
            &&& released.spec_try_write_outcome() is Acquired
            &&& released.spec_after_try_write().value == v
            &&& released.spec_try_read_outcome() is Acquired
            &&& released.spec_after_try_read().value == v
        }),
{
}

/// One transition of the mutex protocol: an acquisition attempt by any
/// task, or a store, a release, or a poisoning failure by the current
/// holder.
pub open spec fn mutex_step<T>(pre: RawMutex<T>, post: RawMutex<T>) -> bool {
    ||| post == pre.spec_after_try()
    ||| (pre.locked && exists|v: T| post == pre.spec_store(v))
    ||| (pre.locked && post == pre.spec_release())
    ||| (pre.locked && post == pre.spec_poison())
}

proof fn lemma_mutex_step_keeps_poison<T>(pre: RawMutex<T>, post: RawMutex<T>)
    requires
        pre.poisoned,
        mutex_step(pre, post),
    ensures
        post.poisoned,
{
    if pre.locked && exists|v: T| post == pre.spec_store(v) {
        let v = choose|v: T| post == pre.spec_store(v);
        assert(post == pre.spec_store(v));
    }
}

/// Poisoning of a mutex is permanent: along any chain of protocol
/// transitions whose first state is poisoned, every later state is still
/// poisoned, and every acquisition attempt in it — non-blocking, or the
/// first attempt of a blocking call — reports the poison error and grants
/// nothing.
pub proof fn lemma_mutex_poison_is_permanent<T>(trace: Seq<RawMutex<T>>, i: int)
    requires
        trace.len() > 0,
        trace[0].poisoned,
        forall|j: int| 0 <= j < trace.len() - 1 ==> #[trigger] mutex_step(trace[j], trace[j + 1]),
        0 <= i < trace.len(),
    ensures
        trace[i].poisoned,
        trace[i].spec_try_outcome() is Poisoned,
        trace[i].spec_after_try() == trace[i],
    decreases i,
{
    if i > 0 {
        lemma_mutex_poison_is_permanent(trace, i - 1);
        assert(mutex_step(trace[i - 1], trace[i - 1 + 1]));
        lemma_mutex_step_keeps_poison(trace[i - 1], trace[i]);
    }
}

/// One transition of the reader-writer protocol: an acquisition attempt of
/// either kind by any task, or a store or poisoning failure by the writer,
/// or a release by a current holder.
pub open spec fn rwlock_step<T>(pre: RawRwLock<T>, post: RawRwLock<T>) -> bool {
    ||| post == pre.spec_after_try_read()
    ||| post == pre.spec_after_try_write()
    ||| (pre.writer && exists|v: T| post == pre.spec_store(v))
    ||| (pre.readers > 0 && post == pre.spec_release_read())
    ||| (pre.writer && post == pre.spec_release_write())
    ||| (pre.writer && post == pre.spec_poison())
}

proof fn lemma_rwlock_step_keeps_poison<T>(pre: RawRwLock<T>, post: RawRwLock<T>)
    requires
        pre.poisoned,
        rwlock_step(pre, post),
    ensures
        post.poisoned,
{
    if pre.writer && exists|v: T| post == pre.spec_store(v) {
        let v = choose|v: T| post == pre.spec_store(v);
        assert(post == pre.spec_store(v));
    }
}

/// Poisoning of a reader-writer lock is permanent: along any chain of
/// protocol transitions whose first state is poisoned, every later state is
/// still poisoned, and every acquisition attempt in it — shared or
/// exclusive, non-blocking or the first attempt of a blocking call —
/// reports the poison error and grants nothing.
pub proof fn lemma_rwlock_poison_is_permanent<T>(trace: Seq<RawRwLock<T>>, i: int)
    requires
        trace.len() > 0,
        trace[0].poisoned,
        forall|j: int| 0 <= j < trace.len() - 1 ==> #[trigger] rwlock_step(trace[j], trace[j + 1]),
        0 <= i < trace.len(),
    ensures
        trace[i].poisoned,
        trace[i].spec_try_read_outcome() is Poisoned,
        trace[i].spec_try_write_outcome() is Poisoned,
        trace[i].spec_after_try_read() == trace[i],
        trace[i].spec_after_try_write() == trace[i],
    decreases i,
{
    if i > 0 {
        lemma_rwlock_poison_is_permanent(trace, i - 1);
        assert(rwlock_step(trace[i - 1], trace[i - 1 + 1]));
        lemma_rwlock_step_keeps_poison(trace[i - 1], trace[i]);
    }
}

/// One complete critical section of one task over a mutex-guarded counter:
/// acquire the free mutex, add one to the payload, release.
pub open spec fn spec_increment_round(s: RawMutex<i32>) -> RawMutex<i32> {
    s.spec_after_try().spec_store((s.value + 1) as i32).spec_release()
}

/// Two tasks share one mutex-guarded counter and each runs one complete
/// acquire–increment–release round. Whichever task the scheduler runs
/// first, the rounds are the same function applied twice; and any contended
/// attempts the waiting task makes in between leave the state untouched
/// ([`lemma_contended_mutex_attempt_is_noop`]). After both rounds the value
/// is exactly the initial value plus two, and the mutex is free again.
pub proof fn lemma_two_increment_rounds(s: RawMutex<i32>)
    requires
        !s.locked,
        !s.poisoned,
        s.value + 2 <= i32::MAX,
    ensures
        spec_increment_round(spec_increment_round(s)).value == s.value + 2,
        !spec_increment_round(spec_increment_round(s)).locked,
        !spec_increment_round(spec_increment_round(s)).poisoned,
{
    let s1 = spec_increment_round(s);
    assert(s1.value == s.value + 1);
    assert(!s1.locked && !s1.poisoned);
}

} // verus!
