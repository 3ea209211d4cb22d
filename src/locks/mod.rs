use vstd::prelude::*;

pub mod windows;

use crate::Timeout;

verus! {

/// Why an operation on a lock failed.
#[derive(Clone, Copy, Debug, PartialEq, Eq, Structural)]
pub enum LockError {
    /// The operating system refused to create the synchronization object.
    Construction { code: u32 },
    /// The shared record is too short to hold an identifier.
    InvalidRecord { len: usize },
    /// No synchronization object exists for the identifier in the record.
    Attach { id: u32 },
    /// The caller did not hold the lock it tried to release.
    Release,
    /// A bounded wait ran out before the lock was acquired.
    TimedOut,
    /// The wait failed for another reason; the operating system's status.
    Wait { status: u32 },
    /// The previous holder terminated without releasing the lock.
    Abandoned,
}

/// Operations of an attached lock handle.
///
/// A backend implements this over one operating system's synchronization
/// object. Every guard it hands out is bound to the handle it came from.
pub trait LockImpl: Sized {
    /// The address of the protected data that this handle was given.
    spec fn inner(&self) -> usize;

    /// The native object's handle, for interoperation and debugging.
    fn as_raw(&self) -> usize;

    /// Blocks until the lock is acquired: an acquisition with no timeout.
    fn lock(&self) -> (r: LockResult<'_, Self>)
        ensures
            r matches LockResult::Acquired(g) ==> g.source() == self,
            r matches LockResult::Abandoned(g) ==> g.source() == self,
    {
        self.try_lock(Timeout::Infinite)
    }

    /// Blocks until the lock is acquired or the timeout expires.
    fn try_lock(&self, timeout: Timeout) -> (r: LockResult<'_, Self>)
        ensures
            r matches LockResult::Acquired(g) ==> g.source() == self,
            r matches LockResult::Abandoned(g) ==> g.source() == self,
    ;

    /// Releases the lock held by the caller; the one error is `Release`, when
    /// the caller did not hold it.
    fn release(&self) -> (r: Result<(), LockError>)
        ensures
            r is Err ==> r == Err::<(), LockError>(LockError::Release),
    ;

    /// Acquires the lock for reading; by default an exclusive acquisition
    /// whose guard is turned into a read guard.
    fn rlock(&self) -> (r: ReadLockResult<'_, Self>)
        ensures
            r matches ReadLockResult::Acquired(g) ==> g.source() == self,
            r matches ReadLockResult::Abandoned(g) ==> g.source() == self,
    {
        read_outcome(self.lock())
    }

    /// Acquires the lock for reading with a timeout; by default an exclusive
    /// acquisition whose guard is turned into a read guard.
    fn try_rlock(&self, timeout: Timeout) -> (r: ReadLockResult<'_, Self>)
        ensures
            r matches ReadLockResult::Acquired(g) ==> g.source() == self,
            r matches ReadLockResult::Abandoned(g) ==> g.source() == self,
    {
        read_outcome(self.try_lock(timeout))
    }

    /// The address of the protected data. Only meaningful while a guard is held.
    fn get_inner(&self) -> (r: usize)
        ensures
            r == self.inner(),
    ;

    /// Replaces the address of the protected data. Takes the handle by
    /// `&mut`, so no guard on it is live.
    fn set_inner(&mut self, data: usize)
        ensures
            final(self).inner() == data,
    ;
}

/// Construction of a lock record in shared memory.
///
/// A handle made by `new` or `from_existing` guards the data address it was
/// given, and reports the record's size as the bytes it used.
pub trait LockInit: LockImpl {
    /// Bytes of the shared region that this backend's record occupies.
    spec fn record_size() -> usize;

    /// Bytes of the shared region that the record occupies.
    fn size_of(addr: Option<usize>) -> (r: usize)
        ensures
            r == Self::record_size(),
    ;

    /// Writes a fresh record into `mem`, creating the underlying object, and
    /// returns the handle and the number of bytes used.
    fn new(mem: &mut [u8], data: usize) -> (r: Result<(Self, usize), LockError>)
        ensures
            r matches Ok((h, n)) ==> n == Self::record_size() && h.inner() == data,
    ;

    /// Attaches to the object named by a record that `new` wrote, and returns
    /// the handle and the number of bytes used.
    fn from_existing(mem: &[u8], data: usize) -> (r: Result<(Self, usize), LockError>)
        ensures
            r matches Ok((h, n)) ==> n == Self::record_size() && h.inner() == data,
    ;
}

/// Exclusive access to a lock's data, held until `release` consumes the guard.
///
/// A guard that is dropped without `release` leaves the lock held: every scope
/// that acquires a guard ends by releasing it, on every path. `with_lock` does
/// so for a scope that is one call.
pub struct LockGuard<'t, L> {
    lock: &'t L,
}

/// Shared access to a lock's data, held until `release` consumes the guard.
pub struct ReadLockGuard<'t, L> {
    lock: &'t L,
}

impl<'t, L> LockGuard<'t, L> {
    /// The handle this guard was acquired from.
    pub closed spec fn source(&self) -> &'t L {
        self.lock
    }
}

impl<'t, L: LockImpl> LockGuard<'t, L> {
    /// A guard over a lock that the caller has just acquired.
    pub fn new(lock: &'t L) -> (r: Self)
        ensures
            r.source() == lock,
    {
        LockGuard { lock }
    }

    /// Turns exclusive access into shared access without releasing the lock:
    /// the obligation to release passes to the returned guard.
    pub fn into_read_guard(self) -> (r: ReadLockGuard<'t, L>)
        ensures
            r.source() == self.source(),
    {
        ReadLockGuard::new(self.lock)
    }

    /// The address of the protected data.
    pub fn data(&self) -> (r: usize)
        ensures
            r == self.source().inner(),
    {
        self.lock.get_inner()
    }

    /// Releases the lock; the guard is gone whatever the outcome.
    pub fn release(self) -> (r: Result<(), LockError>)
        ensures
            r is Err ==> r == Err::<(), LockError>(LockError::Release),
    {
        self.lock.release()
    }
}

impl<'t, L> ReadLockGuard<'t, L> {
    /// The handle this guard was acquired from.
    pub closed spec fn source(&self) -> &'t L {
        self.lock
    }
}

impl<'t, L: LockImpl> ReadLockGuard<'t, L> {
    /// A read guard over a lock that the caller has just acquired.
    pub fn new(lock: &'t L) -> (r: Self)
        ensures
            r.source() == lock,
    {
        ReadLockGuard { lock }
    }

    /// The address of the protected data, for reading.
    pub fn data(&self) -> (r: usize)
        ensures
            r == self.source().inner(),
    {
        self.lock.get_inner()
    }

    /// Releases the lock; the guard is gone whatever the outcome.
    pub fn release(self) -> (r: Result<(), LockError>)
        ensures
            r is Err ==> r == Err::<(), LockError>(LockError::Release),
    {
        self.lock.release()
    }
}

/// Outcome of an exclusive acquisition.
pub enum LockResult<'a, L> {
    /// Acquired.
    Acquired(LockGuard<'a, L>),
    /// Acquired, but the previous holder terminated while holding it.
    Abandoned(LockGuard<'a, L>),
    /// Not acquired.
    Failed(LockError),
}

/// Outcome of a shared acquisition.
pub enum ReadLockResult<'a, L> {
    /// Acquired.
    Acquired(ReadLockGuard<'a, L>),
    /// Acquired, but the previous holder terminated while holding it.
    Abandoned(ReadLockGuard<'a, L>),
    /// Not acquired.
    Failed(LockError),
}

impl<'a, L: LockImpl> LockResult<'a, L> {
    /// Treats an abandoned lock as a failure: only a clean acquisition yields
    /// the guard. The lock of an abandoned acquisition is released first, and a
    /// failed release is reported in place of `Abandoned`.
    pub fn deny_abandoned(self) -> (r: Result<LockGuard<'a, L>, LockError>)
        ensures
            match self {
                LockResult::Acquired(g) => r == Ok::<LockGuard<'a, L>, LockError>(g),
                LockResult::Abandoned(_) => r == Err::<LockGuard<'a, L>, LockError>(
                    LockError::Abandoned,
                ) || r == Err::<LockGuard<'a, L>, LockError>(LockError::Release),
                LockResult::Failed(e) => r == Err::<LockGuard<'a, L>, LockError>(e),
            },
    {
        match self {
            LockResult::Acquired(guard) => Ok(guard),
            LockResult::Abandoned(guard) => match guard.release() {
                Ok(()) => Err(LockError::Abandoned),
                Err(e) => Err(e),
            },
            LockResult::Failed(err) => Err(err),
        }
    }
}

impl<'a, L: LockImpl> ReadLockResult<'a, L> {
    /// Treats an abandoned lock as a failure: only a clean acquisition yields
    /// the guard. The lock of an abandoned acquisition is released first, and a
    /// failed release is reported in place of `Abandoned`.
    pub fn deny_abandoned(self) -> (r: Result<ReadLockGuard<'a, L>, LockError>)
        ensures
            match self {
                ReadLockResult::Acquired(g) => r == Ok::<ReadLockGuard<'a, L>, LockError>(g),
                ReadLockResult::Abandoned(_) => r == Err::<ReadLockGuard<'a, L>, LockError>(
                    LockError::Abandoned,
                ) || r == Err::<ReadLockGuard<'a, L>, LockError>(LockError::Release),
                ReadLockResult::Failed(e) => r == Err::<ReadLockGuard<'a, L>, LockError>(e),
            },
    {
        match self {
            ReadLockResult::Acquired(guard) => Ok(guard),
            ReadLockResult::Abandoned(guard) => match guard.release() {
                Ok(()) => Err(LockError::Abandoned),
                Err(e) => Err(e),
            },
            ReadLockResult::Failed(err) => Err(err),
        }
    }
}

/// The outcome of an exclusive acquisition with its guard turned into a read
/// guard on the same lock: the kind of outcome and the error are kept.
pub fn read_outcome<'a, L>(r: LockResult<'a, L>) -> (o: ReadLockResult<'a, L>)
    ensures
        match r {
            LockResult::Acquired(g) => o matches ReadLockResult::Acquired(h) && h.source() == g.source(),
            LockResult::Abandoned(g) => o matches ReadLockResult::Abandoned(h) && h.source()
                == g.source(),
            LockResult::Failed(e) => o == ReadLockResult::<'a, L>::Failed(e),
        },
{
    match r {
        LockResult::Acquired(g) => ReadLockResult::Acquired(ReadLockGuard { lock: g.lock }),
        LockResult::Abandoned(g) => ReadLockResult::Abandoned(ReadLockGuard { lock: g.lock }),
        LockResult::Failed(e) => ReadLockResult::Failed(e),
    }
}

/// What a scope of `f` comes to, given the outcome of the acquisition: on a
/// clean acquisition `f` runs on the guarded address and the lock is released
/// after it; an abandoned lock is released and reported; a failure is passed
/// on. A failed release is reported in place of the value.
pub fn run_locked<'a, L: LockImpl, R, F: FnOnce(usize) -> R>(acquired: LockResult<'a, L>, f: F) -> (r:
    Result<R, LockError>)
    requires
        acquired matches LockResult::Acquired(g) ==> f.requires((g.source().inner(),)),
    ensures
        match acquired {
            LockResult::Acquired(g) => (r matches Ok(v) && f.ensures((g.source().inner(),), v))
                || r == Err::<R, LockError>(LockError::Release),
            LockResult::Abandoned(_) => r == Err::<R, LockError>(LockError::Abandoned) || r == Err::<
                R,
                LockError,
            >(LockError::Release),
            LockResult::Failed(e) => r == Err::<R, LockError>(e),
        },
{
    match acquired {
        LockResult::Acquired(guard) => {
            let v = f(guard.data());
            match guard.release() {
                Ok(()) => Ok(v),
                Err(e) => Err(e),
            }
        },
        LockResult::Abandoned(guard) => match guard.release() {
            Ok(()) => Err(LockError::Abandoned),
            Err(e) => Err(e),
        },
        LockResult::Failed(e) => Err(e),
    }
}

/// Runs `f` on the protected address while holding the lock, and releases the
/// lock afterwards on every path, as `run_locked` says.
pub fn with_lock<L: LockImpl, R, F: FnOnce(usize) -> R>(lock: &L, timeout: Timeout, f: F) -> (r:
    Result<R, LockError>)
    requires
        f.requires((lock.inner(),)),
    ensures
        r matches Ok(v) ==> f.ensures((lock.inner(),), v),
{
    run_locked(lock.try_lock(timeout), f)
}

} // verus!
