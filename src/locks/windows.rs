//! The protocol of the named-mutex backend: the shared record, the name
//! derived from it, the search for a free name, and the reading of the
//! operating system's replies. The calls into the operating system are made
//! by the backend's handle type, which hands their results to these functions.
use vstd::prelude::*;

use crate::locks::{LockError, LockGuard, LockImpl, LockResult};
use crate::Timeout;

verus! {

/// Bytes of shared memory that a record occupies: one 32-bit identifier.
pub const RECORD_SIZE: usize = 4;

/// Wait status: the object was signaled and is now owned by the caller.
pub const WAIT_OBJECT_0: u32 = 0;

/// Wait status: the owner terminated without releasing; the caller now owns it.
pub const WAIT_ABANDONED: u32 = 0x80;

/// Wait status: the timeout expired.
pub const WAIT_TIMEOUT: u32 = 0x102;

/// Last error after a creation that found an object of the same name.
pub const ERROR_ALREADY_EXISTS: u32 = 183;

/// Wait duration, in milliseconds, that never expires.
pub const INFINITE: u32 = 0xFFFF_FFFF;

/// The record that identifies the object with identifier `id`: its four
/// bytes, least significant first.
pub open spec fn record_bytes(id: u32) -> Seq<u8> {
    seq![
        (id & 0xff) as u8,
        ((id >> 8u32) & 0xff) as u8,
        ((id >> 16u32) & 0xff) as u8,
        ((id >> 24u32) & 0xff) as u8,
    ]
}

/// The identifier held by the first four bytes of a record.
pub open spec fn record_id(b: Seq<u8>) -> u32
    recommends
        b.len() >= 4,
{
    (b[0] as u32) | ((b[1] as u32) << 8u32) | ((b[2] as u32) << 16u32) | ((b[3] as u32) << 24u32)
}

/// The decimal digits of `n`, most significant first.
pub open spec fn decimal(n: nat) -> Seq<u8>
    decreases n,
{
    if n < 10 {
        seq![(48 + n) as u8]
    } else {
        decimal(n / 10).push((48 + n % 10) as u8)
    }
}

/// The name of the object with identifier `id`: `mutex_` and its decimal digits.
pub open spec fn object_name(id: u32) -> Seq<u8> {
    seq![109u8, 117u8, 116u8, 101u8, 120u8, 95u8] + decimal(id as nat)
}

/// The whole milliseconds of `secs` seconds and `nanos` nanoseconds.
pub open spec fn whole_millis(secs: u64, nanos: u32) -> int {
    secs * 1000 + nanos / 1_000_000
}

/// What a wait with `timeout` is handed, in milliseconds: `INFINITE` for an
/// unbounded wait, otherwise the timeout's whole milliseconds, cut to the
/// longest bounded wait.
pub open spec fn wait_millis_spec(timeout: Timeout) -> u32 {
    match timeout {
        Timeout::Infinite => INFINITE,
        Timeout::Val { secs, nanos } => if whole_millis(secs, nanos) < INFINITE {
            whole_millis(secs, nanos) as u32
        } else {
            (INFINITE - 1) as u32
        },
    }
}

/// A record holds the identifier it was written from: whoever reads the
/// first four bytes of a region that holds the record of `id` reads `id`, and
/// derives the name of the same object.
pub proof fn lemma_record_round_trip(mem: Seq<u8>, id: u32)
    requires
        mem.len() >= RECORD_SIZE,
        mem.subrange(0, 4) == record_bytes(id),
    ensures
        record_id(mem) == id,
        object_name(record_id(mem)) == object_name(id),
{
    assert(mem[0] == mem.subrange(0, 4)[0]);
    assert(mem[1] == mem.subrange(0, 4)[1]);
    assert(mem[2] == mem.subrange(0, 4)[2]);
    assert(mem[3] == mem.subrange(0, 4)[3]);
    let (b0, b1, b2, b3) = (mem[0], mem[1], mem[2], mem[3]);
    assert(b0 == (id & 0xff) as u8 && b1 == ((id >> 8u32) & 0xff) as u8 && b2 == ((id >> 16u32)
        & 0xff) as u8 && b3 == ((id >> 24u32) & 0xff) as u8 ==> (b0 as u32) | ((b1 as u32) << 8u32)
        | ((b2 as u32) << 16u32) | ((b3 as u32) << 24u32) == id) by (bit_vector);
}

/// The last digit of `decimal(n)`, and what stands before it.
proof fn lemma_decimal_shape(n: nat)
    ensures
        decimal(n).len() >= 1,
        decimal(n).last() == (48 + n % 10) as u8,
        n < 10 <==> decimal(n).len() == 1,
        n >= 10 ==> decimal(n).drop_last() == decimal(n / 10),
    decreases n,
{
    if n >= 10 {
        lemma_decimal_shape(n / 10);
        assert(decimal(n).drop_last() =~= decimal(n / 10));
    }
}

/// Different numbers have different decimal digits.
proof fn lemma_decimal_injective(a: nat, b: nat)
    requires
        decimal(a) == decimal(b),
    ensures
        a == b,
    decreases a,
{
    lemma_decimal_shape(a);
    lemma_decimal_shape(b);
    if a >= 10 {
        lemma_decimal_injective(a / 10, b / 10);
    }
}

/// Different identifiers name different objects, so a record leads its
/// readers to the one object that its writer created.
pub proof fn lemma_names_distinct(a: u32, b: u32)
    requires
        a != b,
    ensures
        object_name(a) != object_name(b),
{
    if object_name(a) == object_name(b) {
        assert(decimal(a as nat) =~= object_name(a).skip(6));
        assert(decimal(b as nat) =~= object_name(b).skip(6));
        lemma_decimal_injective(a as nat, b as nat);
    }
}

/// Bytes of shared memory a record occupies.
pub fn size_of() -> (r: usize)
    ensures
        r == RECORD_SIZE,
{
    RECORD_SIZE
}

/// Alignment the record needs beyond that of a byte: none.
pub fn alignment() -> (r: Option<u8>)
    ensures
        r is None,
{
    None
}

/// Writes the record of `id` into the first bytes of `mem`.
pub fn write_record(mem: &mut [u8], id: u32)
    requires
        old(mem)@.len() >= RECORD_SIZE,
    ensures
        final(mem)@.len() == old(mem)@.len(),
        final(mem)@.subrange(0, 4) == record_bytes(id),
        final(mem)@.subrange(4, final(mem)@.len() as int) == old(mem)@.subrange(
            4,
            old(mem)@.len() as int,
        ),
{
    mem[0] = (id & 0xff) as u8;
    mem[1] = ((id >> 8u32) & 0xff) as u8;
    mem[2] = ((id >> 16u32) & 0xff) as u8;
    mem[3] = ((id >> 24u32) & 0xff) as u8;
    assert(mem@.subrange(0, 4) =~= record_bytes(id));
    assert(mem@.subrange(4, mem@.len() as int) =~= old(mem)@.subrange(4, old(mem)@.len() as int));
}

/// Reads the identifier from a record; fails when `mem` is too short to hold one.
pub fn read_record(mem: &[u8]) -> (r: Result<u32, LockError>)
    ensures
        mem@.len() >= RECORD_SIZE ==> r == Ok::<u32, LockError>(record_id(mem@)),
        mem@.len() < RECORD_SIZE ==> r == Err::<u32, LockError>(
            LockError::InvalidRecord { len: mem@.len() as usize },
        ),
{
    if mem.len() < RECORD_SIZE {
        return Err(LockError::InvalidRecord { len: mem.len() });
    }
    Ok((mem[0] as u32) | ((mem[1] as u32) << 8u32) | ((mem[2] as u32) << 16u32) | ((mem[3] as u32)
        << 24u32))
}

/// Appends the decimal digits of `n` to `out`.
fn push_decimal(n: u32, out: &mut Vec<u8>)
    ensures
        final(out)@ == old(out)@ + decimal(n as nat),
    decreases n,
{
    if n >= 10 {
        push_decimal(n / 10, out);
    }
    out.push(48u8 + (n % 10) as u8);
    assert(final(out)@ =~= old(out)@ + decimal(n as nat));
}

/// The name of the object with identifier `id`, as a NUL-terminated string.
pub fn mutex_name(id: u32) -> (r: Vec<u8>)
    ensures
        r@ == object_name(id).push(0u8),
{
    let mut out: Vec<u8> = vec![109u8, 117u8, 116u8, 101u8, 120u8, 95u8];
    push_decimal(id, &mut out);
    out.push(0u8);
    assert(out@ =~= object_name(id).push(0u8));
    out
}

/// What a wait with `timeout` is handed, in milliseconds. Only an unbounded
/// wait is handed `INFINITE`.
pub fn wait_millis(timeout: Timeout) -> (r: u32)
    ensures
        r == wait_millis_spec(timeout),
        timeout is Infinite <==> r == INFINITE,
{
    match timeout {
        Timeout::Infinite => INFINITE,
        Timeout::Val { secs, nanos } => {
            let millis: u128 = secs as u128 * 1000 + (nanos / 1_000_000) as u128;
            if millis < INFINITE as u128 {
                millis as u32
            } else {
                INFINITE - 1
            }
        },
    }
}

/// The outcome of an acquisition, from the status the wait returned.
pub fn lock_result<'t, L: LockImpl>(lock: &'t L, status: u32) -> (r: LockResult<'t, L>)
    ensures
        status == WAIT_OBJECT_0 ==> (r matches LockResult::Acquired(g) && g.source() == lock),
        status == WAIT_ABANDONED ==> (r matches LockResult::Abandoned(g) && g.source() == lock),
        status == WAIT_TIMEOUT ==> r == LockResult::<'t, L>::Failed(LockError::TimedOut),
        status != WAIT_OBJECT_0 && status != WAIT_ABANDONED && status != WAIT_TIMEOUT ==> r
            == LockResult::<'t, L>::Failed(LockError::Wait { status }),
{
    if status == WAIT_OBJECT_0 {
        LockResult::Acquired(LockGuard::new(lock))
    } else if status == WAIT_ABANDONED {
        LockResult::Abandoned(LockGuard::new(lock))
    } else if status == WAIT_TIMEOUT {
        LockResult::Failed(LockError::TimedOut)
    } else {
        LockResult::Failed(LockError::Wait { status })
    }
}

/// The outcome of a release, from the value the release call returned: zero
/// when the caller did not hold the object.
pub fn release_result(ret: i32) -> (r: Result<(), LockError>)
    ensures
        ret == 0 ==> r == Err::<(), LockError>(LockError::Release),
        ret != 0 ==> r == Ok::<(), LockError>(()),
{
    if ret == 0 {
        Err(LockError::Release)
    } else {
        Ok(())
    }
}

/// Relies on `rand::random`: a value drawn from the thread's random number
/// generator. Nothing is known of the value.
pub assume_specification<T>[ rand::random::<T> ]() -> T
    where
        rand::distributions::Standard: rand::distributions::Distribution<T>,
;

/// Where the creation of a fresh lock stands.
pub enum Creation {
    /// An object is being created under the name of `id`.
    Creating { id: u32 },
    /// The object of `id` exists and its creator still owns it.
    Releasing { id: u32 },
    /// The object of `id` is free; its record is to be written.
    Done { id: u32 },
    /// Creation stopped with `error`.
    Failed { error: LockError },
}

/// What the operating system answered to the last action of a creation.
#[derive(Clone, Copy, Debug, PartialEq, Eq, Structural)]
pub enum CreationEvent {
    /// A new object was created, owned by the caller.
    Created,
    /// Another live object already has the name.
    NameTaken,
    /// Creation failed with this error code.
    CreateFailed { code: u32 },
    /// The creator's initial ownership was given up.
    Released,
    /// Initial ownership could not be given up.
    ReleaseFailed,
}

/// What the caller does next in a creation.
pub enum CreationAction {
    /// Create a new object owned by the caller, under `name` (NUL-terminated).
    Create { id: u32, name: Vec<u8> },
    /// Give up the initial ownership of the created object.
    Release,
    /// Write the record of `id` into the shared memory; the lock is ready.
    WriteRecord { id: u32 },
    /// Close what was created and report `error`.
    Fail { error: LockError },
}

/// A `Create` action for `id`.
pub open spec fn is_create_of(a: CreationAction, id: u32) -> bool {
    a matches CreationAction::Create { id: i, name } && i == id && name@ == object_name(id).push(0u8)
}

/// A `Fail` action reporting `e`.
pub open spec fn is_fail_with(a: CreationAction, e: LockError) -> bool {
    a matches CreationAction::Fail { error } && error == e
}

impl Creation {
    /// Whether `event` can answer the action that led to this state.
    pub open spec fn accepts(self, event: CreationEvent) -> bool {
        match self {
            Creation::Creating { .. } => event is Created || event is NameTaken
                || event is CreateFailed,
            Creation::Releasing { .. } => event is Released || event is ReleaseFailed,
            _ => false,
        }
    }

    /// Draws a fresh identifier and asks to create its object.
    fn draw() -> (r: (Creation, CreationAction))
        ensures
            r.0 matches Creation::Creating { id } && is_create_of(r.1, id),
    {
        let id: u32 = rand::random::<u32>();
        (Creation::Creating { id }, CreationAction::Create { id, name: mutex_name(id) })
    }

    /// Starts a creation under a random identifier.
    pub fn start() -> (r: (Creation, CreationAction))
        ensures
            r.0 matches Creation::Creating { id } && is_create_of(r.1, id),
    {
        Creation::draw()
    }

    /// The next state and action once `event` answered the last action. A
    /// taken name is retried under a fresh random identifier; any other
    /// failure ends the creation.
    pub fn step(self, event: CreationEvent) -> (r: (Creation, CreationAction))
        requires
            self.accepts(event),
        ensures
            match (self, event) {
                (Creation::Creating { id }, CreationEvent::Created) => r.0 == (Creation::Releasing {
                    id,
                }) && r.1 is Release,
                (Creation::Creating { .. }, CreationEvent::NameTaken) => r.0 matches Creation::Creating {
                    id: n,
                } && is_create_of(r.1, n),
                (Creation::Creating { .. }, CreationEvent::CreateFailed { code }) => r.0 == (
                Creation::Failed { error: LockError::Construction { code } }) && is_fail_with(
                    r.1,
                    LockError::Construction { code },
                ),
                (Creation::Releasing { id }, CreationEvent::Released) => r.0 == (Creation::Done {
                    id,
                }) && r.1 == (CreationAction::WriteRecord { id }),
                (Creation::Releasing { .. }, _) => r.0 == (Creation::Failed {
                    error: LockError::Release,
                }) && is_fail_with(r.1, LockError::Release),
                _ => false,
            },
    {
        match self {
            Creation::Creating { id } => match event {
                CreationEvent::Created => (Creation::Releasing { id }, CreationAction::Release),
                CreationEvent::NameTaken => Creation::draw(),
                CreationEvent::CreateFailed { code } => {
                    let error = LockError::Construction { code };
                    (Creation::Failed { error }, CreationAction::Fail { error })
                },
                _ => (Creation::Failed { error: LockError::Release }, CreationAction::Fail {
                    error: LockError::Release,
                }),
            },
            Creation::Releasing { id } => match event {
                CreationEvent::Released => (Creation::Done { id }, CreationAction::WriteRecord { id }),
                _ => (Creation::Failed { error: LockError::Release }, CreationAction::Fail {
                    error: LockError::Release,
                }),
            },
            _ => (Creation::Failed { error: LockError::Release }, CreationAction::Fail {
                error: LockError::Release,
            }),
        }
    }
}

/// The answer to a creation attempt, from whether a handle came back and the
/// thread's last error code after the call. A handle to an object that already
/// existed means the name is taken.
pub fn creation_event(created: bool, last_error: u32) -> (r: CreationEvent)
    ensures
        !created ==> r == (CreationEvent::CreateFailed { code: last_error }),
        created && last_error == ERROR_ALREADY_EXISTS ==> r == CreationEvent::NameTaken,
        created && last_error != ERROR_ALREADY_EXISTS ==> r == CreationEvent::Created,
{
    if !created {
        CreationEvent::CreateFailed { code: last_error }
    } else if last_error == ERROR_ALREADY_EXISTS {
        CreationEvent::NameTaken
    } else {
        CreationEvent::Created
    }
}

/// The identifier in a record and the name of its object (NUL-terminated),
/// or why the record is invalid.
pub fn attach_name(mem: &[u8]) -> (r: Result<(u32, Vec<u8>), LockError>)
    ensures
        mem@.len() >= RECORD_SIZE ==> (r matches Ok((id, name)) && id == record_id(mem@) && name@
            == object_name(id).push(0u8)),
        mem@.len() < RECORD_SIZE ==> (r matches Err(e) && e == (LockError::InvalidRecord {
            len: mem@.len() as usize,
        })),
{
    match read_record(mem) {
        Ok(id) => Ok((id, mutex_name(id))),
        Err(e) => Err(e),
    }
}

/// The outcome of an attachment to the object of `id`, from whether it could
/// be opened: the bytes of the record on success.
pub fn attach_result(id: u32, opened: bool) -> (r: Result<usize, LockError>)
    ensures
        opened ==> r == Ok::<usize, LockError>(RECORD_SIZE),
        !opened ==> r == Err::<usize, LockError>(LockError::Attach { id }),
{
    if opened {
        Ok(RECORD_SIZE)
    } else {
        Err(LockError::Attach { id })
    }
}

} // verus!
