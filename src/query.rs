use vstd::prelude::*;

use core::marker::PhantomData;

use crate::error::QueryError;
use crate::flavor::{
    fd_flavor_code, pid_flavor_code, HasFdFlavor, HasFlavor, HasFlavorList, Record,
};
use crate::ids::{Fd, FilePort, Pid};

verus! {

/// The largest buffer size that the entry points accept (their length
/// parameter is a C `int`).
pub const MAX_BUFFER: usize = 0x7fff_ffff;

/// Records that a list query makes room for when the kernel gives no hint.
pub const DEFAULT_LIST_RECORDS: usize = 16;

/// The process that a query is about.
#[derive(Debug, Clone, Copy, PartialEq, Eq, Structural)]
pub enum Target {
    /// The process that runs the query; its id is taken when the call is made.
    CallingProcess,
    Process(Pid),
}

/// The kernel entry point of a fixed-size query, with its secondary id.
#[derive(Debug, Clone, Copy, PartialEq, Eq, Structural)]
pub enum EntryPoint {
    /// `proc_pidinfo`.
    Process,
    /// `proc_pidfdinfo`, for this descriptor.
    Descriptor(Fd),
    /// `proc_pidfileportinfo`, for this fileport.
    FilePort(FilePort),
}

/// What a fixed-size query makes of the kernel's return value `res` for a
/// buffer of `size` bytes: an error, no data (`Ok(false)`) or a complete
/// record (`Ok(true)`).
pub open spec fn fixed_outcome(res: int, size: int, errno: i32) -> Result<bool, QueryError> {
    if res < 0 {
        Err(QueryError::OsError(errno))
    } else if res == 0 {
        Ok(false)
    } else if res == size {
        Ok(true)
    } else {
        Err(QueryError::MalformedResponse)
    }
}

/// Classifies the return value of a fixed-size query. `errno` is the error
/// number that the OS reported with a negative return.
pub fn check_fixed_reply(res: i32, errno: i32, buffer_size: usize) -> (r: Result<bool, QueryError>)
    ensures
        r == fixed_outcome(res as int, buffer_size as int, errno),
{
    if res < 0 {
        Err(QueryError::OsError(errno))
    } else if res == 0 {
        Ok(false)
    } else if res as usize == buffer_size {
        Ok(true)
    } else {
        Err(QueryError::MalformedResponse)
    }
}

/// Every reply to a fixed-size query is an error, no data, or a record; it
/// is a record only when the kernel filled the buffer exactly, and no data
/// only when it wrote nothing.
pub proof fn lemma_fixed_record_only_when_exact(res: int, size: int, errno: i32)
    requires
        0 < size,
    ensures
        fixed_outcome(res, size, errno) == Ok::<bool, QueryError>(true) <==> res == size,
        fixed_outcome(res, size, errno) == Ok::<bool, QueryError>(false) <==> res == 0,
        res < 0 ==> fixed_outcome(res, size, errno) == Err::<bool, QueryError>(
            QueryError::OsError(errno),
        ),
        0 < res && res != size ==> fixed_outcome(res, size, errno) == Err::<bool, QueryError>(
            QueryError::MalformedResponse,
        ),
{
}

/// A query for one fixed-size record of type `T`: what to hand the kernel,
/// and how to read what it gives back.
pub struct RecordQuery<T> {
    pub target: Target,
    pub entry: EntryPoint,
    /// The selector number for the entry point.
    pub flavor: i32,
    /// The size of the buffer to hand over, which is the record's size.
    pub buffer_size: usize,
    /// The record type that the reply is read as.
    pub record: PhantomData<T>,
}

impl<T: Record> RecordQuery<T> {
    /// Reads the kernel's reply: `res` is its return value, `errno` the error
    /// number reported with a negative one, `buffer` what it wrote.
    pub fn finish(&self, res: i32, errno: i32, buffer: &[u8]) -> (r: Result<Option<T>, QueryError>)
        requires
            buffer@.len() == T::byte_size(),
        ensures
            match fixed_outcome(res as int, T::byte_size() as int, errno) {
                Err(e) => r == Err::<Option<T>, QueryError>(e),
                Ok(false) => r == Ok::<Option<T>, QueryError>(None),
                Ok(true) => r matches Ok(Some(rec)) && rec.encoded_by(buffer@),
            },
    {
        let size = T::size();
        match check_fixed_reply(res, errno, size) {
            Err(e) => Err(e),
            Ok(false) => Ok(None),
            Ok(true) => Ok(Some(T::from_bytes(buffer))),
        }
    }
}

/// A query for a `T` record of a process.
pub fn proc_pidinfo<T: HasFlavor>(pid: Pid) -> (q: RecordQuery<T>)
    ensures
        q.target == Target::Process(pid),
        q.entry == EntryPoint::Process,
        q.flavor == pid_flavor_code(T::spec_flavor()),
        q.buffer_size == T::byte_size(),
{
    RecordQuery {
        target: Target::Process(pid),
        entry: EntryPoint::Process,
        flavor: T::flavor().code(),
        buffer_size: T::size(),
        record: PhantomData,
    }
}

/// A query for a `T` record of the calling process.
pub fn proc_pidinfo_self<T: HasFlavor>() -> (q: RecordQuery<T>)
    ensures
        q.target == Target::CallingProcess,
        q.entry == EntryPoint::Process,
        q.flavor == pid_flavor_code(T::spec_flavor()),
        q.buffer_size == T::byte_size(),
{
    RecordQuery {
        target: Target::CallingProcess,
        entry: EntryPoint::Process,
        flavor: T::flavor().code(),
        buffer_size: T::size(),
        record: PhantomData,
    }
}

/// A query for a `T` record of a descriptor of a process.
pub fn proc_pidfdinfo<T: HasFdFlavor>(pid: Pid, fd: Fd) -> (q: RecordQuery<T>)
    ensures
        q.target == Target::Process(pid),
        q.entry == EntryPoint::Descriptor(fd),
        q.flavor == fd_flavor_code(T::spec_flavor()),
        q.buffer_size == T::byte_size(),
{
    RecordQuery {
        target: Target::Process(pid),
        entry: EntryPoint::Descriptor(fd),
        flavor: T::flavor().code(),
        buffer_size: T::size(),
        record: PhantomData,
    }
}

/// A query for a `T` record of a descriptor of the calling process.
pub fn proc_pidfdinfo_self<T: HasFdFlavor>(fd: Fd) -> (q: RecordQuery<T>)
    ensures
        q.target == Target::CallingProcess,
        q.entry == EntryPoint::Descriptor(fd),
        q.flavor == fd_flavor_code(T::spec_flavor()),
        q.buffer_size == T::byte_size(),
{
    RecordQuery {
        target: Target::CallingProcess,
        entry: EntryPoint::Descriptor(fd),
        flavor: T::flavor().code(),
        buffer_size: T::size(),
        record: PhantomData,
    }
}

/// A query for a `T` record of a fileport of a process.
pub fn proc_pidfileportinfo<T: HasFdFlavor>(pid: Pid, fileport: FilePort) -> (q: RecordQuery<T>)
    ensures
        q.target == Target::Process(pid),
        q.entry == EntryPoint::FilePort(fileport),
        q.flavor == fd_flavor_code(T::spec_flavor()),
        q.buffer_size == T::byte_size(),
{
    RecordQuery {
        target: Target::Process(pid),
        entry: EntryPoint::FilePort(fileport),
        flavor: T::flavor().code(),
        buffer_size: T::size(),
        record: PhantomData,
    }
}

/// A query for a `T` record of a fileport of the calling process.
pub fn proc_pidfileportinfo_self<T: HasFdFlavor>(fileport: FilePort) -> (q: RecordQuery<T>)
    ensures
        q.target == Target::CallingProcess,
        q.entry == EntryPoint::FilePort(fileport),
        q.flavor == fd_flavor_code(T::spec_flavor()),
        q.buffer_size == T::byte_size(),
{
    RecordQuery {
        target: Target::CallingProcess,
        entry: EntryPoint::FilePort(fileport),
        flavor: T::flavor().code(),
        buffer_size: T::size(),
        record: PhantomData,
    }
}

} // verus!

verus! {

/// The buffer size for the first real call of a list query, given the
/// kernel's reply `probe` to a call without a buffer.
pub open spec fn first_capacity(probe: int, size: int) -> int {
    if probe > 0 {
        probe
    } else {
        DEFAULT_LIST_RECORDS * size
    }
}

/// The buffer size after a reply that filled a buffer of `cap` bytes:
/// double, but no more than the entry points accept.
pub open spec fn grown_capacity(cap: int) -> int {
    if 2 * cap <= MAX_BUFFER {
        2 * cap
    } else {
        MAX_BUFFER as int
    }
}

/// What a list query makes of the reply `res` to a call with a buffer of
/// `cap` bytes, for records of `size` bytes: `Ok(None)` when the buffer may
/// have been too small, `Ok(Some(n))` when it holds `n` whole records.
pub open spec fn list_outcome(cap: int, res: int, size: int, errno: i32) -> Result<
    Option<int>,
    QueryError,
> {
    if res == cap {
        Ok(None)
    } else if res < 0 {
        Err(QueryError::OsError(errno))
    } else if res > cap || res % size != 0 {
        Err(QueryError::MalformedResponse)
    } else {
        Ok(Some(res / size))
    }
}

/// `v` is the `n` records that `b` holds one after another, in order.
pub open spec fn holds_records<T: Record>(v: Seq<T>, b: Seq<u8>, n: int) -> bool {
    &&& v.len() == n
    &&& forall|k: int|
        0 <= k < n ==> #[trigger] v[k].encoded_by(
            b.subrange(k * T::byte_size(), (k + 1) * T::byte_size()),
        )
}

/// What the caller of a list query does next.
pub enum ListStep<T> {
    /// Call the entry point again with a buffer of this many bytes.
    Call(usize),
    /// The query is over; these are the records, in the kernel's order.
    Done(Vec<T>),
    /// The query failed.
    Failed(QueryError),
}

/// A query for the array of `T` records of a process, run as a state
/// machine: the caller makes each call that `capacity` describes and hands
/// the reply to `on_reply`, until that returns `Done` or `Failed`.
pub struct ListQuery<T> {
    pub target: Target,
    /// The selector number for the per-process entry point.
    pub flavor: i32,
    /// The size of the buffer for the next call; zero for the first call,
    /// which only asks the kernel for a size hint.
    pub capacity: usize,
    /// The record type that the reply is read as.
    pub record: PhantomData<T>,
}

impl<T: Record> ListQuery<T> {
    /// Takes the kernel's reply to the call with `self.capacity` bytes:
    /// `res` is its return value, `errno` the error number reported with a
    /// negative one, `buffer` what it wrote.
    pub fn on_reply(&mut self, res: i32, errno: i32, buffer: &[u8]) -> (r: ListStep<T>)
        requires
            old(self).capacity <= MAX_BUFFER,
            buffer@.len() == old(self).capacity,
        ensures
            final(self).target == old(self).target,
            final(self).flavor == old(self).flavor,
            final(self).capacity <= MAX_BUFFER,
            old(self).capacity == 0 ==> {
                if res < 0 {
                    &&& r == ListStep::<T>::Failed(QueryError::OsError(errno))
                    &&& final(self).capacity == 0
                } else {
                    &&& final(self).capacity == first_capacity(res as int, T::byte_size() as int)
                    &&& r == ListStep::<T>::Call(final(self).capacity)
                }
            },
            old(self).capacity > 0 ==> match list_outcome(
                old(self).capacity as int,
                res as int,
                T::byte_size() as int,
                errno,
            ) {
                Ok(None) => {
                    &&& final(self).capacity == grown_capacity(old(self).capacity as int)
                    &&& r == ListStep::<T>::Call(final(self).capacity)
                },
                Err(e) => {
                    &&& final(self).capacity == old(self).capacity
                    &&& r == ListStep::<T>::Failed(e)
                },
                Ok(Some(n)) => {
                    &&& final(self).capacity == old(self).capacity
                    &&& r matches ListStep::Done(v) && holds_records(v@, buffer@, n)
                },
            },
    {
        let size = T::size();
        if self.capacity == 0 {
            if res < 0 {
                return ListStep::Failed(QueryError::OsError(errno));
            }
            self.capacity = if res > 0 {
                res as usize
            } else {
                DEFAULT_LIST_RECORDS * size
            };
            return ListStep::Call(self.capacity);
        }
        let cap = self.capacity;
        if res >= 0 && res as usize == cap {
            self.capacity = if cap <= MAX_BUFFER / 2 {
                2 * cap
            } else {
                MAX_BUFFER
            };
            return ListStep::Call(self.capacity);
        }
        if res < 0 {
            return ListStep::Failed(QueryError::OsError(errno));
        }
        let len = res as usize;
        if len > cap || len % size != 0 {
            return ListStep::Failed(QueryError::MalformedResponse);
        }
        let count = len / size;
        proof {
            vstd::arithmetic::div_mod::lemma_fundamental_div_mod(len as int, size as int);
            assert(len as int % size as int == 0);
            assert(size * count == len);
            vstd::arithmetic::mul::lemma_mul_is_commutative(size as int, count as int);
        }
        let mut records: Vec<T> = Vec::new();
        let mut i: usize = 0;
        while i < count
            invariant
                i <= count,
                count * size == len,
                len <= buffer@.len(),
                size == T::byte_size(),
                size > 0,
                records@.len() == i,
                forall|k: int|
                    0 <= k < i ==> #[trigger] records@[k].encoded_by(
                        buffer@.subrange(k * size, (k + 1) * size),
                    ),
            decreases count - i,
        {
            proof {
                vstd::arithmetic::mul::lemma_mul_inequality(i as int + 1, count as int, size as int);
                vstd::arithmetic::mul::lemma_mul_is_distributive_add_other_way(
                    size as int,
                    i as int,
                    1,
                );
            }
            let start = i * size;
            let chunk = vstd::slice::slice_subrange(buffer, start, start + size);
            records.push(T::from_bytes(chunk));
            i = i + 1;
        }
        ListStep::Done(records)
    }
}

/// A list query for the `T` records of a process.
pub fn proc_pidinfo_list<T: HasFlavorList>(pid: Pid) -> (q: ListQuery<T>)
    ensures
        q.target == Target::Process(pid),
        q.flavor == pid_flavor_code(T::spec_flavor()),
        q.capacity == 0,
{
    ListQuery {
        target: Target::Process(pid),
        flavor: T::flavor().code(),
        capacity: 0,
        record: PhantomData,
    }
}

/// A list query for the `T` records of the calling process.
pub fn proc_pidinfo_list_self<T: HasFlavorList>() -> (q: ListQuery<T>)
    ensures
        q.target == Target::CallingProcess,
        q.flavor == pid_flavor_code(T::spec_flavor()),
        q.capacity == 0,
{
    ListQuery {
        target: Target::CallingProcess,
        flavor: T::flavor().code(),
        capacity: 0,
        record: PhantomData,
    }
}

} // verus!

verus! {

/// A list query ends with records only on a reply that is a whole number of
/// records within the buffer; a reply that neither fills the buffer nor is a
/// whole number of records is a malformed response.
pub proof fn lemma_list_records_are_whole(cap: int, res: int, size: int, errno: i32)
    requires
        0 < cap,
        0 < size,
    ensures
        list_outcome(cap, res, size, errno) matches Ok(Some(n)) ==> {
            &&& res % size == 0
            &&& n * size == res
            &&& 0 <= res < cap
        },
        0 <= res < cap && res % size != 0 ==> list_outcome(cap, res, size, errno) == Err::<
            Option<int>,
            QueryError,
        >(QueryError::MalformedResponse),
{
    if 0 <= res {
        vstd::arithmetic::div_mod::lemma_fundamental_div_mod(res, size);
        vstd::arithmetic::mul::lemma_mul_is_commutative(size, res / size);
    }
}

/// A list query's records are fixed by the kernel's reply: two runs that
/// get the same bytes back end with the same records.
pub proof fn lemma_same_reply_same_records<T: Record>(v: Seq<T>, w: Seq<T>, b: Seq<u8>, n: int)
    requires
        holds_records(v, b, n),
        holds_records(w, b, n),
    ensures
        v == w,
{
    assert forall|k: int| 0 <= k < n implies v[k] == w[k] by {
        T::lemma_encoding_unique(
            v[k],
            w[k],
            b.subrange(k * T::byte_size(), (k + 1) * T::byte_size()),
        );
    }
    assert(v =~= w);
}

/// A reply that fills the whole buffer never ends a list query: the buffer
/// grows, up to the largest size that the entry points take, and the call
/// is made again.
pub proof fn lemma_full_reply_grows(cap: int, size: int, errno: i32)
    requires
        0 < cap <= MAX_BUFFER,
    ensures
        list_outcome(cap, cap, size, errno) == Ok::<Option<int>, QueryError>(None),
        cap < MAX_BUFFER ==> cap < grown_capacity(cap),
        grown_capacity(cap) <= MAX_BUFFER,
{
}

} // verus!
