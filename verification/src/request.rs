use vstd::prelude::*;
use crate::seek::{SeekFrom, seek_tag, seek_offset};

verus! {

/// A kernel object handle.
pub type Handle = u32;

/// The identifier of a job taken from a table.
pub type JobId = u32;

/// The ring has no room for another entry.
#[derive(Debug, PartialEq, Eq, Structural)]
pub struct Full;

/// The ring holds no entry.
#[derive(Debug, PartialEq, Eq, Structural)]
pub struct Empty;

/// A single request to submit to the kernel.
///
/// Buffers are passed to the kernel by address and length, both as 64-bit
/// integers in `arguments_64`.
#[derive(Clone, Copy, Debug)]
pub struct Request {
    /// The type of request.
    pub ty: u8,
    /// Storage for 8-bit arguments.
    pub arguments_8: [u8; 3],
    /// Storage for 32-bit arguments.
    pub arguments_32: [u32; 1],
    /// Storage for 64-bit arguments. This storage is also used for pointers.
    pub arguments_64: [u64; 2],
    /// User data which will be returned with the response.
    pub user_data: u64,
}

/// `r` is the request of type `ty` with the given arguments and user data.
pub open spec fn encodes(
    r: Request,
    ty: u8,
    arg8: u8,
    arg32: u32,
    arg64_0: u64,
    arg64_1: u64,
    user_data: u64,
) -> bool {
    &&& r.ty == ty
    &&& r.arguments_8@ == seq![arg8, 0u8, 0u8]
    &&& r.arguments_32@ == seq![arg32]
    &&& r.arguments_64@ == seq![arg64_0, arg64_1]
    &&& r.user_data == user_data
}

/// A request encoded with its arguments holds each of them in its place: the
/// type, then the 8-bit argument first among three, the only 32-bit
/// argument, the two 64-bit arguments in order, and the user data; the other
/// two 8-bit arguments are zero.
pub proof fn law_encodes(r: Request, ty: u8, arg8: u8, arg32: u32, arg64_0: u64, arg64_1: u64, user_data: u64)
    requires
        encodes(r, ty, arg8, arg32, arg64_0, arg64_1, user_data),
    ensures
        r.ty == ty,
        r.arguments_8[0] == arg8 && r.arguments_8[1] == 0 && r.arguments_8[2] == 0,
        r.arguments_32[0] == arg32,
        r.arguments_64[0] == arg64_0 && r.arguments_64[1] == arg64_1,
        r.user_data == user_data,
{
    assert(r.arguments_8@[0] == arg8);
    assert(r.arguments_8@[1] == 0);
    assert(r.arguments_8@[2] == 0);
    assert(r.arguments_32@[0] == arg32);
    assert(r.arguments_64@[0] == arg64_0);
    assert(r.arguments_64@[1] == arg64_1);
}

impl Request {
    pub const READ: u8 = 0;
    pub const WRITE: u8 = 1;
    pub const OPEN: u8 = 2;
    pub const CREATE: u8 = 3;
    pub const QUERY: u8 = 4;
    pub const QUERY_NEXT: u8 = 5;
    pub const TAKE_JOB: u8 = 6;
    pub const FINISH_JOB: u8 = 7;
    pub const SEEK: u8 = 8;
    pub const POLL: u8 = 9;
    pub const CLOSE: u8 = 10;
    pub const PEEK: u8 = 11;
    pub const SHARE: u8 = 12;

    fn with(ty: u8, arg8: u8, arg32: u32, arg64_0: u64, arg64_1: u64, user_data: u64) -> (r: Self)
        ensures
            encodes(r, ty, arg8, arg32, arg64_0, arg64_1, user_data),
    {
        let r = Request {
            ty,
            arguments_8: [arg8, 0, 0],
            arguments_32: [arg32],
            arguments_64: [arg64_0, arg64_1],
            user_data,
        };
        assert(r.arguments_8@ =~= seq![arg8, 0u8, 0u8]);
        assert(r.arguments_32@ =~= seq![arg32]);
        assert(r.arguments_64@ =~= seq![arg64_0, arg64_1]);
        r
    }

    /// Read into the buffer at `buf_ptr` of `buf_len` bytes.
    pub fn read(user_data: u64, handle: Handle, buf_ptr: u64, buf_len: usize) -> (r: Self)
        ensures
            encodes(r, Self::READ, 0, handle, buf_ptr, buf_len as u64, user_data),
    {
        Self::with(Self::READ, 0, handle, buf_ptr, buf_len as u64, user_data)
    }

    /// Read into the possibly uninitialized buffer at `buf_ptr` of `buf_len` bytes.
    pub fn read_uninit(user_data: u64, handle: Handle, buf_ptr: u64, buf_len: usize) -> (r: Self)
        ensures
            encodes(r, Self::READ, 0, handle, buf_ptr, buf_len as u64, user_data),
    {
        Self::with(Self::READ, 0, handle, buf_ptr, buf_len as u64, user_data)
    }

    /// Write the buffer at `buf_ptr` of `buf_len` bytes.
    pub fn write(user_data: u64, handle: Handle, buf_ptr: u64, buf_len: usize) -> (r: Self)
        ensures
            encodes(r, Self::WRITE, 0, handle, buf_ptr, buf_len as u64, user_data),
    {
        Self::with(Self::WRITE, 0, handle, buf_ptr, buf_len as u64, user_data)
    }

    /// Open the object at the path at `path_ptr` of `path_len` bytes.
    pub fn open(user_data: u64, handle: Handle, path_ptr: u64, path_len: usize) -> (r: Self)
        ensures
            encodes(r, Self::OPEN, 0, handle, path_ptr, path_len as u64, user_data),
    {
        Self::with(Self::OPEN, 0, handle, path_ptr, path_len as u64, user_data)
    }

    /// Create the object at the path at `path_ptr` of `path_len` bytes.
    pub fn create(user_data: u64, handle: Handle, path_ptr: u64, path_len: usize) -> (r: Self)
        ensures
            encodes(r, Self::CREATE, 0, handle, path_ptr, path_len as u64, user_data),
    {
        Self::with(Self::CREATE, 0, handle, path_ptr, path_len as u64, user_data)
    }

    /// Query the objects under the path at `path_ptr` of `path_len` bytes.
    pub fn query(user_data: u64, handle: Handle, path_ptr: u64, path_len: usize) -> (r: Self)
        ensures
            encodes(r, Self::QUERY, 0, handle, path_ptr, path_len as u64, user_data),
    {
        Self::with(Self::QUERY, 0, handle, path_ptr, path_len as u64, user_data)
    }

    /// Get the next object of a query into the `ObjectInfo` at `info_ptr`.
    pub fn query_next(user_data: u64, handle: Handle, info_ptr: u64) -> (r: Self)
        ensures
            encodes(r, Self::QUERY_NEXT, 0, handle, info_ptr, 0, user_data),
    {
        Self::with(Self::QUERY_NEXT, 0, handle, info_ptr, 0, user_data)
    }

    /// Take a job from `table` into the `Job` at `job_ptr`.
    pub fn take_job(user_data: u64, table: Handle, job_ptr: u64) -> (r: Self)
        ensures
            encodes(r, Self::TAKE_JOB, 0, table, job_ptr, 0, user_data),
    {
        Self::with(Self::TAKE_JOB, 0, table, job_ptr, 0, user_data)
    }

    /// Finish the `Job` at `job_ptr` of `table`.
    pub fn finish_job(user_data: u64, table: Handle, job_ptr: u64) -> (r: Self)
        ensures
            encodes(r, Self::FINISH_JOB, 0, table, job_ptr, 0, user_data),
    {
        Self::with(Self::FINISH_JOB, 0, table, job_ptr, 0, user_data)
    }

    /// Seek in the object: the seek's tag goes in the first 8-bit argument, its
    /// offset in the first 64-bit argument.
    pub fn seek(user_data: u64, handle: Handle, from: SeekFrom) -> (r: Self)
        ensures
            encodes(r, Self::SEEK, seek_tag(from), handle, seek_offset(from), 0, user_data),
    {
        let (t, n) = from.into_raw();
        Self::with(Self::SEEK, t, handle, n, 0, user_data)
    }

    /// Poll the object.
    pub fn poll(user_data: u64, handle: Handle) -> (r: Self)
        ensures
            encodes(r, Self::POLL, 0, handle, 0, 0, user_data),
    {
        Self::with(Self::POLL, 0, handle, 0, 0, user_data)
    }

    /// Close the handle.
    pub fn close(user_data: u64, handle: Handle) -> (r: Self)
        ensures
            encodes(r, Self::CLOSE, 0, handle, 0, 0, user_data),
    {
        Self::with(Self::CLOSE, 0, handle, 0, 0, user_data)
    }

    /// Peek into the buffer at `buf_ptr` of `buf_len` bytes.
    pub fn peek(user_data: u64, handle: Handle, buf_ptr: u64, buf_len: usize) -> (r: Self)
        ensures
            encodes(r, Self::PEEK, 0, handle, buf_ptr, buf_len as u64, user_data),
    {
        Self::with(Self::PEEK, 0, handle, buf_ptr, buf_len as u64, user_data)
    }

    /// Peek into the possibly uninitialized buffer at `buf_ptr` of `buf_len` bytes.
    pub fn peek_uninit(user_data: u64, handle: Handle, buf_ptr: u64, buf_len: usize) -> (r: Self)
        ensures
            encodes(r, Self::PEEK, 0, handle, buf_ptr, buf_len as u64, user_data),
    {
        Self::with(Self::PEEK, 0, handle, buf_ptr, buf_len as u64, user_data)
    }

    /// Share the object `share` with the object `handle`.
    pub fn share(user_data: u64, handle: Handle, share: Handle) -> (r: Self)
        ensures
            encodes(r, Self::SHARE, 0, handle, share as u64, 0, user_data),
    {
        Self::with(Self::SHARE, 0, handle, share as u64, 0, user_data)
    }
}

impl Default for Request {
    /// An invalid request (type `u8::MAX`) with all arguments zero.
    fn default() -> (r: Self)
        ensures
            encodes(r, u8::MAX, 0, 0, 0, 0, 0),
    {
        Self::with(u8::MAX, 0, 0, 0, 0, 0)
    }
}

/// A single response from the kernel.
#[derive(Clone, Copy, Debug)]
pub struct Response {
    pub value: i64,
    /// User data that was associated with the request.
    pub user_data: u64,
}

impl Default for Response {
    fn default() -> (r: Self)
        ensures
            r.value == 0,
            r.user_data == 0,
    {
        Response { value: 0, user_data: 0 }
    }
}

/// A job taken from a table, filled in by the kernel.
#[derive(Clone, Copy, Debug)]
pub struct Job {
    pub ty: u8,
    pub from_anchor: u8,
    pub result: i16,
    pub job_id: JobId,
    pub buffer_size: u32,
    pub operation_size: u32,
    pub handle: Handle,
    /// The address of the job's buffer, if it has one.
    pub buffer: Option<u64>,
    pub from_offset: u64,
}

impl Job {
    pub const OPEN: u8 = 0;
    pub const READ: u8 = 1;
    pub const WRITE: u8 = 2;
    pub const QUERY: u8 = 3;
    pub const CREATE: u8 = 4;
    pub const QUERY_NEXT: u8 = 5;
    pub const SEEK: u8 = 6;
    pub const CLOSE: u8 = 7;
    pub const PEEK: u8 = 8;
}

impl Default for Job {
    fn default() -> (r: Self)
        ensures
            r.ty == 0 && r.from_anchor == 0 && r.result == 0 && r.job_id == 0,
            r.buffer_size == 0 && r.operation_size == 0 && r.handle == 0,
            r.buffer is None && r.from_offset == 0,
    {
        Job {
            ty: 0,
            from_anchor: 0,
            result: 0,
            job_id: 0,
            buffer_size: 0,
            operation_size: 0,
            handle: 0,
            buffer: None,
            from_offset: 0,
        }
    }
}

/// Information about an object returned by a query, with a buffer for its path.
#[derive(Clone, Copy, Debug)]
pub struct ObjectInfo {
    /// The address of the path buffer; 0 when there is none.
    pub path_ptr: u64,
    pub path_len: usize,
    pub path_capacity: usize,
}

impl ObjectInfo {
    /// Info with an empty path in the buffer at `path_ptr` of `path_capacity` bytes.
    pub fn new(path_ptr: u64, path_capacity: usize) -> (r: Self)
        ensures
            r.path_ptr == path_ptr,
            r.path_len == 0,
            r.path_capacity == path_capacity,
    {
        ObjectInfo { path_ptr, path_capacity, ..Default::default() }
    }
}

impl Default for ObjectInfo {
    fn default() -> (r: Self)
        ensures
            r.path_ptr == 0,
            r.path_len == 0,
            r.path_capacity == 0,
    {
        ObjectInfo { path_ptr: 0, path_len: 0, path_capacity: 0 }
    }
}

/// A page of memory: 4096 bytes.
pub struct Page(pub [u128; 256]);

} // verus!
