use lib::request::{Job, ObjectInfo, Request, Response};
use lib::seek::SeekFrom;

fn fields(r: &Request) -> (u8, [u8; 3], [u32; 1], [u64; 2], u64) {
    (r.ty, r.arguments_8, r.arguments_32, r.arguments_64, r.user_data)
}

#[test]
fn buffer_requests() {
    assert_eq!(fields(&Request::read(7, 3, 0x1000, 64)), (Request::READ, [0, 0, 0], [3], [0x1000, 64], 7));
    assert_eq!(fields(&Request::read_uninit(8, 4, 0x2000, 5)), (0, [0, 0, 0], [4], [0x2000, 5], 8));
    assert_eq!(fields(&Request::write(1, 2, 0x30, 9)), (Request::WRITE, [0, 0, 0], [2], [0x30, 9], 1));
    assert_eq!(fields(&Request::peek(1, 2, 0x30, 9)), (Request::PEEK, [0, 0, 0], [2], [0x30, 9], 1));
    assert_eq!(fields(&Request::peek_uninit(1, 2, 0x30, 9)), (11, [0, 0, 0], [2], [0x30, 9], 1));
}

#[test]
fn path_requests() {
    assert_eq!(fields(&Request::open(5, 6, 0x40, 3)), (Request::OPEN, [0, 0, 0], [6], [0x40, 3], 5));
    assert_eq!(fields(&Request::create(5, 6, 0x40, 3)), (Request::CREATE, [0, 0, 0], [6], [0x40, 3], 5));
    assert_eq!(fields(&Request::query(5, 6, 0x40, 3)), (Request::QUERY, [0, 0, 0], [6], [0x40, 3], 5));
}

#[test]
fn pointer_requests() {
    assert_eq!(fields(&Request::query_next(1, 2, 0x50)), (Request::QUERY_NEXT, [0, 0, 0], [2], [0x50, 0], 1));
    assert_eq!(fields(&Request::take_job(1, 2, 0x60)), (Request::TAKE_JOB, [0, 0, 0], [2], [0x60, 0], 1));
    assert_eq!(fields(&Request::finish_job(1, 2, 0x60)), (Request::FINISH_JOB, [0, 0, 0], [2], [0x60, 0], 1));
}

#[test]
fn handle_requests() {
    assert_eq!(fields(&Request::poll(3, 4)), (Request::POLL, [0, 0, 0], [4], [0, 0], 3));
    assert_eq!(fields(&Request::close(3, 4)), (Request::CLOSE, [0, 0, 0], [4], [0, 0], 3));
    assert_eq!(fields(&Request::share(3, 4, 99)), (Request::SHARE, [0, 0, 0], [4], [99, 0], 3));
}

#[test]
fn seek_requests() {
    assert_eq!(fields(&Request::seek(1, 2, SeekFrom::Start(10))), (Request::SEEK, [0, 0, 0], [2], [10, 0], 1));
    assert_eq!(fields(&Request::seek(1, 2, SeekFrom::End(-1))), (8, [1, 0, 0], [2], [u64::MAX, 0], 1));
    assert_eq!(fields(&Request::seek(1, 2, SeekFrom::Current(-2))), (8, [2, 0, 0], [2], [u64::MAX - 1, 0], 1));
}

#[test]
fn defaults() {
    assert_eq!(fields(&Request::default()), (u8::MAX, [0, 0, 0], [0], [0, 0], 0));
    let r = Response::default();
    assert_eq!((r.value, r.user_data), (0, 0));
    let j = Job::default();
    assert_eq!((j.ty, j.result, j.job_id, j.buffer, j.from_offset), (0, 0, 0, None, 0));
    let o = ObjectInfo::default();
    assert_eq!((o.path_ptr, o.path_len, o.path_capacity), (0, 0, 0));
}

#[test]
fn object_info_new() {
    let o = ObjectInfo::new(0xdead0, 256);
    assert_eq!((o.path_ptr, o.path_len, o.path_capacity), (0xdead0, 0, 256));
}

#[test]
fn request_codes() {
    let codes = [
        Request::READ, Request::WRITE, Request::OPEN, Request::CREATE, Request::QUERY,
        Request::QUERY_NEXT, Request::TAKE_JOB, Request::FINISH_JOB, Request::SEEK,
        Request::POLL, Request::CLOSE, Request::PEEK, Request::SHARE,
    ];
    for (i, c) in codes.iter().enumerate() {
        assert_eq!(usize::from(*c), i);
    }
    assert_eq!((Job::OPEN, Job::READ, Job::WRITE, Job::QUERY, Job::CREATE), (0, 1, 2, 3, 4));
    assert_eq!((Job::QUERY_NEXT, Job::SEEK, Job::CLOSE, Job::PEEK), (5, 6, 7, 8));
}
