use lib::seek::SeekFrom;

#[test]
fn into_raw_encodes() {
    assert_eq!(SeekFrom::Start(42).into_raw(), (0, 42));
    assert_eq!(SeekFrom::End(-1).into_raw(), (1, u64::MAX));
    assert_eq!(SeekFrom::Current(i64::MIN).into_raw(), (2, 1 << 63));
}

#[test]
fn try_from_raw_decodes() {
    assert_eq!(SeekFrom::try_from_raw(0, 7), Ok(SeekFrom::Start(7)));
    assert_eq!(SeekFrom::try_from_raw(1, u64::MAX), Ok(SeekFrom::End(-1)));
    assert_eq!(SeekFrom::try_from_raw(2, 5), Ok(SeekFrom::Current(5)));
    assert_eq!(SeekFrom::try_from_raw(3, 5), Err(()));
    assert_eq!(SeekFrom::try_from_raw(255, 0), Err(()));
}

#[test]
fn seek_round_trips() {
    for s in [
        SeekFrom::Start(0),
        SeekFrom::Start(u64::MAX),
        SeekFrom::End(i64::MIN),
        SeekFrom::End(-3),
        SeekFrom::Current(i64::MAX),
        SeekFrom::Current(0),
    ] {
        let (t, n) = s.into_raw();
        assert_eq!(SeekFrom::try_from_raw(t, n), Ok(s));
    }
    for (t, n) in [(0u8, 9u64), (1, u64::MAX), (2, 1 << 63)] {
        assert_eq!(SeekFrom::try_from_raw(t, n).unwrap().into_raw(), (t, n));
    }
}
