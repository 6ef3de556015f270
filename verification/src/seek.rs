use vstd::prelude::*;

verus! {

/// Where a seek is measured from, and by how much.
#[derive(Clone, Copy, Debug, PartialEq, Eq, Structural)]
pub enum SeekFrom {
    Start(u64),
    End(i64),
    Current(i64),
}

/// The raw tag used for each variant in a request.
pub open spec fn seek_tag(s: SeekFrom) -> u8 {
    match s {
        SeekFrom::Start(_) => 0,
        SeekFrom::End(_) => 1,
        SeekFrom::Current(_) => 2,
    }
}

/// The raw 64-bit offset of a seek: signed offsets are kept in two's complement.
pub open spec fn seek_offset(s: SeekFrom) -> u64 {
    match s {
        SeekFrom::Start(n) => n,
        SeekFrom::End(n) => n as u64,
        SeekFrom::Current(n) => n as u64,
    }
}

impl SeekFrom {
    /// Encode as a (tag, offset) pair.
    pub fn into_raw(self) -> (r: (u8, u64))
        ensures
            r == (seek_tag(self), seek_offset(self)),
    {
        match self {
            SeekFrom::Start(n) => (0, n),
            SeekFrom::End(n) => (1, n as u64),
            SeekFrom::Current(n) => (2, n as u64),
        }
    }

    /// Decode a (tag, offset) pair; tags other than 0, 1 and 2 are rejected.
    pub fn try_from_raw(t: u8, n: u64) -> (r: Result<SeekFrom, ()>)
        ensures
            r == decode_seek(t, n),
    {
        match t {
            0 => Ok(SeekFrom::Start(n)),
            1 => Ok(SeekFrom::End(n as i64)),
            2 => Ok(SeekFrom::Current(n as i64)),
            _ => Err(()),
        }
    }
}

/// The seek that a raw (tag, offset) pair stands for.
pub open spec fn decode_seek(t: u8, n: u64) -> Result<SeekFrom, ()> {
    if t == 0 {
        Ok(SeekFrom::Start(n))
    } else if t == 1 {
        Ok(SeekFrom::End(n as i64))
    } else if t == 2 {
        Ok(SeekFrom::Current(n as i64))
    } else {
        Err(())
    }
}

/// Decoding an encoded seek gives the same seek back.
pub proof fn law_seek_round_trip(s: SeekFrom)
    ensures
        decode_seek(seek_tag(s), seek_offset(s)) == Ok::<SeekFrom, ()>(s),
{
    match s {
        SeekFrom::Start(n) => {},
        SeekFrom::End(n) => {
            assert((n as u64) as i64 == n) by (bit_vector);
        },
        SeekFrom::Current(n) => {
            assert((n as u64) as i64 == n) by (bit_vector);
        },
    }
}

/// A raw pair that decodes encodes back to itself, and only tags 0, 1 and 2 decode.
pub proof fn law_seek_raw_round_trip(t: u8, n: u64)
    ensures
        decode_seek(t, n) is Ok <==> t <= 2,
        decode_seek(t, n) matches Ok(s) ==> seek_tag(s) == t && seek_offset(s) == n,
{
    assert((n as i64) as u64 == n) by (bit_vector);
}

} // verus!
