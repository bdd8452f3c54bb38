//! The byte source that the decoders read from: an image held in memory,
//! read with `read_exact` and positioned with `seek`.
use vstd::prelude::*;

verus! {

/// What went wrong while reading the image.
#[derive(Clone, Copy, Debug, PartialEq, Eq, Structural)]
pub enum IoError {
    /// The image ended before the bytes asked for.
    UnexpectedEof,
    /// A seek to a position before the start, or past `u64::MAX`.
    InvalidSeek,
}

/// Where a seek goes: from the start, from the end, or from the current
/// position.
#[derive(Clone, Copy, Debug, PartialEq, Eq, Structural)]
pub enum SeekFrom {
    Start(u64),
    End(i64),
    Current(i64),
}

/// An image in memory and a position in it. The position may lie past the
/// end; reading there fails.
pub struct ByteCursor {
    data: Vec<u8>,
    pos: u64,
}

/// The position that a seek leads to from `pos` in an image of `len` bytes,
/// if it lies in `0..=u64::MAX`.
pub open spec fn seek_target(pos: int, len: int, to: SeekFrom) -> Option<int> {
    let t = match to {
        SeekFrom::Start(n) => n as int,
        SeekFrom::End(d) => len + d,
        SeekFrom::Current(d) => pos + d,
    };
    if 0 <= t <= u64::MAX {
        Some(t)
    } else {
        None
    }
}

impl ByteCursor {
    /// The bytes of the image.
    pub closed spec fn spec_data(&self) -> Seq<u8> {
        self.data@
    }

    /// The current position.
    pub closed spec fn spec_pos(&self) -> int {
        self.pos as int
    }

    /// A cursor at the start of `data`.
    pub fn new(data: Vec<u8>) -> (r: Self)
        ensures
            r.spec_data() == data@,
            r.spec_pos() == 0,
    {
        ByteCursor { data, pos: 0 }
    }

    /// The current position.
    pub fn position(&self) -> (r: u64)
        ensures
            r == self.spec_pos(),
    {
        self.pos
    }

    /// The length of the image.
    pub fn len(&self) -> (r: usize)
        ensures
            r == self.spec_data().len(),
    {
        self.data.len()
    }

    /// Moves the position; returns the new one. A target before the start or
    /// past `u64::MAX` is refused and the position is kept.
    pub fn seek(&mut self, to: SeekFrom) -> (r: Result<u64, IoError>)
        ensures
            final(self).spec_data() == old(self).spec_data(),
            match seek_target(old(self).spec_pos(), old(self).spec_data().len() as int, to) {
                Some(t) => r == Ok::<u64, IoError>(t as u64) && final(self).spec_pos() == t,
                None => r == Err::<u64, IoError>(IoError::InvalidSeek) && final(self).spec_pos()
                    == old(self).spec_pos(),
            },
    {
        let base: i128 = match to {
            SeekFrom::Start(n) => n as i128,
            SeekFrom::End(d) => self.data.len() as i128 + d as i128,
            SeekFrom::Current(d) => self.pos as i128 + d as i128,
        };
        if 0 <= base && base <= u64::MAX as i128 {
            self.pos = base as u64;
            Ok(self.pos)
        } else {
            Err(IoError::InvalidSeek)
        }
    }

    /// Reads exactly `n` bytes at the current position and moves past them.
    /// Fails, and keeps the position, when fewer than `n` bytes are left.
    pub fn read_exact(&mut self, n: usize) -> (r: Result<Vec<u8>, IoError>)
        ensures
            0 <= old(self).spec_pos(),
            final(self).spec_data() == old(self).spec_data(),
            (r is Ok) <==> old(self).spec_pos() + n <= old(self).spec_data().len(),
            r matches Ok(v) ==> v@ == old(self).spec_data().subrange(
                old(self).spec_pos(),
                old(self).spec_pos() + n,
            ) && final(self).spec_pos() == old(self).spec_pos() + n,
            r matches Err(e) ==> e == IoError::UnexpectedEof && final(self).spec_pos() == old(
                self,
            ).spec_pos(),
    {
        let len = self.data.len();
        if self.pos > len as u64 || n > len - self.pos as usize {
            return Err(IoError::UnexpectedEof);
        }
        let start = self.pos as usize;
        let v = crate::bytes::copy_bytes(self.data.as_slice(), start, n);
        self.pos = (start + n) as u64;
        Ok(v)
    }
}

} // verus!
