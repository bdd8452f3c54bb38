//! The filesystem: an image, the offset of the filesystem in it, and the
//! superblock; and the walk over the group descriptor table.
use crate::cursor::{seek_target, ByteCursor, IoError, SeekFrom};
use crate::group_desc::GroupDesc;
use crate::superblock::{self, FeatureIncompat, Superblock};
use vstd::arithmetic::power2::pow2;
use vstd::prelude::*;

verus! {

/// Why a filesystem could not be opened.
#[derive(Clone, Copy, Debug, PartialEq, Eq, Structural)]
pub enum Error {
    IO(IoError),
    Superblock(superblock::Error),
}

/// Number of group descriptors: `ceil(inodes_count / inodes_per_group)`;
/// none when there are no inodes per group or the block size is too large
/// to locate the table.
pub open spec fn group_count(sb: Superblock) -> int {
    if sb.inodes_per_group == 0 || sb.log_block_size > 21 {
        0
    } else {
        (sb.inodes_count + sb.inodes_per_group - 1) / (sb.inodes_per_group as int)
    }
}

/// Where the table starts in the filesystem: the block after the one that
/// holds the superblock, `((1024 / block_size) + 1) * block_size`.
pub open spec fn first_desc_offset(sb: Superblock) -> int {
    let bs = pow2((10 + sb.log_block_size) as nat) as int;
    (1024int / bs + 1) * bs
}

/// Width of one descriptor: 64 bytes with the 64bit feature, else 32.
pub open spec fn desc_stride(sb: Superblock) -> int {
    if sb.feature_incompat@ & FeatureIncompat::BIT64 == FeatureIncompat::BIT64 {
        64
    } else {
        32
    }
}

/// A filesystem image with the superblock decoded.
pub struct FileSystem {
    inner: ByteCursor,
    offset: u64,
    /// The decoded superblock.
    pub sb: Superblock,
}

impl FileSystem {
    /// Where the superblock lies, past the filesystem's start.
    pub const START_OFFSET: u64 = 1024;

    /// The bytes of the image.
    pub closed spec fn spec_data(&self) -> Seq<u8> {
        self.inner.spec_data()
    }

    /// The decoded superblock.
    pub closed spec fn spec_sb(&self) -> Superblock {
        self.sb
    }

    /// The position in the image.
    pub closed spec fn spec_pos(&self) -> int {
        self.inner.spec_pos()
    }

    /// Where the filesystem starts in the image.
    pub closed spec fn spec_offset(&self) -> int {
        self.offset as int
    }

    /// Seeks to `1024 + offset` and decodes the superblock there.
    pub fn new(inner: ByteCursor, offset: u64) -> (r: Result<Self, Error>)
        ensures
            ({
                let data = inner.spec_data();
                let start = Self::START_OFFSET + offset;
                if start > u64::MAX {
                    r == Err::<Self, Error>(Error::IO(IoError::InvalidSeek))
                } else if start + Superblock::RAW_WIDTH > data.len() {
                    r == Err::<Self, Error>(
                        Error::Superblock(superblock::Error::IO(IoError::UnexpectedEof)),
                    )
                } else {
                    let block = data.subrange(start, start + Superblock::RAW_WIDTH);
                    match superblock::first_invalid_text(block) {
                        Some(o) => r == Err::<Self, Error>(
                            Error::Superblock(superblock::Error::String(superblock::Utf8Error { offset: o })),
                        ),
                        None => r matches Ok(fs) && fs.spec_sb().decodes_from(block) && fs.spec_data()
                            == data && fs.spec_offset() == offset,
                    }
                }
            }),
    {
        let mut inner = inner;
        if offset > u64::MAX - Self::START_OFFSET {
            return Err(Error::IO(IoError::InvalidSeek));
        }
        match inner.seek(SeekFrom::Start(Self::START_OFFSET + offset)) {
            Ok(_) => {},
            Err(e) => {
                return Err(Error::IO(e));
            },
        }
        match Superblock::new(&mut inner) {
            Ok(sb) => Ok(FileSystem { inner, offset, sb }),
            Err(e) => Err(Error::Superblock(e)),
        }
    }

    /// Seeks in the image; a position from the start counts from the
    /// filesystem's start.
    pub fn seek(&mut self, pos: SeekFrom) -> (r: Result<u64, IoError>)
        ensures
            final(self).spec_data() == old(self).spec_data(),
            final(self).spec_offset() == old(self).spec_offset(),
            final(self).spec_sb() == old(self).spec_sb(),
            ({
                let to = match pos {
                    SeekFrom::Start(i) => SeekFrom::Start((i + old(self).spec_offset()) as u64),
                    _ => pos,
                };
                let fits = match pos {
                    SeekFrom::Start(i) => i + old(self).spec_offset() <= u64::MAX,
                    _ => true,
                };
                if !fits {
                    r == Err::<u64, IoError>(IoError::InvalidSeek)
                } else {
                    match seek_target(
                        old(self).spec_pos(),
                        old(self).spec_data().len() as int,
                        to,
                    ) {
                        Some(t) => r == Ok::<u64, IoError>(t as u64) && final(self).spec_pos()
                            == t,
                        None => r == Err::<u64, IoError>(IoError::InvalidSeek),
                    }
                }
            }),
    {
        let to = match pos {
            SeekFrom::Start(i) => {
                if i > u64::MAX - self.offset {
                    return Err(IoError::InvalidSeek);
                }
                SeekFrom::Start(i + self.offset)
            },
            _ => pos,
        };
        self.inner.seek(to)
    }

    /// A walk over the group descriptor table.
    pub fn iter_group_descriptors(&self) -> (r: GroupDescIter)
        ensures
            r.walks(self.spec_sb()),
            r.spec_index() == 0,
    {
        GroupDescIter::new(self)
    }

    /// Where, in the image, descriptor `i` of the table lies.
    pub open spec fn desc_pos(&self, i: int) -> int {
        self.spec_offset() + first_desc_offset(self.spec_sb()) + i * desc_stride(self.spec_sb())
    }

    /// Whether `g` is what the bytes of descriptor `i` decode to.
    pub open spec fn desc_at(&self, i: int, g: GroupDesc) -> bool {
        g.decodes_from(
            self.spec_data().subrange(self.desc_pos(i), self.desc_pos(i) + desc_stride(self.spec_sb())),
            desc_stride(self.spec_sb()) == 64,
        )
    }

    /// Reads the descriptors in table order, stopping at the first that
    /// cannot be read. When the image holds the whole table, there are
    /// exactly `group_count` of them.
    pub fn group_descriptors(&mut self) -> (r: Vec<GroupDesc>)
        ensures
            final(self).spec_data() == old(self).spec_data(),
            final(self).spec_offset() == old(self).spec_offset(),
            final(self).spec_sb() == old(self).spec_sb(),
            r@.len() <= group_count(old(self).spec_sb()),
            forall|i: int| 0 <= i < r@.len() ==> old(self).desc_at(i, #[trigger] r@[i]),
            old(self).desc_pos(group_count(old(self).spec_sb())) <= old(self).spec_data().len() ==> r@.len()
                == group_count(old(self).spec_sb()),
    {
        let mut it = self.iter_group_descriptors();
        let mut out: Vec<GroupDesc> = Vec::new();
        while it.index() < it.count()
            invariant
                self.spec_data() == old(self).spec_data(),
                self.spec_offset() == old(self).spec_offset(),
                self.spec_sb() == old(self).spec_sb(),
                it.walks(self.spec_sb()),
                out@.len() == it.spec_index(),
                it.spec_index() <= group_count(self.spec_sb()),
                forall|i: int| 0 <= i < out@.len() ==> old(self).desc_at(i, #[trigger] out@[i]),
            decreases group_count(self.spec_sb()) - it.spec_index(),
        {
            let ghost k = it.spec_index();
            match it.next(self) {
                Some(g) => {
                    out.push(g);
                },
                None => {
                    proof {
                        lemma_pos_monotone(old(self).spec_sb(), k, group_count(old(self).spec_sb()));
                    }
                    return out;
                },
            }
        }
        out
    }
}

/// Descriptors lie in table order: a later one ends no earlier.
proof fn lemma_pos_monotone(sb: Superblock, i: int, n: int)
    requires
        0 <= i < n,
        desc_stride(sb) > 0,
    ensures
        first_desc_offset(sb) + i * desc_stride(sb) + desc_stride(sb) <= first_desc_offset(sb) + n
            * desc_stride(sb),
{
    assert((i + 1) * desc_stride(sb) <= n * desc_stride(sb)) by (nonlinear_arith)
        requires
            i + 1 <= n,
            desc_stride(sb) > 0,
    ;
    assert(i * desc_stride(sb) + desc_stride(sb) == (i + 1) * desc_stride(sb)) by (nonlinear_arith);
}

/// A walk over the group descriptor table, one index at a time.
pub struct GroupDescIter {
    first_desc_offset: u64,
    count: u64,
    idx: u64,
    bit64: bool,
}

impl GroupDescIter {
    /// Where the table starts in the filesystem.
    pub closed spec fn spec_first(&self) -> int {
        self.first_desc_offset as int
    }

    /// How many descriptors the walk visits.
    pub closed spec fn spec_count(&self) -> int {
        self.count as int
    }

    /// How many it has visited.
    pub closed spec fn spec_index(&self) -> int {
        self.idx as int
    }

    /// Whether descriptors are 64 bytes wide.
    pub closed spec fn spec_bit64(&self) -> bool {
        self.bit64
    }

    /// Whether this is a walk over the table that `sb` describes.
    pub open spec fn walks(&self, sb: Superblock) -> bool {
        &&& self.spec_count() == group_count(sb)
        &&& self.spec_bit64() == (desc_stride(sb) == 64)
        &&& self.spec_count() > 0 ==> self.spec_first() == first_desc_offset(sb)
        &&& self.spec_count() <= 0x1_0000_0000
        &&& self.spec_count() > 0 ==> 0 < self.spec_first() <= 0x1_0000_0000
    }

    /// Starts a walk over the table of `fs`: `ceil(inodes_count /
    /// inodes_per_group)` descriptors, 32 or 64 bytes apart, from the block
    /// after the superblock's.
    pub fn new(fs: &FileSystem) -> (r: Self)
        ensures
            r.walks(fs.spec_sb()),
            r.spec_index() == 0,
    {
        let sb = &fs.sb;
        let bit64 = sb.feature_64bit();
        if sb.inodes_per_group == 0 || sb.log_block_size > 21 {
            return GroupDescIter { first_desc_offset: 0, count: 0, idx: 0, bit64 };
        }
        let ipg = sb.inodes_per_group as u64;
        let count = (sb.inodes_count as u64 + ipg - 1) / ipg;
        let ic = sb.inodes_count as u64;
        assert(count <= 0x1_0000_0000) by (nonlinear_arith)
            requires
                count as int == (ic + ipg - 1) / (ipg as int),
                ipg >= 1,
                ic < 0x1_0000_0000,
        ;
        let block_size = sb.get_block_size() as u64;
        proof {
            sb.lemma_sizes_are_powers_of_two();
        }
        let q = 1024 / block_size;
        assert(q <= 1) by (nonlinear_arith)
            requires
                block_size >= 1024,
                q == 1024u64 / block_size,
        ;
        assert(block_size <= 0x8000_0000) by {
            vstd::arithmetic::power2::lemma2_to64();
            vstd::arithmetic::power2::lemma_pow2_strictly_increases(
                (10 + sb.log_block_size) as nat,
                32,
            );
        }
        assert((q + 1) * block_size <= 0x1_0000_0000 && (q + 1) * block_size >= block_size)
            by (nonlinear_arith)
            requires
                q <= 1,
                block_size <= 0x8000_0000,
        ;
        let first_desc_offset = (q + 1) * block_size;
        GroupDescIter { first_desc_offset, count, idx: 0, bit64 }
    }

    /// How many descriptors the walk visits in all.
    pub fn count(&self) -> (r: u64)
        ensures
            r == self.spec_count(),
    {
        self.count
    }

    /// How many it has visited.
    pub fn index(&self) -> (r: u64)
        ensures
            r == self.spec_index(),
    {
        self.idx
    }

    /// The width of one descriptor.
    pub open spec fn spec_stride(&self) -> int {
        if self.spec_bit64() {
            64
        } else {
            32
        }
    }

    /// Where descriptor `i` lies in the filesystem.
    pub fn offset_of(&self, i: u64) -> (r: u64)
        requires
            self.spec_count() <= 0x1_0000_0000,
            self.spec_first() <= 0x1_0000_0000,
            i < self.spec_count(),
        ensures
            r == self.spec_first() + i * self.spec_stride(),
    {
        let stride: u64 = if self.bit64 {
            64
        } else {
            32
        };
        assert(i * stride <= 0x40_0000_0000) by (nonlinear_arith)
            requires
                i < 0x1_0000_0000,
                stride <= 64,
        ;
        self.first_desc_offset + i * stride
    }

    /// Reads the next descriptor of `fs`, or `None` when the walk is over or
    /// the descriptor cannot be read (the walk still moves on).
    pub fn next(&mut self, fs: &mut FileSystem) -> (r: Option<GroupDesc>)
        requires
            old(self).walks(old(fs).spec_sb()),
        ensures
            final(fs).spec_data() == old(fs).spec_data(),
            final(fs).spec_offset() == old(fs).spec_offset(),
            final(fs).spec_sb() == old(fs).spec_sb(),
            final(self).walks(old(fs).spec_sb()),
            old(self).spec_index() >= old(self).spec_count() ==> r is None && final(self).spec_index()
                == old(self).spec_index(),
            old(self).spec_index() < old(self).spec_count() ==> final(self).spec_index() == old(
                self,
            ).spec_index() + 1,
            old(self).spec_index() < old(self).spec_count() ==> (r is Some <==> old(fs).desc_pos(
                old(self).spec_index(),
            ) + desc_stride(old(fs).spec_sb()) <= old(fs).spec_data().len()),
            r matches Some(g) ==> old(fs).desc_at(old(self).spec_index(), g),
    {
        if self.idx >= self.count {
            return None;
        }
        let pos = self.offset_of(self.idx);
        self.idx = self.idx + 1;
        let _len = fs.inner.len();
        match fs.seek(SeekFrom::Start(pos)) {
            Ok(_) => {},
            Err(_) => {
                return None;
            },
        }
        match GroupDesc::new(&mut fs.inner, self.bit64) {
            Ok(g) => Some(g),
            Err(_) => None,
        }
    }
}

} // verus!
