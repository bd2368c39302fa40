use vstd::prelude::*;
use vstd::arithmetic::div_mod::{lemma_div_plus_one, lemma_fundamental_div_mod, lemma_mod_bound};

verus! {

/// Seconds since the epoch stamped on every timestamp of the file.
pub const CREATE_TIME_SEC: i64 = 1534631479;

/// Seconds for which the transport may cache entries and attributes.
pub const TTL_SEC: i64 = 9999;

/// Inode number of the one file.
pub const FILE_INO: u64 = 1;

/// Permission bits of the file: read-write for the owner, read-only for
/// everyone else.
pub const FILE_PERM: u16 = 0o644;

/// A point in time, or a duration, in seconds and nanoseconds.
#[derive(Clone, Copy, Debug, PartialEq, Eq, Structural)]
pub struct Timestamp {
    pub sec: i64,
    pub nsec: i32,
}

/// The kind of the exposed file.
#[derive(Clone, Copy, Debug, PartialEq, Eq, Structural)]
pub enum FileKind {
    RegularFile,
}

/// Metadata of the one file.
#[derive(Clone, Copy, Debug, PartialEq, Eq, Structural)]
pub struct FileAttributes {
    pub ino: u64,
    pub size: u64,
    pub blocks: u64,
    pub atime: Timestamp,
    pub mtime: Timestamp,
    pub ctime: Timestamp,
    pub crtime: Timestamp,
    pub kind: FileKind,
    pub perm: u16,
    pub nlink: u32,
    pub uid: u32,
    pub gid: u32,
    pub rdev: u32,
    pub flags: u32,
}

/// The creation time given to all four timestamps.
pub open spec fn spec_create_time() -> Timestamp {
    Timestamp { sec: CREATE_TIME_SEC, nsec: 0 }
}

/// How long cached entries and attributes stay fresh.
pub open spec fn spec_ttl() -> Timestamp {
    Timestamp { sec: TTL_SEC, nsec: 0 }
}

/// Blocks of `block_size` bytes needed for `len` bytes: the ceiling of
/// their quotient, and one block for an empty stream.
pub open spec fn ceil_blocks(len: nat, block_size: nat) -> nat
    recommends
        block_size > 0,
{
    if len == 0 {
        1
    } else {
        ((len + block_size - 1) as nat / block_size) as nat
    }
}

/// The attributes record of a file of `len` bytes in `blocks` blocks.
pub open spec fn spec_attributes(len: u64, blocks: u64) -> FileAttributes {
    FileAttributes {
        ino: FILE_INO,
        size: len,
        blocks,
        atime: spec_create_time(),
        mtime: spec_create_time(),
        ctime: spec_create_time(),
        crtime: spec_create_time(),
        kind: FileKind::RegularFile,
        perm: FILE_PERM,
        nlink: 1,
        uid: 0,
        gid: 0,
        rdev: 0,
        flags: 0,
    }
}

/// The creation time given to all four timestamps.
pub fn create_time() -> (r: Timestamp)
    ensures
        r == spec_create_time(),
{
    Timestamp { sec: CREATE_TIME_SEC, nsec: 0 }
}

/// How long the transport may treat entries and attributes as fresh.
pub fn ttl() -> (r: Timestamp)
    ensures
        r == spec_ttl(),
{
    Timestamp { sec: TTL_SEC, nsec: 0 }
}

/// Blocks of `block_size` bytes that a stream of `len` bytes occupies.
pub fn block_count(len: u64, block_size: u64) -> (r: u64)
    requires
        block_size > 0,
    ensures
        r == ceil_blocks(len as nat, block_size as nat),
{
    if len == 0 {
        1
    } else {
        proof {
            lemma_div_plus_one((len - 1) as int, block_size as int);
            assert((len - 1) as int / block_size as int <= (len - 1) as int) by {
                vstd::arithmetic::div_mod::lemma_div_is_ordered_by_denominator(
                    (len - 1) as int,
                    1,
                    block_size as int,
                );
            }
        }
        (len - 1) / block_size + 1
    }
}

/// The attributes record of a stream of `len` bytes cut into blocks of
/// `block_size` bytes.
pub fn attributes_for(len: u64, block_size: u64) -> (r: FileAttributes)
    requires
        block_size > 0,
    ensures
        r == spec_attributes(len, ceil_blocks(len as nat, block_size as nat) as u64),
{
    let t = create_time();
    FileAttributes {
        ino: FILE_INO,
        size: len,
        blocks: block_count(len, block_size),
        atime: t,
        mtime: t,
        ctime: t,
        crtime: t,
        kind: FileKind::RegularFile,
        perm: FILE_PERM,
        nlink: 1,
        uid: 0,
        gid: 0,
        rdev: 0,
        flags: 0,
    }
}

/// For a non-empty stream the block count is the ceiling of the length over
/// the block size: enough blocks to hold every byte, and one fewer would not
/// be.
pub proof fn lemma_block_count_is_ceiling(len: nat, block_size: nat)
    requires
        len > 0,
        block_size > 0,
    ensures
        ceil_blocks(len, block_size) * block_size >= len,
        (ceil_blocks(len, block_size) - 1) * block_size < len,
{
    let x = (len + block_size - 1) as int;
    let d = block_size as int;
    lemma_fundamental_div_mod(x, d);
    lemma_mod_bound(x, d);
    let q = x / d;
    assert(d * q == q * d) by (nonlinear_arith);
    assert((q - 1) * d == q * d - d) by (nonlinear_arith);
}

} // verus!
