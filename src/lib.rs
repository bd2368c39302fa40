//! Exposes a seekable byte stream as the single regular file of a
//! user-space filesystem: attribute synthesis, error translation, and the
//! read and write paths over the stream, each stated and proved against a
//! model of the stream's content.

mod attr;
mod errno;
mod fs;
mod mem_stream;
mod stream;

pub use attr::{
    attributes_for, block_count, ceil_blocks, create_time, lemma_block_count_is_ceiling,
    spec_attributes, spec_create_time, spec_ttl, ttl, FileAttributes, FileKind, Timestamp,
    CREATE_TIME_SEC, FILE_INO, FILE_PERM, TTL_SEC,
};
pub use errno::{errmap, spec_errmap, FailureKind};
pub use fs::{ReadSeekFs, ReadWriteSeekFs};
pub use mem_stream::MemStream;
pub use stream::{
    available, lemma_read_window, lemma_write_then_read, overwrite, read_up_to, write_up_to,
    SeekRead, SeekWrite,
};
