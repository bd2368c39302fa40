//! Failure kinds of stream operations and their translation to the
//! filesystem protocol's error codes. The codes are Linux's, as libc gives
//! them there; other systems number some of them differently.

use vstd::prelude::*;

verus! {

/// Classification of a failed stream operation.
#[derive(Clone, Copy, Debug, PartialEq, Eq, Structural)]
pub enum FailureKind {
    NotFound,
    PermissionDenied,
    ConnectionRefused,
    ConnectionReset,
    ConnectionAborted,
    NotConnected,
    AddrInUse,
    AddrNotAvailable,
    BrokenPipe,
    AlreadyExists,
    WouldBlock,
    InvalidInput,
    InvalidData,
    TimedOut,
    WriteZero,
    Interrupted,
    UnexpectedEof,
    Other,
}

/// Relies on libc::ENOENT: "no such entry", 2 on Linux.
#[verifier::external_body]
fn code_enoent() -> (r: i32)
    ensures
        r == 2,
{
    libc::ENOENT
}

/// Relies on libc::EACCES: "access denied", 13 on Linux.
#[verifier::external_body]
fn code_eacces() -> (r: i32)
    ensures
        r == 13,
{
    libc::EACCES
}

/// Relies on libc::ECONNREFUSED: "connection refused", 111 on Linux.
#[verifier::external_body]
fn code_econnrefused() -> (r: i32)
    ensures
        r == 111,
{
    libc::ECONNREFUSED
}

/// Relies on libc::ECONNABORTED: "connection aborted", 103 on Linux.
#[verifier::external_body]
fn code_econnaborted() -> (r: i32)
    ensures
        r == 103,
{
    libc::ECONNABORTED
}

/// Relies on libc::ENOTCONN: "socket not connected", 107 on Linux.
#[verifier::external_body]
fn code_enotconn() -> (r: i32)
    ensures
        r == 107,
{
    libc::ENOTCONN
}

/// Relies on libc::EADDRINUSE: "address in use", 98 on Linux.
#[verifier::external_body]
fn code_eaddrinuse() -> (r: i32)
    ensures
        r == 98,
{
    libc::EADDRINUSE
}

/// Relies on libc::EADDRNOTAVAIL: "address not available", 99 on Linux.
#[verifier::external_body]
fn code_eaddrnotavail() -> (r: i32)
    ensures
        r == 99,
{
    libc::EADDRNOTAVAIL
}

/// Relies on libc::EPIPE: "broken pipe", 32 on Linux.
#[verifier::external_body]
fn code_epipe() -> (r: i32)
    ensures
        r == 32,
{
    libc::EPIPE
}

/// Relies on libc::EEXIST: "entry exists", 17 on Linux.
#[verifier::external_body]
fn code_eexist() -> (r: i32)
    ensures
        r == 17,
{
    libc::EEXIST
}

/// Relies on libc::EWOULDBLOCK: "operation would block", EAGAIN, 11 on Linux.
#[verifier::external_body]
fn code_ewouldblock() -> (r: i32)
    ensures
        r == 11,
{
    libc::EWOULDBLOCK
}

/// Relies on libc::EINVAL: "invalid argument", 22 on Linux.
#[verifier::external_body]
fn code_einval() -> (r: i32)
    ensures
        r == 22,
{
    libc::EINVAL
}

/// Relies on libc::ETIMEDOUT: "operation timed out", 110 on Linux.
#[verifier::external_body]
fn code_etimedout() -> (r: i32)
    ensures
        r == 110,
{
    libc::ETIMEDOUT
}

/// Relies on libc::EROFS: "read-only filesystem", 30 on Linux.
#[verifier::external_body]
pub(crate) fn code_erofs() -> (r: i32)
    ensures
        r == 30,
{
    libc::EROFS
}

/// The "invalid argument" code.
pub open spec fn spec_einval() -> i32 {
    22
}

/// The "read-only filesystem" code.
pub open spec fn spec_erofs() -> i32 {
    30
}

/// The protocol error code for each failure kind. Kinds without a code of
/// their own fall back to "invalid argument".
pub open spec fn spec_errmap(kind: FailureKind) -> i32 {
    match kind {
        FailureKind::NotFound => 2,
        FailureKind::PermissionDenied => 13,
        FailureKind::ConnectionRefused => 111,
        FailureKind::ConnectionReset => 111,
        FailureKind::ConnectionAborted => 103,
        FailureKind::NotConnected => 107,
        FailureKind::AddrInUse => 98,
        FailureKind::AddrNotAvailable => 99,
        FailureKind::BrokenPipe => 32,
        FailureKind::AlreadyExists => 17,
        FailureKind::WouldBlock => 11,
        FailureKind::TimedOut => 110,
        _ => spec_einval(),
    }
}

/// Translates a failure kind to the filesystem protocol's error code.
pub fn errmap(kind: FailureKind) -> (r: i32)
    ensures
        r == spec_errmap(kind),
{
    match kind {
        FailureKind::NotFound => code_enoent(),
        FailureKind::PermissionDenied => code_eacces(),
        FailureKind::ConnectionRefused => code_econnrefused(),
        FailureKind::ConnectionReset => code_econnrefused(),
        FailureKind::ConnectionAborted => code_econnaborted(),
        FailureKind::NotConnected => code_enotconn(),
        FailureKind::AddrInUse => code_eaddrinuse(),
        FailureKind::AddrNotAvailable => code_eaddrnotavail(),
        FailureKind::BrokenPipe => code_epipe(),
        FailureKind::AlreadyExists => code_eexist(),
        FailureKind::WouldBlock => code_ewouldblock(),
        FailureKind::InvalidInput => code_einval(),
        FailureKind::InvalidData => code_einval(),
        FailureKind::TimedOut => code_etimedout(),
        FailureKind::WriteZero => code_einval(),
        FailureKind::UnexpectedEof => code_einval(),
        _ => code_einval(),
    }
}

} // verus!
