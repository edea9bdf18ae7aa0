//! POSIX backend: obtains the raw identity pair of a file through the
//! operating system's metadata query, behind small trusted wrappers, and
//! packs it into a [`FileID`] in verified code.

use vstd::prelude::*;

verus! {

use crate::FileID;

/// Declaration of the standard I/O error type, which carries the
/// operating system's own error unchanged; this library never
/// constructs error kinds of its own.
#[verifier::external_type_specification]
#[verifier::external_body]
pub struct ExIoError(std::io::Error);

/// Relies on nix::fcntl::open: opens the file at `path` for reading
/// with no special flags and returns its descriptor, which open(2)
/// documents to be non-negative, or the OS error the open reported.
#[verifier::external_body]
fn sys_open_read(path: &str) -> (r: Result<i32, std::io::Error>)
    ensures
        r matches Ok(fd) ==> fd >= 0,
{
    match nix::fcntl::open(path, nix::fcntl::OFlag::O_RDONLY, nix::sys::stat::Mode::empty()) {
        Ok(fd) => Ok(fd),
        Err(e) => Err(std::io::Error::from(e)),
    }
}

/// Relies on nix::sys::stat::fstat: queries the metadata of the open
/// descriptor `fd` in one call and hands back its device and inode
/// numbers, or the OS error the query reported. What the numbers are
/// depends on the state of the filesystem, so nothing is promised of
/// them.
#[verifier::external_body]
fn sys_fstat(fd: i32) -> (r: Result<(u64, u64), std::io::Error>) {
    match nix::sys::stat::fstat(fd) {
        Ok(st) => Ok((st.st_dev as u64, st.st_ino as u64)),
        Err(e) => Err(std::io::Error::from(e)),
    }
}

/// Relies on nix::unistd::close: releases the descriptor `fd`. A
/// failure to close is ignored, as it is when the standard library
/// drops an open file.
#[verifier::external_body]
fn sys_close(fd: i32) {
    let _ = nix::unistd::close(fd);
}

/// Identity of an already-open native file descriptor: one metadata
/// query, whose device and inode numbers are packed into a [`FileID`].
/// The descriptor's lifecycle is not affected. On failure the OS error
/// is surfaced unchanged. As the inode is zero-extended, only the low
/// 64 bits of the internal identifier are ever populated here.
pub fn identity_of_descriptor(fd: i32) -> (r: Result<FileID, std::io::Error>)
    ensures
        r matches Ok(id) ==> id.spec_internal_id() <= u64::MAX as u128,
{
    match sys_fstat(fd) {
        Ok(pair) => Ok(FileID::from_raw_parts(pair.0, pair.1)),
        Err(e) => Err(e),
    }
}

/// Identity of the object at `path`: opens it for reading, queries the
/// identity of the transient descriptor, and releases the descriptor on
/// every exit path before returning. Either the open's or the query's
/// OS error is surfaced unchanged; no descriptor escapes the call.
pub fn identity_of_path(path: &str) -> (r: Result<FileID, std::io::Error>)
    ensures
        r matches Ok(id) ==> id.spec_internal_id() <= u64::MAX as u128,
{
    match sys_open_read(path) {
        Ok(fd) => {
            let res = identity_of_descriptor(fd);
            sys_close(fd);
            res
        },
        Err(e) => Err(e),
    }
}

} // verus!
