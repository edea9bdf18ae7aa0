//! Portable file identity.
//!
//! A filesystem object has no single portable identifier: POSIX systems
//! expose a device/inode pair, other platforms a volume-serial/file-id
//! pair. This library packs the platform pair into one opaque, comparable
//! [`FileID`] value and defines equality over it, so that two handles or
//! paths can be checked for referring to the same underlying object.

use vstd::prelude::*;

mod sys;

verus! {

pub use crate::sys::identity_of_descriptor;
pub use crate::sys::identity_of_path;

/// A file's identifier; two `FileID`s compare equal exactly when they
/// denote the same filesystem object as the operating system reports it.
///
/// The value combines two components:
///
/// * the identifier of the storage (volume, device) that contains the
///   object, and
/// * the internal file identifier, unique only among objects of the same
///   storage.
///
/// Only both together identify the object within the whole system: two
/// storages may reuse the same internal identifier. The value is plain
/// data; it stays valid after the handle it was read from is closed, but
/// then no longer reflects a live object.
#[derive(Debug, Clone, Copy, PartialEq, Eq, Structural)]
pub struct FileID {
    storage: u64,
    internal: u128,
}

impl FileID {
    /// The storage component of the identifier.
    pub closed spec fn spec_storage_id(self) -> u64 {
        self.storage
    }

    /// The internal component of the identifier.
    pub closed spec fn spec_internal_id(self) -> u128 {
        self.internal
    }

    /// Packs the raw pair that a POSIX metadata query reports into an
    /// identifier: the device number becomes the storage component and
    /// the inode number, zero-extended to the uniform width, the
    /// internal component.
    pub(crate) fn from_raw_parts(dev: u64, ino: u64) -> (r: FileID)
        ensures
            r.spec_storage_id() == dev,
            r.spec_internal_id() == ino as u128,
    {
        FileID { storage: dev, internal: ino as u128 }
    }

    /// Obtains the identifier of a file, directory, etc.
    ///
    /// Accepts anything that implements [`GetID`]: a path, an
    /// already-open [`Descriptor`], or an identifier itself. For a
    /// path the target is opened for reading, queried, and released
    /// again before the call returns; for an open descriptor the
    /// identity is queried directly, without taking ownership.
    ///
    /// # Errors
    ///
    /// Surfaces the operating system's error unchanged when opening the
    /// file fails or when the metadata query itself fails.
    pub fn new<T: GetID + ?Sized>(file: &T) -> (r: Result<FileID, std::io::Error>)
        ensures
            file.fixed_id() matches Some(v) ==> (r matches Ok(id) && id == v),
    {
        file.get_id()
    }

    /// Returns the storage identifier from the file identifier.
    ///
    /// On POSIX this is the device number of the containing filesystem.
    pub fn storage_id(&self) -> (r: u64)
        ensures
            r == self.spec_storage_id(),
    {
        self.storage
    }

    /// Returns the internal file identifier from the file identifier.
    /// This value alone cannot uniquely identify the object within the
    /// system; it is unique only within one storage.
    ///
    /// On POSIX this is the inode number, and only the low 64 of the
    /// returned 128 bits are populated.
    pub fn internal_file_id(&self) -> (r: u128)
        ensures
            r == self.spec_internal_id(),
    {
        self.internal
    }
}

/// A capability to obtain the file identifier of an underlying object:
/// anything that exposes, or can be made to expose, a native file
/// handle can implement it.
pub trait GetID {
    /// The identifier that the value itself determines without
    /// consulting the operating system, if there is one. An identifier
    /// determines itself; a path or an open descriptor determines
    /// nothing, as its identity lives in the filesystem.
    spec fn fixed_id(&self) -> Option<FileID>;

    /// Obtains the file identifier, see [`FileID::new`] for more
    /// information.
    fn get_id(&self) -> (r: Result<FileID, std::io::Error>)
        ensures
            self.fixed_id() matches Some(v) ==> (r matches Ok(id) && id == v),
    ;
}

impl GetID for FileID {
    open spec fn fixed_id(&self) -> Option<FileID> {
        Some(*self)
    }

    /// Returns a copy of itself wrapped inside `Ok`.
    fn get_id(&self) -> (r: Result<FileID, std::io::Error>) {
        Ok(*self)
    }
}

impl GetID for str {
    open spec fn fixed_id(&self) -> Option<FileID> {
        None
    }

    /// Opens the file at this path for reading, queries the identity of
    /// the transient descriptor, and releases the descriptor before
    /// returning, on the success and the failure path alike.
    fn get_id(&self) -> (r: Result<FileID, std::io::Error>) {
        crate::sys::identity_of_path(self)
    }
}

/// An already-open native file descriptor, held as a plain number. The
/// library never takes ownership of it: querying its identity neither
/// opens nor closes anything.
#[derive(Debug, Clone, Copy)]
pub struct Descriptor {
    fd: i32,
}

impl Descriptor {
    /// Wraps the raw descriptor `fd`; the caller keeps ownership and
    /// remains responsible for keeping it open while it is queried.
    pub fn from_raw(fd: i32) -> (r: Descriptor)
        ensures
            r.spec_fd() == fd,
    {
        Descriptor { fd }
    }

    /// The raw descriptor number this value wraps.
    pub closed spec fn spec_fd(self) -> i32 {
        self.fd
    }

    /// Returns the wrapped raw descriptor number.
    pub fn raw(&self) -> (r: i32)
        ensures
            r == self.spec_fd(),
    {
        self.fd
    }
}

impl GetID for Descriptor {
    open spec fn fixed_id(&self) -> Option<FileID> {
        None
    }

    /// Queries the identity of the wrapped descriptor directly, without
    /// affecting its lifecycle.
    fn get_id(&self) -> (r: Result<FileID, std::io::Error>) {
        crate::sys::identity_of_descriptor(self.fd)
    }
}

/// Compares 2 different file identifiers, and returns `Ok(true)` if the
/// 2 identifiers point to the same file, returning `Ok(false)`
/// otherwise.
///
/// The two inputs may be of different kinds; the identity of each is
/// obtained independently, the left side first, and the identifiers are
/// compared for equality.
///
/// # Errors
///
/// Returns the OS error of the first identity that cannot be obtained,
/// unchanged; the right side is not evaluated after the left side
/// fails.
pub fn compare_ids<T1: GetID + ?Sized, T2: GetID + ?Sized>(id1: &T1, id2: &T2) -> (r: Result<
    bool,
    std::io::Error,
>)
    ensures
        id1.fixed_id() matches Some(a) ==> (id2.fixed_id() matches Some(b) ==> (r matches Ok(same)
            && same == (a == b))),
{
    let a = match id1.get_id() {
        Ok(v) => v,
        Err(e) => {
            return Err(e);
        },
    };
    let b = match id2.get_id() {
        Ok(v) => v,
        Err(e) => {
            return Err(e);
        },
    };
    Ok(a == b)
}

/// Identity equality is reflexive: an identifier always equals itself,
/// so the same underlying object queried twice compares equal whenever
/// the two queries report the same raw pair.
pub proof fn lemma_identity_eq_reflexive(a: FileID)
    ensures
        a == a,
{
}

/// Identity equality is symmetric: comparing two identifiers does not
/// depend on the order of the operands.
pub proof fn lemma_identity_eq_symmetric(a: FileID, b: FileID)
    ensures
        (a == b) == (b == a),
{
}

/// Identity equality is transitive, so together with reflexivity and
/// symmetry it is an equivalence relation.
pub proof fn lemma_identity_eq_transitive(a: FileID, b: FileID, c: FileID)
    requires
        a == b,
        b == c,
    ensures
        a == c,
{
}

/// Two identifiers are equal exactly when both components agree; hence
/// identifiers of distinct objects differ in at least one component,
/// and equality never rests on the internal identifier alone.
pub proof fn lemma_identity_eq_componentwise(a: FileID, b: FileID)
    ensures
        (a == b) == (a.spec_storage_id() == b.spec_storage_id()
            && a.spec_internal_id() == b.spec_internal_id()),
{
}

} // verus!
