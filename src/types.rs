use vstd::prelude::*;

verus! {

/// Linux's `EINVAL`, the code for an invalid argument (`libc::EINVAL`).
pub const EINVAL: i32 = 22;

/// Linux's `EIO`, the code for an input/output error (`libc::EIO`).
pub const EIO: i32 = 5;

/// Linux's `ENOSYS`, the code for an unsupported operation (`libc::ENOSYS`).
pub const ENOSYS: i32 = 38;

/// `time::Timespec`, carried through unchanged from a filesystem to its reply.
#[verifier::external_type_specification]
#[verifier::external_body]
pub struct ExTimespec(time::Timespec);

/// Who made a request.
#[derive(Clone, Copy, Debug, PartialEq, Eq, Structural)]
pub struct Request {
    pub unique: u64,
    pub uid: u32,
    pub gid: u32,
    pub pid: u32,
}

/// Kind of a filesystem object.
#[derive(Clone, Copy, Debug, PartialEq, Eq, Structural)]
pub enum FileType {
    NamedPipe,
    CharDevice,
    BlockDevice,
    Directory,
    RegularFile,
    Symlink,
    Socket,
}

/// Attributes of a filesystem object.
#[derive(Clone, Copy, Debug)]
pub struct FileAttr {
    /// The object's handle.
    pub ino: u64,
    pub size: u64,
    pub blocks: u64,
    pub atime: time::Timespec,
    pub mtime: time::Timespec,
    pub ctime: time::Timespec,
    pub crtime: time::Timespec,
    pub kind: FileType,
    pub perm: u16,
    pub nlink: u32,
    pub uid: u32,
    pub gid: u32,
    pub rdev: u32,
    pub flags: u32,
}

/// One entry of a directory listing: a name within the directory and the
/// kind of object it names.
#[derive(Clone, Debug)]
pub struct DirectoryEntry {
    pub name: String,
    pub kind: FileType,
}

pub type ResultEmpty = Result<(), i32>;

pub type ResultGetattr = Result<(time::Timespec, FileAttr), i32>;

pub type ResultLookup = Result<(time::Timespec, FileAttr, u64), i32>;

pub type ResultOpen = Result<(u64, u32), i32>;

pub type ResultReaddir = Result<Vec<DirectoryEntry>, i32>;

pub type ResultData = Result<Vec<u8>, i32>;

pub type ResultWrite = Result<u32, i32>;

} // verus!
