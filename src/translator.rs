use vstd::prelude::*;
use crate::inode_table::{InodeTable, ROOT_INODE};
use crate::path::{is_relative_name, join, joined_path, lemma_join_distinct, parent, parent_path};
use crate::types::{EINVAL, EIO, ENOSYS, DirectoryEntry, FileAttr, FileType, Request, ResultEmpty, ResultGetattr, ResultLookup, ResultOpen, ResultReaddir, ResultData, ResultWrite};

verus! {

/// A filesystem that names its objects by path.
///
/// Every operation but `destroy` fails with `ENOSYS` unless the filesystem
/// provides it.
pub trait PathFilesystem {
    fn init(&mut self, _req: &Request) -> ResultEmpty {
        Err(ENOSYS)
    }

    fn destroy(&mut self, _req: &Request) {
    }

    fn getattr(&mut self, _req: &Request, _path: &String) -> ResultGetattr {
        Err(ENOSYS)
    }

    fn lookup(&mut self, _req: &Request, _parent: &String, _name: &String) -> ResultLookup {
        Err(ENOSYS)
    }

    fn opendir(&mut self, _req: &Request, _path: &String, _flags: u32) -> ResultOpen {
        Err(ENOSYS)
    }

    fn releasedir(&mut self, _req: &Request, _path: &String, _fh: u64, _flags: u32) -> ResultEmpty {
        Err(ENOSYS)
    }

    fn readdir(&mut self, _req: &Request, _path: &String, _fh: u64, _offset: u64) -> ResultReaddir {
        Err(ENOSYS)
    }

    fn open(&mut self, _req: &Request, _path: &String, _flags: u32) -> ResultOpen {
        Err(ENOSYS)
    }

    fn release(
        &mut self,
        _req: &Request,
        _path: &String,
        _fh: u64,
        _flags: u32,
        _lock_owner: u64,
        _flush: bool,
    ) -> ResultEmpty {
        Err(ENOSYS)
    }

    fn read(&mut self, _req: &Request, _path: &String, _fh: u64, _offset: u64, _size: u32) -> ResultData {
        Err(ENOSYS)
    }

    fn write(
        &mut self,
        _req: &Request,
        _path: &String,
        _fh: u64,
        _offset: u64,
        _data: &[u8],
        _flags: u32,
    ) -> ResultWrite {
        Err(ENOSYS)
    }

    fn flush(&mut self, _req: &Request, _path: &String, _fh: u64, _lock_owner: u64) -> ResultEmpty {
        Err(ENOSYS)
    }
}

/// The name that stands for a directory itself in its listing.
pub open spec fn dot() -> Seq<char> {
    seq!['.']
}

/// The name that stands for a directory's parent in its listing.
pub open spec fn dotdot() -> Seq<char> {
    seq!['.', '.']
}

/// The handle that a listing of directory `ino`, bound to `path` in `table`,
/// reports for `..`: the root's own handle for the root, else the handle
/// bound to the parent path, if there is one.
pub open spec fn dotdot_inode(table: InodeTable, ino: u64, path: Seq<char>) -> Option<u64> {
    if ino == ROOT_INODE {
        Some(ROOT_INODE)
    } else {
        match parent_path(path) {
            Some(pp) => table.inode_of(pp),
            None => None,
        }
    }
}

/// Binding the paths of two different relative names listed in directory
/// `d`, one after the other, gives them two different handles, neither of
/// them `d`'s nor the root's.
pub proof fn lemma_listed_children_distinct(
    t1: InodeTable,
    t2: InodeTable,
    t3: InodeTable,
    d: u64,
    x: Seq<char>,
    y: Seq<char>,
)
    requires
        t1.wf(),
        t2.wf(),
        t3.wf(),
        t1.path_of(d) is Some,
        is_relative_name(x),
        is_relative_name(y),
        x != y,
        t2@ == InodeTable::added(t1@, joined_path(t1.path_of(d).unwrap(), x)),
        t3@ == InodeTable::added(t2@, joined_path(t1.path_of(d).unwrap(), y)),
    ensures
        ({
            let dp = t1.path_of(d).unwrap();
            &&& t3.inode_of(joined_path(dp, x)) matches Some(hx)
            &&& t3.inode_of(joined_path(dp, y)) matches Some(hy)
            &&& hx != hy && hx != d && hy != d && hx != ROOT_INODE && hy != ROOT_INODE
        }),
{
    let dp = t1.path_of(d).unwrap();
    let cx = joined_path(dp, x);
    let cy = joined_path(dp, y);
    lemma_join_distinct(dp, x, y);
    lemma_join_distinct(dp, y, x);
    t1.lemma_added_wf(t2, cx);
    t2.lemma_added_wf(t3, cy);
    assert(t2.path_of(d) is Some);
    assert(t3.contains(cx));
    assert(t3.contains(dp)) by {
        t3.lemma_bound_both_ways(d, dp);
    }
    t3.lemma_root_bound();
    t3.lemma_bound_both_ways(d, dp);
    t3.lemma_inode_injective(cx, cy);
    t3.lemma_inode_injective(cx, dp);
    t3.lemma_inode_injective(cy, dp);
    t3.lemma_inode_injective(cx, crate::inode_table::root_path());
    t3.lemma_inode_injective(cy, crate::inode_table::root_path());
}

/// A directory listing being handed out, one entry at a time, into a reply
/// buffer of bounded size.
#[derive(Clone, Debug)]
pub struct DirListing {
    /// The directory's handle.
    pub ino: u64,
    /// The directory's path.
    pub path: String,
    /// The handle reported for `..`.
    pub parent_ino: u64,
    /// The entries, in the order the filesystem gave them.
    pub entries: Vec<DirectoryEntry>,
    /// Position of the next entry to hand out; also the number handed out.
    pub index: usize,
    /// Whether the reply buffer was found full.
    pub halted: bool,
}

/// An entry of a listing as the protocol reports it.
#[derive(Clone, Debug)]
pub struct ListedEntry {
    /// Handle of the object named.
    pub ino: u64,
    /// Position of the entry in the listing, from `0`.
    pub offset: u64,
    pub kind: FileType,
    pub name: String,
}

impl DirListing {
    /// Whether no entry is left to hand out.
    pub open spec fn done(&self) -> bool {
        self.halted || self.index >= self.entries@.len()
    }

    /// The listing after the reply buffer's answer for the entry at `index`:
    /// unchanged once done; halted, with `index` kept, if the buffer was full;
    /// else at the next entry.
    pub open spec fn advanced(self, buffer_full: bool) -> DirListing {
        if self.done() {
            self
        } else if buffer_full {
            DirListing { halted: true, ..self }
        } else {
            DirListing { index: (self.index + 1) as usize, ..self }
        }
    }

    /// The listing after the reply buffer's answers, in order.
    pub open spec fn advanced_by(self, answers: Seq<bool>) -> DirListing
        decreases answers.len(),
    {
        if answers.len() == 0 {
            self
        } else {
            self.advanced(answers[0]).advanced_by(answers.drop_first())
        }
    }

    /// A reply buffer that takes `k` entries and is then full halts the
    /// listing: it ends done and halted, with `index` at `k`, the position of
    /// the entry that did not fit, and later answers change nothing. Positions
    /// `0` to `k` were handed out in order; no later entry ever is.
    pub proof fn lemma_full_buffer_halts(self, k: nat, more: Seq<bool>)
        requires
            !self.halted,
            self.index + k < self.entries@.len() <= usize::MAX,
        ensures
            ({
                let f = self.advanced_by(Seq::new(k, |i: int| false).push(true));
                &&& f.done() && f.halted
                &&& f.index == self.index + k
                &&& f.ino == self.ino && f.path == self.path && f.parent_ino == self.parent_ino
                &&& f.entries == self.entries
                &&& f.advanced_by(more) == f
            }),
        decreases k,
    {
        let answers = Seq::new(k, |i: int| false).push(true);
        let f = self.advanced_by(answers);
        assert(answers.len() > 0);
        if k == 0 {
            assert(answers[0]);
            assert(answers.drop_first() =~= Seq::<bool>::empty());
            assert(f == self.advanced(true).advanced_by(answers.drop_first()));
            assert(f == self.advanced(true));
        } else {
            assert(!answers[0]);
            let rest = Seq::new((k - 1) as nat, |i: int| false).push(true);
            assert(answers.drop_first() =~= rest);
            assert(f == self.advanced(false).advanced_by(rest));
            self.advanced(false).lemma_full_buffer_halts((k - 1) as nat, more);
        }
        f.lemma_done_stays(more);
    }

    /// A done listing stays as it is, whatever the buffer answers.
    pub proof fn lemma_done_stays(self, answers: Seq<bool>)
        requires
            self.done(),
        ensures
            self.advanced_by(answers) == self,
        decreases answers.len(),
    {
        if answers.len() > 0 {
            self.lemma_done_stays(answers.drop_first());
        }
    }

    pub fn is_done(&self) -> (r: bool)
        ensures
            r == self.done(),
    {
        self.halted || self.index >= self.entries.len()
    }

    /// Records whether the reply buffer took the entry at `index`: if it was
    /// full, the listing halts with `index` left at that entry; otherwise the
    /// listing moves to the next entry.
    pub fn advance(&mut self, buffer_full: bool)
        ensures
            *final(self) == old(self).advanced(buffer_full),
    {
        if self.halted || self.index >= self.entries.len() {
            return;
        }
        if buffer_full {
            self.halted = true;
        } else {
            self.index = self.index + 1;
        }
    }
}

/// Serves a handle-addressed filesystem protocol from a path-addressed
/// filesystem, keeping the table of handles given out.
pub struct InodeTranslator<T> {
    target: T,
    inodes: InodeTable,
}

impl<T: PathFilesystem> InodeTranslator<T> {
    /// The table of handles given out so far.
    pub closed spec fn table(&self) -> InodeTable {
        self.inodes
    }

    /// The path-addressed filesystem served.
    pub closed spec fn strategy(&self) -> T {
        self.target
    }

    pub open spec fn wf(&self) -> bool {
        self.table().wf()
    }

    /// Serves `target_fs`, with a table that holds the root alone.
    pub fn new(target_fs: T) -> (r: InodeTranslator<T>)
        ensures
            r.wf(),
            r.table()@ == seq![crate::inode_table::root_path()],
            r.strategy() == target_fs,
    {
        InodeTranslator { target: target_fs, inodes: InodeTable::new() }
    }

    /// The table of handles given out so far.
    pub fn inodes(&self) -> (r: &InodeTable)
        ensures
            *r == self.table(),
    {
        &self.inodes
    }

    /// Initializes the filesystem.
    pub fn init(&mut self, req: &Request) -> (r: ResultEmpty)
        requires
            old(self).wf(),
        ensures
            final(self).wf(),
            final(self).table() == old(self).table(),
    {
        self.target.init(req)
    }

    /// Tears the filesystem down.
    pub fn destroy(&mut self, req: &Request)
        requires
            old(self).wf(),
        ensures
            final(self).wf(),
            final(self).table() == old(self).table(),
    {
        self.target.destroy(req);
    }

    /// Attributes of object `ino`, as the filesystem gives them for its path,
    /// with `ino` written into them.
    pub fn getattr(&mut self, req: &Request, ino: u64) -> (r: ResultGetattr)
        requires
            old(self).wf(),
        ensures
            final(self).wf(),
            final(self).table() == old(self).table(),
            old(self).table().path_of(ino) is None ==> r == Err::<(time::Timespec, FileAttr), i32>(
                EINVAL,
            ) && *final(self) == *old(self),
            r matches Ok((_, a)) ==> a.ino == ino,
    {
        match self.inodes.get_path(ino) {
            Some(path) => {
                let res = self.target.getattr(req, &path);
                Self::attr_reply(ino, res)
            },
            None => Err(EINVAL),
        }
    }

    /// Completes an attribute request for object `ino` with what the
    /// filesystem answered: a success keeps its validity and attributes, with
    /// `ino` written in as the handle; a failure passes through.
    pub fn attr_reply(ino: u64, res: ResultGetattr) -> (r: ResultGetattr)
        ensures
            res matches Err(e) ==> r == Err::<(time::Timespec, FileAttr), i32>(e),
            res matches Ok((ttl, a)) ==> r == Ok::<(time::Timespec, FileAttr), i32>(
                (ttl, FileAttr { ino, ..a }),
            ),
    {
        match res {
            Ok((ttl, attr)) => Ok((ttl, FileAttr { ino, ..attr })),
            Err(e) => Err(e),
        }
    }

    /// Completes a lookup of `name` in directory `parent_path` with what the
    /// filesystem answered: on success the joined path gets its handle, bound
    /// first if need be, and the handle is written into the attributes; a
    /// failure passes through and binds nothing.
    pub fn bind_lookup(&mut self, parent_path: &String, name: &String, res: ResultLookup) -> (r:
        ResultLookup)
        requires
            old(self).wf(),
        ensures
            final(self).wf(),
            final(self).strategy() == old(self).strategy(),
            res matches Err(e) ==> r == Err::<(time::Timespec, FileAttr, u64), i32>(e)
                && final(self).table() == old(self).table(),
            res matches Ok((ttl, a, g)) ==> ({
                let child = joined_path(parent_path@, name@);
                &&& final(self).table()@ == InodeTable::added(old(self).table()@, child)
                &&& final(self).table().inode_of(child) matches Some(h)
                &&& r == Ok::<(time::Timespec, FileAttr, u64), i32>((ttl, FileAttr { ino: h, ..a }, g))
            }),
    {
        match res {
            Ok((ttl, attr, generation)) => {
                let child = join(parent_path, name);
                let ino = self.inodes.add_or_get(child);
                Ok((ttl, FileAttr { ino, ..attr }, generation))
            },
            Err(e) => Err(e),
        }
    }

    /// Looks `name` up in directory `parent` through the filesystem.
    pub fn lookup(&mut self, req: &Request, parent: u64, name: &String) -> (r: ResultLookup)
        requires
            old(self).wf(),
        ensures
            final(self).wf(),
            old(self).table().path_of(parent) is None ==> r == Err::<
                (time::Timespec, FileAttr, u64),
                i32,
            >(EINVAL) && *final(self) == *old(self),
            old(self).table().path_of(parent) matches Some(pp) ==> ({
                let child = joined_path(pp, name@);
                &&& r is Err ==> final(self).table() == old(self).table()
                &&& r matches Ok((_, a, _)) ==> final(self).table()@ == InodeTable::added(
                    old(self).table()@,
                    child,
                ) && final(self).table().inode_of(child) == Some(a.ino)
            }),
    {
        match self.inodes.get_path(parent) {
            Some(parent_path) => {
                let res = self.target.lookup(req, &parent_path, name);
                self.bind_lookup(&parent_path, name, res)
            },
            None => Err(EINVAL),
        }
    }

    /// Opens directory `ino` through the filesystem.
    pub fn opendir(&mut self, req: &Request, ino: u64, flags: u32) -> (r: ResultOpen)
        requires
            old(self).wf(),
        ensures
            final(self).wf(),
            final(self).table() == old(self).table(),
            old(self).table().path_of(ino) is None ==> r == Err::<(u64, u32), i32>(EINVAL)
                && *final(self) == *old(self),
    {
        match self.inodes.get_path(ino) {
            Some(path) => self.target.opendir(req, &path, flags),
            None => Err(EINVAL),
        }
    }

    /// Closes directory `ino`, opened as `fh`, through the filesystem.
    pub fn releasedir(&mut self, req: &Request, ino: u64, fh: u64, flags: u32) -> (r: ResultEmpty)
        requires
            old(self).wf(),
        ensures
            final(self).wf(),
            final(self).table() == old(self).table(),
            old(self).table().path_of(ino) is None ==> r == Err::<(), i32>(EINVAL) && *final(self)
                == *old(self),
    {
        match self.inodes.get_path(ino) {
            Some(path) => self.target.releasedir(req, &path, fh, flags),
            None => Err(EINVAL),
        }
    }

    /// Opens file `ino` through the filesystem.
    pub fn open(&mut self, req: &Request, ino: u64, flags: u32) -> (r: ResultOpen)
        requires
            old(self).wf(),
        ensures
            final(self).wf(),
            final(self).table() == old(self).table(),
            old(self).table().path_of(ino) is None ==> r == Err::<(u64, u32), i32>(EINVAL)
                && *final(self) == *old(self),
    {
        match self.inodes.get_path(ino) {
            Some(path) => self.target.open(req, &path, flags),
            None => Err(EINVAL),
        }
    }

    /// Closes file `ino`, opened as `fh`, through the filesystem.
    pub fn release(
        &mut self,
        req: &Request,
        ino: u64,
        fh: u64,
        flags: u32,
        lock_owner: u64,
        flush: bool,
    ) -> (r: ResultEmpty)
        requires
            old(self).wf(),
        ensures
            final(self).wf(),
            final(self).table() == old(self).table(),
            old(self).table().path_of(ino) is None ==> r == Err::<(), i32>(EINVAL) && *final(self)
                == *old(self),
    {
        match self.inodes.get_path(ino) {
            Some(path) => self.target.release(req, &path, fh, flags, lock_owner, flush),
            None => Err(EINVAL),
        }
    }

    /// Reads up to `size` bytes at `offset` of file `ino` through the filesystem.
    pub fn read(&mut self, req: &Request, ino: u64, fh: u64, offset: u64, size: u32) -> (r:
        ResultData)
        requires
            old(self).wf(),
        ensures
            final(self).wf(),
            final(self).table() == old(self).table(),
            old(self).table().path_of(ino) is None ==> r == Err::<Vec<u8>, i32>(EINVAL)
                && *final(self) == *old(self),
    {
        match self.inodes.get_path(ino) {
            Some(path) => self.target.read(req, &path, fh, offset, size),
            None => Err(EINVAL),
        }
    }

    /// Writes `data` at `offset` of file `ino` through the filesystem.
    pub fn write(
        &mut self,
        req: &Request,
        ino: u64,
        fh: u64,
        offset: u64,
        data: &[u8],
        flags: u32,
    ) -> (r: ResultWrite)
        requires
            old(self).wf(),
        ensures
            final(self).wf(),
            final(self).table() == old(self).table(),
            old(self).table().path_of(ino) is None ==> r == Err::<u32, i32>(EINVAL) && *final(self)
                == *old(self),
    {
        match self.inodes.get_path(ino) {
            Some(path) => self.target.write(req, &path, fh, offset, data, flags),
            None => Err(EINVAL),
        }
    }

    /// Flushes file `ino`, opened as `fh`, through the filesystem.
    pub fn flush(&mut self, req: &Request, ino: u64, fh: u64, lock_owner: u64) -> (r: ResultEmpty)
        requires
            old(self).wf(),
        ensures
            final(self).wf(),
            final(self).table() == old(self).table(),
            old(self).table().path_of(ino) is None ==> r == Err::<(), i32>(EINVAL) && *final(self)
                == *old(self),
    {
        match self.inodes.get_path(ino) {
            Some(path) => self.target.flush(req, &path, fh, lock_owner),
            None => Err(EINVAL),
        }
    }

    /// Starts the listing of directory `ino`, bound to `path`, with the
    /// entries the filesystem gave; fails with `EIO` where no handle can be
    /// reported for `..`.
    pub fn begin_listing(&self, ino: u64, path: String, entries: Vec<DirectoryEntry>) -> (r: Result<
        DirListing,
        i32,
    >)
        requires
            self.wf(),
        ensures
            dotdot_inode(self.table(), ino, path@) is None ==> r == Err::<DirListing, i32>(EIO),
            dotdot_inode(self.table(), ino, path@) matches Some(pi) ==> r matches Ok(l) && l.ino
                == ino && l.path == path && l.parent_ino == pi && l.entries == entries && l.index
                == 0 && !l.halted,
    {
        let parent_ino = if ino == ROOT_INODE {
            ino
        } else {
            match parent(&path) {
                Some(pp) => match self.inodes.get_inode(&pp) {
                    Some(pi) => pi,
                    None => {
                        return Err(EIO);
                    },
                },
                None => {
                    return Err(EIO);
                },
            }
        };
        Ok(DirListing { ino, path, parent_ino, entries, index: 0, halted: false })
    }

    /// Lists directory `ino` through the filesystem, from `offset`. The table
    /// does not change: entries get their handles as they are handed out.
    pub fn readdir(&mut self, req: &Request, ino: u64, fh: u64, offset: u64) -> (r: Result<
        DirListing,
        i32,
    >)
        requires
            old(self).wf(),
        ensures
            final(self).wf(),
            final(self).table() == old(self).table(),
            old(self).table().path_of(ino) is None ==> r == Err::<DirListing, i32>(EINVAL)
                && *final(self) == *old(self),
            old(self).table().path_of(ino) matches Some(p) ==> (r matches Ok(l) ==> l.ino == ino
                && l.path@ == p && Some(l.parent_ino) == dotdot_inode(old(self).table(), ino, p)
                && l.index == 0 && !l.halted),
            old(self).table().path_of(ino) matches Some(p) ==> (dotdot_inode(
                old(self).table(),
                ino,
                p,
            ) is None ==> r is Err),
    {
        match self.inodes.get_path(ino) {
            Some(path) => match self.target.readdir(req, &path, fh, offset) {
                Ok(entries) => self.begin_listing(ino, path, entries),
                Err(e) => Err(e),
            },
            None => Err(EINVAL),
        }
    }

    /// Hands out the next entry of `listing`, with the handle the protocol
    /// reports for it: the directory's own for `.`, the parent's for `..`, and
    /// for any other name the handle bound to the joined path, bound first if
    /// need be. Gives `None` once the listing is done.
    pub fn next_dir_entry(&mut self, listing: &DirListing) -> (r: Option<ListedEntry>)
        requires
            old(self).wf(),
            old(self).table().path_of(listing.ino) == Some(listing.path@),
            Some(listing.parent_ino) == dotdot_inode(old(self).table(), listing.ino, listing.path@),
        ensures
            final(self).wf(),
            final(self).strategy() == old(self).strategy(),
            final(self).table().path_of(listing.ino) == Some(listing.path@),
            Some(listing.parent_ino) == dotdot_inode(final(self).table(), listing.ino, listing.path@),
            r matches Some(x) ==> final(self).table().path_of(x.ino) is Some,
            listing.done() ==> r is None && *final(self) == *old(self),
            !listing.done() ==> ({
                let e = listing.entries@[listing.index as int];
                let child = joined_path(listing.path@, e.name@);
                r matches Some(x) && x.offset == listing.index && x.name == e.name && x.kind
                    == e.kind && if e.name@ == dot() {
                    x.ino == listing.ino && final(self).table() == old(self).table()
                } else if e.name@ == dotdot() {
                    x.ino == listing.parent_ino && final(self).table() == old(self).table()
                } else {
                    final(self).table()@ == InodeTable::added(old(self).table()@, child)
                        && final(self).table().inode_of(child) == Some(x.ino)
                }
            }),
    {
        if listing.halted || listing.index >= listing.entries.len() {
            return None;
        }
        let entry = &listing.entries[listing.index];
        let dot_name = String::from_str(".");
        let dotdot_name = String::from_str("..");
        proof {
            reveal_strlit(".");
            reveal_strlit("..");
            assert(dot_name@ =~= dot());
            assert(dotdot_name@ =~= dotdot());
        }
        let ino = if entry.name == dot_name {
            listing.ino
        } else if entry.name == dotdot_name {
            listing.parent_ino
        } else {
            let child = join(&listing.path, &entry.name);
            let ghost before = self.inodes;
            let h = self.inodes.add_or_get(child);
            proof {
                before.lemma_added_wf(self.inodes, joined_path(listing.path@, entry.name@));
                self.inodes.lemma_bound_both_ways(h, joined_path(listing.path@, entry.name@));
            }
            h
        };
        proof {
            self.inodes.lemma_bound_both_ways(ino, listing.path@);
            self.inodes.lemma_root_bound();
            if listing.ino != ROOT_INODE {
                let pp = parent_path(listing.path@).unwrap();
                self.inodes.lemma_bound_both_ways(listing.parent_ino, pp);
            }
        }
        Some(
            ListedEntry {
                ino,
                offset: listing.index as u64,
                kind: entry.kind,
                name: entry.name.clone(),
            },
        )
    }
}

} // verus!
