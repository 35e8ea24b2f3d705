use vstd::prelude::*;

verus! {

/// The root directory's path, `/`.
pub open spec fn root_path() -> Seq<char> {
    seq!['/']
}

/// The handle that is always bound to the root path.
pub const ROOT_INODE: u64 = 1;

/// Table that binds numeric handles to path strings and back.
///
/// Handles are given out in order from `1`: handle `h` is bound to the
/// `h`-th path that entered the table, and handle `1` is the root.
pub struct InodeTable {
    paths: Vec<String>,
}

impl InodeTable {
    /// The bound paths, in the order of their handles: handle `h` is bound to
    /// `self@[h - 1]`.
    pub closed spec fn view(&self) -> Seq<Seq<char>> {
        self.paths@.map_values(|p: String| p@)
    }

    /// The table binds the root to handle `1` and binds no path twice.
    pub open spec fn wf(&self) -> bool {
        &&& 1 <= self@.len() <= u64::MAX
        &&& self@[0] == root_path()
        &&& forall|i: int, j: int|
            0 <= i < self@.len() && 0 <= j < self@.len() && i != j ==> self@[i] != self@[j]
    }

    /// The path bound to handle `h`, if any.
    pub open spec fn path_of(&self, h: u64) -> Option<Seq<char>> {
        if 1 <= h && h <= self@.len() {
            Some(self@[h - 1])
        } else {
            None
        }
    }

    /// Whether some handle is bound to path `p`.
    pub open spec fn contains(&self, p: Seq<char>) -> bool {
        exists|i: int| 0 <= i < self@.len() && self@[i] == p
    }

    /// The handle bound to path `p`, if any.
    pub open spec fn inode_of(&self, p: Seq<char>) -> Option<u64> {
        if self.contains(p) {
            Some(((choose|i: int| 0 <= i < self@.len() && self@[i] == p) + 1) as u64)
        } else {
            None
        }
    }

    /// The table after binding `p`: unchanged if `p` is already bound, else
    /// with `p` bound to the next handle.
    pub open spec fn added(s: Seq<Seq<char>>, p: Seq<char>) -> Seq<Seq<char>> {
        if exists|i: int| 0 <= i < s.len() && s[i] == p {
            s
        } else {
            s.push(p)
        }
    }

    /// Creates a table that binds the root path to handle `1` and nothing else.
    pub fn new() -> (r: InodeTable)
        ensures
            r.wf(),
            r@ == seq![root_path()],
    {
        let root = String::from_str("/");
        proof {
            reveal_strlit("/");
        }
        assert(root@ =~= root_path());
        let mut paths: Vec<String> = Vec::new();
        paths.push(root);
        let r = InodeTable { paths };
        assert(r@ =~= seq![root_path()]);
        r
    }

    /// In a well-formed table, `h` is bound to `p` exactly when `p` is bound
    /// to `h`.
    pub proof fn lemma_bound_both_ways(&self, h: u64, p: Seq<char>)
        requires
            self.wf(),
        ensures
            self.path_of(h) == Some(p) <==> self.inode_of(p) == Some(h),
    {
        if self.path_of(h) == Some(p) {
            assert(self@[h - 1] == p);
            assert(self.contains(p));
        }
        if self.contains(p) {
            let i = choose|i: int| 0 <= i < self@.len() && self@[i] == p;
            if h as int == i + 1 {
                assert(self.path_of(h) == Some(p));
            }
        }
    }

    /// Binding a path keeps the table well formed, and keeps every handle
    /// given out bound to the same path.
    pub proof fn lemma_added_wf(&self, t: InodeTable, p: Seq<char>)
        requires
            self.wf(),
            t@ == Self::added(self@, p),
            t@.len() <= u64::MAX,
        ensures
            t.wf(),
            forall|h: u64| #[trigger] self.path_of(h) is Some ==> t.path_of(h) == self.path_of(h),
            forall|q: Seq<char>| #[trigger] self.contains(q) ==> t.inode_of(q) == self.inode_of(q),
            t.contains(p),
    {
        if !self.contains(p) {
            assert(t@[self@.len() as int] == p);
        }
        assert forall|q: Seq<char>| #[trigger] self.contains(q) implies t.inode_of(q)
            == self.inode_of(q) by {
            let h = self.inode_of(q).unwrap();
            self.lemma_bound_both_ways(h, q);
            t.lemma_bound_both_ways(h, q);
        }
    }

    /// Different bound paths have different handles.
    pub proof fn lemma_inode_injective(&self, p: Seq<char>, q: Seq<char>)
        requires
            self.wf(),
            self.contains(p),
            self.contains(q),
            p != q,
        ensures
            self.inode_of(p) is Some,
            self.inode_of(q) is Some,
            self.inode_of(p) != self.inode_of(q),
    {
        let hp = self.inode_of(p).unwrap();
        self.lemma_bound_both_ways(hp, p);
        let hq = self.inode_of(q).unwrap();
        self.lemma_bound_both_ways(hq, q);
    }

    /// The root stays bound to handle `1`: every well-formed table, whatever
    /// was bound before, gives the root path for handle `1`.
    pub proof fn lemma_root_bound(&self)
        requires
            self.wf(),
        ensures
            self.path_of(ROOT_INODE) == Some(root_path()),
            self.inode_of(root_path()) == Some(ROOT_INODE),
    {
        self.lemma_bound_both_ways(ROOT_INODE, root_path());
    }

    /// Binding the same path twice gives the same handle both times: the
    /// second binding leaves the table as the first left it.
    pub proof fn lemma_add_or_get_idempotent(t1: InodeTable, t2: InodeTable, t3: InodeTable, p: Seq<char>)
        requires
            t1.wf(),
            t2.wf(),
            t2@ == Self::added(t1@, p),
            t3@ == Self::added(t2@, p),
        ensures
            t3@ == t2@,
            t3.inode_of(p) == t2.inode_of(p),
            t2.inode_of(p) is Some,
    {
        t1.lemma_added_wf(t2, p);
    }

    /// Two different paths, bound one after the other, get different handles,
    /// and the first keeps its handle when the second is bound.
    pub proof fn lemma_distinct_paths_distinct_inodes(
        t1: InodeTable,
        t2: InodeTable,
        t3: InodeTable,
        p: Seq<char>,
        q: Seq<char>,
    )
        requires
            t1.wf(),
            t2.wf(),
            t3.wf(),
            p != q,
            t2@ == Self::added(t1@, p),
            t3@ == Self::added(t2@, q),
        ensures
            t2.inode_of(p) is Some,
            t3.inode_of(p) == t2.inode_of(p),
            t3.inode_of(q) is Some,
            t3.inode_of(p) != t3.inode_of(q),
    {
        t1.lemma_added_wf(t2, p);
        t2.lemma_added_wf(t3, q);
        let hp = t2.inode_of(p).unwrap();
        t2.lemma_bound_both_ways(hp, p);
        assert(t2.path_of(hp) is Some);
        t3.lemma_bound_both_ways(hp, p);
        let hq = t3.inode_of(q).unwrap();
        t3.lemma_bound_both_ways(hq, q);
    }

    /// The path bound to handle `ino`, or `None` if no path is bound to it.
    pub fn get_path(&self, ino: u64) -> (r: Option<String>)
        ensures
            r matches Some(s) ==> self.path_of(ino) == Some(s@),
            r is None ==> self.path_of(ino) is None,
    {
        if ino >= 1 && ino - 1 < self.paths.len() as u64 {
            let i = (ino - 1) as usize;
            Some(self.paths[i].clone())
        } else {
            None
        }
    }

    /// The handle bound to `path`, or `None` if none is.
    pub fn get_inode(&self, path: &String) -> (r: Option<u64>)
        requires
            self.wf(),
        ensures
            r == self.inode_of(path@),
    {
        let mut i: usize = 0;
        while i < self.paths.len()
            invariant
                self.wf(),
                0 <= i <= self@.len(),
                forall|k: int| 0 <= k < i ==> self@[k] != path@,
            decreases self@.len() - i,
        {
            if self.paths[i] == *path {
                let r = i as u64 + 1;
                proof {
                    self.lemma_bound_both_ways(r, path@);
                }
                return Some(r);
            }
            i = i + 1;
        }
        None
    }

    /// The handle bound to `path`; if there is none, binds `path` to the next
    /// unused handle first.
    pub fn add_or_get(&mut self, path: String) -> (r: u64)
        requires
            old(self).wf(),
        ensures
            final(self).wf(),
            final(self)@ == Self::added(old(self)@, path@),
            final(self).path_of(r) == Some(path@),
            final(self).inode_of(path@) == Some(r),
            old(self).contains(path@) ==> old(self).inode_of(path@) == Some(r),
            !old(self).contains(path@) ==> r == old(self)@.len() + 1,
    {
        match self.get_inode(&path) {
            Some(h) => {
                proof {
                    self.lemma_bound_both_ways(h, path@);
                }
                h
            },
            None => {
                let ghost p = path@;
                self.paths.push(path);
                let r = self.paths.len() as u64;
                assert(self@ =~= old(self)@.push(p));
                proof {
                    self.lemma_bound_both_ways(r, p);
                }
                r
            },
        }
    }
}

} // verus!
