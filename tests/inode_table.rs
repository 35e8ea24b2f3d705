use fuse_mt_paths::inode_table::{InodeTable, ROOT_INODE};
use fuse_mt_paths::types::{EINVAL, EIO, ENOSYS};

fn s(x: &str) -> String {
    x.to_string()
}

#[test]
fn new_table_binds_root_to_one() {
    let t = InodeTable::new();
    assert_eq!(t.get_path(ROOT_INODE), Some(s("/")));
    assert_eq!(t.get_inode(&s("/")), Some(1));
}

#[test]
fn add_then_readd_then_other() {
    let mut t = InodeTable::new();
    assert_eq!(t.add_or_get(s("/a")), 2);
    assert_eq!(t.add_or_get(s("/a")), 2);
    assert_eq!(t.add_or_get(s("/b")), 3);
}

#[test]
fn add_or_get_is_idempotent() {
    let mut t = InodeTable::new();
    let h = t.add_or_get(s("/x/y"));
    for _ in 0..5 {
        assert_eq!(t.add_or_get(s("/x/y")), h);
    }
    assert_eq!(t.add_or_get(s("/")), ROOT_INODE);
}

#[test]
fn distinct_paths_get_distinct_handles() {
    let mut t = InodeTable::new();
    let p = t.add_or_get(s("/p"));
    let q = t.add_or_get(s("/q"));
    assert_ne!(p, q);
    assert_ne!(p, ROOT_INODE);
    assert_ne!(q, ROOT_INODE);
}

#[test]
fn root_stays_bound_after_additions() {
    let mut t = InodeTable::new();
    for name in ["/a", "/b", "/a/c", "/"] {
        t.add_or_get(s(name));
    }
    assert_eq!(t.get_path(1), Some(s("/")));
}

#[test]
fn added_path_resolves_both_ways() {
    let mut t = InodeTable::new();
    let h = t.add_or_get(s("/dir/file"));
    assert_eq!(t.get_path(h), Some(s("/dir/file")));
    assert_eq!(t.get_inode(&s("/dir/file")), Some(h));
}

#[test]
fn unknown_values_are_not_found() {
    let mut t = InodeTable::new();
    t.add_or_get(s("/a"));
    assert_eq!(t.get_path(0), None);
    assert_eq!(t.get_path(3), None);
    assert_eq!(t.get_path(999), None);
    assert_eq!(t.get_path(u64::MAX), None);
    assert_eq!(t.get_inode(&s("/b")), None);
    assert_eq!(t.get_inode(&s("")), None);
}

#[test]
fn error_codes_match_the_c_library() {
    assert_eq!(EINVAL, libc::EINVAL);
    assert_eq!(EIO, libc::EIO);
    assert_eq!(ENOSYS, libc::ENOSYS);
}
