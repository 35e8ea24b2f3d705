use vstd::prelude::*;

verus! {

/// `base` joined with `name` by the Unix path rules of `std::path::Path::join`:
/// an absolute `name` replaces `base`; otherwise `name` is appended, after a
/// `/` where `base` is non-empty and does not end in one.
pub open spec fn joined_path(base: Seq<char>, name: Seq<char>) -> Seq<char> {
    if name.len() > 0 && name[0] == '/' {
        name
    } else if base.len() == 0 || base.last() == '/' {
        base + name
    } else {
        base + seq!['/'] + name
    }
}

/// A name that joins onto a directory as one more component: non-empty and
/// not absolute.
pub open spec fn is_relative_name(name: Seq<char>) -> bool {
    name.len() > 0 && name[0] != '/'
}

/// Joining two different relative names onto one directory path gives two
/// different paths, each longer than the directory's, and neither is the root.
pub proof fn lemma_join_distinct(base: Seq<char>, x: Seq<char>, y: Seq<char>)
    requires
        is_relative_name(x),
        is_relative_name(y),
        x != y,
    ensures
        joined_path(base, x) != joined_path(base, y),
        joined_path(base, x).len() > base.len(),
        joined_path(base, x) != seq!['/'],
{
    let pre = if base.len() == 0 || base.last() == '/' {
        base
    } else {
        base + seq!['/']
    };
    assert(joined_path(base, x) =~= pre + x);
    assert(joined_path(base, y) =~= pre + y);
    if pre.len() == 0 {
        assert(joined_path(base, x)[0] == x[0]);
    } else {
        assert(joined_path(base, x).len() >= 2);
    }
    if joined_path(base, x) == joined_path(base, y) {
        assert((pre + x).subrange(pre.len() as int, (pre + x).len() as int) =~= x);
        assert((pre + y).subrange(pre.len() as int, (pre + y).len() as int) =~= y);
    }
}

/// What `std::path::Path::parent` gives for a path: the path without its final
/// component, or `None` for a root or an empty path.
pub uninterp spec fn parent_path(p: Seq<char>) -> Option<Seq<char>>;

/// Relies on `std::path::Path::join` with Unix path rules. Both arguments are
/// UTF-8, and so is the joined path.
#[verifier::external_body]
pub(crate) fn join(base: &String, name: &String) -> (r: String)
    ensures
        r@ == joined_path(base@, name@),
{
    std::path::Path::new(base.as_str()).join(name.as_str()).to_string_lossy().into_owned()
}

/// Relies on `std::path::Path::parent`: the result depends on the path alone.
/// A parent of a UTF-8 path ends at a separator, so it is UTF-8 too.
#[verifier::external_body]
pub(crate) fn parent(p: &String) -> (r: Option<String>)
    ensures
        r matches Some(s) ==> parent_path(p@) == Some(s@),
        r is None ==> parent_path(p@) is None,
{
    match std::path::Path::new(p.as_str()).parent() {
        Some(q) => Some(q.to_string_lossy().into_owned()),
        None => None,
    }
}

} // verus!
