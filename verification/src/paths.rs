//! Where the harness finds the database binary and keeps its files.

use vstd::prelude::*;

verus! {

/// The path `relative` inside the directory `base`, on Unix.
pub open spec fn path_in(base: Seq<char>, relative: Seq<char>) -> Seq<char> {
    if base.len() == 0 || base.last() == '/' {
        base + relative
    } else {
        base + seq!['/'] + relative
    }
}

/// Appends a relative path to a directory, with `camino::Utf8Path::join`.
///
/// Not proved: that on Unix, where alone this harness runs, adjoining a relative
/// path keeps both texts and puts one `/` between them, unless the directory
/// is empty or already ends with one.
#[verifier::external_body]
pub(crate) fn join_path(base: &str, relative: &str) -> (r: String)
    requires
        relative@.len() > 0,
        relative@[0] != '/',
    ensures
        r@ == path_in(base@, relative@),
{
    camino::Utf8Path::new(base).join(relative).into_string()
}

/// The path of the database binary under the directory that the build fills.
pub open spec fn cockroachdb_bin_path(out_dir: Seq<char>) -> Seq<char> {
    path_in(path_in(out_dir, "cockroachdb/bin"@), "cockroach"@)
}

/// The path of the database binary under the directory that the build fills.
pub fn cockroachdb_bin(out_dir: &str) -> (r: String)
    ensures
        r@ == cockroachdb_bin_path(out_dir@),
{
    proof {
        reveal_strlit("cockroachdb/bin");
        reveal_strlit("cockroach");
    }
    let bin_dir = join_path(out_dir, "cockroachdb/bin");
    join_path(bin_dir.as_str(), "cockroach")
}

/// A path inside a directory is the directory, then one `/` unless the directory is
/// empty or ends with one, then the relative path.
pub proof fn law_path_in(base: Seq<char>, relative: Seq<char>)
    ensures
        base.is_prefix_of(path_in(base, relative)),
        relative.is_suffix_of(path_in(base, relative)),
        base.len() == 0 ==> path_in(base, relative) == relative,
        base.len() > 0 && base.last() == '/' ==> path_in(base, relative).len() == base.len()
            + relative.len(),
        base.len() > 0 && base.last() != '/' ==> path_in(base, relative).len() == base.len()
            + relative.len() + 1 && path_in(base, relative)[base.len() as int] == '/',
{
    let path = path_in(base, relative);
    assert(path.take(base.len() as int) == base);
    assert(path.skip(path.len() - relative.len()) == relative);
    if base.len() == 0 {
        assert(path == relative);
    }
}

/// The binary lies in `cockroachdb/bin` under the directory that the build fills, and
/// is named `cockroach`.
pub proof fn law_cockroachdb_bin(out_dir: Seq<char>)
    ensures
        cockroachdb_bin_path(out_dir) == path_in(out_dir, "cockroachdb/bin/cockroach"@),
{
    reveal_strlit("cockroachdb/bin");
    reveal_strlit("cockroach");
    reveal_strlit("cockroachdb/bin/cockroach");
    assert(cockroachdb_bin_path(out_dir) =~= path_in(out_dir, "cockroachdb/bin/cockroach"@));
}

} // verus!
