//! Paths under the engine's resource directory, held as UTF-8 strings.
use vstd::prelude::*;

verus! {

/// A character that separates path components on one of the platforms.
pub open spec fn is_separator_char(c: char) -> bool {
    c == '/' || c == '\\'
}

/// A single relative path component: non-empty, not starting with a dot,
/// with no separator and no drive colon, so that joining it never replaces
/// or rewrites the base.
pub open spec fn is_plain_name(s: Seq<char>) -> bool {
    &&& s.len() > 0
    &&& s[0] != '.'
    &&& forall|i: int| 0 <= i < s.len() ==> !is_separator_char(#[trigger] s[i]) && s[i] != ':'
}

/// A Windows verbatim path (`\\?\...`), which joining normalizes.
pub open spec fn has_verbatim_prefix(s: Seq<char>) -> bool {
    s.len() >= 4 && s[0] == '\\' && s[1] == '\\' && s[2] == '?' && s[3] == '\\'
}

/// A verbatim path that joining leaves as it is: it ends in neither a
/// separator nor a colon, and after its `\\?\` prefix no backslash is
/// followed by another backslash or by a dot, so it has no empty, `.` or
/// `..` component for normalization to remove.
pub open spec fn is_clean_verbatim(s: Seq<char>) -> bool {
    &&& has_verbatim_prefix(s)
    &&& !is_separator_char(s.last())
    &&& s.last() != ':'
    &&& forall|i: int|
        3 <= i < s.len() - 1 && #[trigger] s[i] == '\\' ==> s[i + 1] != '\\' && s[i + 1] != '.'
}

/// A base path whose joins the contract of `join_path` describes: any path
/// that is not verbatim, and a clean verbatim path.
pub open spec fn is_joinable_base(s: Seq<char>) -> bool {
    !has_verbatim_prefix(s) || is_clean_verbatim(s)
}

/// A bare drive such as `C:`, to which Windows joins a name without a
/// separator.
pub open spec fn is_bare_drive(s: Seq<char>) -> bool {
    s.len() == 2 && s[1] == ':'
}

/// `joined` is `base` extended by the plain component `child`:
/// - an empty base gives the child alone;
/// - a base that ends in `/` gives the child appended directly;
/// - a base that ends in `\` gives the child appended directly (Windows)
///   or after `/` (elsewhere);
/// - a bare drive gives the child appended directly or after one
///   separator, by platform;
/// - any other base gives the child after one separator, `/` or `\` by
///   platform.
pub open spec fn extends_path(joined: Seq<char>, base: Seq<char>, child: Seq<char>) -> bool {
    if base.len() == 0 {
        joined == child
    } else if base.last() == '/' {
        joined == base + child
    } else if base.last() == '\\' {
        ||| joined == base + child
        ||| joined == base + seq!['/'] + child
    } else if is_bare_drive(base) {
        ||| joined == base + child
        ||| joined == base + seq!['/'] + child
        ||| joined == base + seq!['\\'] + child
    } else {
        ||| joined == base + seq!['/'] + child
        ||| joined == base + seq!['\\'] + child
    }
}

proof fn lemma_joined_with_separator_joinable(
    joined: Seq<char>,
    base: Seq<char>,
    sep: char,
    child: Seq<char>,
)
    requires
        is_joinable_base(base),
        is_plain_name(child),
        is_separator_char(sep),
        base.len() > 0,
        !is_separator_char(base.last()),
        !is_bare_drive(base),
        joined == base + seq![sep] + child,
    ensures
        is_joinable_base(joined),
{
    let n = base.len() as int;
    if has_verbatim_prefix(joined) {
        assert(joined.last() == child.last());
        assert(child.last() == child[child.len() - 1]);
        assert forall|i: int|
            3 <= i < joined.len() - 1 && #[trigger] joined[i] == '\\' implies joined[i + 1]
            != '\\' && joined[i + 1] != '.' by {
            if i + 1 < n {
                assert(joined[i] == base[i] && joined[i + 1] == base[i + 1]);
                assert(has_verbatim_prefix(base)) by {
                    assert(joined[0] == base[0] && joined[1] == base[1] && joined[2] == base[2]
                        && joined[3] == base[3]);
                }
            } else if i + 1 == n {
                assert(joined[i] == base.last());
            } else if i == n {
                assert(joined[i + 1] == child[0]);
            } else {
                assert(joined[i] == child[i - n - 1]);
            }
        }
    }
}

proof fn lemma_joined_directly_joinable(joined: Seq<char>, base: Seq<char>, child: Seq<char>)
    requires
        is_joinable_base(base),
        is_plain_name(child),
        base.len() == 0 || base.last() == '/' || (base.last() == '\\' && !has_verbatim_prefix(
            base,
        )) || is_bare_drive(base),
        joined == base + child,
    ensures
        is_joinable_base(joined),
{
    let n = base.len() as int;
    if has_verbatim_prefix(joined) {
        if n < 4 {
            if n <= 3 {
                assert(joined[3] == child[3 - n]);
            }
        } else {
            assert(joined[0] == base[0] && joined[1] == base[1] && joined[2] == base[2]
                && joined[3] == base[3]);
            assert(joined[n - 1] == base.last());
        }
    }
}

proof fn lemma_joined_after_slash_joinable(joined: Seq<char>, base: Seq<char>, child: Seq<char>)
    requires
        is_plain_name(child),
        base.len() > 0,
        base.last() == '\\' && !has_verbatim_prefix(base) || is_bare_drive(base),
        joined == base + seq!['/'] + child,
    ensures
        is_joinable_base(joined),
{
    let n = base.len() as int;
    if has_verbatim_prefix(joined) {
        if n < 4 {
            if n == 3 {
                assert(joined[3] == '/');
            } else {
                assert(joined[3] == child[2 - n]);
            }
        } else {
            assert(joined[0] == base[0] && joined[1] == base[1] && joined[2] == base[2]
                && joined[3] == base[3]);
        }
    }
}

/// Joining a plain name to a base that the contract describes gives
/// another such base, so joins can be chained.
pub proof fn lemma_extends_path_joinable(joined: Seq<char>, base: Seq<char>, child: Seq<char>)
    requires
        is_joinable_base(base),
        is_plain_name(child),
        extends_path(joined, base, child),
    ensures
        is_joinable_base(joined),
{
    if base.len() == 0 || base.last() == '/' {
        lemma_joined_directly_joinable(joined, base, child);
    } else if base.last() == '\\' {
        if joined == base + child {
            lemma_joined_directly_joinable(joined, base, child);
        } else {
            lemma_joined_after_slash_joinable(joined, base, child);
        }
    } else if is_bare_drive(base) {
        if joined == base + child {
            lemma_joined_directly_joinable(joined, base, child);
        } else if joined == base + seq!['/'] + child {
            lemma_joined_after_slash_joinable(joined, base, child);
        } else {
            assert(joined[1] == ':');
        }
    } else if joined == base + seq!['/'] + child {
        lemma_joined_with_separator_joinable(joined, base, '/', child);
    } else {
        lemma_joined_with_separator_joinable(joined, base, '\\', child);
    }
}

/// The child can be read back from an extended path: it starts right after
/// the base, or one separator after it.
proof fn lemma_extends_path_child(joined: Seq<char>, base: Seq<char>, child: Seq<char>)
    requires
        is_plain_name(child),
        extends_path(joined, base, child),
    ensures
        joined.len() > base.len(),
        is_separator_char(joined[base.len() as int]) ==> child == joined.subrange(
            base.len() as int + 1,
            joined.len() as int,
        ),
        !is_separator_char(joined[base.len() as int]) ==> child == joined.subrange(
            base.len() as int,
            joined.len() as int,
        ),
{
    let n = base.len() as int;
    assert(!is_separator_char(child[0]));
    if joined == base + child {
        assert(joined[n] == child[0]);
        assert(child =~= joined.subrange(n, joined.len() as int));
    } else if joined == base + seq!['/'] + child {
        assert(joined[n] == '/');
        assert(child =~= joined.subrange(n + 1, joined.len() as int));
    } else if joined == base + seq!['\\'] + child {
        assert(joined[n] == '\\');
        assert(child =~= joined.subrange(n + 1, joined.len() as int));
    } else {
        assert(base.len() == 0 && joined == child);
        assert(joined =~= base + child);
    }
}

/// Joining two different plain names to one base gives two different
/// paths.
pub proof fn lemma_extends_paths_distinct(
    joined1: Seq<char>,
    joined2: Seq<char>,
    base: Seq<char>,
    child1: Seq<char>,
    child2: Seq<char>,
)
    requires
        is_plain_name(child1),
        is_plain_name(child2),
        child1 != child2,
        extends_path(joined1, base, child1),
        extends_path(joined2, base, child2),
    ensures
        joined1 != joined2,
{
    lemma_extends_path_child(joined1, base, child1);
    lemma_extends_path_child(joined2, base, child2);
}

/// `std::path::Path::join` on UTF-8 paths. Its documentation (that of
/// `PathBuf::push`) says that the result extends the base path with the
/// child path, with a separator where the base does not already end in one,
/// and that a verbatim base is normalized by removing its `.` and `..`
/// components. For a plain relative name and a base that is not verbatim,
/// or is a clean verbatim path that normalization leaves as it is, the
/// contract states this as `extends_path`. Which separator is used (`/` on
/// Unix, `\` on Windows), and what becomes of a base ending in `\` or of a
/// bare drive, depends on the platform and is left open between the choices
/// that `extends_path` lists.
#[verifier::external_body]
pub(crate) fn join_path(base: &str, child: &str) -> (joined: String)
    ensures
        is_plain_name(child@) && is_joinable_base(base@) ==> extends_path(
            joined@,
            base@,
            child@,
        ),
{
    format!("{}", std::path::Path::new(base).join(child).display())
}

/// The directory of list files under a resource base: `base/lists`.
pub fn lists_dir(base: &str) -> (dir: String)
    ensures
        is_joinable_base(base@) ==> extends_path(dir@, base@, "lists"@),
        is_joinable_base(base@) ==> is_joinable_base(dir@),
{
    proof {
        reveal_strlit("lists");
    }
    let dir = join_path(base, "lists");
    proof {
        if is_joinable_base(base@) {
            lemma_extends_path_joinable(dir@, base@, "lists"@);
        }
    }
    dir
}

/// The directory of engine binaries under a resource base: `base/bin`.
pub fn bin_dir(base: &str) -> (dir: String)
    ensures
        is_joinable_base(base@) ==> extends_path(dir@, base@, "bin"@),
        is_joinable_base(base@) ==> is_joinable_base(dir@),
{
    proof {
        reveal_strlit("bin");
    }
    let dir = join_path(base, "bin");
    proof {
        if is_joinable_base(base@) {
            lemma_extends_path_joinable(dir@, base@, "bin"@);
        }
    }
    dir
}

} // verus!
