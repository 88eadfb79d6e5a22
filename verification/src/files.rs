//! Pure path computations backing the filesystem collaborators.
//!
//! Paths are carried as plain strings with `/` as the separator; the
//! filesystem itself (reading, writing, scanning) is a collaborator outside
//! this crate and resolves its results into actions.

use vstd::prelude::*;

use vstd::string::StrSliceExecFns;

verus! {

/// Index of the last `/` in `s`, or `-1` when there is none.
pub open spec fn last_slash_index(s: Seq<char>) -> int
    decreases s.len(),
{
    if s.len() == 0 {
        -1
    } else if s.last() == '/' {
        s.len() - 1
    } else {
        last_slash_index(s.drop_last())
    }
}

/// `last_slash_index` finds the last slash: the character there is `/`, and
/// no later character is.
pub proof fn lemma_last_slash_index(s: Seq<char>)
    ensures
        -1 <= last_slash_index(s) < s.len(),
        last_slash_index(s) >= 0 ==> s[last_slash_index(s)] == '/',
        forall|j: int| last_slash_index(s) < j < s.len() ==> s[j] != '/',
    decreases s.len(),
{
    if s.len() == 0 {
    } else if s.last() == '/' {
    } else {
        lemma_last_slash_index(s.drop_last());
        assert(forall|j: int| 0 <= j < s.len() - 1 ==> s[j] == s.drop_last()[j]);
    }
}

/// The final component of a path: the text after the last `/`.  A path
/// without a slash, or one whose final component is empty, names itself.
pub open spec fn file_name_model(path: Seq<char>) -> Seq<char> {
    let i = last_slash_index(path);
    if i < 0 {
        path
    } else {
        let tail = path.subrange(i + 1, path.len() as int);
        if tail.len() == 0 {
            path
        } else {
            tail
        }
    }
}

/// Joining a base path and a component with a single `/` between them.
pub open spec fn join_path_model(base: Seq<char>, name: Seq<char>) -> Seq<char> {
    if base.len() > 0 && base.last() == '/' {
        base + name
    } else {
        base + "/"@ + name
    }
}

/// The final component of `path`, used as the display name of a project
/// folder; see [`file_name_model`].
pub fn file_name_of(path: &str) -> (r: String)
    ensures
        r@ == file_name_model(path@),
{
    proof {
        lemma_last_slash_index(path@);
    }
    let len = path.unicode_len();
    let mut i: usize = len;
    while i > 0
        invariant
            i <= len,
            len == path@.len(),
            forall|j: int| i <= j < len ==> path@[j] != '/',
        decreases i,
    {
        if path.get_char(i - 1) == '/' {
            proof {
                lemma_last_slash_index(path@);
                let lsi = last_slash_index(path@);
                assert(path@[i - 1] == '/');
                if lsi > i - 1 {
                    assert(path@[lsi] != '/');
                    assert(path@[lsi] == '/');
                }
                if lsi < i - 1 {
                    assert(path@[i - 1] != '/');
                }
                assert(lsi == i - 1);
            }
            let tail = path.substring_char(i, len);
            if tail.is_empty() {
                return path.to_owned();
            }
            return tail.to_owned();
        }
        i -= 1;
    }
    proof {
        assert(last_slash_index(path@) == -1);
    }
    path.to_owned()
}

/// Join a base path and a component with a single `/` between them; see
/// [`join_path_model`].
pub fn join_path(base: &str, name: &str) -> (r: String)
    ensures
        r@ == join_path_model(base@, name@),
{
    let len = base.unicode_len();
    if len > 0 && base.get_char(len - 1) == '/' {
        crate::textutil::concat2(base, name)
    } else {
        crate::textutil::concat3(base, "/", name)
    }
}

/// Where the persisted configuration lives under the given home directory.
pub fn config_file_path(home: &str) -> (r: String)
    ensures
        r@ == home@ + "/.config/vcc-tui/config.json"@,
{
    crate::textutil::concat2(home, "/.config/vcc-tui/config.json")
}

/// Where the cache directory lives under the given home directory.
pub fn cache_dir_path(home: &str) -> (r: String)
    ensures
        r@ == home@ + "/.cache/vcc-tui"@,
{
    crate::textutil::concat2(home, "/.cache/vcc-tui")
}

} // verus!
