//! Small verified helpers on text: exact equality of strings and joining of
//! path components the way a Unix path is extended.
use vstd::prelude::*;
use vstd::string::StringSliceAdditionalSpecFns;

verus! {

/// Whether two strings hold the same characters.
pub fn str_eq(a: &str, b: &str) -> (same: bool)
    ensures
        same == (a@ == b@),
{
    let ab = a.as_bytes();
    let bb = b.as_bytes();
    if ab.len() != bb.len() {
        return false;
    }
    let mut i: usize = 0;
    while i < ab.len()
        invariant
            ab@ == a.spec_bytes(),
            bb@ == b.spec_bytes(),
            ab@.len() == bb@.len(),
            i <= ab@.len(),
            forall|j: int| 0 <= j < i ==> ab@[j] == bb@[j],
        decreases ab@.len() - i,
    {
        if ab[i] != bb[i] {
            return false;
        }
        i = i + 1;
    }
    assert(ab@ =~= bb@);
    proof {
        vstd::utf8::encode_utf8_decode_utf8(a@);
        vstd::utf8::encode_utf8_decode_utf8(b@);
    }
    true
}

/// The path that results from extending `base` by `child`: an absolute
/// `child` replaces `base`, an empty `base` gives `child`, and otherwise
/// a single `/` separates the two unless `base` already ends with one.
pub open spec fn joined_path(base: Seq<char>, child: Seq<char>) -> Seq<char> {
    if child.len() > 0 && child[0] == '/' {
        child
    } else if base.len() == 0 {
        child
    } else if base.last() == '/' {
        base + child
    } else {
        base + seq!['/'] + child
    }
}

/// Extends the path `base` by the component `child`.
pub fn join_path(base: &str, child: &str) -> (joined: String)
    ensures
        joined@ == joined_path(base@, child@),
{
    let child_len = child.unicode_len();
    if child_len > 0 && child.get_char(0) == '/' {
        return child.to_owned();
    }
    let base_len = base.unicode_len();
    if base_len == 0 {
        return child.to_owned();
    }
    let owned = base.to_owned();
    if base.get_char(base_len - 1) == '/' {
        owned.concat(child)
    } else {
        let sep = "/";
        proof {
            reveal_strlit("/");
        }
        let with_sep = owned.concat(sep);
        with_sep.concat(child)
    }
}

/// Extending a path by a relative component keeps the path as a prefix and
/// ends with the component, with exactly one separator between the two when
/// the path is not empty.
pub proof fn joining_keeps_base_and_appends_child(base: Seq<char>, child: Seq<char>)
    requires
        child.len() > 0,
        child[0] != '/',
    ensures
        joined_path(base, child).subrange(0, base.len() as int) == base,
        joined_path(base, child).subrange(
            joined_path(base, child).len() - child.len(),
            joined_path(base, child).len() as int,
        ) == child,
        base.len() > 0 ==> joined_path(base, child)[joined_path(base, child).len() - child.len()
            - 1] == '/',
        base.len() > 0 ==> joined_path(base, child).len() == if base.last() == '/' {
            base.len() + child.len()
        } else {
            base.len() + child.len() + 1
        },
        base.len() == 0 ==> joined_path(base, child) == child,
{
    let j = joined_path(base, child);
    assert(j.subrange(0, base.len() as int) =~= base);
    assert(j.subrange(j.len() - child.len(), j.len() as int) =~= child);
}

} // verus!
