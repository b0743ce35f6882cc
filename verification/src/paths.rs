//! Filesystem paths, held as text, and how one is appended to another.
//!
//! A path here is the text of a Unix path. Appending follows the rules of
//! `std::path::Path::join` on Unix: an absolute path (one that starts with `/`)
//! replaces the base; otherwise a `/` is put between the two unless the base is
//! empty or already ends with one.

use vstd::prelude::*;

use crate::text::chars_of;

verus! {

/// Whether the path `p` is absolute.
pub open spec fn is_absolute(p: Seq<char>) -> bool {
    p.len() > 0 && p[0] == '/'
}

/// Whether joining a relative path onto `base` puts a separator between them.
pub open spec fn needs_separator(base: Seq<char>) -> bool {
    base.len() > 0 && base.last() != '/'
}

/// The path `name` adjoined to `base`.
pub open spec fn spec_join(base: Seq<char>, name: Seq<char>) -> Seq<char> {
    if is_absolute(name) {
        name
    } else if needs_separator(base) {
        base + seq!['/'] + name
    } else {
        base + name
    }
}

/// `base` followed by the separator that a relative path would be joined with.
pub open spec fn dir_prefix(base: Seq<char>) -> Seq<char> {
    if needs_separator(base) {
        base + seq!['/']
    } else {
        base
    }
}

/// A relative name is appended after the base and its separator.
pub proof fn lemma_join_relative(base: Seq<char>, name: Seq<char>)
    requires
        !is_absolute(name),
    ensures
        spec_join(base, name) == dir_prefix(base) + name,
        dir_prefix(base).is_prefix_of(spec_join(base, name)),
        base.is_prefix_of(spec_join(base, name)),
{
    assert(dir_prefix(base).is_prefix_of(dir_prefix(base) + name));
    assert(base.is_prefix_of(dir_prefix(base)));
    assert(spec_join(base, name) =~= dir_prefix(base) + name);
}

/// An absolute name replaces the base altogether.
pub proof fn lemma_join_absolute(base: Seq<char>, name: Seq<char>)
    requires
        name.len() > 0,
        name[0] == '/',
    ensures
        spec_join(base, name) == name,
{
}

/// The separator put after a base: a `/` exactly when the base is not empty and
/// does not already end with one.
pub proof fn lemma_dir_prefix(base: Seq<char>)
    ensures
        base.len() == 0 ==> dir_prefix(base) == base,
        base.len() > 0 && base.last() == '/' ==> dir_prefix(base) == base,
        base.len() > 0 && base.last() != '/' ==> dir_prefix(base) == base.push('/'),
{
    assert(base + seq!['/'] =~= base.push('/'));
}

/// The path `name` adjoined to `base`, as `Path::new(base).join(name)` gives it
/// on Unix.
pub fn join(base: &str, name: &str) -> (r: String)
    ensures
        r@ == spec_join(base@, name@),
{
    let vn = chars_of(name);
    if vn.len() > 0 && vn[0] == '/' {
        return String::from_str(name);
    }
    let vb = chars_of(base);
    let mut r = String::from_str(base);
    if vb.len() > 0 && vb[vb.len() - 1] != '/' {
        proof {
            reveal_strlit("/");
        }
        r.append("/");
    }
    r.append(name);
    r
}

} // verus!
