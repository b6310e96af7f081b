//! A plain-string model of absolute file paths.
//!
//! The launcher resolves every resource named in its configuration against
//! the directory that holds the configuration file, so the UI layer only
//! ever sees absolute paths. Paths are modelled as plain strings with `/`
//! as the separator: joining appends a component, and taking the parent
//! strips the final component of a canonical file path.

use vstd::prelude::*;

verus! {

/// A path is absolute when it starts with the separator.
pub open spec fn is_absolute(p: Seq<char>) -> bool {
    p.len() > 0 && p[0] == '/'
}

/// What joining `rel` onto `base` yields: an absolute `rel` stands alone;
/// otherwise `rel` is appended to `base` with a separator between them
/// unless `base` already ends in one.
pub open spec fn join_text(base: Seq<char>, rel: Seq<char>) -> Seq<char> {
    if is_absolute(rel) {
        rel
    } else if base.len() > 0 && base.last() == '/' {
        base + rel
    } else {
        base + seq!['/'] + rel
    }
}

/// Resolve `rel` against the directory `base`.
pub fn join_path(base: &str, rel: &str) -> (r: String)
    ensures
        r@ == join_text(base@, rel@),
{
    let rel_len = rel.unicode_len();
    if rel_len > 0 && rel.get_char(0) == '/' {
        return String::from_str(rel);
    }
    let base_len = base.unicode_len();
    let mut out = String::from_str(base);
    if !(base_len > 0 && base.get_char(base_len - 1) == '/') {
        proof {
            reveal_strlit("/");
            assert("/"@ =~= seq!['/']);
        }
        out.append("/");
    }
    out.append(rel);
    out
}

/// Resolving any path against an absolute base yields an absolute path:
/// once the configuration's directory is canonical, the UI layer never
/// sees a relative resource path.
pub proof fn lemma_join_keeps_absolute(base: Seq<char>, rel: Seq<char>)
    requires
        is_absolute(base),
    ensures
        is_absolute(join_text(base, rel)),
{
}

/// `p` with trailing non-separator characters removed: the result is empty
/// or ends in `/`.
pub open spec fn strip_component(p: Seq<char>) -> Seq<char>
    decreases p.len(),
{
    if p.len() == 0 {
        p
    } else if p.last() == '/' {
        p
    } else {
        strip_component(p.drop_last())
    }
}

/// The directory that holds the file at canonical path `p`: everything up to
/// the final component, without the trailing separator except at the root.
/// A path with no separator at all has no parent and yields the empty string.
pub open spec fn parent_text(p: Seq<char>) -> Seq<char> {
    let q = strip_component(p);
    if q.len() <= 1 {
        q
    } else {
        q.drop_last()
    }
}

fn strip_component_of(p: &str) -> (r: String)
    ensures
        r@ == strip_component(p@),
    decreases p@.len(),
{
    let n = p.unicode_len();
    if n == 0 {
        String::new()
    } else if p.get_char(n - 1) == '/' {
        String::from_str(p)
    } else {
        let sub = p.substring_char(0, n - 1);
        proof {
            assert(sub@ =~= p@.drop_last());
        }
        strip_component_of(sub)
    }
}

/// Strip the final component from the canonical file path `p`, leaving the
/// directory that holds it.
pub fn parent_dir(p: &str) -> (r: String)
    ensures
        r@ == parent_text(p@),
{
    let q = strip_component_of(p);
    let qn = q.as_str().unicode_len();
    if qn <= 1 {
        q
    } else {
        let cut = q.as_str().substring_char(0, qn - 1);
        proof {
            assert(cut@ =~= strip_component(p@).drop_last());
        }
        String::from_str(cut)
    }
}

} // verus!
