//! Extracting the extension from a path, the way the format resolver reads
//! one: the text after the last `.` of the final path component, provided
//! that `.` is not the component's first character.

use vstd::prelude::*;

verus! {

/// Whether the character ends a file extension search: a `.` separates an
/// extension, a `/` ends the final path component.
pub open spec fn is_marker(c: char) -> bool {
    c == '.' || c == '/'
}

/// The index of the last `.` or `/` in `p`, or `-1` when there is none.
pub open spec fn last_marker(p: Seq<char>) -> int
    decreases p.len(),
{
    if p.len() == 0 {
        -1
    } else if is_marker(p.last()) {
        p.len() - 1
    } else {
        last_marker(p.drop_last())
    }
}

/// `last_marker` names the largest marker index, and `-1` exactly when no
/// marker occurs.
pub proof fn lemma_last_marker(p: Seq<char>)
    ensures
        last_marker(p) < p.len(),
        last_marker(p) >= 0 ==> is_marker(p[last_marker(p)]),
        last_marker(p) == -1 || last_marker(p) >= 0,
        forall|j: int| last_marker(p) < j < p.len() ==> !is_marker(p[j]),
    decreases p.len(),
{
    if p.len() == 0 {
    } else if is_marker(p.last()) {
    } else {
        lemma_last_marker(p.drop_last());
        assert forall|j: int| last_marker(p) < j < p.len() implies !is_marker(p[j]) by {
            if j < p.len() - 1 {
                assert(p[j] == p.drop_last()[j]);
            }
        }
    }
}

/// The extension of `p`: what follows the last `.`, provided that `.` lies
/// after every `/` and is not the first character of the final path
/// component. A trailing `.` yields an empty extension; a component that
/// starts with its only `.` (a hidden file) has none.
pub open spec fn spec_extension(p: Seq<char>) -> Option<Seq<char>> {
    let i = last_marker(p);
    if i > 0 && p[i] == '.' && p[i - 1] != '/' {
        Some(p.subrange(i + 1, p.len() as int))
    } else {
        None
    }
}

/// Extracts the extension of `path` under the rule of [`spec_extension`].
pub fn extension_of(path: &[char]) -> (r: Option<Vec<char>>)
    ensures
        r is Some <==> spec_extension(path@) is Some,
        r is Some ==> r.unwrap()@ == spec_extension(path@).unwrap(),
{
    proof {
        lemma_last_marker(path@);
    }
    let n = path.len();
    let mut k: usize = n;
    while k > 0
        invariant
            k <= n,
            n == path@.len(),
            forall|j: int| k <= j < n ==> !is_marker(path@[j]),
        decreases k,
    {
        let c = path[k - 1];
        if c == '.' || c == '/' {
            proof {
                // The scan stopped at the largest marker index, which is
                // therefore the one the specification names.
                lemma_last_marker(path@);
                assert(is_marker(path@[k - 1]));
                assert(last_marker(path@) == k - 1) by {
                    if last_marker(path@) > k - 1 {
                        assert(!is_marker(path@[last_marker(path@)]));
                    }
                    if last_marker(path@) < k - 1 {
                        assert(!is_marker(path@[k - 1]));
                    }
                }
            }
            if c == '.' && k >= 2 && path[k - 2] != '/' {
                let mut ext: Vec<char> = Vec::new();
                let mut j: usize = k;
                while j < n
                    invariant
                        k <= j <= n,
                        n == path@.len(),
                        ext@ == path@.subrange(k as int, j as int),
                    decreases n - j,
                {
                    ext.push(path[j]);
                    proof {
                        assert(ext@ =~= path@.subrange(k as int, j + 1));
                    }
                    j += 1;
                }
                return Some(ext);
            } else {
                return None;
            }
        }
        k -= 1;
    }
    proof {
        // No marker at all, so the specification yields nothing.
        assert(last_marker(path@) == -1) by {
            if last_marker(path@) >= 0 {
                assert(!is_marker(path@[last_marker(path@)]));
            }
        }
    }
    None
}

} // verus!
