//! Removing the empty root tags from XML output.
//!
//! When no root element name is given, the XML encoder serializes under an
//! empty tag name and the literal markers `<>` and `</>` are then removed
//! from the text. The removal here keeps taking markers out until none is
//! left, so the final text provably contains neither substring.

use vstd::prelude::*;

verus! {

/// Whether a marker (`<>` or `</>`) starts at position `i` of `s`.
pub open spec fn marker_at(s: Seq<char>, i: int) -> bool {
    (0 <= i && i + 2 <= s.len() && s[i] == '<' && s[i + 1] == '>') || (0 <= i && i + 3 <= s.len()
        && s[i] == '<' && s[i + 1] == '/' && s[i + 2] == '>')
}

/// Whether `s` contains a marker anywhere.
pub open spec fn has_marker(s: Seq<char>) -> bool {
    exists|i: int| marker_at(s, i)
}

/// The text with every marker removed: each character is appended in turn,
/// and whenever the accumulated text ends in a marker, the marker is taken
/// off again.
pub open spec fn strip_spec(s: Seq<char>) -> Seq<char>
    decreases s.len(),
{
    if s.len() == 0 {
        Seq::empty()
    } else {
        let prev = strip_spec(s.drop_last());
        let c = s.last();
        if c == '>' && prev.len() >= 1 && prev.last() == '<' {
            prev.subrange(0, prev.len() - 1)
        } else if c == '>' && prev.len() >= 2 && prev[prev.len() - 2] == '<' && prev.last() == '/' {
            prev.subrange(0, prev.len() - 2)
        } else {
            prev.push(c)
        }
    }
}

/// A prefix of marker-free text is marker-free.
proof fn lemma_prefix_no_marker(s: Seq<char>, k: int)
    requires
        !has_marker(s),
        0 <= k <= s.len(),
    ensures
        !has_marker(s.subrange(0, k)),
{
    let t = s.subrange(0, k);
    assert forall|i: int| !marker_at(t, i) by {
        if marker_at(t, i) {
            assert(marker_at(s, i));
        }
    }
}

/// The stripped text contains no marker.
pub proof fn lemma_strip_no_marker(s: Seq<char>)
    ensures
        !has_marker(strip_spec(s)),
    decreases s.len(),
{
    if s.len() == 0 {
        assert forall|i: int| !marker_at(strip_spec(s), i) by {}
    } else {
        lemma_strip_no_marker(s.drop_last());
        let prev = strip_spec(s.drop_last());
        let c = s.last();
        let q = strip_spec(s);
        if c == '>' && prev.len() >= 1 && prev.last() == '<' {
            lemma_prefix_no_marker(prev, prev.len() - 1);
        } else if c == '>' && prev.len() >= 2 && prev[prev.len() - 2] == '<' && prev.last()
            == '/' {
            lemma_prefix_no_marker(prev, prev.len() - 2);
        } else {
            // Appending `c` could only create a marker that ends at `c`, and
            // the two rejected branches are exactly those cases.
            assert forall|i: int| !marker_at(q, i) by {
                if marker_at(q, i) {
                    if i + 2 == q.len() && q[i] == '<' && q[i + 1] == '>' {
                    } else if i + 3 == q.len() && q[i] == '<' && q[i + 1] == '/' && q[i + 2]
                        == '>' {
                    } else {
                        assert(marker_at(prev, i));
                    }
                }
            }
        }
    }
}

/// Stripping marker-free text gives it back unchanged.
pub proof fn lemma_strip_identity(s: Seq<char>)
    requires
        !has_marker(s),
    ensures
        strip_spec(s) == s,
    decreases s.len(),
{
    if s.len() == 0 {
        assert(strip_spec(s) =~= s);
    } else {
        lemma_prefix_no_marker(s, s.len() - 1);
        lemma_strip_identity(s.drop_last());
        let prev = strip_spec(s.drop_last());
        let c = s.last();
        if c == '>' && prev.len() >= 1 && prev.last() == '<' {
            assert(marker_at(s, s.len() - 2));
        } else if c == '>' && prev.len() >= 2 && prev[prev.len() - 2] == '<' && prev.last()
            == '/' {
            assert(marker_at(s, s.len() - 3));
        } else {
            assert(prev.push(c) =~= s);
        }
    }
}

/// Removes every `<>` and `</>` from `s`, as [`strip_spec`] describes.
pub fn strip_markers(s: &[char]) -> (r: Vec<char>)
    ensures
        r@ == strip_spec(s@),
        !has_marker(r@),
{
    let mut out: Vec<char> = Vec::new();
    let mut i: usize = 0;
    while i < s.len()
        invariant
            i <= s@.len(),
            out@ == strip_spec(s@.subrange(0, i as int)),
        decreases s@.len() - i,
    {
        proof {
            assert(s@.subrange(0, i + 1).drop_last() =~= s@.subrange(0, i as int));
            assert(s@.subrange(0, i + 1).last() == s@[i as int]);
        }
        let c = s[i];
        if c == '>' && out.len() >= 1 && out[out.len() - 1] == '<' {
            out.pop();
        } else if c == '>' && out.len() >= 2 && out[out.len() - 2] == '<' && out[out.len() - 1]
            == '/' {
            out.pop();
            out.pop();
            proof {
                let prev = strip_spec(s@.subrange(0, i as int));
                assert(out@ =~= prev.subrange(0, prev.len() - 2));
            }
        } else {
            out.push(c);
        }
        i += 1;
    }
    proof {
        assert(s@.subrange(0, s@.len() as int) =~= s@);
        lemma_strip_no_marker(s@);
    }
    out
}

} // verus!
