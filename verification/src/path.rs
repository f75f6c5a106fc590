//! Unix paths as byte strings.

use vstd::prelude::*;

verus! {

/// The byte that separates path components.
pub const SEPARATOR: u8 = 0x2f;

/// The byte whose component means the current directory.
pub const DOT: u8 = 0x2e;

/// Whether a path starts at the root directory.
pub open spec fn is_rooted(path: Seq<u8>) -> bool {
    path.len() > 0 && path[0] == SEPARATOR
}

/// Where the piece of `path` that starts at `from` ends: at the next separator, or at the end.
pub open spec fn piece_end(path: Seq<u8>, from: int) -> int
    decreases path.len() - from,
{
    if from < 0 || from >= path.len() || path[from] == SEPARATOR {
        from
    } else {
        piece_end(path, from + 1)
    }
}

/// The number of components in the rest of `path` from `from` on. Empty pieces, which
/// repeated and trailing separators leave, do not count; a lone dot counts only where the
/// path starts with it.
pub open spec fn components_from(path: Seq<u8>, from: int) -> nat
    decreases path.len() + 1 - from,
    via components_from_decreases
{
    if from < 0 || from >= path.len() {
        0
    } else {
        let end = piece_end(path, from);
        let lone_dot = end == from + 1 && path[from] == DOT;
        let counted: nat = if end == from || (lone_dot && from > 0) {
            0
        } else {
            1
        };
        counted + components_from(path, end + 1)
    }
}

#[via_fn]
proof fn components_from_decreases(path: Seq<u8>, from: int) {
    if 0 <= from < path.len() {
        lemma_piece_end(path, from);
    }
}

/// The number of components of a path: the root directory, if the path starts there, and
/// the pieces that count.
pub open spec fn component_count(path: Seq<u8>) -> nat {
    if is_rooted(path) {
        1 + components_from(path, 1)
    } else {
        components_from(path, 0)
    }
}

proof fn lemma_piece_end(path: Seq<u8>, from: int)
    requires
        0 <= from <= path.len(),
    ensures
        from <= piece_end(path, from) <= path.len(),
        forall|i: int| from <= i < piece_end(path, from) ==> #[trigger] path[i] != SEPARATOR,
        piece_end(path, from) < path.len() ==> path[piece_end(path, from)] == SEPARATOR,
    decreases path.len() - from,
{
    if from < path.len() && path[from] != SEPARATOR {
        lemma_piece_end(path, from + 1);
    }
}

/// Whether the byte of `path` at `i` is a piece of its own and a dot.
pub open spec fn is_lone_dot(path: Seq<u8>, i: int) -> bool {
    &&& path[i] == 0x2e
    &&& i == 0 || path[i - 1] == 0x2f
    &&& i + 1 == path.len() || path[i + 1] == 0x2f
}

/// Whether the byte of `path` at `i` belongs to a piece that is neither empty nor a lone dot.
pub open spec fn names_something(path: Seq<u8>, i: int) -> bool {
    0 <= i < path.len() && path[i] != 0x2f && !is_lone_dot(path, i)
}

proof fn lemma_components_from(path: Seq<u8>, from: int)
    requires
        0 < from <= path.len(),
        path[from - 1] == SEPARATOR,
    ensures
        components_from(path, from) > 0 <==> exists|i: int|
            from <= i && #[trigger] names_something(path, i),
    decreases path.len() - from,
{
    if from < path.len() {
        lemma_piece_end(path, from);
        let end = piece_end(path, from);
        let lone_dot = end == from + 1 && path[from] == DOT;
        if end == from || lone_dot {
            assert(!names_something(path, from));
            if end < path.len() {
                lemma_components_from(path, end + 1);
                assert forall|i: int| from <= i && #[trigger] names_something(path, i) implies end + 1
                    <= i by {
                    assert(i != end);
                }
            } else {
                assert(components_from(path, end + 1) == 0);
            }
        } else {
            assert(path[from] != SEPARATOR);
            if path[from] == DOT {
                assert(path[from + 1] != SEPARATOR);
            }
            assert(names_something(path, from));
        }
    }
}

/// Whether a separator stands before the byte of `path` at `i`.
pub open spec fn behind_a_separator(path: Seq<u8>, i: int) -> bool {
    exists|j: int| 0 <= j < i && #[trigger] path[j] == 0x2f
}

/// A path that does not start at the root directory has several components exactly where some
/// piece behind a separator is neither empty nor a lone dot. So a bare name has one, also with
/// separators behind it, and a name in a directory has two or more.
pub proof fn law_several_components_need_a_named_piece_behind_a_separator(path: Seq<u8>)
    requires
        path.len() > 0 ==> path[0] != 0x2f,
    ensures
        component_count(path) > 1 <==> exists|i: int| #[trigger]
            names_something(path, i) && behind_a_separator(path, i),
        component_count(path) == 0 <==> path.len() == 0,
{
    if path.len() > 0 {
        lemma_piece_end(path, 0);
        let end = piece_end(path, 0);
        assert(end > 0);
        assert(component_count(path) == 1 + components_from(path, end + 1));
        assert forall|i: int| #[trigger]
            names_something(path, i) && behind_a_separator(path, i) implies end < path.len() && end
            + 1 <= i by {
            let j = choose|j: int| 0 <= j < i && #[trigger] path[j] == 0x2f;
            assert(j >= end);
        }
        if end < path.len() {
            lemma_components_from(path, end + 1);
            assert(path[end] == 0x2f);
            if components_from(path, end + 1) > 0 {
                let i = choose|i: int| end + 1 <= i && #[trigger] names_something(path, i);
                assert(names_something(path, i) && behind_a_separator(path, i));
            }
        } else {
            assert(components_from(path, end + 1) == 0);
        }
    }
}

/// A path starts at the root directory exactly where it starts with a separator, and it then has
/// that directory as a component.
pub proof fn law_rooted_paths_start_with_a_separator(path: Seq<u8>)
    ensures
        is_rooted(path) <==> path.len() > 0 && path[0] == 0x2f,
        is_rooted(path) ==> component_count(path) >= 1,
{
}

/// Whether a path starts at the root directory.
pub fn rooted(path: &[u8]) -> (rooted: bool)
    ensures
        rooted == is_rooted(path@),
{
    path.len() > 0 && path[0] == SEPARATOR
}

/// Counts the components of a path.
pub fn count_components(path: &[u8]) -> (count: usize)
    ensures
        count == component_count(path@),
{
    let length: usize = path.len();
    let mut count: usize = 0;
    let mut from: usize = 0;
    if rooted(path) {
        count = 1;
        from = 1;
    }
    while from < length
        invariant
            length == path@.len(),
            count <= from,
            from <= length,
            count + components_from(path@, from as int) == component_count(path@),
        decreases length - from,
    {
        let mut end: usize = from;
        while end < length && path[end] != SEPARATOR
            invariant
                length == path@.len(),
                from <= end <= length,
                piece_end(path@, from as int) == piece_end(path@, end as int),
            decreases length - end,
        {
            end = end + 1;
        }
        let lone_dot = end == from + 1 && path[from] == DOT;
        if !(end == from || (lone_dot && from > 0)) {
            count = count + 1;
        }
        if end == length {
            assert(components_from(path@, end + 1) == 0);
            return count;
        }
        from = end + 1;
    }
    count
}

} // verus!
