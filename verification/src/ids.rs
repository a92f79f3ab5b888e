//! The promise id format, in one place.
//!
//! The server treats a promise id as `<origin>:<lineage>`: the **origin** is
//! everything before the first `:`, and the lineage segments below it are
//! `.`-separated:
//!
//! ```text
//! root -> root:1 -> root:1.1 -> root:1.1.1
//! ```
//!
//! The origin is load-bearing. `promise.register_callback` and `task.suspend`
//! require an awaiter and its awaited promise to share one ([`share_origin`]),
//! and `promise.create` rejects an id that does not extend the
//! `resonate:origin`, `resonate:branch` or `resonate:parent` that it declares
//! ([`extends_id`]).
//!
//! Ids are minted with [`join_id`] and read back with [`origin_of`]. A root id
//! is supplied by the caller and becomes the origin of its whole lineage, so
//! [`validate_root_id`] keeps both separators out of it.
use vstd::prelude::*;
use vstd::string::*;

use crate::error::Error;
use crate::text::{contains_char, find_char, joined, same_text};

verus! {

/// Separates the origin from the lineage below it. A bare root joins its
/// first lineage segment with this.
pub const ORIGIN_SEP: char = ':';

/// Separates lineage segments below the origin.
pub const LINEAGE_SEP: char = '.';

/// The id of the child that `segment` names below `ancestor`.
pub open spec fn child_id(ancestor: Seq<char>, segment: Seq<char>) -> Seq<char> {
    let sep = if ancestor.contains(ORIGIN_SEP) {
        LINEAGE_SEP
    } else {
        ORIGIN_SEP
    };
    ancestor + seq![sep] + segment
}

/// The part of an id before its first `:`.
pub open spec fn origin(id: Seq<char>) -> Seq<char> {
    id.take(crate::text::first_index(id, ORIGIN_SEP))
}

/// Whether two ids live under one origin.
pub open spec fn same_origin(left: Seq<char>, right: Seq<char>) -> bool {
    origin(left) == origin(right)
}

/// Whether an id is `ancestor` or lies below it.
pub open spec fn extends(id: Seq<char>, ancestor: Seq<char>) -> bool {
    id == ancestor || exists|segment: Seq<char>| id == #[trigger] child_id(ancestor, segment)
}

/// Whether a text holds one of the separators, which an origin must not.
pub open spec fn has_separator(text: Seq<char>) -> bool {
    text.contains(LINEAGE_SEP) || text.contains(ORIGIN_SEP)
}

/// Why an id cannot be a root, if it cannot.
pub open spec fn root_id_fault(id: Seq<char>) -> Option<Seq<char>> {
    if id.len() == 0 {
        Some("id must not be empty"@)
    } else if id.contains('\0') {
        Some("id must not contain null bytes"@)
    } else if id.contains(LINEAGE_SEP) {
        Some(
            "id must not contain '.': it is reserved as a lineage separator in the ids the SDK mints below this one"@,
        )
    } else if id.contains(ORIGIN_SEP) {
        Some(
            "id must not contain ':': it is reserved as a lineage separator in the ids the SDK mints below this one"@,
        )
    } else {
        None
    }
}

/// Append a lineage `segment` to `ancestor`.
///
/// A bare root joins its *first* segment with `:`; an ancestor that already
/// carries lineage joins deeper segments with `.`, keeping the whole subtree
/// under one origin:
///
/// ```text
/// join_id("root", "1")     -> "root:1"
/// join_id("root:1", "2")   -> "root:1.2"
/// join_id("root:1.2", "3") -> "root:1.2.3"
/// ```
pub fn join_id(ancestor: &str, segment: &str) -> (id: String)
    ensures
        id@ == child_id(ancestor@, segment@),
{
    proof {
        reveal_strlit(".");
        reveal_strlit(":");
    }
    let sep = if contains_char(ancestor, ORIGIN_SEP) {
        "."
    } else {
        ":"
    };
    assert(sep@ =~= seq![sep@[0]]);
    let mut id = joined(ancestor, sep);
    id.append(segment);
    id
}

/// Return the lineage origin of `id`: everything before the first `:`.
///
/// An id with no lineage below it (a root) is its own origin.
pub fn origin_of(id: &str) -> (root: &str)
    ensures
        root@ == origin(id@),
{
    let end: usize = find_char(id, ORIGIN_SEP);
    proof {
        crate::text::lemma_first_index(id@, ORIGIN_SEP);
    }
    id.substring_char(0, end)
}

/// Whether two ids live under one origin.
pub fn share_origin(left: &str, right: &str) -> (same: bool)
    ensures
        same == same_origin(left@, right@),
{
    same_text(origin_of(left), origin_of(right))
}

/// Whether `id` is `ancestor` or lies below it.
pub fn extends_id(id: &str, ancestor: &str) -> (below: bool)
    ensures
        below == extends(id@, ancestor@),
{
    let start: usize = ancestor.unicode_len();
    let total: usize = id.unicode_len();
    if total <= start {
        proof {
            assert forall|segment: Seq<char>| id@ != #[trigger] child_id(ancestor@, segment) by {
                assert(child_id(ancestor@, segment).len() > start);
            }
        }
        return same_text(id, ancestor);
    }
    proof {
        reveal_strlit(".");
        reveal_strlit(":");
    }
    let sep = if contains_char(ancestor, ORIGIN_SEP) {
        "."
    } else {
        ":"
    };
    let lead = id.substring_char(0, start);
    let next = id.substring_char(start, start + 1);
    let below = same_text(lead, ancestor) && same_text(next, sep);
    proof {
        let rest = id@.skip(start + 1);
        assert(id@ =~= lead@ + next@ + rest);
        if below {
            assert(sep@ =~= seq![sep@[0]]);
            assert(id@ =~= child_id(ancestor@, rest));
        }
        if extends(id@, ancestor@) {
            let segment = choose|segment: Seq<char>| id@ == #[trigger] child_id(ancestor@, segment);
            assert(lead@ =~= ancestor@);
            assert(next@ =~= sep@);
        }
    }
    below
}

/// Whether a text holds one of the separators.
pub fn holds_separator(text: &str) -> (found: bool)
    ensures
        found == has_separator(text@),
{
    contains_char(text, LINEAGE_SEP) || contains_char(text, ORIGIN_SEP)
}

/// The error for a root id that is refused for `reason`.
fn invalid_id(id: &str, reason: &str) -> (e: Error)
    ensures
        e matches Error::InvalidId { id: i, reason: r } && i@ == id@ && r@ == reason@,
{
    Error::InvalidId { id: id.to_owned(), reason: reason.to_owned() }
}

/// Validate a caller-supplied root id (`run` / `rpc` / `schedule`).
///
/// Both separators are **reserved**: a root becomes the origin of its whole
/// lineage, `.` separates lineage segments, and the origin is everything
/// before an id's *first* `:`, so an origin holding one could never be split
/// back out of any id.
pub fn validate_root_id(id: &str) -> (verdict: Result<(), Error>)
    ensures
        match root_id_fault(id@) {
            None => verdict is Ok,
            Some(why) => verdict matches Err(Error::InvalidId { id: i, reason: r }) && i@ == id@
                && r@ == why,
        },
{
    if id.is_empty() {
        return Err(invalid_id(id, "id must not be empty"));
    }
    if contains_char(id, '\0') {
        return Err(invalid_id(id, "id must not contain null bytes"));
    }
    if contains_char(id, LINEAGE_SEP) {
        return Err(
            invalid_id(
                id,
                "id must not contain '.': it is reserved as a lineage separator in the ids the SDK mints below this one",
            ),
        );
    }
    if contains_char(id, ORIGIN_SEP) {
        return Err(
            invalid_id(
                id,
                "id must not contain ':': it is reserved as a lineage separator in the ids the SDK mints below this one",
            ),
        );
    }
    Ok(())
}

/// A child has the origin of its ancestor, whatever the segment holds: a whole
/// subtree lives under one origin.
pub proof fn lemma_child_keeps_origin(ancestor: Seq<char>, segment: Seq<char>)
    ensures
        origin(child_id(ancestor, segment)) == origin(ancestor),
{
    let child = child_id(ancestor, segment);
    let at = crate::text::first_index(ancestor, ORIGIN_SEP);
    crate::text::lemma_first_index(ancestor, ORIGIN_SEP);
    assert forall|k: int| 0 <= k < at implies child[k] != ORIGIN_SEP by {
        assert(child[k] == ancestor[k]);
    }
    if at < ancestor.len() {
        assert(child[at] == ancestor[at]);
    } else {
        assert(child[at] == ORIGIN_SEP);
    }
    crate::text::lemma_first_index_at(child, ORIGIN_SEP, at);
    assert(child.take(at) =~= ancestor.take(at));
}

/// A child always carries lineage, and extends the id of its ancestor.
pub proof fn lemma_child_extends_ancestor(ancestor: Seq<char>, segment: Seq<char>)
    ensures
        child_id(ancestor, segment).contains(ORIGIN_SEP),
        child_id(ancestor, segment).len() == ancestor.len() + 1 + segment.len(),
        child_id(ancestor, segment).take(ancestor.len() as int) == ancestor,
{
    let child = child_id(ancestor, segment);
    assert(child.take(ancestor.len() as int) =~= ancestor);
    if ancestor.contains(ORIGIN_SEP) {
        let k = choose|k: int| 0 <= k < ancestor.len() && ancestor[k] == ORIGIN_SEP;
        assert(child[k] == ORIGIN_SEP);
    } else {
        assert(child[ancestor.len() as int] == ORIGIN_SEP);
    }
}

/// Two children of one ancestor have the same id only where they have the same
/// segment.
pub proof fn lemma_segments_name_children(ancestor: Seq<char>, left: Seq<char>, right: Seq<char>)
    requires
        child_id(ancestor, left) == child_id(ancestor, right),
    ensures
        left == right,
{
    let n = ancestor.len() + 1;
    assert(child_id(ancestor, left).skip(n as int) =~= left);
    assert(child_id(ancestor, right).skip(n as int) =~= right);
}

/// A valid root id is its own origin, and the origin of every child below it.
pub proof fn lemma_valid_root_is_origin(root: Seq<char>, segment: Seq<char>)
    requires
        root_id_fault(root) is None,
    ensures
        origin(root) == root,
        origin(child_id(root, segment)) == root,
{
    crate::text::lemma_first_index(root, ORIGIN_SEP);
    assert(root.take(root.len() as int) =~= root);
    lemma_child_keeps_origin(root, segment);
}

/// An id that extends another lives under its origin.
pub proof fn lemma_extension_keeps_origin(id: Seq<char>, ancestor: Seq<char>)
    requires
        extends(id, ancestor),
    ensures
        same_origin(id, ancestor),
{
    if id != ancestor {
        let segment = choose|segment: Seq<char>| id == #[trigger] child_id(ancestor, segment);
        lemma_child_keeps_origin(ancestor, segment);
    }
}

/// What lies below a descendant lies below its ancestor.
pub proof fn lemma_extension_is_transitive(id: Seq<char>, middle: Seq<char>, ancestor: Seq<char>)
    requires
        extends(id, middle),
        extends(middle, ancestor),
    ensures
        extends(id, ancestor),
{
    if id != middle && middle != ancestor {
        let low = choose|segment: Seq<char>| id == #[trigger] child_id(middle, segment);
        let high = choose|segment: Seq<char>| middle == #[trigger] child_id(ancestor, segment);
        let through = id.skip((ancestor.len() + 1) as int);
        assert(id =~= child_id(ancestor, through));
    }
}

/// An id that extends an origin without separators has that origin.
pub proof fn lemma_declared_origin(id: Seq<char>, declared: Seq<char>)
    requires
        extends(id, declared),
        !has_separator(declared),
    ensures
        origin(id) == declared,
{
    crate::text::lemma_first_index(declared, ORIGIN_SEP);
    assert(declared.take(declared.len() as int) =~= declared);
    lemma_extension_keeps_origin(id, declared);
}

/// A child is named behind its ancestor: after a colon where the ancestor is a bare root,
/// after a dot where it carries lineage already.
pub proof fn lemma_child_is_named_behind(ancestor: &str, segment: &str, id: String)
    requires
        call_ensures(join_id, (ancestor, segment), id),
    ensures
        id@.len() == ancestor@.len() + 1 + segment@.len(),
        forall|i: int| 0 <= i < ancestor@.len() ==> id@[i] == #[trigger] ancestor@[i],
        id@[ancestor@.len() as int] == if ancestor@.contains(':') {
            '.'
        } else {
            ':'
        },
        forall|i: int|
            0 <= i < segment@.len() ==> id@[ancestor@.len() + 1 + i] == #[trigger] segment@[i],
{
}

/// The origin of an id is what stands before its first colon, or all of it.
pub proof fn lemma_origin_is_before_the_colon(id: &str, root: &str)
    requires
        call_ensures(origin_of, (id,), root),
    ensures
        root@.len() <= id@.len(),
        forall|i: int| 0 <= i < root@.len() ==> #[trigger] root@[i] == id@[i] && root@[i] != ':',
        root@.len() < id@.len() ==> id@[root@.len() as int] == ':',
{
    crate::text::lemma_first_index(id@, ORIGIN_SEP);
}

/// An id can be a root exactly where it is not empty and holds neither a null byte nor a
/// separator; otherwise it is refused by name.
pub proof fn lemma_roots(id: &str, verdict: Result<(), Error>)
    requires
        call_ensures(validate_root_id, (id,), verdict),
    ensures
        verdict is Ok <==> id@.len() > 0 && !id@.contains('\0') && !id@.contains('.')
            && !id@.contains(':'),
        verdict matches Err(e) ==> (e matches Error::InvalidId { id: i, .. } && i@ == id@),
{
}

/// An id lies below an ancestor exactly where it is the ancestor, or goes on behind it
/// with the separator that a child of the ancestor has.
pub proof fn lemma_extends(id: &str, ancestor: &str, below: bool)
    requires
        call_ensures(extends_id, (id, ancestor), below),
    ensures
        below <==> id@ == ancestor@ || {
            &&& id@.len() > ancestor@.len()
            &&& id@.take(ancestor@.len() as int) == ancestor@
            &&& id@[ancestor@.len() as int] == if ancestor@.contains(':') {
                '.'
            } else {
                ':'
            }
        },
{
    let n = ancestor@.len() as int;
    if below && id@ != ancestor@ {
        let segment = choose|segment: Seq<char>| id@ == #[trigger] child_id(ancestor@, segment);
        assert(id@.take(n) =~= ancestor@);
    }
    if id@.len() > n && id@.take(n) == ancestor@ {
        let rest = id@.skip(n + 1);
        assert(id@ =~= ancestor@ + seq![id@[n]] + rest);
        if id@[n] == if ancestor@.contains(':') {
            '.'
        } else {
            ':'
        } {
            assert(id@ == child_id(ancestor@, rest));
        }
    }
}

} // verus!
