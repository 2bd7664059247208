//! The route table: which operation a request method and path stand for.
//!
//! Every route lies under `/api`. Below that prefix a path is read as its
//! segments, the runs of bytes between slashes, so that a trailing slash or
//! a doubled one changes nothing.

use crate::product::routes::scoped_product;
use vstd::prelude::*;
use vstd::slice::slice_subrange;
use vstd::string::*;

verus! {

/// The byte that parts the segments of a path.
pub const SLASH: u8 = 47;

/// The method of a request, as far as the route table tells methods apart.
#[derive(Debug, Clone, Copy, PartialEq, Eq)]
pub enum Method {
    Get,
    Post,
    Put,
    Delete,
    /// Any other method; no route takes it.
    Other,
}

/// The operation a request stands for.
#[derive(Debug, Clone, Copy, PartialEq, Eq)]
pub enum Route {
    GetAllProducts,
    InsertProduct,
    GetSingleProduct(u32),
    DeleteProduct(u32),
    UpdateProduct(u32),
    Ping,
}

/// The segments of a path: its maximal runs of bytes other than the slash,
/// from left to right. Read byte by byte, a slash ends the segment before
/// it, a byte after a slash or at the start begins one, and any other byte
/// lengthens the last.
pub open spec fn segments(path: Seq<u8>) -> Seq<Seq<u8>>
    decreases path.len(),
{
    if path.len() == 0 {
        Seq::empty()
    } else {
        let before = segments(path.drop_last());
        if path.last() == SLASH {
            before
        } else if path.len() >= 2 && path[path.len() - 2] != SLASH {
            before.drop_last().push(before.last().push(path.last()))
        } else {
            before.push(seq![path.last()])
        }
    }
}

/// What a list of slices reads as: the bytes of each, in order.
pub open spec fn slices_view(slices: Seq<&[u8]>) -> Seq<Seq<u8>> {
    Seq::new(slices.len(), |k: int| slices[k]@)
}

/// The prefix under which every route lies.
pub open spec fn scope_prefix() -> Seq<u8> {
    "/api".spec_bytes()
}

/// True where `path` lies under the prefix: it starts with it, and the
/// prefix is followed by a slash or by nothing.
pub open spec fn in_scope(path: Seq<u8>) -> bool {
    &&& scope_prefix().is_prefix_of(path)
    &&& (path.len() == scope_prefix().len() || path[scope_prefix().len() as int] == SLASH)
}

/// The segment of the health check.
pub open spec fn ping_segment() -> Seq<u8> {
    "ping".spec_bytes()
}

/// True where the two slices hold the same bytes.
pub fn bytes_equal(left: &[u8], right: &[u8]) -> (res: bool)
    ensures
        res == (left@ == right@),
{
    if left.len() != right.len() {
        return false;
    }
    let mut i: usize = 0;
    while i < left.len()
        invariant
            left@.len() == right@.len(),
            i <= left@.len(),
            forall|k: int| 0 <= k < i ==> left@[k] == right@[k],
        decreases left.len() - i,
    {
        if left[i] != right[i] {
            return false;
        }
        i += 1;
    }
    assert(left@ =~= right@);
    true
}

/// Splits a path into its segments.
pub fn split_path<'a>(path: &'a [u8]) -> (res: Vec<&'a [u8]>)
    ensures
        slices_view(res@) == segments(path@),
{
    let mut done: Vec<&'a [u8]> = Vec::new();
    let mut start: usize = 0;
    let mut inside: bool = false;
    let mut i: usize = 0;
    while i < path.len()
        invariant
            i <= path@.len(),
            inside <==> (i > 0 && path@[i - 1] != SLASH),
            inside ==> start < i,
            segments(path@.take(i as int)) == if inside {
                slices_view(done@).push(path@.subrange(start as int, i as int))
            } else {
                slices_view(done@)
            },
        decreases path.len() - i,
    {
        let ghost before = path@.take(i as int);
        let ghost now = path@.take(i + 1);
        assert(now.drop_last() =~= before);
        if path[i] == SLASH {
            if inside {
                let segment = slice_subrange(path, start, i);
                done.push(segment);
                inside = false;
            }
        } else {
            if inside {
                assert(path@.subrange(start as int, i as int).push(path@[i as int])
                    =~= path@.subrange(start as int, i + 1));
                assert(slices_view(done@).push(path@.subrange(start as int, i as int)).drop_last()
                    =~= slices_view(done@));
            } else {
                assert(seq![path@[i as int]] =~= path@.subrange(i as int, i + 1));
                start = i;
                inside = true;
            }
        }
        i += 1;
    }
    assert(path@.take(i as int) =~= path@);
    if inside {
        let segment = slice_subrange(path, start, i);
        done.push(segment);
    }
    done
}

/// The route table: nothing outside the prefix is a route; below it the
/// health check takes GET under its one segment, and every other path is
/// looked up among the products.
pub open spec fn route_spec(method: Method, path: Seq<u8>) -> Option<Route> {
    if !in_scope(path) {
        None
    } else {
        let below = segments(path.skip(scope_prefix().len() as int));
        if below.len() == 1 && below[0] == ping_segment() {
            match method {
                Method::Get => Some(Route::Ping),
                _ => None,
            }
        } else {
            crate::product::routes::scoped_product_spec(method, below)
        }
    }
}

/// Finds the route of a request. `path` is the path of the request as it
/// came, without the query; `None` says that there is no such route.
pub fn route(method: Method, path: &str) -> (res: Option<Route>)
    ensures
        res == route_spec(method, path.spec_bytes()),
{
    let path = path.as_bytes();
    let prefix = "/api".as_bytes();
    if path.len() < prefix.len() {
        return None;
    }
    if !bytes_equal(slice_subrange(path, 0, prefix.len()), prefix) {
        return None;
    }
    if path.len() > prefix.len() && path[prefix.len()] != SLASH {
        return None;
    }
    let below = split_path(slice_subrange(path, prefix.len(), path.len()));
    if below.len() == 1 && bytes_equal(below[0], "ping".as_bytes()) {
        match method {
            Method::Get => Some(Route::Ping),
            _ => None,
        }
    } else {
        scoped_product(method, &below)
    }
}

/// The prefix is the four bytes of `/api`.
proof fn lemma_scope_prefix()
    ensures
        scope_prefix() == seq![SLASH, 97u8, 112u8, 105u8],
{
    broadcast use vstd::string::is_ascii_spec_bytes;

    reveal_strlit("/api");
    assert(is_ascii("/api"));
}

/// A slash at the end of a path changes nothing: the path with it and the
/// path without it stand for the same route, or both for none.
pub proof fn lemma_trailing_slash(method: Method, path: Seq<u8>)
    ensures
        route_spec(method, path.push(SLASH)) == route_spec(method, path),
{
    lemma_scope_prefix();
    let longer = path.push(SLASH);
    let n = scope_prefix().len() as int;
    if in_scope(path) {
        assert(longer.skip(n).drop_last() =~= path.skip(n));
    }
}

/// No segment is empty and none holds a slash.
pub proof fn lemma_segments_are_runs(path: Seq<u8>)
    ensures
        forall|k: int|
            0 <= k < segments(path).len() ==> (#[trigger] segments(path)[k]).len() > 0
                && !segments(path)[k].contains(SLASH),
        path.len() > 0 && path.last() != SLASH ==> segments(path).len() > 0,
    decreases path.len(),
{
    if path.len() > 0 {
        let before = segments(path.drop_last());
        lemma_segments_are_runs(path.drop_last());
        if path.last() != SLASH {
            if path.len() >= 2 && path[path.len() - 2] != SLASH {
                let longer = before.last().push(path.last());
                assert forall|b: u8| longer.contains(b) implies b != SLASH by {}
            } else {
                assert forall|b: u8| seq![path.last()].contains(b) implies b != SLASH by {}
            }
        }
    }
}

/// A slash and a run of other bytes, put behind a path, add that run as one
/// more segment.
pub proof fn lemma_segment_appended(path: Seq<u8>, run: Seq<u8>)
    requires
        run.len() > 0,
        !run.contains(SLASH),
    ensures
        segments(path + seq![SLASH] + run) == segments(path).push(run),
    decreases run.len(),
{
    let whole = path + seq![SLASH] + run;
    if run.len() == 1 {
        assert(whole.drop_last() =~= path.push(SLASH));
        assert(path.push(SLASH).drop_last() =~= path);
        assert(seq![whole.last()] =~= run);
        assert(segments(path.push(SLASH)) == segments(path));
    } else {
        let shorter = run.drop_last();
        assert forall|b: u8| shorter.contains(b) implies b != SLASH by {}
        lemma_segment_appended(path, shorter);
        assert(whole.drop_last() =~= path + seq![SLASH] + shorter);
        assert(shorter.push(run.last()) =~= run);
    }
}

/// A slash doubled anywhere in a path changes nothing: the segments are
/// those of the path with the one slash.
pub proof fn lemma_doubled_slash(left: Seq<u8>, right: Seq<u8>)
    ensures
        segments(left + seq![SLASH, SLASH] + right) == segments(left + seq![SLASH] + right),
    decreases right.len(),
{
    let doubled = left + seq![SLASH, SLASH] + right;
    let single = left + seq![SLASH] + right;
    if right.len() == 0 {
        assert(doubled.drop_last() =~= single);
    } else {
        let shorter = right.drop_last();
        lemma_doubled_slash(left, shorter);
        assert(doubled.drop_last() =~= left + seq![SLASH, SLASH] + shorter);
        assert(single.drop_last() =~= left + seq![SLASH] + shorter);
    }
}

} // verus!
