//! Small helpers shared by the request-handling code.

use vstd::prelude::*;

verus! {

/// Number of header slots offered to the request parser.
pub const MAX_HEADER_SIZE: usize = 100;

/// Discards a value, turning any expression into `()`.
pub trait RetUnit: Sized {
    fn ret_unit(self) {
    }
}

impl<T> RetUnit for T {
}

/// One component of a path, reduced to what soft canonicalisation reads:
/// a named segment carrying its payload, a step to the parent directory,
/// or anything else (a root, a prefix, the current directory).
pub enum PathPart<T> {
    Normal(T),
    ParentDir,
    Other,
}

/// The segments that remain after the first `n` parts of `parts` have been
/// applied in order: a named segment is appended, a parent step drops the
/// most recent segment if there is one, everything else is ignored.
pub open spec fn resolved_prefix<T>(parts: Seq<PathPart<T>>, n: int) -> Seq<T>
    decreases n,
{
    if n <= 0 || n > parts.len() {
        Seq::empty()
    } else {
        let before = resolved_prefix(parts, n - 1);
        match parts[n - 1] {
            PathPart::Normal(segment) => before.push(segment),
            PathPart::ParentDir => if before.len() > 0 {
                before.drop_last()
            } else {
                before
            },
            PathPart::Other => before,
        }
    }
}

/// The segments that remain once every part has been applied.
pub open spec fn resolved<T>(parts: Seq<PathPart<T>>) -> Seq<T> {
    resolved_prefix(parts, parts.len() as int)
}

/// Resolves parent steps and drops everything that is not a named segment.
/// Roots and prefixes are ignored on purpose: the result is a relative list
/// of segments that never climbs above its starting point, which is what
/// keeps a request path from escaping the directory it is served from.
pub fn path_canonicalize_soft<T: Copy>(parts: &[PathPart<T>]) -> (out: Vec<T>)
    ensures
        out@ == resolved(parts@),
{
    let mut out: Vec<T> = Vec::new();
    let mut i: usize = 0;
    while i < parts.len()
        invariant
            i <= parts@.len(),
            out@ == resolved_prefix(parts@, i as int),
        decreases parts@.len() - i,
    {
        match &parts[i] {
            PathPart::Normal(segment) => {
                out.push(*segment);
            },
            PathPart::ParentDir => {
                let _ = out.pop();
            },
            PathPart::Other => {},
        }
        i = i + 1;
    }
    out
}

} // verus!
