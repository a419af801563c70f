use crate::error::Error;
use crate::pipeline::reversed;
use crate::record::{is_uuid_v4_text, ImageInfo};
use vstd::prelude::*;

verus! {

/// One record without metadata per path, in the order of the paths.
pub fn records_for_paths<T>(paths: &Vec<String>) -> (r: Vec<ImageInfo<T>>)
    ensures
        r@.len() == paths@.len(),
        forall|i: int|
            0 <= i < r@.len() ==> (#[trigger] r@[i]).spec_path() == paths@[i]@
                && r@[i].spec_extra() == None::<T> && is_uuid_v4_text(r@[i].spec_id()),
{
    let mut out: Vec<ImageInfo<T>> = Vec::new();
    let mut i: usize = 0;
    while i < paths.len()
        invariant
            i <= paths@.len(),
            out@.len() == i,
            forall|j: int|
                0 <= j < i ==> (#[trigger] out@[j]).spec_path() == paths@[j]@
                    && out@[j].spec_extra() == None::<T> && is_uuid_v4_text(out@[j].spec_id()),
        decreases paths@.len() - i,
    {
        out.push(ImageInfo::with_path(paths[i].as_str()));
        i = i + 1;
    }
    out
}

/// Pairs each path with its metadata, in order. The two sequences must have the same
/// length; otherwise nothing is built.
pub fn records_with_extras<T>(paths: &Vec<String>, extras: Vec<T>) -> (r: Result<
    Vec<ImageInfo<T>>,
    Error,
>)
    ensures
        paths@.len() != extras@.len() ==> r == Err::<Vec<ImageInfo<T>>, Error>(
            Error::LengthMismatch { left: paths@.len() as usize, right: extras@.len() as usize },
        ),
        paths@.len() == extras@.len() ==> r is Ok,
        r matches Ok(v) ==> v@.len() == paths@.len() && forall|i: int|
            0 <= i < v@.len() ==> (#[trigger] v@[i]).spec_path() == paths@[i]@
                && v@[i].spec_extra() == Some(extras@[i]) && is_uuid_v4_text(v@[i].spec_id()),
{
    if paths.len() != extras.len() {
        let left = paths.len();
        let right = extras.len();
        return Err(Error::LengthMismatch { left, right });
    }
    let n = extras.len();
    let mut rest = reversed(extras);
    let mut out: Vec<ImageInfo<T>> = Vec::new();
    let mut i: usize = 0;
    while i < n
        invariant
            i <= n,
            n == paths@.len(),
            n == extras@.len(),
            out@.len() == i,
            rest@.len() == n - i,
            forall|j: int| 0 <= j < rest@.len() ==> rest@[j] == extras@[n - 1 - j],
            forall|j: int|
                0 <= j < i ==> (#[trigger] out@[j]).spec_path() == paths@[j]@
                    && out@[j].spec_extra() == Some(extras@[j]) && is_uuid_v4_text(
                    out@[j].spec_id(),
                ),
        decreases n - i,
    {
        assert(rest@[rest@.len() - 1] == extras@[i as int]);
        let extra = rest.pop().unwrap();
        out.push(ImageInfo::with_extra(paths[i].as_str(), extra));
        i = i + 1;
    }
    Ok(out)
}

} // verus!
