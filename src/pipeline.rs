use crate::error::Error;
use vstd::prelude::*;

verus! {

/// Width of every embedding: the penultimate layer of all supported networks.
pub const FEATURE_SIZE: usize = 960;

/// The elements of `v` in the opposite order.
pub fn reversed<T>(v: Vec<T>) -> (r: Vec<T>)
    ensures
        r@.len() == v@.len(),
        forall|i: int| 0 <= i < v@.len() ==> r@[i] == v@[v@.len() - 1 - i],
{
    let ghost orig = v@;
    let mut v = v;
    let mut r: Vec<T> = Vec::new();
    while v.len() > 0
        invariant
            v@ == orig.subrange(0, v@.len() as int),
            r@.len() + v@.len() == orig.len(),
            forall|i: int| 0 <= i < r@.len() ==> r@[i] == orig[orig.len() - 1 - i],
        decreases v@.len(),
    {
        let x = v.pop().unwrap();
        r.push(x);
    }
    r
}

/// Index of the first failure in `s`, if there is one.
pub open spec fn first_failure<T>(s: Seq<Result<T, Error>>, i: int) -> bool {
    &&& 0 <= i < s.len()
    &&& s[i] is Err
    &&& forall|j: int| 0 <= j < i ==> s[j] is Ok
}

/// Gathers per-item results into one: all the values in their order when every item
/// succeeded, else the first failure. Nothing is kept from a batch that failed.
pub fn collect_all<T>(results: Vec<Result<T, Error>>) -> (r: Result<Vec<T>, Error>)
    ensures
        r is Ok <==> forall|i: int| 0 <= i < results@.len() ==> results@[i] is Ok,
        r matches Ok(v) ==> v@.len() == results@.len() && forall|i: int|
            0 <= i < results@.len() ==> results@[i] == Ok::<T, Error>(#[trigger] v@[i]),
        r matches Err(e) ==> exists|i: int|
            first_failure(results@, i) && results@[i] == Err::<T, Error>(e),
{
    let ghost orig = results@;
    let n = results.len();
    let mut rest = reversed(results);
    let mut out: Vec<T> = Vec::new();
    while rest.len() > 0
        invariant
            out@.len() + rest@.len() == n,
            n == orig.len(),
            orig == results@,
            forall|i: int| 0 <= i < out@.len() ==> orig[i] == Ok::<T, Error>(#[trigger] out@[i]),
            forall|j: int| 0 <= j < rest@.len() ==> rest@[j] == orig[n - 1 - j],
        decreases rest@.len(),
    {
        let ghost k = out@.len() as int;
        assert(rest@[rest@.len() - 1] == orig[k]);
        let item = rest.pop().unwrap();
        match item {
            Ok(x) => {
                out.push(x);
            },
            Err(e) => {
                assert forall|j: int| 0 <= j < k implies orig[j] is Ok by {
                    assert(orig[j] == Ok::<T, Error>(out@[j]));
                }
                assert(orig[k] == Err::<T, Error>(e));
                assert(first_failure(orig, k));
                return Err(e);
            },
        }
    }
    assert forall|i: int| 0 <= i < orig.len() implies orig[i] is Ok by {
        assert(orig[i] == Ok::<T, Error>(out@[i]));
    }
    Ok(out)
}

/// An embedding as the network must produce it.
pub open spec fn well_shaped<E>(feature: Seq<E>) -> bool {
    feature.len() == FEATURE_SIZE
}

/// Accepts the flattened output of a single forward pass as an embedding.
pub fn check_feature<E>(feature: Vec<E>) -> (r: Result<Vec<E>, Error>)
    ensures
        r is Ok <==> well_shaped(feature@),
        r matches Ok(v) ==> v@ == feature@,
        r matches Err(e) ==> e == (Error::FeatureShape {
            expected: FEATURE_SIZE,
            found: feature@.len() as usize,
        }),
{
    if feature.len() == FEATURE_SIZE {
        Ok(feature)
    } else {
        let found = feature.len();
        Err(Error::FeatureShape { expected: FEATURE_SIZE, found })
    }
}

/// Accepts the rows of a batched forward pass over `inputs` images: one embedding per
/// input, in input order.
pub fn check_batch<E>(rows: Vec<Vec<E>>, inputs: usize) -> (r: Result<Vec<Vec<E>>, Error>)
    ensures
        r is Ok <==> rows@.len() == inputs && forall|i: int|
            0 <= i < rows@.len() ==> well_shaped(#[trigger] rows@[i]@),
        r matches Ok(v) ==> v@ == rows@,
        rows@.len() != inputs ==> r == Err::<Vec<Vec<E>>, Error>(
            Error::FeatureShape { expected: inputs, found: rows@.len() as usize },
        ),
        r matches Err(e) ==> rows@.len() == inputs ==> exists|i: int|
            0 <= i < rows@.len() && !well_shaped(#[trigger] rows@[i]@) && e == (
            Error::FeatureShape { expected: FEATURE_SIZE, found: rows@[i]@.len() as usize }),
{
    if rows.len() != inputs {
        let found = rows.len();
        return Err(Error::FeatureShape { expected: inputs, found });
    }
    let mut i: usize = 0;
    while i < rows.len()
        invariant
            i <= rows@.len(),
            rows@.len() == inputs,
            forall|j: int| 0 <= j < i ==> well_shaped(#[trigger] rows@[j]@),
        decreases rows@.len() - i,
    {
        if rows[i].len() != FEATURE_SIZE {
            let found = rows[i].len();
            return Err(Error::FeatureShape { expected: FEATURE_SIZE, found });
        }
        i = i + 1;
    }
    Ok(rows)
}

/// Decides what a folder of images yields: `listing` is `None` when `folder` is not a
/// directory, else its entries in the order the file system gave them.
pub fn folder_entries(folder: String, listing: Option<Vec<String>>) -> (r: Result<
    Vec<String>,
    Error,
>)
    ensures
        listing is None ==> r == Err::<Vec<String>, Error>(Error::FolderNotFound(folder)),
        listing matches Some(v) ==> (v@.len() == 0 ==> r == Err::<Vec<String>, Error>(
            Error::FolderEmpty(folder),
        )),
        listing matches Some(v) ==> (v@.len() > 0 ==> r == Ok::<Vec<String>, Error>(v)),
{
    match listing {
        None => Err(Error::FolderNotFound(folder)),
        Some(v) => {
            if v.len() == 0 {
                Err(Error::FolderEmpty(folder))
            } else {
                Ok(v)
            }
        },
    }
}

} // verus!
