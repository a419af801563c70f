use crate::error::Error;
use crate::pipeline::{reversed, FEATURE_SIZE};
use crate::record::ImageInfo;
use vstd::prelude::*;
use vstd::string::StringExecFns;

verus! {

/// How the store compares vectors.
#[derive(Debug, Clone, Copy, PartialEq, Eq, Structural)]
pub enum Distance {
    Cosine,
}

/// The fixed shape of a collection: vector width and metric.
#[derive(Debug, Clone, Copy, PartialEq, Eq, Structural)]
pub struct CollectionParams {
    pub size: usize,
    pub distance: Distance,
}

/// What the client does about a collection at the start of a session.
#[derive(Debug, Clone, Copy, PartialEq, Eq, Structural)]
pub enum CollectionAction {
    /// The collection exists: it is used as it is.
    Keep,
    /// The collection is missing: it is created with these parameters.
    Create(CollectionParams),
}

/// The shape of the image collection: one vector per image, compared by cosine.
pub open spec fn image_collection() -> CollectionParams {
    CollectionParams { size: FEATURE_SIZE, distance: Distance::Cosine }
}

pub open spec fn spec_collection_action(exists: bool) -> CollectionAction {
    if exists {
        CollectionAction::Keep
    } else {
        CollectionAction::Create(image_collection())
    }
}

/// Decides, from whether the collection exists, whether it has to be created.
/// An existing collection is never recreated or altered.
pub fn ensure_collection_action(exists: bool) -> (r: CollectionAction)
    ensures
        r == spec_collection_action(exists),
{
    if exists {
        CollectionAction::Keep
    } else {
        CollectionAction::Create(CollectionParams { size: FEATURE_SIZE, distance: Distance::Cosine })
    }
}

/// The collections of a store, by name, after `action` was carried out for `name`.
pub open spec fn apply_collection_action(
    store: Map<Seq<char>, CollectionParams>,
    name: Seq<char>,
    action: CollectionAction,
) -> Map<Seq<char>, CollectionParams> {
    match action {
        CollectionAction::Keep => store,
        CollectionAction::Create(p) => store.insert(name, p),
    }
}

/// The collections of a store after a session has provisioned `name`.
pub open spec fn provision(store: Map<Seq<char>, CollectionParams>, name: Seq<char>) -> Map<
    Seq<char>,
    CollectionParams,
> {
    apply_collection_action(store, name, spec_collection_action(store.contains_key(name)))
}

/// Provisioning is idempotent: a second session on the same collection name changes
/// nothing, a collection that already exists keeps its parameters, a missing one gets
/// the image parameters, and no other collection is touched.
pub proof fn lemma_provision_idempotent(store: Map<Seq<char>, CollectionParams>, name: Seq<char>)
    ensures
        provision(provision(store, name), name) == provision(store, name),
        store.contains_key(name) ==> provision(store, name) == store,
        !store.contains_key(name) ==> provision(store, name) == store.insert(
            name,
            image_collection(),
        ),
        provision(store, name).contains_key(name),
        forall|other: Seq<char>|
            other != name ==> provision(store, name).contains_key(other) == store.contains_key(
                other,
            ) && (store.contains_key(other) ==> provision(store, name)[other] == store[other]),
{
}

/// One point to upsert: an embedding and the record it belongs to. The point's
/// identifier is the record's; its payload is the record's path and metadata.
pub struct Point<E, T> {
    pub vector: E,
    pub record: ImageInfo<T>,
}

/// Pairs embeddings with records, one to one and in order. Sequences of different
/// lengths are refused before anything is sent to the store.
pub fn plan_upsert<E, T>(embeddings: Vec<E>, records: Vec<ImageInfo<T>>) -> (r: Result<
    Vec<Point<E, T>>,
    Error,
>)
    ensures
        embeddings@.len() != records@.len() ==> r == Err::<Vec<Point<E, T>>, Error>(
            Error::LengthMismatch {
                left: embeddings@.len() as usize,
                right: records@.len() as usize,
            },
        ),
        embeddings@.len() == records@.len() ==> r is Ok,
        r matches Ok(points) ==> points@.len() == embeddings@.len() && forall|i: int|
            0 <= i < points@.len() ==> (#[trigger] points@[i]).vector == embeddings@[i]
                && points@[i].record == records@[i],
{
    if embeddings.len() != records.len() {
        let left = embeddings.len();
        let right = records.len();
        return Err(Error::LengthMismatch { left, right });
    }
    let n = embeddings.len();
    let mut es = reversed(embeddings);
    let mut rs = reversed(records);
    let mut points: Vec<Point<E, T>> = Vec::new();
    while es.len() > 0
        invariant
            es@.len() == rs@.len(),
            points@.len() + es@.len() == n,
            n == embeddings@.len(),
            n == records@.len(),
            forall|j: int| 0 <= j < es@.len() ==> es@[j] == embeddings@[n - 1 - j],
            forall|j: int| 0 <= j < rs@.len() ==> rs@[j] == records@[n - 1 - j],
            forall|i: int|
                0 <= i < points@.len() ==> (#[trigger] points@[i]).vector == embeddings@[i]
                    && points@[i].record == records@[i],
        decreases es@.len(),
    {
        let ghost k = points@.len() as int;
        assert(es@[es@.len() - 1] == embeddings@[k]);
        assert(rs@[rs@.len() - 1] == records@[k]);
        let vector = es.pop().unwrap();
        let record = rs.pop().unwrap();
        points.push(Point { vector, record });
    }
    Ok(points)
}

/// The identifiers of the points, in order.
pub fn point_ids<E, T>(points: &Vec<Point<E, T>>) -> (r: Vec<String>)
    ensures
        r@.len() == points@.len(),
        forall|i: int| 0 <= i < r@.len() ==> (#[trigger] r@[i])@ == points@[i].record.spec_id(),
{
    let mut ids: Vec<String> = Vec::new();
    let mut i: usize = 0;
    while i < points.len()
        invariant
            i <= points@.len(),
            ids@.len() == i,
            forall|j: int| 0 <= j < i ==> (#[trigger] ids@[j])@ == points@[j].record.spec_id(),
        decreases points@.len() - i,
    {
        ids.push(points[i].record.id().to_string());
        i = i + 1;
    }
    ids
}

/// The two kinds of write that the store must acknowledge.
#[derive(Debug, Clone, Copy, PartialEq, Eq, Structural)]
pub enum WriteKind {
    Upsert,
    Delete,
}

/// Judges the store's answer to a durable write: it succeeded exactly when the store
/// reported a result. Deleting identifiers that are not stored is no error.
pub fn check_write(kind: WriteKind, acknowledged: bool) -> (r: Result<(), Error>)
    ensures
        r is Ok <==> acknowledged,
        r matches Err(e) ==> (kind == WriteKind::Upsert ==> e is UpsertPointsError) && (kind
            == WriteKind::Delete ==> e is DeletePointsError),
{
    if acknowledged {
        Ok(())
    } else {
        match kind {
            WriteKind::Upsert => Err(
                Error::UpsertPointsError(String::from_str("upsert points failed")),
            ),
            WriteKind::Delete => Err(
                Error::DeletePointsError(String::from_str("delete points failed")),
            ),
        }
    }
}

/// The points of a collection, by identifier, after deleting `ids`.
pub open spec fn after_delete<V>(points: Map<Seq<char>, V>, ids: Seq<Seq<char>>) -> Map<
    Seq<char>,
    V,
> {
    points.remove_keys(ids.to_set())
}

/// Deleting identifiers that are not stored leaves the collection as it was.
pub proof fn lemma_delete_missing_is_noop<V>(points: Map<Seq<char>, V>, ids: Seq<Seq<char>>)
    requires
        forall|i: int| 0 <= i < ids.len() ==> !points.contains_key(#[trigger] ids[i]),
    ensures
        after_delete(points, ids) == points,
{
    assert forall|key: Seq<char>| ids.to_set().contains(key) implies !points.contains_key(key) by {
        let i = choose|i: int| 0 <= i < ids.len() && ids[i] == key;
        assert(!points.contains_key(ids[i]));
    }
    assert(after_delete(points, ids) =~= points);
}

/// An order key for a similarity score given by its IEEE-754 single-precision bits:
/// keys compare as `f32::total_cmp` compares the scores.
pub open spec fn spec_score_key(bits: u32) -> u32 {
    if bits & 0x8000_0000u32 != 0 {
        !bits
    } else {
        bits | 0x8000_0000u32
    }
}

pub fn score_key(bits: u32) -> (r: u32)
    ensures
        r == spec_score_key(bits),
{
    if bits & 0x8000_0000u32 != 0 {
        !bits
    } else {
        bits | 0x8000_0000u32
    }
}

/// One answer of a nearest-neighbour query: the order key of its score and what the
/// store returned with it.
pub struct Hit<D> {
    pub score: u32,
    pub data: D,
}

/// Scores never increase from one answer to the next.
pub open spec fn ranked<D>(hits: Seq<Hit<D>>) -> bool {
    forall|i: int, j: int| 0 <= i < j < hits.len() ==> hits[i].score >= hits[j].score
}

/// Accepts the store's answer to a query for at most `k` neighbours: at most `k` hits,
/// best first. Any other answer is reported as a failed search.
pub fn check_ranked<D>(hits: Vec<Hit<D>>, k: usize) -> (r: Result<Vec<Hit<D>>, Error>)
    ensures
        r is Ok <==> hits@.len() <= k && ranked(hits@),
        r matches Ok(v) ==> v@ == hits@,
        r matches Err(e) ==> e is SearchPointsError,
{
    if hits.len() > k {
        return Err(Error::SearchPointsError(String::from_str("more hits than requested")));
    }
    let mut i: usize = 1;
    while i < hits.len()
        invariant
            1 <= i,
            hits@.len() <= k,
            forall|a: int, b: int| 0 <= a < b < i && b < hits@.len() ==> hits@[a].score >= hits@[b].score,
        decreases hits@.len() - i,
    {
        if hits[i - 1].score < hits[i].score {
            return Err(Error::SearchPointsError(String::from_str("hits are not ranked by score")));
        }
        i = i + 1;
    }
    Ok(hits)
}

} // verus!
