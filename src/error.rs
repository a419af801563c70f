use vstd::prelude::*;

verus! {

/// Everything that can go wrong between an image on disk and a point in the store.
#[derive(Debug, Clone, PartialEq, Eq)]
pub enum Error {
    /// A GPU was requested and CUDA is not available.
    CUDAError,
    /// The dedicated accelerator was requested and Metal is not available.
    MetalError,
    /// The weights could not be fetched from the hub or its cache.
    HuggingFaceApiError(String),
    /// The tensor library failed while loading or running the network.
    CandleError(String),
    /// A file or a directory could not be read.
    IOError(String),
    /// An image could not be decoded.
    ImageError(String),
    /// The vector store client could not be built.
    QdrantBuildError(String),
    /// The path given as an image folder is not a directory.
    FolderNotFound(String),
    /// The image folder holds no entries.
    FolderEmpty(String),
    /// Checking for or creating the collection failed.
    CollectionError(String),
    /// Metadata could not be encoded.
    SerdeError(String),
    /// Encoded metadata is not a key-value object.
    JsonToPayloadError(String),
    /// Two sequences that must be paired one to one differ in length.
    LengthMismatch { left: usize, right: usize },
    /// The network produced an output of an unexpected shape.
    FeatureShape { expected: usize, found: usize },
    /// The store did not acknowledge an upsert.
    UpsertPointsError(String),
    /// The store did not acknowledge a delete.
    DeletePointsError(String),
    /// A lookup or a nearest-neighbour query failed, or its answer is not well ranked.
    SearchPointsError(String),
}

} // verus!
