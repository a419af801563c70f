use vstd::prelude::*;

verus! {

/// A lowercase hexadecimal digit.
pub open spec fn is_hex_digit(c: char) -> bool {
    ('0' <= c && c <= '9') || ('a' <= c && c <= 'f')
}

/// The hyphenated text form of a version-4 UUID, such as
/// `67e55044-10b1-426f-9247-bb680e5fe0c8`.
pub open spec fn is_uuid_v4_text(s: Seq<char>) -> bool {
    &&& s.len() == 36
    &&& forall|i: int|
        0 <= i < 36 ==> if i == 8 || i == 13 || i == 18 || i == 23 {
            #[trigger] s[i] == '-'
        } else {
            is_hex_digit(s[i])
        }
    &&& s[14] == '4'
}

/// Relies on uuid::Uuid::new_v4 and its `Display`, which writes the hyphenated
/// lowercase form with the version digit set to 4. The value itself is random.
#[verifier::external_body]
fn fresh_id() -> (r: String)
    ensures
        is_uuid_v4_text(r@),
{
    uuid::Uuid::new_v4().to_string()
}

/// An image waiting to be written to the store: a random identifier fixed at
/// creation, where the image came from, and optional metadata of the caller's type.
#[derive(Debug, Clone)]
pub struct ImageInfo<T> {
    id: String,
    path: String,
    extra: Option<T>,
}

impl<T> ImageInfo<T> {
    pub closed spec fn spec_id(&self) -> Seq<char> {
        self.id@
    }

    pub closed spec fn spec_path(&self) -> Seq<char> {
        self.path@
    }

    pub closed spec fn spec_extra(&self) -> Option<T> {
        self.extra
    }

    /// A record with metadata.
    pub fn with_extra(path: &str, extra: T) -> (r: ImageInfo<T>)
        ensures
            is_uuid_v4_text(r.spec_id()),
            r.spec_path() == path@,
            r.spec_extra() == Some(extra),
    {
        ImageInfo { id: fresh_id(), path: path.to_string(), extra: Some(extra) }
    }

    /// A record without metadata.
    pub fn with_path(path: &str) -> (r: ImageInfo<T>)
        ensures
            is_uuid_v4_text(r.spec_id()),
            r.spec_path() == path@,
            r.spec_extra() == None::<T>,
    {
        ImageInfo { id: fresh_id(), path: path.to_string(), extra: None }
    }

    /// Takes the record apart into its identifier, path and metadata.
    pub fn into_parts(self) -> (r: (String, String, Option<T>))
        ensures
            r.0@ == self.spec_id(),
            r.1@ == self.spec_path(),
            r.2 == self.spec_extra(),
    {
        (self.id, self.path, self.extra)
    }

    pub fn id(&self) -> (r: &str)
        ensures
            r@ == self.spec_id(),
    {
        self.id.as_str()
    }

    pub fn path(&self) -> (r: &str)
        ensures
            r@ == self.spec_path(),
    {
        self.path.as_str()
    }

    pub fn extra(&self) -> (r: Option<&T>)
        ensures
            r matches Some(e) ==> self.spec_extra() == Some(*e),
            r is None <==> self.spec_extra() is None,
    {
        self.extra.as_ref()
    }
}

} // verus!
