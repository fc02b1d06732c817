//! Files that a model generated, held either as base64 text or as bytes.

use base64::Engine;
use vstd::prelude::*;

verus! {

broadcast use vstd::string::group_string_axioms;

/// What the standard base64 engine decodes `s` to (named; `None` when `s`
/// is not valid base64).
pub uninterp spec fn base64_decoded(s: Seq<char>) -> Option<Seq<u8>>;

/// What the standard base64 engine encodes `b` to (named).
pub uninterp spec fn base64_encoded(b: Seq<u8>) -> Seq<char>;

/// Calls `base64::engine::general_purpose::STANDARD.decode`; the result is
/// named `base64_decoded` of the text, with a decoding error as `None`.
#[verifier::external_body]
pub(crate) fn base64_decode(s: &str) -> (r: Option<Vec<u8>>)
    ensures
        match r {
            Some(v) => base64_decoded(s@) == Some(v@),
            None => base64_decoded(s@) is None,
        },
{
    base64::engine::general_purpose::STANDARD.decode(s).ok()
}

/// Calls `base64::engine::general_purpose::STANDARD.encode`; the result is
/// named `base64_encoded` of the bytes, and the same engine decodes it back
/// to the bytes. The length bound keeps the size computation of the encoder
/// from overflowing, where it panics.
#[verifier::external_body]
pub(crate) fn base64_encode(b: &[u8]) -> (r: String)
    requires
        b@.len() <= usize::MAX / 2,
    ensures
        r@ == base64_encoded(b@),
        base64_decoded(r@) == Some(b@),
{
    base64::engine::general_purpose::STANDARD.encode(b)
}

/// The content of a file: base64 text or raw bytes.
#[derive(Debug)]
pub enum DataContent {
    /// Base64 text.
    Base64(String),
    /// Raw bytes.
    Bytes(Vec<u8>),
}

/// The bytes that file content denotes: decoded base64 (nothing when the
/// text is not valid base64), or the bytes themselves.
pub open spec fn content_bytes(d: DataContent) -> Seq<u8> {
    match d {
        DataContent::Base64(s) => match base64_decoded(s@) {
            Some(b) => b,
            None => Seq::empty(),
        },
        DataContent::Bytes(b) => b@,
    }
}

/// The base64 text of file content: the text itself, or the encoding of
/// the bytes.
pub open spec fn content_base64(d: DataContent) -> Seq<char> {
    match d {
        DataContent::Base64(s) => s@,
        DataContent::Bytes(b) => base64_encoded(b@),
    }
}

/// A file generated by a model.
#[derive(Debug)]
pub struct GeneratedFile {
    /// The file's content.
    pub data: DataContent,
    /// The IANA media type of the file.
    pub media_type: String,
    /// An optional file name.
    pub name: Option<String>,
}

impl GeneratedFile {
    /// A file whose content is the base64 text `base64`.
    pub fn from_base64(base64: &str, media_type: &str) -> (f: Self)
        ensures
            f.data matches DataContent::Base64(s) && s@ == base64@,
            f.media_type@ == media_type@,
            f.name is None,
    {
        GeneratedFile {
            data: DataContent::Base64(base64.to_string()),
            media_type: media_type.to_string(),
            name: None,
        }
    }

    /// A file whose content is `bytes`.
    pub fn from_bytes(bytes: Vec<u8>, media_type: &str) -> (f: Self)
        ensures
            f.data == DataContent::Bytes(bytes),
            f.media_type@ == media_type@,
            f.name is None,
    {
        GeneratedFile {
            data: DataContent::Bytes(bytes),
            media_type: media_type.to_string(),
            name: None,
        }
    }

    /// The same file with the name `name`.
    pub fn with_name(self, name: &str) -> (f: Self)
        ensures
            f.data == self.data,
            f.media_type == self.media_type,
            f.name matches Some(n) && n@ == name@,
    {
        GeneratedFile { name: Some(name.to_string()), ..self }
    }

    /// The content as base64 text; the text of bytes decodes back to them.
    pub fn base64(&self) -> (r: String)
        requires
            self.data matches DataContent::Bytes(b) ==> b@.len() <= usize::MAX / 2,
        ensures
            r@ == content_base64(self.data),
            self.data is Bytes ==> base64_decoded(r@) == Some(content_bytes(self.data)),
    {
        match &self.data {
            DataContent::Base64(s) => s.clone(),
            DataContent::Bytes(b) => base64_encode(b.as_slice()),
        }
    }

    /// The content as bytes (empty when base64 text does not decode).
    pub fn bytes(&self) -> (r: Vec<u8>)
        ensures
            r@ == content_bytes(self.data),
    {
        match &self.data {
            DataContent::Base64(s) => match base64_decode(s.as_str()) {
                Some(b) => b,
                None => Vec::new(),
            },
            DataContent::Bytes(b) => copy_bytes(b),
        }
    }

    /// The content as a vector of bytes.
    pub fn to_vec(&self) -> (r: Vec<u8>)
        ensures
            r@ == content_bytes(self.data),
    {
        self.bytes()
    }

    /// Whether two files have the same bytes, media type and name.
    pub fn same_file(&self, other: &GeneratedFile) -> (r: bool)
        ensures
            r == (content_bytes(self.data) == content_bytes(other.data) && self.media_type@
                == other.media_type@ && opt_string_eq(self.name, other.name)),
    {
        let a = self.bytes();
        let b = other.bytes();
        let same_bytes = bytes_eq(&a, &b);
        let same_type = self.media_type == other.media_type;
        let same_name = match (&self.name, &other.name) {
            (Some(x), Some(y)) => *x == *y,
            (None, None) => true,
            _ => false,
        };
        same_bytes && same_type && same_name
    }
}

/// Two optional strings hold the same text.
pub open spec fn opt_string_eq(a: Option<String>, b: Option<String>) -> bool {
    match (a, b) {
        (Some(x), Some(y)) => x@ == y@,
        (None, None) => true,
        _ => false,
    }
}

/// Whether two byte vectors are equal.
pub fn bytes_eq(a: &Vec<u8>, b: &Vec<u8>) -> (r: bool)
    ensures
        r == (a@ == b@),
{
    if a.len() != b.len() {
        return false;
    }
    let mut i: usize = 0;
    while i < a.len()
        invariant
            a@.len() == b@.len(),
            i <= a@.len(),
            forall|j: int| 0 <= j < i ==> a@[j] == b@[j],
        decreases a@.len() - i,
    {
        if a[i] != b[i] {
            return false;
        }
        i = i + 1;
    }
    assert(a@ =~= b@);
    true
}

/// The content of a file as plain values.
pub enum DataView {
    /// Base64 text.
    Base64(Seq<char>),
    /// Raw bytes.
    Bytes(Seq<u8>),
}

/// The plain value of file content.
pub open spec fn data_view(d: DataContent) -> DataView {
    match d {
        DataContent::Base64(s) => DataView::Base64(s@),
        DataContent::Bytes(b) => DataView::Bytes(b@),
    }
}

/// A copy of a byte vector.
pub fn copy_bytes(b: &Vec<u8>) -> (r: Vec<u8>)
    ensures
        r@ == b@,
{
    let mut r: Vec<u8> = Vec::new();
    let mut i: usize = 0;
    while i < b.len()
        invariant
            i <= b@.len(),
            r@ == b@.take(i as int),
        decreases b@.len() - i,
    {
        r.push(b[i]);
        i = i + 1;
        assert(r@ =~= b@.take(i as int));
    }
    assert(b@.take(b@.len() as int) =~= b@);
    r
}

impl Clone for DataContent {
    fn clone(&self) -> (r: Self)
        ensures
            data_view(r) == data_view(*self),
    {
        match self {
            DataContent::Base64(s) => DataContent::Base64(s.clone()),
            DataContent::Bytes(b) => DataContent::Bytes(copy_bytes(b)),
        }
    }
}

impl Clone for GeneratedFile {
    fn clone(&self) -> (r: Self)
        ensures
            data_view(r.data) == data_view(self.data),
            r.media_type@ == self.media_type@,
            opt_string_eq(r.name, self.name),
    {
        let name = match &self.name {
            Some(n) => Some(n.clone()),
            None => None,
        };
        GeneratedFile { data: self.data.clone(), media_type: self.media_type.clone(), name }
    }
}

impl PartialEq for GeneratedFile {
    fn eq(&self, other: &Self) -> (r: bool) {
        self.same_file(other)
    }
}

impl vstd::std_specs::cmp::PartialEqSpecImpl for GeneratedFile {
    open spec fn obeys_eq_spec() -> bool {
        true
    }

    open spec fn eq_spec(&self, other: &GeneratedFile) -> bool {
        content_bytes(self.data) == content_bytes(other.data) && self.media_type@
            == other.media_type@ && opt_string_eq(self.name, other.name)
    }
}

/// A generated file tagged with its kind, `file`.
#[derive(Debug)]
pub struct GeneratedFileWithType {
    pub file: GeneratedFile,
    /// Always `file`.
    pub kind: String,
}

impl GeneratedFileWithType {
    /// The file, tagged.
    pub fn new(file: GeneratedFile) -> (r: Self)
        ensures
            r.file == file,
            r.kind@ == "file"@,
    {
        GeneratedFileWithType { file, kind: "file".to_string() }
    }

    /// A tagged file whose content is the base64 text `base64`.
    pub fn from_base64(base64: &str, media_type: &str) -> (r: Self)
        ensures
            r.file.data matches DataContent::Base64(s) && s@ == base64@,
            r.file.media_type@ == media_type@,
            r.file.name is None,
            r.kind@ == "file"@,
    {
        GeneratedFileWithType::new(GeneratedFile::from_base64(base64, media_type))
    }

    /// A tagged file whose content is `bytes`.
    pub fn from_bytes(bytes: Vec<u8>, media_type: &str) -> (r: Self)
        ensures
            r.file.data == DataContent::Bytes(bytes),
            r.file.media_type@ == media_type@,
            r.file.name is None,
            r.kind@ == "file"@,
    {
        GeneratedFileWithType::new(GeneratedFile::from_bytes(bytes, media_type))
    }
}

} // verus!
