//! The faults of the service, their HTTP status codes and their messages.

use crate::response::{GenericResponse, GenericResponseView};
use vstd::prelude::*;
use vstd::string::*;
use vstd::utf8::encode_utf8;

verus! {

/// The text by which the store marks the violation of a uniqueness index.
pub const DUPLICATE_KEY_MARKER: &'static str = "E11000 duplicate key error collection";

/// HTTP status of a request whose identifier cannot be read.
pub const STATUS_BAD_REQUEST: u16 = 400;

/// HTTP status of a request for a post that the store does not hold.
pub const STATUS_NOT_FOUND: u16 = 404;

/// HTTP status of a create whose title is already taken.
pub const STATUS_CONFLICT: u16 = 409;

/// HTTP status of any other fault.
pub const STATUS_INTERNAL_SERVER_ERROR: u16 = 500;

/// Whether `needle` stands in `hay` from position `at` on.
pub open spec fn occurs_at(hay: Seq<u8>, needle: Seq<u8>, at: int) -> bool {
    &&& 0 <= at
    &&& at + needle.len() <= hay.len()
    &&& hay.subrange(at, at + needle.len()) == needle
}

/// Whether `needle` stands somewhere in `hay`.
pub open spec fn contains_bytes(hay: Seq<u8>, needle: Seq<u8>) -> bool {
    exists|at: int| occurs_at(hay, needle, at)
}

/// Whether the text of a fault of the store reports a duplicate key: its
/// UTF-8 bytes hold those of `DUPLICATE_KEY_MARKER`.
pub open spec fn is_duplicate_key_text(text: Seq<char>) -> bool {
    contains_bytes(encode_utf8(text), encode_utf8(DUPLICATE_KEY_MARKER@))
}

/// Whether `needle` stands in `hay` from position `at` on.
fn matches_at(hay: &[u8], needle: &[u8], at: usize) -> (r: bool)
    requires
        at + needle@.len() <= hay@.len(),
    ensures
        r == occurs_at(hay@, needle@, at as int),
{
    let size: usize = needle.len();
    let total: usize = hay.len();
    let mut k: usize = 0;
    while k < size
        invariant
            k <= size == needle@.len(),
            at + size <= total == hay@.len(),
            forall|j: int| 0 <= j < k ==> hay@[at + j] == needle@[j],
        decreases size - k,
    {
        if hay[at + k] != needle[k] {
            proof {
                let window = hay@.subrange(at as int, at + needle@.len());
                assert(window[k as int] == hay@[at + k]);
            }
            return false;
        }
        k += 1;
    }
    assert(hay@.subrange(at as int, at + needle@.len()) =~= needle@);
    true
}

/// Searches `hay` for `needle`.
pub fn find_bytes(hay: &[u8], needle: &[u8]) -> (r: bool)
    ensures
        r == contains_bytes(hay@, needle@),
{
    if needle.len() > hay.len() {
        return false;
    }
    let last: usize = hay.len() - needle.len();
    let mut at: usize = 0;
    while at < last
        invariant
            last == hay@.len() - needle@.len(),
            at <= last,
            forall|j: int| 0 <= j < at ==> !occurs_at(hay@, needle@, j),
        decreases last - at,
    {
        if matches_at(hay, needle, at) {
            return true;
        }
        at += 1;
    }
    matches_at(hay, needle, last)
}

/// Tells whether the text of a fault of the store reports a duplicate key.
pub fn is_duplicate_key_message(text: &str) -> (r: bool)
    ensures
        r == is_duplicate_key_text(text@),
{
    find_bytes(text.as_bytes(), DUPLICATE_KEY_MARKER.as_bytes())
}

/// A fault of the service. Each variant but the last two carries the text of
/// the fault as the store or the encoder gave it; the last two carry the
/// identifier as the caller wrote it.
#[derive(Clone, Debug, PartialEq, Eq)]
pub enum MyError {
    /// The store could not be reached when the service started.
    MongoError(String),
    /// A create broke the rule that no two posts share a title.
    MongoDuplicateError(String),
    /// Any other fault of the store.
    MongoQueryError(String),
    /// A value could not be encoded for the store.
    MongoSerializeBsonError(String),
    /// The identifier is not twenty-four hexadecimal digits.
    InvalidIDError(String),
    /// The store holds no post under the identifier.
    NotFoundError(String),
}

/// A fault, with its texts as sequences of characters.
pub enum MyErrorView {
    MongoError(Seq<char>),
    MongoDuplicateError(Seq<char>),
    MongoQueryError(Seq<char>),
    MongoSerializeBsonError(Seq<char>),
    InvalidIDError(Seq<char>),
    NotFoundError(Seq<char>),
}

impl View for MyError {
    type V = MyErrorView;

    open spec fn view(&self) -> MyErrorView {
        match self {
            MyError::MongoError(text) => MyErrorView::MongoError(text@),
            MyError::MongoDuplicateError(text) => MyErrorView::MongoDuplicateError(text@),
            MyError::MongoQueryError(text) => MyErrorView::MongoQueryError(text@),
            MyError::MongoSerializeBsonError(text) => MyErrorView::MongoSerializeBsonError(text@),
            MyError::InvalidIDError(id) => MyErrorView::InvalidIDError(id@),
            MyError::NotFoundError(id) => MyErrorView::NotFoundError(id@),
        }
    }
}

impl MyErrorView {
    /// The HTTP status that answers a request which ended in this fault.
    pub open spec fn status_code(self) -> u16 {
        match self {
            MyErrorView::InvalidIDError(_) => STATUS_BAD_REQUEST,
            MyErrorView::NotFoundError(_) => STATUS_NOT_FOUND,
            MyErrorView::MongoDuplicateError(_) => STATUS_CONFLICT,
            MyErrorView::MongoError(_) => STATUS_INTERNAL_SERVER_ERROR,
            MyErrorView::MongoQueryError(_) => STATUS_INTERNAL_SERVER_ERROR,
            MyErrorView::MongoSerializeBsonError(_) => STATUS_INTERNAL_SERVER_ERROR,
        }
    }

    /// The message that the client reads. The text of a fault of the store
    /// or of the encoder is passed on unchanged.
    pub open spec fn message(self) -> Seq<char> {
        match self {
            MyErrorView::InvalidIDError(id) => "invalid ID: "@ + id,
            MyErrorView::NotFoundError(id) => "Post with ID: "@ + id + " not found"@,
            MyErrorView::MongoDuplicateError(_) => "Post with that title already exists"@,
            MyErrorView::MongoError(text) => text,
            MyErrorView::MongoQueryError(text) => text,
            MyErrorView::MongoSerializeBsonError(text) => text,
        }
    }

    /// The body of the reply that reports this fault.
    pub open spec fn response(self) -> GenericResponseView {
        GenericResponseView { status: "fail"@, message: self.message() }
    }
}

impl MyError {
    /// The HTTP status that answers a request which ended in this fault.
    pub fn status_code(&self) -> (code: u16)
        ensures
            code == self@.status_code(),
    {
        match self {
            MyError::InvalidIDError(_) => STATUS_BAD_REQUEST,
            MyError::NotFoundError(_) => STATUS_NOT_FOUND,
            MyError::MongoDuplicateError(_) => STATUS_CONFLICT,
            MyError::MongoError(_) => STATUS_INTERNAL_SERVER_ERROR,
            MyError::MongoQueryError(_) => STATUS_INTERNAL_SERVER_ERROR,
            MyError::MongoSerializeBsonError(_) => STATUS_INTERNAL_SERVER_ERROR,
        }
    }

    /// The message that the client reads.
    pub fn message(&self) -> (text: String)
        ensures
            text@ == self@.message(),
    {
        match self {
            MyError::InvalidIDError(id) => {
                let mut text = "invalid ID: ".to_owned();
                text.append(id.as_str());
                text
            },
            MyError::NotFoundError(id) => {
                let mut text = "Post with ID: ".to_owned();
                text.append(id.as_str());
                text.append(" not found");
                text
            },
            MyError::MongoDuplicateError(_) => "Post with that title already exists".to_owned(),
            MyError::MongoError(text) => text.clone(),
            MyError::MongoQueryError(text) => text.clone(),
            MyError::MongoSerializeBsonError(text) => text.clone(),
        }
    }

    /// The body of the reply that reports this fault.
    pub fn response(&self) -> (body: GenericResponse)
        ensures
            body@ == self@.response(),
    {
        GenericResponse { status: "fail".to_owned(), message: self.message() }
    }
}

} // verus!
