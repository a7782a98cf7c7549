//! Request bodies, tagged by whether their length is known before sending.

use vstd::prelude::*;
use vstd::string::StringSliceAdditionalSpecFns;

verus! {

/// A request body: of known length, sent with a `Content-Length`, or read
/// from a reader of unknown length and sent chunked.
#[derive(Debug)]
pub enum Body<R> {
    /// A reader does not necessarily know its size, so it is chunked.
    ChunkedBody(R),
    /// In-memory bytes and their length, sent with `Content-Length`.
    SizedBody(Vec<u8>, usize),
}

impl<R> Body<R> {
    /// The length of a sized body agrees with its bytes.
    pub open spec fn wf(&self) -> bool {
        match self {
            Body::SizedBody(data, len) => data@.len() == *len as int,
            Body::ChunkedBody(_) => true,
        }
    }

    /// The length that the body declares, if it knows one.
    pub open spec fn spec_size(&self) -> Option<usize> {
        match self {
            Body::SizedBody(_, len) => Some(*len),
            Body::ChunkedBody(_) => None,
        }
    }

    /// The length, for a sized body only.
    pub fn size(&self) -> (r: Option<usize>)
        ensures
            r == self.spec_size(),
    {
        match self {
            Body::SizedBody(_, len) => Some(*len),
            Body::ChunkedBody(_) => None,
        }
    }

    /// A sized body over a copy of the bytes.
    pub fn from_bytes(bytes: &[u8]) -> (r: Body<R>)
        ensures
            r.wf(),
            r matches Body::SizedBody(data, len) && data@ == bytes@ && len == bytes@.len(),
    {
        Body::SizedBody(vstd::slice::slice_to_vec(bytes), bytes.len())
    }

    /// A sized body over the UTF-8 bytes of the text, unchanged.
    pub fn from_text(text: &str) -> (r: Body<R>)
        ensures
            r.wf(),
            r matches Body::SizedBody(data, len) && data@ == text.spec_bytes() && len
                == text.spec_bytes().len(),
    {
        Body::from_bytes(text.as_bytes())
    }

    /// A chunked body that reads from the given reader, whatever it holds.
    pub fn from_reader(reader: R) -> (r: Body<R>)
        ensures
            r == Body::ChunkedBody(reader),
    {
        Body::ChunkedBody(reader)
    }
}

/// A value that can serve as a request body.
pub trait IntoBody<R>: Sized {
    /// The length that the body made of this value declares, if any.
    spec fn declared_size(&self) -> Option<usize>;

    /// Whether `b` is the body made of this value.
    spec fn becomes(&self, b: Body<R>) -> bool;

    /// Consumes the value into a body.
    fn into_body(self) -> (r: Body<R>)
        ensures
            r.wf(),
            r.spec_size() == self.declared_size(),
            self.becomes(r),
    ;
}

impl<'a, R> IntoBody<R> for &'a [u8] {
    open spec fn declared_size(&self) -> Option<usize> {
        Some(self@.len() as usize)
    }

    /// A sized body over exactly these bytes.
    open spec fn becomes(&self, b: Body<R>) -> bool {
        b matches Body::SizedBody(data, len) && data@ == self@ && len == self@.len()
    }

    fn into_body(self) -> (r: Body<R>) {
        Body::from_bytes(self)
    }
}

impl<'a, R> IntoBody<R> for &'a str {
    open spec fn declared_size(&self) -> Option<usize> {
        Some(self.spec_bytes().len() as usize)
    }

    /// A sized body over exactly the UTF-8 bytes of the text.
    open spec fn becomes(&self, b: Body<R>) -> bool {
        b matches Body::SizedBody(data, len) && data@ == self.spec_bytes() && len
            == self.spec_bytes().len()
    }

    fn into_body(self) -> (r: Body<R>) {
        Body::from_text(self)
    }
}

impl<'a, R> IntoBody<&'a mut R> for &'a mut R {
    open spec fn declared_size(&self) -> Option<usize> {
        None
    }

    /// A chunked body over this very reader.
    open spec fn becomes(&self, b: Body<&'a mut R>) -> bool {
        b matches Body::ChunkedBody(reader) && *reader == **self
    }

    fn into_body(self) -> (r: Body<&'a mut R>) {
        Body::from_reader(self)
    }
}

} // verus!
