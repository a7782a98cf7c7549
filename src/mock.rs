//! An in-memory stream for tests: it reads from a fixed input and keeps
//! what is written to it.

use vstd::prelude::*;

use crate::client::{Connector, Exchange, Request, Response};

verus! {

/// A connector that answers from a table of URLs and keeps every request
/// handed to it. A URL that the table lacks is a transport failure.
pub struct ScriptedConnector<R> {
    routes: Vec<(String, Response)>,
    /// The requests handed over, oldest first.
    pub requests: Vec<Request<R>>,
    log: Ghost<Seq<Exchange<R>>>,
}

/// The message of the failure on a URL that the table lacks.
pub const NO_ROUTE: &'static str = "no route to this URL";

impl<R> ScriptedConnector<R> {
    /// A connector with an empty table and an empty log.
    pub fn new() -> (r: ScriptedConnector<R>)
        ensures
            r.log() == Seq::<Exchange<R>>::empty(),
    {
        ScriptedConnector { routes: Vec::new(), requests: Vec::new(), log: Ghost(Seq::empty()) }
    }

    /// Answers `url`, given as its serialization, with `response`; an entry
    /// added earlier for the same URL takes precedence.
    pub fn add_route(&mut self, url: &str, response: Response)
        ensures
            final(self).log() == old(self).log(),
    {
        self.routes.push((url.to_string(), response));
    }
}

impl<R> Connector<R> for ScriptedConnector<R> {
    closed spec fn log(&self) -> Seq<Exchange<R>> {
        self.log@
    }

    fn send(&mut self, request: Request<R>) -> (r: Result<Response, String>) {
        let mut found: Option<Response> = None;
        let n = self.routes.len();
        let mut i: usize = 0;
        while i < n
            invariant
                n == self.routes@.len(),
                i <= n,
            decreases n - i,
        {
            if found.is_none() && bytes_equal_slices(
                self.routes[i].0.as_str().as_bytes(),
                request.url.as_str().as_bytes(),
            ) {
                found = Some(self.routes[i].1.duplicate());
            }
            i = i + 1;
        }
        let r = match found {
            Some(res) => Ok(res),
            None => Err(NO_ROUTE.to_string()),
        };
        let ghost req = request;
        self.requests.push(request);
        self.log = Ghost(self.log@.push(Exchange { request: req, outcome: r }));
        r
    }
}

/// Whether two byte strings are equal.
fn bytes_equal_slices(x: &[u8], y: &[u8]) -> (r: bool)
    ensures
        r == (x@ == y@),
{
    if x.len() != y.len() {
        return false;
    }
    let mut i: usize = 0;
    while i < x.len()
        invariant
            x@.len() == y@.len(),
            0 <= i <= x@.len(),
            forall|j: int| 0 <= j < i ==> x@[j] == y@[j],
        decreases x@.len() - i,
    {
        if x[i] != y[i] {
            return false;
        }
        i = i + 1;
    }
    assert(x@ =~= y@);
    true
}

/// A stream over memory: reads come from `read`, from `position` on, and
/// writes are appended to `write`.
///
/// The derived `Clone` keeps the reading position; `rewound_copy` makes a
/// copy that reads its input again from the start.
#[derive(Clone, Debug)]
pub struct MockStream {
    /// All the input, read or not.
    pub read: Vec<u8>,
    /// How much of the input has been read.
    pub position: usize,
    /// Everything written so far.
    pub write: Vec<u8>,
}

impl MockStream {
    /// The reading position lies within the input.
    pub open spec fn wf(&self) -> bool {
        self.position <= self.read@.len()
    }

    /// The input not yet read.
    pub open spec fn unread(&self) -> Seq<u8> {
        self.read@.subrange(self.position as int, self.read@.len() as int)
    }

    /// A stream with no input and nothing written.
    pub fn new() -> (r: MockStream)
        ensures
            r.wf(),
            r.read@.len() == 0,
            r.position == 0,
            r.write@.len() == 0,
    {
        MockStream { read: Vec::new(), position: 0, write: Vec::new() }
    }

    /// A stream whose input is a copy of the given bytes.
    pub fn with_input(input: &[u8]) -> (r: MockStream)
        ensures
            r.wf(),
            r.read@ == input@,
            r.position == 0,
            r.write@.len() == 0,
    {
        MockStream { read: vstd::slice::slice_to_vec(input), position: 0, write: Vec::new() }
    }

    /// A copy of the stream with its input to be read again from the start.
    pub fn rewound_copy(&self) -> (r: MockStream)
        ensures
            r.wf(),
            r.read@ == self.read@,
            r.position == 0,
            r.write@ == self.write@,
    {
        MockStream {
            read: vstd::slice::slice_to_vec(self.read.as_slice()),
            position: 0,
            write: vstd::slice::slice_to_vec(self.write.as_slice()),
        }
    }

    /// Reads up to `max` bytes of the input that is left.
    pub fn read(&mut self, max: usize) -> (r: Vec<u8>)
        requires
            old(self).wf(),
        ensures
            final(self).wf(),
            final(self).read == old(self).read,
            final(self).write == old(self).write,
            r@.len() == if max < old(self).unread().len() {
                max as int
            } else {
                old(self).unread().len() as int
            },
            r@ == old(self).unread().subrange(0, r@.len() as int),
            final(self).position == old(self).position + r@.len(),
    {
        let mut out: Vec<u8> = Vec::new();
        let start = self.position;
        while out.len() < max && self.position < self.read.len()
            invariant
                start <= self.position <= self.read@.len(),
                self.read == old(self).read,
                self.write == old(self).write,
                start == old(self).position,
                out@.len() == self.position - start,
                out@.len() <= max,
                out@ == self.read@.subrange(start as int, self.position as int),
            decreases self.read@.len() - self.position,
        {
            out.push(self.read[self.position]);
            self.position = self.position + 1;
            assert(out@ =~= self.read@.subrange(start as int, self.position as int));
        }
        assert(out@ =~= old(self).unread().subrange(0, out@.len() as int));
        out
    }

    /// Appends the bytes to what has been written.
    pub fn write(&mut self, msg: &[u8])
        ensures
            final(self).write@ == old(self).write@ + msg@,
            final(self).read == old(self).read,
            final(self).position == old(self).position,
    {
        let mut i: usize = 0;
        while i < msg.len()
            invariant
                0 <= i <= msg@.len(),
                self.read == old(self).read,
                self.position == old(self).position,
                self.write@ == old(self).write@ + msg@.subrange(0, i as int),
            decreases msg@.len() - i,
        {
            self.write.push(msg[i]);
            i = i + 1;
            assert(self.write@ =~= old(self).write@ + msg@.subrange(0, i as int));
        }
        assert(msg@.subrange(0, i as int) =~= msg@);
    }

    /// The address of the peer, which for this stream is fixed.
    pub fn peer_name(&self) -> (r: &'static str)
        ensures
            r@ == "127.0.0.1:1337"@,
    {
        "127.0.0.1:1337"
    }

    /// Whether two streams hold the same input and have had the same bytes
    /// written to them.
    pub fn same_contents(&self, other: &MockStream) -> (r: bool)
        ensures
            r == (self.read@ == other.read@ && self.write@ == other.write@),
    {
        bytes_equal(&self.read, &other.read) && bytes_equal(&self.write, &other.write)
    }
}

/// Whether two byte vectors are equal.
fn bytes_equal(x: &Vec<u8>, y: &Vec<u8>) -> (r: bool)
    ensures
        r == (x@ == y@),
{
    if x.len() != y.len() {
        return false;
    }
    let mut i: usize = 0;
    while i < x.len()
        invariant
            x@.len() == y@.len(),
            0 <= i <= x@.len(),
            forall|j: int| 0 <= j < i ==> x@[j] == y@[j],
        decreases x@.len() - i,
    {
        if x[i] != y[i] {
            return false;
        }
        i = i + 1;
    }
    assert(x@ =~= y@);
    true
}

} // verus!
