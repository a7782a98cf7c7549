//! An ordered collection of header fields, looked up by name without regard
//! to ASCII case.

use vstd::prelude::*;
use vstd::utf8::encode_utf8;

verus! {

/// A byte with ASCII upper-case letters taken to lower case.
pub open spec fn ascii_lower(b: u8) -> u8 {
    if 65 <= b <= 90 {
        (b + 32) as u8
    } else {
        b
    }
}

/// Whether two byte strings are equal but for ASCII case.
pub open spec fn bytes_match(x: Seq<u8>, y: Seq<u8>) -> bool {
    x.len() == y.len() && forall|i: int| 0 <= i < x.len() ==> ascii_lower(x[i]) == ascii_lower(y[i])
}

/// Whether two header names are the same name.
pub open spec fn same_name(a: Seq<char>, b: Seq<char>) -> bool {
    bytes_match(encode_utf8(a), encode_utf8(b))
}

/// The value of the first field named `name`, if any.
pub open spec fn lookup(fields: Seq<(Seq<char>, Seq<char>)>, name: Seq<char>) -> Option<Seq<char>>
    decreases fields.len(),
{
    if fields.len() == 0 {
        None
    } else {
        match lookup(fields.drop_last(), name) {
            Some(v) => Some(v),
            None => if same_name(fields.last().0, name) {
                Some(fields.last().1)
            } else {
                None
            },
        }
    }
}

/// Whether two byte strings are equal but for ASCII case.
fn bytes_equal_ignoring_case(x: &[u8], y: &[u8]) -> (r: bool)
    ensures
        r == bytes_match(x@, y@),
{
    if x.len() != y.len() {
        return false;
    }
    let mut i: usize = 0;
    while i < x.len()
        invariant
            x@.len() == y@.len(),
            0 <= i <= x@.len(),
            forall|j: int| 0 <= j < i ==> ascii_lower(x@[j]) == ascii_lower(y@[j]),
        decreases x@.len() - i,
    {
        let a = x[i];
        let b = y[i];
        let la: u8 = if 65 <= a && a <= 90 { a + 32 } else { a };
        let lb: u8 = if 65 <= b && b <= 90 { b + 32 } else { b };
        if la != lb {
            return false;
        }
        i = i + 1;
    }
    true
}

/// Header fields in the order they were added; one name may occur more than
/// once.
#[derive(Clone, Debug)]
pub struct Headers {
    fields: Vec<(String, String)>,
}

impl View for Headers {
    type V = Seq<(Seq<char>, Seq<char>)>;

    closed spec fn view(&self) -> Seq<(Seq<char>, Seq<char>)> {
        self.fields@.map_values(|f: (String, String)| (f.0@, f.1@))
    }
}

impl Headers {
    /// An empty collection.
    pub fn new() -> (r: Headers)
        ensures
            r@ == Seq::<(Seq<char>, Seq<char>)>::empty(),
    {
        let r = Headers { fields: Vec::new() };
        assert(r@ =~= Seq::<(Seq<char>, Seq<char>)>::empty());
        r
    }

    /// Adds a field after those already present.
    pub fn append(&mut self, name: String, value: String)
        ensures
            final(self)@ == old(self)@.push((name@, value@)),
    {
        self.fields.push((name, value));
        assert(final(self)@ =~= old(self)@.push((name@, value@)));
    }

    /// A second collection with the same fields in the same order.
    pub fn duplicate(&self) -> (r: Headers)
        ensures
            r@ == self@,
    {
        let mut fields: Vec<(String, String)> = Vec::new();
        let mut i: usize = 0;
        while i < self.fields.len()
            invariant
                0 <= i <= self.fields@.len(),
                fields@.len() == i,
                forall|j: int| 0 <= j < i ==> #[trigger] fields@[j] == self.fields@[j],
            decreases self.fields@.len() - i,
        {
            let f = &self.fields[i];
            fields.push((f.0.clone(), f.1.clone()));
            i = i + 1;
        }
        let r = Headers { fields };
        assert(r@ =~= self@);
        r
    }

    /// The number of fields.
    pub fn len(&self) -> (r: usize)
        ensures
            r == self@.len(),
    {
        self.fields.len()
    }

    /// The value of the first field with the given name, without regard to
    /// ASCII case.
    pub fn get(&self, name: &str) -> (r: Option<String>)
        ensures
            r is Some <==> lookup(self@, name@) is Some,
            r matches Some(v) ==> lookup(self@, name@) == Some(v@),
    {
        let target = name.as_bytes();
        let mut i: usize = 0;
        while i < self.fields.len()
            invariant
                0 <= i <= self.fields@.len(),
                target@ == encode_utf8(name@),
                lookup(self@.subrange(0, i as int), name@) is None,
            decreases self.fields@.len() - i,
        {
            let ghost before = self@.subrange(0, i as int);
            let ghost upto = self@.subrange(0, i as int + 1);
            assert(upto.drop_last() =~= before);
            assert(upto.last() == self@[i as int]);
            let field = &self.fields[i];
            if bytes_equal_ignoring_case(field.0.as_str().as_bytes(), target) {
                let v = field.1.clone();
                proof {
                    lemma_lookup_prefix(self@, name@, i as int + 1);
                }
                return Some(v);
            }
            i = i + 1;
        }
        assert(self@.subrange(0, i as int) =~= self@);
        None
    }
}

/// A field found in a prefix is the one found in the whole.
proof fn lemma_lookup_prefix(fields: Seq<(Seq<char>, Seq<char>)>, name: Seq<char>, n: int)
    requires
        0 <= n <= fields.len(),
        lookup(fields.subrange(0, n), name) is Some,
    ensures
        lookup(fields, name) == lookup(fields.subrange(0, n), name),
    decreases fields.len() - n,
{
    if n < fields.len() {
        let upto = fields.subrange(0, n + 1);
        assert(upto.drop_last() =~= fields.subrange(0, n));
        lemma_lookup_prefix(fields, name, n + 1);
    } else {
        assert(fields.subrange(0, n) =~= fields);
    }
}

} // verus!
