//! Requests and responses as plain values: what the client reads of them and
//! what it writes into them.

use vstd::prelude::*;
use vstd::string::*;
use vstd::utf8::*;

verus! {

/// The request methods that the client uses.
#[derive(Debug, Clone, Copy, PartialEq, Eq, Structural)]
pub enum Method {
    Get,
    Post,
}

/// A header of a request.
#[derive(Debug)]
pub struct Header {
    pub name: String,
    pub value: String,
}

/// A byte with an upper-case ASCII letter turned into its lower-case one.
pub open spec fn lower_byte(b: u8) -> u8 {
    if 65 <= b <= 90 {
        (b + 32) as u8
    } else {
        b
    }
}

/// Two header names are the same name: their bytes agree but for the case
/// of ASCII letters.
pub open spec fn same_name(a: Seq<char>, b: Seq<char>) -> bool {
    let x = encode_utf8(a);
    let y = encode_utf8(b);
    x.len() == y.len() && forall|i: int| 0 <= i < x.len() ==> lower_byte(#[trigger] x[i])
        == lower_byte(y[i])
}

/// The headers of `headers` that are not named `name`, in their order.
pub open spec fn without_name(headers: Seq<Header>, name: Seq<char>) -> Seq<Header>
    decreases headers.len(),
{
    if headers.len() == 0 {
        Seq::empty()
    } else if same_name(headers.last().name@, name) {
        without_name(headers.drop_last(), name)
    } else {
        without_name(headers.drop_last(), name).push(headers.last())
    }
}

/// The value of the last header named `name`, if there is one.
pub open spec fn header_value(headers: Seq<Header>, name: Seq<char>) -> Option<Seq<char>>
    decreases headers.len(),
{
    if headers.len() == 0 {
        None
    } else if same_name(headers.last().name@, name) {
        Some(headers.last().value@)
    } else {
        header_value(headers.drop_last(), name)
    }
}

/// The number of headers named `name`.
pub open spec fn count_name(headers: Seq<Header>, name: Seq<char>) -> nat
    decreases headers.len(),
{
    if headers.len() == 0 {
        0
    } else if same_name(headers.last().name@, name) {
        count_name(headers.drop_last(), name) + 1
    } else {
        count_name(headers.drop_last(), name)
    }
}

/// Every name is the same name as itself.
pub proof fn lemma_same_name_reflexive(name: Seq<char>)
    ensures
        same_name(name, name),
{
}

/// Once the headers named `name` are taken out, none of that name is left.
pub proof fn lemma_without_name_has_none(headers: Seq<Header>, name: Seq<char>)
    ensures
        count_name(without_name(headers, name), name) == 0,
    decreases headers.len(),
{
    if headers.len() > 0 {
        lemma_without_name_has_none(headers.drop_last(), name);
        if !same_name(headers.last().name@, name) {
            let kept = without_name(headers.drop_last(), name).push(headers.last());
            assert(kept.drop_last() =~= without_name(headers.drop_last(), name));
        }
    }
}

/// Names that are the same as one name are the same as each other.
pub proof fn lemma_same_name_shared(a: Seq<char>, b: Seq<char>, c: Seq<char>)
    requires
        same_name(a, b),
        same_name(a, c),
    ensures
        same_name(b, c),
{
    let x = encode_utf8(a);
    let y = encode_utf8(b);
    let z = encode_utf8(c);
    assert forall|i: int| 0 <= i < y.len() implies lower_byte(#[trigger] y[i]) == lower_byte(
        z[i],
    ) by {
        assert(lower_byte(x[i]) == lower_byte(y[i]));
        assert(lower_byte(x[i]) == lower_byte(z[i]));
    }
}

/// Taking out the headers of one name leaves the value and the number of
/// the headers of every other name as they were.
pub proof fn lemma_without_name_keeps_others(
    headers: Seq<Header>,
    dropped: Seq<char>,
    other: Seq<char>,
)
    requires
        !same_name(dropped, other),
    ensures
        header_value(without_name(headers, dropped), other) == header_value(headers, other),
        count_name(without_name(headers, dropped), other) == count_name(headers, other),
    decreases headers.len(),
{
    if headers.len() > 0 {
        lemma_without_name_keeps_others(headers.drop_last(), dropped, other);
        let last = headers.last();
        if same_name(last.name@, dropped) {
            if same_name(last.name@, other) {
                lemma_same_name_shared(last.name@, dropped, other);
            }
        } else {
            let kept = without_name(headers.drop_last(), dropped).push(last);
            assert(kept.drop_last() =~= without_name(headers.drop_last(), dropped));
        }
    }
}

fn to_lower(b: u8) -> (l: u8)
    ensures
        l == lower_byte(b),
{
    if 65 <= b && b <= 90 {
        b + 32
    } else {
        b
    }
}

/// Whether `a` and `b` name the same header.
pub fn names_match(a: &str, b: &str) -> (same: bool)
    ensures
        same == same_name(a@, b@),
{
    let x = a.as_bytes();
    let y = b.as_bytes();
    if x.len() != y.len() {
        return false;
    }
    let mut i: usize = 0;
    while i < x.len()
        invariant
            i <= x.len(),
            x.len() == y.len(),
            x@ == encode_utf8(a@),
            y@ == encode_utf8(b@),
            forall|k: int| 0 <= k < i ==> lower_byte(#[trigger] x@[k]) == lower_byte(y@[k]),
        decreases x.len() - i,
    {
        if to_lower(x[i]) != to_lower(y[i]) {
            return false;
        }
        i += 1;
    }
    true
}

/// A request that is to be sent: where to, how, and with what.
#[derive(Debug)]
pub struct Request {
    pub method: Method,
    pub uri: String,
    pub headers: Vec<Header>,
    /// The body, where its bytes are at hand; a request may also carry none
    /// that the client could measure.
    pub body: Option<Vec<u8>>,
}

impl Request {
    /// A request without headers.
    pub fn new(method: Method, uri: String, body: Option<Vec<u8>>) -> (r: Request)
        ensures
            r.method == method,
            r.uri == uri,
            r.headers@ == Seq::<Header>::empty(),
            r.body == body,
    {
        Request { method, uri, headers: Vec::new(), body }
    }

    /// Gives the header `name` the value `value`: headers of that name that
    /// were there are dropped, the others stay as they were, in their order,
    /// and the new one comes last.
    pub fn set_header(&mut self, name: &str, value: String)
        ensures
            final(self).headers@.len() > 0,
            final(self).headers@.drop_last() == without_name(old(self).headers@, name@),
            final(self).headers@.last().name@ == name@,
            final(self).headers@.last().value == value,
            header_value(final(self).headers@, name@) == Some(value@),
            count_name(final(self).headers@, name@) == 1,
            forall|other: Seq<char>|
                !same_name(name@, other) ==> #[trigger] header_value(final(self).headers@, other)
                    == header_value(old(self).headers@, other),
            forall|other: Seq<char>|
                !same_name(name@, other) ==> #[trigger] count_name(final(self).headers@, other)
                    == count_name(old(self).headers@, other),
            final(self).method == old(self).method,
            final(self).uri == old(self).uri,
            final(self).body == old(self).body,
    {
        let mut kept: Vec<Header> = Vec::new();
        let mut i: usize = 0;
        while i < self.headers.len()
            invariant
                i <= self.headers.len(),
                *self == *old(self),
                kept@ == without_name(self.headers@.take(i as int), name@),
            decreases self.headers.len() - i,
        {
            proof {
                assert(self.headers@.take(i + 1).drop_last() =~= self.headers@.take(i as int));
            }
            if !names_match(self.headers[i].name.as_str(), name) {
                kept.push(
                    Header {
                        name: self.headers[i].name.clone(),
                        value: self.headers[i].value.clone(),
                    },
                );
            }
            i += 1;
        }
        proof {
            assert(self.headers@.take(i as int) =~= self.headers@);
        }
        proof {
            lemma_without_name_has_none(self.headers@, name@);
            lemma_same_name_reflexive(name@);
        }
        kept.push(Header { name: String::from_str(name), value });
        proof {
            assert(kept@.drop_last() =~= without_name(self.headers@, name@));
            assert forall|other: Seq<char>| !same_name(name@, other) implies header_value(
                kept@,
                other,
            ) == header_value(self.headers@, other) && count_name(kept@, other) == count_name(
                self.headers@,
                other,
            ) by {
                lemma_without_name_keeps_others(self.headers@, name@, other);
            }
        }
        self.headers = kept;
    }

    /// The length of the body, where the request holds one.
    pub fn content_length(&self) -> (len: Option<usize>)
        ensures
            match self.body {
                Some(bytes) => len matches Some(n) && n == bytes@.len(),
                None => len is None,
            },
    {
        match &self.body {
            Some(bytes) => Some(bytes.len()),
            None => None,
        }
    }
}

/// A header of a response; its value is kept as the bytes that came.
#[derive(Debug)]
pub struct ResponseHeader {
    pub name: String,
    pub value: Vec<u8>,
}

/// A byte that may stand in a header value that is read as text: visible
/// ASCII, a blank or a tab.
pub open spec fn visible_ascii(b: u8) -> bool {
    (32 <= b < 127) || b == 9
}

/// Every byte of `bytes` is visible ASCII.
pub open spec fn all_visible_ascii(bytes: Seq<u8>) -> bool {
    forall|i: int| 0 <= i < bytes.len() ==> visible_ascii(#[trigger] bytes[i])
}

/// The position of the first header named `name`, if there is one.
pub open spec fn first_named(headers: Seq<ResponseHeader>, name: Seq<char>) -> Option<int>
    decreases headers.len(),
{
    if headers.len() == 0 {
        None
    } else if same_name(headers[0].name@, name) {
        Some(0)
    } else {
        match first_named(headers.drop_first(), name) {
            Some(i) => Some(i + 1),
            None => None,
        }
    }
}

/// `std::str::from_utf8`: it accepts exactly the byte sequences that are
/// UTF-8, and the text it gives is the one that those bytes encode.
#[verifier::external_body]
fn str_from_utf8(bytes: &[u8]) -> (r: Option<&str>)
    ensures
        r is Some <==> valid_utf8(bytes@),
        r matches Some(s) ==> encode_utf8(s@) == bytes@,
{
    std::str::from_utf8(bytes).ok()
}

/// Bytes that are all ASCII are UTF-8.
proof fn lemma_ascii_is_utf8(bytes: Seq<u8>)
    requires
        forall|i: int| 0 <= i < bytes.len() ==> #[trigger] bytes[i] < 128,
    ensures
        valid_utf8(bytes),
{
    assert forall|i: int| 0 <= i < bytes.len() implies #[trigger] is_leading_byte_width_1(
        bytes[i],
    ) by {
        let b = bytes[i];
        assert(b < 128 ==> b & 0x80 == 0) by (bit_vector);
    }
    assert(bytes.subrange(0, 0) =~= Seq::<u8>::empty());
    assert(partial_valid_utf8(bytes, 0));
    partial_valid_utf8_extend_ascii_block(bytes, 0, bytes.len() as int);
    assert(bytes.subrange(0, bytes.len() as int) =~= bytes);
}

/// Reads a header value as text: the text whose bytes are `bytes`, where all
/// of them are visible ASCII, and nothing otherwise.
pub fn header_text(bytes: &Vec<u8>) -> (r: Option<String>)
    ensures
        r is Some <==> all_visible_ascii(bytes@),
        r matches Some(s) ==> encode_utf8(s@) == bytes@ && s@ == decode_utf8(bytes@),
{
    let mut i: usize = 0;
    while i < bytes.len()
        invariant
            i <= bytes.len(),
            forall|k: int| 0 <= k < i ==> visible_ascii(#[trigger] bytes@[k]),
        decreases bytes.len() - i,
    {
        let b = bytes[i];
        if !((32 <= b && b < 127) || b == 9) {
            return None;
        }
        i += 1;
    }
    proof {
        lemma_ascii_is_utf8(bytes@);
    }
    match str_from_utf8(bytes.as_slice()) {
        Some(s) => {
            proof {
                encode_utf8_decode_utf8(s@);
            }
            Some(String::from_str(s))
        },
        None => None,
    }
}

/// A response as the client reads it: the status, the headers and the body
/// as text.
#[derive(Debug)]
pub struct Response {
    pub status: u16,
    pub headers: Vec<ResponseHeader>,
    pub body: String,
}

/// Whether `status` is a success code, one of 200 to 299.
pub open spec fn success_status(status: u16) -> bool {
    200 <= status < 300
}

impl Response {
    /// The value of the first header named `name`, if there is one.
    pub open spec fn spec_header(&self, name: Seq<char>) -> Option<Seq<u8>> {
        match first_named(self.headers@, name) {
            Some(i) => Some(self.headers@[i].value@),
            None => None,
        }
    }

    /// Whether the status is a success code.
    pub fn is_success(&self) -> (ok: bool)
        ensures
            ok == success_status(self.status),
    {
        200 <= self.status && self.status < 300
    }

    /// The value of the first header named `name`, if there is one.
    pub fn header(&self, name: &str) -> (r: Option<&Vec<u8>>)
        ensures
            r matches Some(v) ==> self.spec_header(name@) == Some(v@),
            r is None ==> self.spec_header(name@) is None,
    {
        let mut i: usize = 0;
        while i < self.headers.len()
            invariant
                i <= self.headers.len(),
                forall|k: int| 0 <= k < i ==> !same_name(
                    (#[trigger] self.headers@[k]).name@,
                    name@,
                ),
            decreases self.headers.len() - i,
        {
            if names_match(self.headers[i].name.as_str(), name) {
                proof {
                    lemma_first_named_skip(self.headers@, name@, i as int);
                }
                return Some(&self.headers[i].value);
            }
            i += 1;
        }
        proof {
            lemma_first_named_skip(self.headers@, name@, i as int);
        }
        None
    }
}

/// In a list whose first `skipped` headers are not named `name`, the search
/// for `name` is the search in the rest, moved by `skipped`.
proof fn lemma_first_named_skip(headers: Seq<ResponseHeader>, name: Seq<char>, skipped: int)
    requires
        0 <= skipped <= headers.len(),
        forall|k: int| 0 <= k < skipped ==> !same_name((#[trigger] headers[k]).name@, name),
    ensures
        first_named(headers, name) == match first_named(headers.skip(skipped), name) {
            Some(i) => Some(i + skipped),
            None => None,
        },
    decreases skipped,
{
    if skipped == 0 {
        assert(headers.skip(0) =~= headers);
    } else {
        let rest = headers.drop_first();
        lemma_first_named_skip(rest, name, skipped - 1);
        assert(rest.skip(skipped - 1) =~= headers.skip(skipped));
    }
}

} // verus!
