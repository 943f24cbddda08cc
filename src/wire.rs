//! Request and response frames.
//!
//! A request frame is a one-byte operation tag, a one-byte store id and, by
//! operation, fields made of a four-byte big-endian length and that many
//! bytes. A response frame is a status byte followed by its payload.

use vstd::prelude::*;

verus! {

/// Tag of a PUT request.
pub const OP_PUT: u8 = 1;
/// Tag of a GET request.
pub const OP_GET: u8 = 2;
/// Tag of a DELETE request.
pub const OP_DELETE: u8 = 3;
/// Tag of a WRITE (commit) request.
pub const OP_WRITE: u8 = 4;

/// Status byte of a successful response.
pub const STATUS_SUCCESS: u8 = 1;
/// Status byte of a response that reports an application error.
pub const STATUS_ERROR: u8 = 0;

/// Store id sent with WRITE, which commits every store.
pub const GLOBAL_STORE: u8 = 0;

/// The four bytes of `n`, most significant first.
pub open spec fn be32(n: u32) -> Seq<u8> {
    seq![(n >> 24u32) as u8, (n >> 16u32) as u8, (n >> 8u32) as u8, n as u8]
}

/// The number that four bytes spell, most significant first.
pub open spec fn be32_value(b0: u8, b1: u8, b2: u8, b3: u8) -> u32 {
    ((b0 as u32) << 24u32) | ((b1 as u32) << 16u32) | ((b2 as u32) << 8u32) | (b3 as u32)
}

/// Reading back the four bytes of `n` gives `n`.
pub proof fn lemma_be32_round_trip(n: u32)
    ensures
        be32_value(be32(n)[0], be32(n)[1], be32(n)[2], be32(n)[3]) == n,
{
    let b0 = (n >> 24u32) as u8;
    let b1 = (n >> 16u32) as u8;
    let b2 = (n >> 8u32) as u8;
    let b3 = n as u8;
    assert(((b0 as u32) << 24u32) | ((b1 as u32) << 16u32) | ((b2 as u32) << 8u32) | (b3 as u32)
        == n) by (bit_vector)
        requires
            b0 == (n >> 24u32) as u8,
            b1 == (n >> 16u32) as u8,
            b2 == (n >> 8u32) as u8,
            b3 == n as u8,
    ;
}

/// Appends the big-endian bytes of `n`.
fn push_be32(out: &mut Vec<u8>, n: u32)
    ensures
        final(out)@ == old(out)@ + be32(n),
{
    out.push((n >> 24u32) as u8);
    out.push((n >> 16u32) as u8);
    out.push((n >> 8u32) as u8);
    out.push(n as u8);
    assert(out@ =~= old(out)@ + be32(n));
}

/// A length-prefixed field: the four-byte length of `bytes`, then `bytes`.
pub open spec fn field(bytes: Seq<u8>) -> Seq<u8> {
    be32(bytes.len() as u32) + bytes
}

/// Appends `bytes` as a length-prefixed field.
fn push_field(out: &mut Vec<u8>, bytes: &[u8])
    requires
        bytes@.len() <= u32::MAX,
    ensures
        final(out)@ == old(out)@ + field(bytes@),
{
    push_be32(out, bytes.len() as u32);
    let ghost start = out@;
    let mut i: usize = 0;
    while i < bytes.len()
        invariant
            i <= bytes@.len(),
            out@ == start + bytes@.subrange(0, i as int),
        decreases bytes@.len() - i,
    {
        out.push(bytes[i]);
        i = i + 1;
        assert(out@ =~= start + bytes@.subrange(0, i as int));
    }
    assert(bytes@.subrange(0, bytes@.len() as int) =~= bytes@);
    assert(out@ =~= old(out)@ + field(bytes@));
}

/// One request to the server.
#[derive(Debug, Clone, PartialEq, Eq)]
pub enum Operation {
    /// Stores `value` under `key` in `store`.
    Put { store: u8, key: Vec<u8>, value: Vec<u8> },
    /// Reads the value under `key` in `store`.
    Get { store: u8, key: Vec<u8> },
    /// Removes `key` from `store`.
    Delete { store: u8, key: Vec<u8> },
    /// Commits pending changes of every store.
    Write,
}

/// What an [`Operation`] stands for, with its byte strings as sequences.
pub enum OperationModel {
    Put { store: u8, key: Seq<u8>, value: Seq<u8> },
    Get { store: u8, key: Seq<u8> },
    Delete { store: u8, key: Seq<u8> },
    Write,
}

/// Every byte string of the operation has a length that its four-byte
/// length field can hold.
pub open spec fn fits(op: OperationModel) -> bool {
    match op {
        OperationModel::Put { key, value, .. } => key.len() <= u32::MAX && value.len() <= u32::MAX,
        OperationModel::Get { key, .. } => key.len() <= u32::MAX,
        OperationModel::Delete { key, .. } => key.len() <= u32::MAX,
        OperationModel::Write => true,
    }
}

impl View for Operation {
    type V = OperationModel;

    open spec fn view(&self) -> OperationModel {
        match self {
            Operation::Put { store, key, value } => OperationModel::Put {
                store: *store,
                key: key@,
                value: value@,
            },
            Operation::Get { store, key } => OperationModel::Get { store: *store, key: key@ },
            Operation::Delete { store, key } => OperationModel::Delete { store: *store, key: key@ },
            Operation::Write => OperationModel::Write,
        }
    }
}

impl Operation {
    /// Whether every byte string of the operation fits its length field,
    /// which [`encode`] asks of its argument.
    pub fn fits_frame(&self) -> (r: bool)
        ensures
            r == fits(self@),
    {
        match self {
            Operation::Put { key, value, .. } => key.len() <= u32::MAX as usize && value.len()
                <= u32::MAX as usize,
            Operation::Get { key, .. } => key.len() <= u32::MAX as usize,
            Operation::Delete { key, .. } => key.len() <= u32::MAX as usize,
            Operation::Write => true,
        }
    }
}

/// The request frame of an operation.
pub open spec fn frame(op: OperationModel) -> Seq<u8> {
    match op {
        OperationModel::Put { store, key, value } => seq![OP_PUT, store] + field(key) + field(
            value,
        ),
        OperationModel::Get { store, key } => seq![OP_GET, store] + field(key),
        OperationModel::Delete { store, key } => seq![OP_DELETE, store] + field(key),
        OperationModel::Write => seq![OP_WRITE, GLOBAL_STORE],
    }
}

/// The bytes of the length-prefixed field that starts at `at` in `s`, if
/// both its length and its bytes are there.
pub open spec fn field_at(s: Seq<u8>, at: int) -> Option<Seq<u8>> {
    if 0 <= at && at + 4 <= s.len() {
        let n = be32_value(s[at], s[at + 1], s[at + 2], s[at + 3]) as int;
        if at + 4 + n <= s.len() {
            Some(s.subrange(at + 4, at + 4 + n))
        } else {
            None
        }
    } else {
        None
    }
}

/// The operation that a request frame holds, if `s` is exactly one
/// well-formed request frame.
pub open spec fn parse(s: Seq<u8>) -> Option<OperationModel> {
    if s.len() < 2 {
        None
    } else if s[0] == OP_WRITE {
        if s.len() == 2 && s[1] == GLOBAL_STORE {
            Some(OperationModel::Write)
        } else {
            None
        }
    } else if s[0] == OP_GET || s[0] == OP_DELETE {
        match field_at(s, 2) {
            Some(key) => if 6 + key.len() == s.len() {
                if s[0] == OP_GET {
                    Some(OperationModel::Get { store: s[1], key })
                } else {
                    Some(OperationModel::Delete { store: s[1], key })
                }
            } else {
                None
            },
            None => None,
        }
    } else if s[0] == OP_PUT {
        match field_at(s, 2) {
            Some(key) => match field_at(s, 6 + key.len() as int) {
                Some(value) => if 10 + key.len() + value.len() == s.len() {
                    Some(OperationModel::Put { store: s[1], key, value })
                } else {
                    None
                },
                None => None,
            },
            None => None,
        }
    } else {
        None
    }
}

/// Serialises an operation into its request frame.
pub fn encode(op: &Operation) -> (r: Vec<u8>)
    requires
        fits(op@),
    ensures
        r@ == frame(op@),
{
    let mut out: Vec<u8> = Vec::new();
    match op {
        Operation::Put { store, key, value } => {
            out.push(OP_PUT);
            out.push(*store);
            push_field(&mut out, key.as_slice());
            push_field(&mut out, value.as_slice());
        },
        Operation::Get { store, key } => {
            out.push(OP_GET);
            out.push(*store);
            push_field(&mut out, key.as_slice());
        },
        Operation::Delete { store, key } => {
            out.push(OP_DELETE);
            out.push(*store);
            push_field(&mut out, key.as_slice());
        },
        Operation::Write => {
            out.push(OP_WRITE);
            out.push(GLOBAL_STORE);
        },
    }
    assert(out@ =~= frame(op@));
    out
}

/// Reads the length-prefixed field that starts at `at`.
fn read_field(bytes: &[u8], at: usize) -> (r: Option<Vec<u8>>)
    ensures
        match r {
            Some(v) => field_at(bytes@, at as int) == Some(v@),
            None => field_at(bytes@, at as int) is None,
        },
{
    if at > bytes.len() || bytes.len() - at < 4 {
        return None;
    }
    let n: u32 = ((bytes[at] as u32) << 24u32) | ((bytes[at + 1] as u32) << 16u32) | ((bytes[at
        + 2] as u32) << 8u32) | (bytes[at + 3] as u32);
    let start: usize = at + 4;
    if (n as usize) > bytes.len() - start {
        return None;
    }
    let end: usize = start + n as usize;
    Some(vstd::slice::slice_to_vec(vstd::slice::slice_subrange(bytes, start, end)))
}

/// Reads a request frame back into the operation it holds; `None` unless
/// `bytes` is exactly one well-formed request frame.
pub fn parse_request(bytes: &[u8]) -> (r: Option<Operation>)
    ensures
        match r {
            Some(op) => parse(bytes@) == Some(op@),
            None => parse(bytes@) is None,
        },
{
    if bytes.len() < 2 {
        return None;
    }
    let tag = bytes[0];
    let store = bytes[1];
    if tag == OP_WRITE {
        if bytes.len() == 2 && store == GLOBAL_STORE {
            Some(Operation::Write)
        } else {
            None
        }
    } else if tag == OP_GET || tag == OP_DELETE {
        match read_field(bytes, 2) {
            Some(key) => {
                if key.len() == bytes.len() - 6 {
                    if tag == OP_GET {
                        Some(Operation::Get { store, key })
                    } else {
                        Some(Operation::Delete { store, key })
                    }
                } else {
                    None
                }
            },
            None => None,
        }
    } else if tag == OP_PUT {
        match read_field(bytes, 2) {
            Some(key) => {
                let next: usize = 6 + key.len();
                match read_field(bytes, next) {
                    Some(value) => {
                        if value.len() == bytes.len() - next - 4 {
                            Some(Operation::Put { store, key, value })
                        } else {
                            None
                        }
                    },
                    None => None,
                }
            },
            None => None,
        }
    } else {
        None
    }
}

/// The field of `bytes` laid at `at` in `s` reads back as `bytes`.
proof fn lemma_field_at(s: Seq<u8>, at: int, bytes: Seq<u8>)
    requires
        0 <= at,
        bytes.len() <= u32::MAX,
        at + 4 + bytes.len() <= s.len(),
        s.subrange(at, at + 4 + bytes.len()) == field(bytes),
    ensures
        field_at(s, at) == Some(bytes),
{
    let n = bytes.len() as u32;
    let f = field(bytes);
    assert(s[at] == f[0] && s[at + 1] == f[1] && s[at + 2] == f[2] && s[at + 3] == f[3]) by {
        assert(s.subrange(at, at + 4 + bytes.len())[0] == s[at]);
        assert(s.subrange(at, at + 4 + bytes.len())[1] == s[at + 1]);
        assert(s.subrange(at, at + 4 + bytes.len())[2] == s[at + 2]);
        assert(s.subrange(at, at + 4 + bytes.len())[3] == s[at + 3]);
    }
    lemma_be32_round_trip(n);
    assert(s.subrange(at + 4, at + 4 + bytes.len()) =~= bytes) by {
        assert forall|i: int| 0 <= i < bytes.len() implies s.subrange(
            at + 4,
            at + 4 + bytes.len(),
        )[i] == bytes[i] by {
            assert(s.subrange(at, at + 4 + bytes.len())[4 + i] == s[at + 4 + i]);
            assert(f[4 + i] == bytes[i]);
        }
    }
}

/// Reading back the frame of an operation whose byte strings fit their
/// length fields gives the same operation: store id, key and value alike,
/// empty ones included.
pub proof fn lemma_parse_frame(op: OperationModel)
    requires
        fits(op),
    ensures
        parse(frame(op)) == Some(op),
{
    let s = frame(op);
    match op {
        OperationModel::Put { store, key, value } => {
            let kl = key.len() as int;
            assert(s.subrange(2, 6 + kl) =~= field(key));
            lemma_field_at(s, 2, key);
            assert(s.subrange(6 + kl, 10 + kl + value.len()) =~= field(value));
            lemma_field_at(s, 6 + kl, value);
        },
        OperationModel::Get { store, key } => {
            assert(s.subrange(2, 6 + key.len() as int) =~= field(key));
            lemma_field_at(s, 2, key);
        },
        OperationModel::Delete { store, key } => {
            assert(s.subrange(2, 6 + key.len() as int) =~= field(key));
            lemma_field_at(s, 2, key);
        },
        OperationModel::Write => {},
    }
}

/// A PUT whose value is empty ends in a value length of zero and nothing
/// after it, and the same frame cut before that length is no request at all.
pub proof fn lemma_empty_value_frame(store: u8, key: Seq<u8>)
    requires
        key.len() <= u32::MAX,
    ensures
        frame(OperationModel::Put { store, key, value: Seq::empty() }) == seq![OP_PUT, store]
            + field(key) + seq![0u8, 0u8, 0u8, 0u8],
        parse(seq![OP_PUT, store] + field(key)) is None,
{
    assert(be32(0u32) =~= seq![0u8, 0u8, 0u8, 0u8]) by {
        assert((0u32 >> 24u32) as u8 == 0u8 && (0u32 >> 16u32) as u8 == 0u8 && (0u32 >> 8u32) as u8
            == 0u8) by (bit_vector);
    }
    assert(field(Seq::<u8>::empty()) =~= seq![0u8, 0u8, 0u8, 0u8]);
    assert(frame(OperationModel::Put { store, key, value: Seq::empty() }) =~= seq![OP_PUT, store]
        + field(key) + seq![0u8, 0u8, 0u8, 0u8]);
    let s = seq![OP_PUT, store] + field(key);
    assert(s.subrange(2, 6 + key.len() as int) =~= field(key));
    lemma_field_at(s, 2, key);
    assert(field_at(s, 6 + key.len() as int) is None);
}

/// The text that `String::from_utf8_lossy` makes of some bytes.
pub uninterp spec fn lossy_utf8(bytes: Seq<u8>) -> Seq<char>;

/// Relies on `String::from_utf8_lossy`: the text is a function of the bytes
/// alone (invalid sequences become U+FFFD), and no bytes give no text.
#[verifier::external_body]
fn lossy_text(bytes: &[u8]) -> (r: String)
    ensures
        r@ == lossy_utf8(bytes@),
        bytes@.len() == 0 ==> r@.len() == 0,
{
    String::from_utf8_lossy(bytes).into_owned()
}

/// A well-formed response.
#[derive(Debug, Clone, PartialEq, Eq)]
pub enum DecodedResponse {
    /// Status success; the payload follows the status byte.
    Success(Vec<u8>),
    /// Status error; the server's message, read as text.
    Failure(String),
}

/// A response that breaks the protocol.
#[derive(Debug, Clone, PartialEq, Eq)]
pub enum ProtocolError {
    /// The response held no byte, not even a status.
    Empty,
    /// The status byte was neither success nor error; the payload follows.
    UnknownStatus(u8, Vec<u8>),
}

/// What a response frame means, with byte strings and text as sequences.
pub enum ResponseModel {
    Success(Seq<u8>),
    Failure(Seq<char>),
    Empty,
    UnknownStatus(u8, Seq<u8>),
}

/// The meaning of the response frame `s`: its first byte is the status and
/// the rest its payload; an error payload is read as text.
pub open spec fn response(s: Seq<u8>) -> ResponseModel {
    if s.len() == 0 {
        ResponseModel::Empty
    } else if s[0] == STATUS_SUCCESS {
        ResponseModel::Success(s.drop_first())
    } else if s[0] == STATUS_ERROR {
        ResponseModel::Failure(lossy_utf8(s.drop_first()))
    } else {
        ResponseModel::UnknownStatus(s[0], s.drop_first())
    }
}

/// The model of a decoding result.
pub open spec fn decoded(r: Result<DecodedResponse, ProtocolError>) -> ResponseModel {
    match r {
        Ok(DecodedResponse::Success(p)) => ResponseModel::Success(p@),
        Ok(DecodedResponse::Failure(m)) => ResponseModel::Failure(m@),
        Err(ProtocolError::Empty) => ResponseModel::Empty,
        Err(ProtocolError::UnknownStatus(st, p)) => ResponseModel::UnknownStatus(st, p@),
    }
}

/// Splits a response frame into its status and payload.
pub fn decode(bytes: &[u8]) -> (r: Result<DecodedResponse, ProtocolError>)
    ensures
        decoded(r) == response(bytes@),
{
    if bytes.len() == 0 {
        return Err(ProtocolError::Empty);
    }
    let status = bytes[0];
    let payload = vstd::slice::slice_subrange(bytes, 1, bytes.len());
    assert(payload@ =~= bytes@.drop_first());
    if status == STATUS_SUCCESS {
        Ok(DecodedResponse::Success(vstd::slice::slice_to_vec(payload)))
    } else if status == STATUS_ERROR {
        Ok(DecodedResponse::Failure(lossy_text(payload)))
    } else {
        Err(ProtocolError::UnknownStatus(status, vstd::slice::slice_to_vec(payload)))
    }
}

} // verus!
