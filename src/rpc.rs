use vstd::prelude::*;
use vstd::string::{StringExecFns, StringSliceAdditionalSpecFns};

use crate::bytes::copy_bytes;
use crate::error::Error;
use hex::FromHex;

verus! {

/// The lowercase hexadecimal digit of a nibble.
pub open spec fn hex_digit(n: u8) -> char {
    if n == 0 { '0' } else if n == 1 { '1' } else if n == 2 { '2' } else if n == 3 { '3' }
    else if n == 4 { '4' } else if n == 5 { '5' } else if n == 6 { '6' } else if n == 7 { '7' }
    else if n == 8 { '8' } else if n == 9 { '9' } else if n == 10 { 'a' } else if n == 11 { 'b' }
    else if n == 12 { 'c' } else if n == 13 { 'd' } else if n == 14 { 'e' } else { 'f' }
}

/// The lowercase hexadecimal text of a byte string: two digits per byte, high nibble first.
pub open spec fn hex_lower(b: Seq<u8>) -> Seq<char>
    decreases b.len(),
{
    if b.len() == 0 {
        Seq::empty()
    } else {
        hex_lower(b.drop_last()) + seq![hex_digit(b.last() / 16), hex_digit(b.last() % 16)]
    }
}

/// An ASCII hexadecimal digit, in either case.
pub open spec fn is_hex_byte(c: u8) -> bool {
    (48 <= c <= 57) || (97 <= c <= 102) || (65 <= c <= 70)
}

/// The value of an ASCII hexadecimal digit.
pub open spec fn hex_byte_value(c: u8) -> nat {
    if 48 <= c <= 57 {
        (c - 48) as nat
    } else if 97 <= c <= 102 {
        (c - 87) as nat
    } else {
        (c - 55) as nat
    }
}

/// Hexadecimal text: an even number of hexadecimal digits.
pub open spec fn is_hex_text(d: Seq<u8>) -> bool {
    &&& d.len() % 2 == 0
    &&& forall|i: int| 0 <= i < d.len() ==> is_hex_byte(#[trigger] d[i])
}

/// The bytes that hexadecimal text stands for: each pair of digits, high nibble first.
pub open spec fn hex_decode(d: Seq<u8>) -> Seq<u8> {
    Seq::new(
        d.len() / 2,
        |i: int| (hex_byte_value(d[2 * i]) * 16 + hex_byte_value(d[2 * i + 1])) as u8,
    )
}

/// Relies on `hex::encode`: two lowercase digits per byte, high nibble first.
#[verifier::external_body]
pub fn encode_to_hex(value: &[u8]) -> (r: String)
    ensures
        r@ == hex_lower(value@),
{
    hex::encode(value)
}

/// Relies on `<Vec<u8> as hex::FromHex>::from_hex`: odd-length text and any byte that is not a
/// hexadecimal digit (either case) are errors; otherwise each pair of digits gives a byte.
#[verifier::external_body]
fn decode_hex(digits: &[u8]) -> (r: Option<Vec<u8>>)
    ensures
        r is Some <==> is_hex_text(digits@),
        r matches Some(v) ==> v@ == hex_decode(digits@),
{
    Vec::<u8>::from_hex(digits).ok()
}

/// What a witness string of the RPC response gives: its bytes must start with `0x`
/// (`InvalidHexData` otherwise), hold more than those two (`HexStringOutOfBounds` otherwise), and
/// continue with hexadecimal text (`InvalidHexData` otherwise), which is decoded.
pub open spec fn hex_witness_of(s: Seq<u8>) -> Result<Seq<u8>, Error> {
    if !(s.len() >= 2 && s[0] == 48 && s[1] == 120) {
        Err(Error::InvalidHexData)
    } else if s.len() <= 2 {
        Err(Error::HexStringOutOfBounds)
    } else if !is_hex_text(s.subrange(2, s.len() as int)) {
        Err(Error::InvalidHexData)
    } else {
        Ok(hex_decode(s.subrange(2, s.len() as int)))
    }
}

/// The view of a result holding bytes.
pub open spec fn bytes_result_view(r: Result<Vec<u8>, Error>) -> Result<Seq<u8>, Error> {
    match r {
        Ok(v) => Ok(v@),
        Err(e) => Err(e),
    }
}

/// Decodes one `0x`-prefixed hexadecimal witness.
pub fn extract_hex_from(hex_string: &str) -> (r: Result<Vec<u8>, Error>)
    ensures
        bytes_result_view(r) == hex_witness_of(hex_string.spec_bytes()),
{
    let b = hex_string.as_bytes();
    if !(b.len() >= 2 && b[0] == 48 && b[1] == 120) {
        return Err(Error::InvalidHexData);
    }
    if b.len() <= 2 {
        return Err(Error::HexStringOutOfBounds);
    }
    let digits = vstd::slice::slice_subrange(b, 2, b.len());
    match decode_hex(digits) {
        Some(v) => Ok(v),
        None => Err(Error::InvalidHexData),
    }
}

/// The parameters of a state proof: the witness nodes and the keys that they prove.
pub struct StorageProofParams {
    pub proof: Vec<Vec<u8>>,
    pub keys: Vec<Vec<u8>>,
}

/// The `result` of a `state_getReadProof` response: the block and the hex witnesses.
pub struct ReadProofAtBlock {
    pub at: String,
    pub proof: Vec<String>,
}

/// A `state_getReadProof` response.
pub struct ReadProof {
    pub jsonrpc: String,
    pub result: ReadProofAtBlock,
    pub id: u32,
}

/// The JSON-RPC body that asks for the read proof of `key` at the block `at`.
pub open spec fn read_proof_body(key: Seq<u8>, at: Seq<u8>) -> Seq<char> {
    "{\"id\":1,\"jsonrpc\":\"2.0\",\"method\":\"state_getReadProof\",\"params\":[[\"0x"@
        + hex_lower(key) + "\"], \"0x"@ + hex_lower(at) + "\"]}"@
}

/// The RPC node that answers read proof requests.
pub struct Rpc {
    url: String,
}

impl Rpc {
    /// The node's URL.
    pub closed spec fn url_view(&self) -> Seq<char> {
        self.url@
    }

    pub fn new(url: String) -> (r: Self)
        ensures
            r.url_view() == url@,
    {
        Rpc { url }
    }

    /// The node's URL.
    pub fn url(&self) -> (r: String)
        ensures
            r@ == self.url_view(),
    {
        self.url.clone()
    }

    /// The request body for the read proof of `storage_key` at the block hash `at`.
    pub fn read_proof_request(&self, storage_key: &[u8], at: &[u8]) -> (r: String)
        ensures
            r@ == read_proof_body(storage_key@, at@),
    {
        let mut body = String::from_str(
            "{\"id\":1,\"jsonrpc\":\"2.0\",\"method\":\"state_getReadProof\",\"params\":[[\"0x",
        );
        let key_hex = encode_to_hex(storage_key);
        body.append(key_hex.as_str());
        body.append("\"], \"0x");
        let at_hex = encode_to_hex(at);
        body.append(at_hex.as_str());
        body.append("\"]}");
        body
    }

    /// The proof parameters of a read proof response for `storage_key`: the one key, and the
    /// witnesses decoded in order; the first witness that does not decode gives its error.
    pub fn read_proof_params(&self, storage_key: &[u8], response: &ReadProof) -> (r: Result<
        StorageProofParams,
        Error,
    >)
        ensures
            witnesses_result(
                response.result.proof@.map_values(|s: String| s@),
                match r {
                    Ok(p) => Ok(p.proof@.map_values(|v: Vec<u8>| v@)),
                    Err(e) => Err(e),
                },
            ),
            r matches Ok(p) ==> p.keys@.len() == 1 && p.keys@[0]@ == storage_key@,
    {
        let proof = witnesses_from_hex(&response.result.proof)?;
        let mut keys: Vec<Vec<u8>> = Vec::new();
        keys.push(copy_bytes(storage_key));
        Ok(StorageProofParams { proof, keys })
    }
}

/// The outcome of decoding a list of witness strings: the decoded nodes in order when every
/// witness decodes, else the error of the first one that does not.
pub open spec fn witnesses_result(
    strings: Seq<Seq<char>>,
    r: Result<Seq<Seq<u8>>, Error>,
) -> bool {
    match r {
        Ok(nodes) => nodes.len() == strings.len() && forall|i: int|
            0 <= i < strings.len() ==> hex_witness_of(
                vstd::utf8::encode_utf8(#[trigger] strings[i]),
            ) == Ok::<Seq<u8>, Error>(nodes[i]),
        Err(e) => exists|i: int|
            0 <= i < strings.len() && hex_witness_of(vstd::utf8::encode_utf8(#[trigger] strings[i]))
                == Err::<Seq<u8>, Error>(e) && forall|j: int|
                0 <= j < i ==> (hex_witness_of(vstd::utf8::encode_utf8(#[trigger] strings[j])) is Ok),
    }
}

/// Decodes the hex witnesses of a read proof response, in order.
pub fn witnesses_from_hex(strings: &Vec<String>) -> (r: Result<Vec<Vec<u8>>, Error>)
    ensures
        witnesses_result(
            strings@.map_values(|s: String| s@),
            match r {
                Ok(nodes) => Ok(nodes@.map_values(|v: Vec<u8>| v@)),
                Err(e) => Err(e),
            },
        ),
{
    let ghost sv = strings@.map_values(|s: String| s@);
    let mut nodes: Vec<Vec<u8>> = Vec::new();
    let mut i: usize = 0;
    while i < strings.len()
        invariant
            sv == strings@.map_values(|s: String| s@),
            i <= strings@.len(),
            nodes@.len() == i,
            forall|j: int|
                0 <= j < i ==> hex_witness_of(vstd::utf8::encode_utf8(#[trigger] sv[j]))
                    == Ok::<Seq<u8>, Error>(nodes@[j]@),
        decreases strings@.len() - i,
    {
        let s = strings[i].as_str();
        match extract_hex_from(s) {
            Ok(node) => {
                nodes.push(node);
            },
            Err(e) => {
                proof {
                    assert(sv[i as int] == s@);
                    assert forall|j: int| 0 <= j < i implies (hex_witness_of(
                        vstd::utf8::encode_utf8(#[trigger] sv[j]),
                    ) is Ok) by {}
                }
                return Err(e);
            },
        }
        proof {
            assert(sv[i as int] == s@);
        }
        i = i + 1;
    }
    proof {
        let nv = nodes@.map_values(|v: Vec<u8>| v@);
        assert forall|j: int| 0 <= j < sv.len() implies hex_witness_of(
            vstd::utf8::encode_utf8(#[trigger] sv[j]),
        ) == Ok::<Seq<u8>, Error>(nv[j]) by {}
    }
    Ok(nodes)
}

/// The body of an RPC response: any status but 200 is a failed request.
pub fn response_body(status_code: u16, body: Vec<u8>) -> (r: Result<Vec<u8>, Error>)
    ensures
        status_code == 200 ==> (r matches Ok(b) && b@ == body@),
        status_code != 200 ==> r == Err::<Vec<u8>, Error>(Error::RpcRequestFailed),
{
    if status_code != 200 {
        return Err(Error::RpcRequestFailed);
    }
    Ok(body)
}

} // verus!
