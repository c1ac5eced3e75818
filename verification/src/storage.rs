use vstd::prelude::*;
use vstd::utf8::encode_utf8;

verus! {

/// The four bytes of `n`, most significant first.
pub open spec fn be_bytes_u32(n: u32) -> Seq<u8> {
    seq![
        (n / 0x100_0000) as u8,
        ((n / 0x1_0000) % 0x100) as u8,
        ((n / 0x100) % 0x100) as u8,
        (n % 0x100) as u8,
    ]
}

/// The key under which the whole group state is stored.
pub open spec fn state_key_bytes() -> Seq<u8> {
    encode_utf8("state"@)
}

/// The key under which a member's strike count is stored.
pub open spec fn strikes_key_bytes(addr: Seq<char>) -> Seq<u8> {
    encode_utf8("member_strikes"@) + encode_utf8(addr)
}

/// The key under which a member's payment for a cycle is stored.
pub open spec fn contribution_key_bytes(addr: Seq<char>, cycle: u32) -> Seq<u8> {
    encode_utf8("member_contributions"@) + encode_utf8(addr) + be_bytes_u32(cycle)
}

/// The ASCII decimal digits of `n`, without leading zeros.
pub open spec fn decimal_digits(n: nat) -> Seq<u8>
    decreases n,
{
    if n < 10 {
        seq![(48 + n) as u8]
    } else {
        decimal_digits(n / 10).push((48 + n % 10) as u8)
    }
}

/// The JSON text of a `u128`: its decimal digits inside double quotes.
pub open spec fn json_u128_bytes(n: u128) -> Seq<u8> {
    seq![34u8] + decimal_digits(n as nat) + seq![34u8]
}

/// The JSON text of a `u8`: its decimal digits.
pub open spec fn json_u8_bytes(n: u8) -> Seq<u8> {
    decimal_digits(n as nat)
}

/// What `serde_json_wasm::from_slice::<u128>` gives for a text, `None` for
/// an error.
pub uninterp spec fn json_u128_decode(bytes: Seq<u8>) -> Option<u128>;

/// What `serde_json_wasm::from_slice::<u8>` gives for a text, `None` for an
/// error.
pub uninterp spec fn json_u8_decode(bytes: Seq<u8>) -> Option<u8>;

/// The value a stored payment text holds: the value whose JSON text it is,
/// and otherwise whatever the parser makes of it.
pub open spec fn decoded_u128(bytes: Seq<u8>) -> Option<u128> {
    if exists|x: u128| bytes == json_u128_bytes(x) {
        Some(choose|x: u128| bytes == json_u128_bytes(x))
    } else {
        json_u128_decode(bytes)
    }
}

/// The value a stored strike-count text holds: the value whose JSON text it
/// is, and otherwise whatever the parser makes of it.
pub open spec fn decoded_u8(bytes: Seq<u8>) -> Option<u8> {
    if exists|x: u8| bytes == json_u8_bytes(x) {
        Some(choose|x: u8| bytes == json_u8_bytes(x))
    } else {
        json_u8_decode(bytes)
    }
}

/// Appends the bytes to the buffer.
fn append_bytes(out: &mut Vec<u8>, bytes: &[u8])
    ensures
        final(out)@ == old(out)@ + bytes@,
{
    let n = bytes.len();
    let mut i: usize = 0;
    while i < n
        invariant
            n == bytes@.len(),
            i <= n,
            out@ == old(out)@ + bytes@.take(i as int),
        decreases n - i,
    {
        out.push(bytes[i]);
        assert(bytes@.take(i + 1) =~= bytes@.take(i as int).push(bytes@[i as int]));
        i = i + 1;
    }
    assert(bytes@.take(n as int) =~= bytes@);
}

/// The key of the group state.
pub fn state_key() -> (k: Vec<u8>)
    ensures
        k@ == state_key_bytes(),
{
    let mut k: Vec<u8> = Vec::new();
    append_bytes(&mut k, "state".as_bytes());
    assert(k@ =~= state_key_bytes());
    k
}

/// The key of a member's strike count.
pub fn strikes_key(addr: &String) -> (k: Vec<u8>)
    ensures
        k@ == strikes_key_bytes(addr@),
{
    let mut k: Vec<u8> = Vec::new();
    append_bytes(&mut k, "member_strikes".as_bytes());
    append_bytes(&mut k, addr.as_str().as_bytes());
    assert(k@ =~= strikes_key_bytes(addr@));
    k
}

/// The key of a member's payment for a cycle.
pub fn contribution_key(addr: &String, cycle: u32) -> (k: Vec<u8>)
    ensures
        k@ == contribution_key_bytes(addr@, cycle),
{
    let mut k: Vec<u8> = Vec::new();
    append_bytes(&mut k, "member_contributions".as_bytes());
    append_bytes(&mut k, addr.as_str().as_bytes());
    k.push((cycle / 0x100_0000) as u8);
    k.push(((cycle / 0x1_0000) % 0x100) as u8);
    k.push(((cycle / 0x100) % 0x100) as u8);
    k.push((cycle % 0x100) as u8);
    assert(k@ =~= contribution_key_bytes(addr@, cycle));
    k
}

/// Calls `serde_json_wasm::to_vec` on a `u128`. Its source writes the
/// decimal digits of the value between double quotes and never fails.
#[verifier::external_body]
fn serialize_u128(amount: u128) -> (r: Result<Vec<u8>, ()>)
    ensures
        r is Ok,
        r->Ok_0@ == json_u128_bytes(amount),
{
    serde_json_wasm::to_vec(&amount).map_err(|_e| ())
}

/// Calls `serde_json_wasm::to_vec` on a `u8`. Its source writes the decimal
/// digits of the value and never fails.
#[verifier::external_body]
fn serialize_u8(strikes: u8) -> (r: Result<Vec<u8>, ()>)
    ensures
        r is Ok,
        r->Ok_0@ == json_u8_bytes(strikes),
{
    serde_json_wasm::to_vec(&strikes).map_err(|_e| ())
}

/// Calls `serde_json_wasm::from_slice::<u128>`, an error becoming `None`.
/// Its source reads the text that `serialize_u128` writes for a value back
/// as that value; what it gives for other texts is left to the name.
#[verifier::external_body]
fn deserialize_u128(bytes: &[u8]) -> (r: Option<u128>)
    ensures
        forall|x: u128| bytes@ == json_u128_bytes(x) ==> r == Some(x),
        !(exists|x: u128| bytes@ == json_u128_bytes(x)) ==> r == json_u128_decode(bytes@),
{
    serde_json_wasm::from_slice::<u128>(bytes).ok()
}

/// Calls `serde_json_wasm::from_slice::<u8>`, an error becoming `None`.
/// Its source reads the text that `serialize_u8` writes for a value back as
/// that value; what it gives for other texts is left to the name.
#[verifier::external_body]
fn deserialize_u8(bytes: &[u8]) -> (r: Option<u8>)
    ensures
        forall|x: u8| bytes@ == json_u8_bytes(x) ==> r == Some(x),
        !(exists|x: u8| bytes@ == json_u8_bytes(x)) ==> r == json_u8_decode(bytes@),
{
    serde_json_wasm::from_slice::<u8>(bytes).ok()
}

/// The stored form of a payment.
pub fn encode_contribution(amount: u128) -> (b: Vec<u8>)
    ensures
        b@ == json_u128_bytes(amount),
{
    match serialize_u128(amount) {
        Ok(b) => b,
        Err(_) => Vec::new(),
    }
}

/// The payment a stored text holds, `None` when it holds none.
pub fn decode_contribution(bytes: &[u8]) -> (r: Option<u128>)
    ensures
        r == decoded_u128(bytes@),
{
    deserialize_u128(bytes)
}

/// The stored form of a strike count.
pub fn encode_strikes(strikes: u8) -> (b: Vec<u8>)
    ensures
        b@ == json_u8_bytes(strikes),
{
    match serialize_u8(strikes) {
        Ok(b) => b,
        Err(_) => Vec::new(),
    }
}

/// The strike count a stored text holds, `None` when it holds none.
pub fn decode_strikes(bytes: &[u8]) -> (r: Option<u8>)
    ensures
        r == decoded_u8(bytes@),
{
    deserialize_u8(bytes)
}

} // verus!
