//! The host types that a view reads or hands out, and the host calls behind
//! them. Each call can also fail when the host runs out of the budget of the
//! invocation, which fails the invocation as a whole.
use vstd::prelude::*;

verus! {

/// `soroban_sdk::Env`, the environment of a contract invocation.
#[verifier::external_type_specification]
#[verifier::external_body]
pub struct ExEnv(soroban_sdk::Env);

/// `soroban_sdk::Bytes`, a byte string held by the host.
#[verifier::external_type_specification]
#[verifier::external_body]
pub struct ExBytes(soroban_sdk::Bytes);

/// `soroban_sdk::String`, a string held by the host. It need not be UTF-8.
#[verifier::external_type_specification]
#[verifier::external_body]
pub struct ExString(soroban_sdk::String);

/// `soroban_sdk::Vec`, a list held by the host.
#[verifier::external_type_specification]
#[verifier::external_body]
#[verifier::reject_recursive_types(T)]
pub struct ExVec<T>(soroban_sdk::Vec<T>);

/// The bytes that a host string holds.
pub uninterp spec fn string_bytes(string: soroban_sdk::String) -> Seq<u8>;

/// The pairs that a host list of asset balances holds, front to back, each
/// byte string given by the bytes that it holds.
pub uninterp spec fn balance_entries(
    balances: soroban_sdk::Vec<(soroban_sdk::Bytes, i128)>,
) -> Seq<(Seq<u8>, i128)>;

/// Calls `soroban_sdk::String::to_string`. Of a host string that is UTF-8 it
/// gives the text whose encoding the string holds, and the host holds no string
/// of more than `u32::MAX` bytes. It panics on any other string.
#[verifier::external_body]
pub(crate) fn string_text(string: &soroban_sdk::String) -> (text: String)
    requires
        vstd::utf8::valid_utf8(string_bytes(*string)),
    ensures
        vstd::utf8::encode_utf8(text@) == string_bytes(*string),
        vstd::utf8::encode_utf8(text@).len() <= u32::MAX,
{
    string.to_string()
}

/// Calls `soroban_sdk::String::copy_into_slice` on a slice of the string's own
/// length, which fills the slice with the bytes of the string.
#[verifier::external_body]
pub(crate) fn copy_string(string: &soroban_sdk::String) -> (bytes: Vec<u8>)
    ensures
        bytes@ == string_bytes(*string),
{
    let mut bytes = vec![0u8; string.len() as usize];
    string.copy_into_slice(&mut bytes);
    bytes
}

/// Calls `std::str::from_utf8`, which succeeds exactly on UTF-8.
#[verifier::external_body]
pub(crate) fn is_utf8(bytes: &[u8]) -> (res: bool)
    ensures
        res == vstd::utf8::valid_utf8(bytes@),
{
    std::str::from_utf8(bytes).is_ok()
}

/// Calls `soroban_sdk::Vec::new`, which gives an empty list.
#[verifier::external_body]
pub(crate) fn new_balances(env: &soroban_sdk::Env) -> (balances: soroban_sdk::Vec<
    (soroban_sdk::Bytes, i128),
>)
    ensures
        balance_entries(balances) == Seq::<(Seq<u8>, i128)>::empty(),
{
    soroban_sdk::Vec::new(env)
}

/// Calls `soroban_sdk::Vec::push_back`, which puts the pair behind the others,
/// with the bytes turned into a host byte string by `Bytes::from_slice` in the
/// environment of the list. A list takes at most `u32::MAX` entries, and a byte
/// string at most `u32::MAX` bytes.
#[verifier::external_body]
pub(crate) fn push_balance(
    balances: &mut soroban_sdk::Vec<(soroban_sdk::Bytes, i128)>,
    code: &[u8],
    amount: i128,
)
    requires
        code@.len() <= u32::MAX,
        balance_entries(*old(balances)).len() < u32::MAX,
    ensures
        balance_entries(*final(balances)) == balance_entries(*old(balances)).push((code@, amount)),
{
    let code_bytes = soroban_sdk::Bytes::from_slice(balances.env(), code);
    balances.push_back((code_bytes, amount));
}

} // verus!
