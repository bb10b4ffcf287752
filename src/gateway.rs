use vstd::prelude::*;

use crate::types::Cis2ClientError;

verus! {

/// How a token contract answered a `supports` query for one standard.
#[derive(Clone, Copy, Debug, PartialEq, Eq, Structural)]
pub enum SupportKind {
    /// The standard is not supported.
    NoSupport,
    /// The contract itself supports the standard.
    Support,
    /// The standard is supported through other contracts only.
    SupportBy,
}

/// The results that a `supports` response holds, or `None` where its bytes
/// do not decode.
pub uninterp spec fn decoded_supports(bytes: Seq<u8>) -> Option<Seq<SupportKind>>;

/// What an `operatorOf` response decodes to: a little-endian two-byte count,
/// then one byte per result, 0 for `false` and 1 for `true`; bytes after
/// those are not read. `None` where the bytes run short or a result byte is
/// neither 0 nor 1.
pub open spec fn operator_of_decoding(bytes: Seq<u8>) -> Option<Seq<bool>> {
    if bytes.len() < 2 {
        None
    } else {
        let n = bytes[0] + 256 * bytes[1];
        if bytes.len() < 2 + n || exists|i: int| 2 <= i < 2 + n && #[trigger] bytes[i] > 1 {
            None
        } else {
            Some(Seq::new(n as nat, |i: int| bytes[2 + i] == 1))
        }
    }
}

/// The balances that a `balanceOf` response holds, or `None` where its bytes
/// do not decode.
pub uninterp spec fn decoded_balances(bytes: Seq<u8>) -> Option<Seq<u8>>;

/// Whether reading `count` token amounts from position `pos` stops before
/// the third byte of any of them. An amount is one byte below 0x80, or a
/// byte with its top bit set followed by a second byte; reading stops early
/// where the bytes run out.
pub open spec fn amounts_stay_short(bytes: Seq<u8>, pos: int, count: nat) -> bool
    decreases count,
{
    if count == 0 || pos < 0 || pos >= bytes.len() {
        true
    } else if bytes[pos] < 128 {
        amounts_stay_short(bytes, pos + 1, (count - 1) as nat)
    } else if pos + 1 >= bytes.len() {
        true
    } else if bytes[pos + 1] < 128 {
        amounts_stay_short(bytes, pos + 2, (count - 1) as nat)
    } else {
        false
    }
}

/// Whether decoding a `balanceOf` response (a little-endian two-byte count,
/// then the amounts) never reads the third byte of an amount, which a
/// one-byte token amount cannot need.
pub open spec fn balance_response_short(bytes: Seq<u8>) -> bool {
    bytes.len() < 2 || amounts_stay_short(bytes, 2, (bytes[0] + 256 * bytes[1]) as nat)
}

/// Relies on `concordium_std::from_bytes::<concordium_cis2::SupportsQueryResponse>`:
/// decoding depends on the bytes alone.
#[verifier::external_body]
fn decode_supports(bytes: &Vec<u8>) -> (r: Option<Vec<SupportKind>>)
    ensures
        match r {
            Some(v) => decoded_supports(bytes@) == Some(v@),
            None => decoded_supports(bytes@) is None,
        },
{
    let response: concordium_cis2::SupportsQueryResponse = concordium_std::from_bytes(bytes).ok()?;
    let mut kinds = Vec::new();
    for result in response.results.iter() {
        kinds.push(match result {
            concordium_cis2::SupportResult::NoSupport => SupportKind::NoSupport,
            concordium_cis2::SupportResult::Support => SupportKind::Support,
            concordium_cis2::SupportResult::SupportBy(_) => SupportKind::SupportBy,
        });
    }
    Some(kinds)
}

/// Relies on `concordium_std::from_bytes::<concordium_cis2::OperatorOfQueryResponse>`:
/// decoding depends on the bytes alone.
#[verifier::external_body]
fn decode_operator_of(bytes: &Vec<u8>) -> (r: Option<Vec<bool>>)
    ensures
        match r {
            Some(v) => operator_of_decoding(bytes@) == Some(v@),
            None => operator_of_decoding(bytes@) is None,
        },
{
    let response: concordium_cis2::OperatorOfQueryResponse = concordium_std::from_bytes(bytes).ok()?;
    Some(response.0)
}

/// Relies on `concordium_std::from_bytes` for
/// `concordium_cis2::BalanceOfQueryResponse<concordium_cis2::TokenAmountU8>`:
/// decoding depends on the bytes alone. Its amount decoder shifts a `u8`
/// past its width on an amount's third byte, which panics where overflow is
/// checked, so such responses are left out.
#[verifier::external_body]
fn decode_balances(bytes: &Vec<u8>) -> (r: Option<Vec<u8>>)
    requires
        balance_response_short(bytes@),
    ensures
        match r {
            Some(v) => decoded_balances(bytes@) == Some(v@),
            None => decoded_balances(bytes@) is None,
        },
{
    let response: concordium_cis2::BalanceOfQueryResponse<concordium_cis2::TokenAmountU8> =
        concordium_std::from_bytes(bytes).ok()?;
    Some(response.0.iter().map(|a| a.0).collect())
}

/// The answer to a single-query `supports` call: full support by the contract
/// itself counts, support through other contracts does not.
pub open spec fn support_answer(results: Seq<SupportKind>) -> Result<bool, Cis2ClientError> {
    if results.len() == 0 {
        Err(Cis2ClientError::InvokeContractError)
    } else {
        Ok(results[0] == SupportKind::Support)
    }
}

/// The answer to a single-query `operatorOf` call.
pub open spec fn operator_answer(results: Seq<bool>) -> Result<bool, Cis2ClientError> {
    if results.len() == 0 {
        Err(Cis2ClientError::InvokeContractError)
    } else {
        Ok(results[0])
    }
}

/// The answer to a single-query `balanceOf` call: the owner holds the token
/// when its balance is at least one.
pub open spec fn balance_answer(balances: Seq<u8>) -> Result<bool, Cis2ClientError> {
    if balances.len() == 0 {
        Err(Cis2ClientError::InvokeContractError)
    } else {
        Ok(balances[0] >= 1)
    }
}

/// What a response of `decoded` gives: an undecodable one is a parse failure.
pub open spec fn parsed_answer<T>(decoded: Option<T>, answer: spec_fn(T) -> Result<bool, Cis2ClientError>) -> Result<bool, Cis2ClientError> {
    match decoded {
        None => Err(Cis2ClientError::ParseResult),
        Some(v) => answer(v),
    }
}

/// Reads the first result of a decoded `supports` response.
pub fn support_of(results: &Vec<SupportKind>) -> (r: Result<bool, Cis2ClientError>)
    ensures
        r == support_answer(results@),
{
    if results.len() == 0 {
        Err(Cis2ClientError::InvokeContractError)
    } else {
        Ok(results[0] == SupportKind::Support)
    }
}

/// Reads the first result of a decoded `operatorOf` response.
pub fn operator_of(results: &Vec<bool>) -> (r: Result<bool, Cis2ClientError>)
    ensures
        r == operator_answer(results@),
{
    if results.len() == 0 {
        Err(Cis2ClientError::InvokeContractError)
    } else {
        Ok(results[0])
    }
}

/// Reads the first balance of a decoded `balanceOf` response.
pub fn balance_of(balances: &Vec<u8>) -> (r: Result<bool, Cis2ClientError>)
    ensures
        r == balance_answer(balances@),
{
    if balances.len() == 0 {
        Err(Cis2ClientError::InvokeContractError)
    } else {
        Ok(balances[0] >= 1)
    }
}

/// Tests `balance_response_short` on a response.
pub fn balance_response_is_short(bytes: &Vec<u8>) -> (r: bool)
    ensures
        r == balance_response_short(bytes@),
{
    if bytes.len() < 2 {
        return true;
    }
    let mut count: u32 = bytes[0] as u32 + 256 * bytes[1] as u32;
    let mut pos: usize = 2;
    while count > 0 && pos < bytes.len()
        invariant
            bytes@.len() >= 2,
            2 <= pos,
            balance_response_short(bytes@) == amounts_stay_short(bytes@, pos as int, count as nat),
        decreases count,
    {
        if bytes[pos] < 128 {
            pos = pos + 1;
        } else if pos + 1 >= bytes.len() {
            return true;
        } else if bytes[pos + 1] < 128 {
            pos = pos + 2;
        } else {
            return false;
        }
        count = count - 1;
    }
    true
}

/// Reads the answers of token contracts to the marketplace's queries.
pub struct Cis2Client;

impl Cis2Client {
    /// Whether a token contract fully supports CIS-2, from the bytes it returned
    /// to a `supports` query for that one standard.
    pub fn supports_cis2(response: &Vec<u8>) -> (r: Result<bool, Cis2ClientError>)
        ensures
            r == parsed_answer(decoded_supports(response@), |s: Seq<SupportKind>| support_answer(s)),
    {
        match decode_supports(response) {
            Some(results) => support_of(&results),
            None => Err(Cis2ClientError::ParseResult),
        }
    }

    /// Whether the queried address is an operator of the owner, from the bytes a
    /// token contract returned to an `operatorOf` query with one entry.
    pub fn is_operator_of(response: &Vec<u8>) -> (r: Result<bool, Cis2ClientError>)
        ensures
            r == parsed_answer(operator_of_decoding(response@), |s: Seq<bool>| operator_answer(s)),
    {
        match decode_operator_of(response) {
            Some(results) => operator_of(&results),
            None => Err(Cis2ClientError::ParseResult),
        }
    }

    /// Whether the owner holds the token, from the bytes a token contract
    /// returned to a `balanceOf` query with one entry. A response with an
    /// amount longer than two bytes does not decode to one-byte amounts.
    pub fn has_balance(response: &Vec<u8>) -> (r: Result<bool, Cis2ClientError>)
        ensures
            r == (if balance_response_short(response@) {
                parsed_answer(decoded_balances(response@), |s: Seq<u8>| balance_answer(s))
            } else {
                Err(Cis2ClientError::ParseResult)
            }),
    {
        if !balance_response_is_short(response) {
            return Err(Cis2ClientError::ParseResult);
        }
        match decode_balances(response) {
            Some(balances) => balance_of(&balances),
            None => Err(Cis2ClientError::ParseResult),
        }
    }
}

} // verus!
