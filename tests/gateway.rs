use concordium_cis2::{
    BalanceOfQueryResponse, OperatorOfQueryResponse, SupportResult, SupportsQueryResponse,
    TokenAmountU8,
};
use concordium_std::{to_bytes, ContractAddress};
use nft_marketplace::gateway::{
    balance_of, balance_response_is_short, operator_of, support_of, Cis2Client, SupportKind,
};
use nft_marketplace::types::Cis2ClientError;

fn supports_bytes(results: Vec<SupportResult>) -> Vec<u8> {
    to_bytes(&SupportsQueryResponse { results })
}

#[test]
fn full_support_is_required() {
    assert_eq!(Cis2Client::supports_cis2(&supports_bytes(vec![SupportResult::Support])), Ok(true));
    assert_eq!(Cis2Client::supports_cis2(&supports_bytes(vec![SupportResult::NoSupport])), Ok(false));
    let other = ContractAddress { index: 3, subindex: 0 };
    assert_eq!(Cis2Client::supports_cis2(&supports_bytes(vec![SupportResult::SupportBy(vec![other])])), Ok(false));
    assert_eq!(
        Cis2Client::supports_cis2(&supports_bytes(vec![SupportResult::Support, SupportResult::NoSupport])),
        Ok(true)
    );
}

#[test]
fn empty_or_undecodable_support_response() {
    assert_eq!(Cis2Client::supports_cis2(&supports_bytes(vec![])), Err(Cis2ClientError::InvokeContractError));
    assert_eq!(Cis2Client::supports_cis2(&vec![]), Err(Cis2ClientError::ParseResult));
}

#[test]
fn operator_response_first_result() {
    let yes = to_bytes(&OperatorOfQueryResponse(vec![true]));
    let no = to_bytes(&OperatorOfQueryResponse(vec![false, true]));
    let none = to_bytes(&OperatorOfQueryResponse(vec![]));
    assert_eq!(Cis2Client::is_operator_of(&yes), Ok(true));
    assert_eq!(Cis2Client::is_operator_of(&no), Ok(false));
    assert_eq!(Cis2Client::is_operator_of(&none), Err(Cis2ClientError::InvokeContractError));
    assert_eq!(Cis2Client::is_operator_of(&vec![1]), Err(Cis2ClientError::ParseResult));
}

#[test]
fn balance_of_at_least_one() {
    let one = to_bytes(&BalanceOfQueryResponse(vec![TokenAmountU8(1)]));
    let many = to_bytes(&BalanceOfQueryResponse(vec![TokenAmountU8(5)]));
    let zero = to_bytes(&BalanceOfQueryResponse(vec![TokenAmountU8(0)]));
    let none: Vec<u8> = to_bytes(&BalanceOfQueryResponse::<TokenAmountU8>(vec![]));
    assert_eq!(Cis2Client::has_balance(&one), Ok(true));
    assert_eq!(Cis2Client::has_balance(&many), Ok(true));
    assert_eq!(Cis2Client::has_balance(&zero), Ok(false));
    assert_eq!(Cis2Client::has_balance(&none), Err(Cis2ClientError::InvokeContractError));
    assert_eq!(Cis2Client::has_balance(&vec![]), Err(Cis2ClientError::ParseResult));
}

#[test]
fn decoded_results_are_read_from_the_front() {
    assert_eq!(support_of(&vec![SupportKind::Support]), Ok(true));
    assert_eq!(support_of(&vec![SupportKind::SupportBy]), Ok(false));
    assert_eq!(support_of(&vec![]), Err(Cis2ClientError::InvokeContractError));
    assert_eq!(operator_of(&vec![true, false]), Ok(true));
    assert_eq!(operator_of(&vec![]), Err(Cis2ClientError::InvokeContractError));
    assert_eq!(balance_of(&vec![0, 1]), Ok(false));
    assert_eq!(balance_of(&vec![2]), Ok(true));
    assert_eq!(balance_of(&vec![]), Err(Cis2ClientError::InvokeContractError));
}

#[test]
fn three_byte_amount_is_refused_without_decoding() {
    let bytes = vec![0x01, 0x00, 0x80, 0x80, 0x00];
    assert!(!balance_response_is_short(&bytes));
    assert_eq!(Cis2Client::has_balance(&bytes), Err(Cis2ClientError::ParseResult));
    let two_byte = to_bytes(&BalanceOfQueryResponse(vec![TokenAmountU8(200)]));
    assert_eq!(two_byte.len(), 4);
    assert!(balance_response_is_short(&two_byte));
    assert_eq!(Cis2Client::has_balance(&two_byte), Ok(true));
    assert!(balance_response_is_short(&vec![0x01, 0x00, 0x80]));
    assert_eq!(Cis2Client::has_balance(&vec![0x01, 0x00, 0x80]), Err(Cis2ClientError::ParseResult));
    assert!(!balance_response_is_short(&vec![0x02, 0x00, 0x05, 0x81, 0x90, 0x01]));
}

#[test]
fn operator_result_bytes_must_be_zero_or_one() {
    assert_eq!(Cis2Client::is_operator_of(&vec![0x01, 0x00, 0x02]), Err(Cis2ClientError::ParseResult));
    assert_eq!(Cis2Client::is_operator_of(&vec![0x02, 0x00, 0x01]), Err(Cis2ClientError::ParseResult));
    assert_eq!(Cis2Client::is_operator_of(&vec![0x01, 0x00, 0x01, 0x07]), Ok(true));
    assert_eq!(Cis2Client::is_operator_of(&vec![0x00]), Err(Cis2ClientError::ParseResult));
}
