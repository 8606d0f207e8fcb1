//! Reading the payload of a completion notification: the swap engine's
//! response, and the output amount that it holds as text.

use vstd::prelude::*;
use crate::error::{ContractError, ErrorView};

verus! {

/// What decoding `data` as the swap engine's response gives: the text of the
/// output amount that the response holds, or the decoder's complaint.
pub uninterp spec fn decoded_token_out_amount(data: Seq<u8>) -> Result<Seq<char>, Seq<char>>;

/// What reading `text` as a 128-bit unsigned amount gives: the amount, or
/// the parser's complaint.
pub uninterp spec fn parsed_uint128(text: Seq<char>) -> Result<u128, Seq<char>>;

/// A result of texts, both sides by their characters.
pub open spec fn text_result_view(r: Result<String, String>) -> Result<Seq<char>, Seq<char>> {
    match r {
        Ok(text) => Ok(text@),
        Err(complaint) => Err(complaint@),
    }
}

/// An amount or a complaint, the complaint by its characters.
pub open spec fn amount_result_view(r: Result<u128, String>) -> Result<u128, Seq<char>> {
    match r {
        Ok(amount) => Ok(amount),
        Err(complaint) => Err(complaint@),
    }
}

/// `TryFrom<cosmwasm_std::Binary>` of
/// `osmosis_std::types::osmosis::gamm::v1beta1::MsgSwapExactAmountInResponse`.
///
/// The outside function decodes the bytes as a protobuf message and wraps a
/// decoding failure in an error whose text is made of the bytes and of the
/// decoder's report. The contract claims only that the outcome is a
/// function of the bytes; it says nothing of what that function is.
#[verifier::external_body]
fn decode_token_out_amount(data: &Vec<u8>) -> (r: Result<String, String>)
    ensures
        text_result_view(r) == decoded_token_out_amount(data@),
{
    let binary = cosmwasm_std::Binary::from(data.as_slice());
    match osmosis_std::types::osmosis::gamm::v1beta1::MsgSwapExactAmountInResponse::try_from(binary) {
        Ok(response) => Ok(response.token_out_amount),
        Err(e) => Err(e.to_string()),
    }
}

/// `FromStr` of `cosmwasm_std::Uint128`.
///
/// The outside function parses the text as a 128-bit unsigned integer in
/// base ten and wraps a failure in a generic error. The contract claims
/// only that the outcome is a function of the text.
#[verifier::external_body]
fn parse_uint128(text: &str) -> (r: Result<u128, String>)
    ensures
        amount_result_view(r) == parsed_uint128(text@),
{
    let parsed: Result<cosmwasm_std::Uint128, cosmwasm_std::StdError> = std::str::FromStr::from_str(text);
    match parsed {
        Ok(amount) => Ok(amount.u128()),
        Err(e) => Err(e.to_string()),
    }
}

/// The output amount that a completion payload reports: the payload is
/// decoded, then the text that it holds is read as an amount. A failure of
/// either step is a `Std` error with that step's complaint.
pub open spec fn reported_amount(data: Seq<u8>) -> Result<u128, ErrorView> {
    match decoded_token_out_amount(data) {
        Err(complaint) => Err(ErrorView::Std { msg: complaint }),
        Ok(text) => amount_of_text(parsed_uint128(text)),
    }
}

/// The amount that a parse gave, or its complaint as a `Std` error.
pub open spec fn amount_of_text(parsed: Result<u128, Seq<char>>) -> Result<u128, ErrorView> {
    match parsed {
        Err(complaint) => Err(ErrorView::Std { msg: complaint }),
        Ok(amount) => Ok(amount),
    }
}

/// Reads the output amount out of a completion payload.
pub fn token_out_amount(data: &Vec<u8>) -> (r: Result<u128, ContractError>)
    ensures
        match r {
            Ok(amount) => reported_amount(data@) == Ok::<u128, ErrorView>(amount),
            Err(e) => reported_amount(data@) == Err::<u128, ErrorView>(e@),
        },
{
    match decode_token_out_amount(data) {
        Err(complaint) => Err(ContractError::Std { msg: complaint }),
        Ok(text) => match parse_uint128(text.as_str()) {
            Err(complaint) => Err(ContractError::Std { msg: complaint }),
            Ok(amount) => Ok(amount),
        },
    }
}

} // verus!
