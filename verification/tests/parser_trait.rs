use solana_tx_parser::api::api_error::ApiError;
use solana_tx_parser::api::client::answer_of;
use solana_tx_parser::api::transaction::{
    BlockTransaction, FetchTransactionParam, FetchTransactionsNearByParam,
};
use solana_tx_parser::instruction_parser::InstructionParser;
use solana_tx_parser::parsed_instruction::{ParseInstructionDataError, ParsedInstructionData};
use solana_tx_parser::pubkeys::{SPL_TOKEN_PROGRAM_ID, SYSTEM_PROGRAM_ID};

struct Payload(Vec<u8>);

impl InstructionParser for Payload {
    type ParseError = ParseInstructionDataError;

    fn parse(&self, program_id: [u8; 32]) -> Option<Result<ParsedInstructionData, Self::ParseError>> {
        if program_id == SYSTEM_PROGRAM_ID || program_id == SPL_TOKEN_PROGRAM_ID {
            Some(ParsedInstructionData::do_parse(&program_id, &self.0))
        } else {
            None
        }
    }
}

#[test]
fn a_parser_answers_for_the_programs_it_knows() {
    let payload = Payload(vec![3, 8, 0, 0, 0, 0, 0, 0, 0]);
    assert!(payload.parse([5u8; 32]).is_none());
    assert!(matches!(payload.parse(SYSTEM_PROGRAM_ID), Some(Err(ParseInstructionDataError::BincodeError(_)))));
    assert!(matches!(payload.parse(SPL_TOKEN_PROGRAM_ID), Some(Ok(ParsedInstructionData::SplToken(_)))));
}

#[test]
fn requests_hold_what_they_ask_for() {
    let one = FetchTransactionParam { signature: "S1".to_string() };
    assert_eq!(one.clone().signature, "S1");
    let near = FetchTransactionsNearByParam { signature: "S1".to_string(), backward: Some(2), forward: None };
    let copy = near.clone();
    assert_eq!((copy.signature.as_str(), copy.backward, copy.forward), ("S1", Some(2), None));
    let block = BlockTransaction { slot: 7, block_time: Some(-1), block_height: None, transactions: Some(Vec::new()) };
    assert_eq!((block.slot, block.block_time, block.block_height), (7, Some(-1), None));
    assert!(block.transactions.unwrap().is_empty());
}

#[test]
fn an_answer_is_its_data_or_its_message() {
    assert!(matches!(answer_of(true, Some(7u32), None), Ok(Some(7))));
    assert!(matches!(answer_of::<u32>(true, None, Some("ignored".to_string())), Ok(None)));
    assert!(matches!(
        answer_of(false, Some(7u32), Some("no such transaction".to_string())),
        Err(ApiError::LogicError(text)) if text == "no such transaction"
    ));
    assert!(matches!(
        answer_of::<u32>(false, None, None),
        Err(ApiError::LogicError(text)) if text == "未知错误"
    ));
}
