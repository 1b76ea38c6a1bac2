use solana_tx_parser::instructions::spl_token::TokenInstruction as SplTokenInstruction;
use solana_tx_parser::instructions::spl_token_2022::TokenInstruction as SplToken2022Instruction;
use solana_tx_parser::instructions::system::SystemInstruction;
use solana_tx_parser::parsed_instruction::{
    pubkey_from_bytes, InstructionDataFormat, InstructionProgramId, ParseInstructionDataError,
    ParsedInstructionData,
};
use solana_tx_parser::pubkeys::{
    same_key, SPL_TOKEN_2022_PROGRAM_ID, SPL_TOKEN_PROGRAM_ID, SYSTEM_PROGRAM_ID,
};

const SYSTEM_TEXT: &str = "11111111111111111111111111111111";
const TOKEN_TEXT: &str = "TokenkegQfeZyiNwAJbNbGKPFXCWuBvf9Ss623VQ5DA";
const TOKEN_2022_TEXT: &str = "TokenzQdBNbLqP5VEhdkAS6EPFLC1PHnBqCXEpPxuEb";

fn system_transfer_payload(lamports: u64) -> Vec<u8> {
    let mut payload = vec![2u8, 0, 0, 0];
    payload.extend_from_slice(&lamports.to_le_bytes());
    payload
}

fn decode(program: &[u8; 32], data: &[u8]) -> Result<ParsedInstructionData, ParseInstructionDataError> {
    ParsedInstructionData::parse(InstructionProgramId::Pubkey(program), InstructionDataFormat::Binary(data))
}

#[test]
fn program_keys_are_those_of_the_programs() {
    assert_eq!(solana_sdk::system_program::id().to_bytes(), SYSTEM_PROGRAM_ID);
    assert_eq!(spl_token::id().to_bytes(), SPL_TOKEN_PROGRAM_ID);
    assert_eq!(spl_token_2022::id().to_bytes(), SPL_TOKEN_2022_PROGRAM_ID);
    assert_eq!(bs58::decode(SYSTEM_TEXT).into_vec().unwrap(), SYSTEM_PROGRAM_ID.to_vec());
    assert_eq!(bs58::decode(TOKEN_TEXT).into_vec().unwrap(), SPL_TOKEN_PROGRAM_ID.to_vec());
    assert_eq!(bs58::decode(TOKEN_2022_TEXT).into_vec().unwrap(), SPL_TOKEN_2022_PROGRAM_ID.to_vec());
}

#[test]
fn same_key_compares_all_bytes() {
    let mut other = SPL_TOKEN_PROGRAM_ID;
    assert!(same_key(&SPL_TOKEN_PROGRAM_ID, &other));
    other[31] ^= 1;
    assert!(!same_key(&SPL_TOKEN_PROGRAM_ID, &other));
    assert!(!same_key(&SPL_TOKEN_PROGRAM_ID, &SPL_TOKEN_2022_PROGRAM_ID));
}

#[test]
fn system_transfer_amount_round_trips() {
    let amounts = [0u64, 1, 255, 256, 65_535, 1_000_000_000, 0x0102_0304_0506_0708, u64::MAX - 1, u64::MAX];
    for lamports in amounts {
        let payload = system_transfer_payload(lamports);
        assert_eq!(
            decode(&SYSTEM_PROGRAM_ID, &payload).unwrap(),
            ParsedInstructionData::System(SystemInstruction::Transfer { lamports })
        );
        let packed = bincode::serialize(&solana_sdk::system_instruction::SystemInstruction::Transfer { lamports }).unwrap();
        assert_eq!(packed, payload);
        assert_eq!(
            ParsedInstructionData::do_parse(&SYSTEM_PROGRAM_ID, &packed).unwrap(),
            ParsedInstructionData::System(SystemInstruction::Transfer { lamports })
        );
    }
}

#[test]
fn system_transfer_ignores_trailing_bytes() {
    let mut payload = system_transfer_payload(77);
    payload.extend_from_slice(&[9, 9, 9]);
    assert_eq!(
        decode(&SYSTEM_PROGRAM_ID, &payload).unwrap(),
        ParsedInstructionData::System(SystemInstruction::Transfer { lamports: 77 })
    );
}

#[test]
fn system_transfer_with_seed_is_held_in_full() {
    let owner = solana_pubkey::Pubkey::new_from_array([7u8; 32]);
    let packed = bincode::serialize(&solana_sdk::system_instruction::SystemInstruction::TransferWithSeed {
        lamports: 42,
        from_seed: "seed".to_string(),
        from_owner: owner,
    })
    .unwrap();
    assert_eq!(
        decode(&SYSTEM_PROGRAM_ID, &packed).unwrap(),
        ParsedInstructionData::System(SystemInstruction::TransferWithSeed {
            lamports: 42,
            from_seed: "seed".to_string(),
            from_owner: [7u8; 32],
        })
    );
}

#[test]
fn other_system_instructions_are_recognised() {
    let packed = bincode::serialize(&solana_sdk::system_instruction::SystemInstruction::Allocate { space: 9 }).unwrap();
    assert_eq!(
        decode(&SYSTEM_PROGRAM_ID, &packed).unwrap(),
        ParsedInstructionData::System(SystemInstruction::Other)
    );
    let advance = [4u8, 0, 0, 0];
    assert_eq!(
        decode(&SYSTEM_PROGRAM_ID, &advance).unwrap(),
        ParsedInstructionData::System(SystemInstruction::Other)
    );
}

#[test]
fn malformed_system_payload_is_a_bincode_error() {
    for payload in [&[][..], &[2u8, 0, 0][..], &[2u8, 0, 0, 0, 1, 2, 3][..], &[200u8, 0, 0, 0][..]] {
        let error = decode(&SYSTEM_PROGRAM_ID, payload).unwrap_err();
        assert!(matches!(error, ParseInstructionDataError::BincodeError(_)));
        assert!(error.to_string().starts_with("bincode error: "));
        assert!(error.to_string().len() > "bincode error: ".len());
    }
}

#[test]
fn token_transfer_is_read_by_its_layout() {
    let payload = [3u8, 0x10, 0x27, 0, 0, 0, 0, 0, 0];
    assert_eq!(
        decode(&SPL_TOKEN_PROGRAM_ID, &payload).unwrap(),
        ParsedInstructionData::SplToken(SplTokenInstruction::Transfer { amount: 10_000 })
    );
    assert_eq!(
        decode(&SPL_TOKEN_2022_PROGRAM_ID, &payload).unwrap(),
        ParsedInstructionData::SplToken2022(SplToken2022Instruction::Transfer { amount: 10_000 })
    );
    for amount in [0u64, 1, 0x0102_0304_0506_0708, u64::MAX] {
        let packed = spl_token::instruction::TokenInstruction::Transfer { amount }.pack();
        assert_eq!(
            decode(&SPL_TOKEN_PROGRAM_ID, &packed).unwrap(),
            ParsedInstructionData::SplToken(SplTokenInstruction::Transfer { amount })
        );
        assert_eq!(
            decode(&SPL_TOKEN_2022_PROGRAM_ID, &packed).unwrap(),
            ParsedInstructionData::SplToken2022(SplToken2022Instruction::Transfer { amount })
        );
    }
}

#[test]
fn token_transfer_checked_is_read_by_its_layout() {
    let payload = [12u8, 1, 0, 0, 0, 0, 0, 0, 0, 6];
    assert_eq!(
        decode(&SPL_TOKEN_PROGRAM_ID, &payload).unwrap(),
        ParsedInstructionData::SplToken(SplTokenInstruction::TransferChecked { amount: 1, decimals: 6 })
    );
    assert_eq!(
        decode(&SPL_TOKEN_2022_PROGRAM_ID, &payload).unwrap(),
        ParsedInstructionData::SplToken2022(SplToken2022Instruction::TransferChecked { amount: 1, decimals: 6 })
    );
    for (amount, decimals) in [(0u64, 0u8), (5, 9), (u64::MAX, 255)] {
        let packed = spl_token_2022::instruction::TokenInstruction::TransferChecked { amount, decimals }.pack();
        assert_eq!(
            decode(&SPL_TOKEN_2022_PROGRAM_ID, &packed).unwrap(),
            ParsedInstructionData::SplToken2022(SplToken2022Instruction::TransferChecked { amount, decimals })
        );
        assert_eq!(
            decode(&SPL_TOKEN_PROGRAM_ID, &packed).unwrap(),
            ParsedInstructionData::SplToken(SplTokenInstruction::TransferChecked { amount, decimals })
        );
    }
}

#[test]
fn other_token_instructions_are_recognised() {
    assert_eq!(
        decode(&SPL_TOKEN_PROGRAM_ID, &[9u8]).unwrap(),
        ParsedInstructionData::SplToken(SplTokenInstruction::Other)
    );
    assert_eq!(
        decode(&SPL_TOKEN_PROGRAM_ID, &[7u8, 1, 0, 0, 0, 0, 0, 0, 0]).unwrap(),
        ParsedInstructionData::SplToken(SplTokenInstruction::Other)
    );
    assert_eq!(
        decode(&SPL_TOKEN_2022_PROGRAM_ID, &[26u8]).unwrap(),
        ParsedInstructionData::SplToken2022(SplToken2022Instruction::Other)
    );
}

#[test]
fn malformed_token_payload_is_a_program_error() {
    for payload in [&[][..], &[3u8][..], &[3u8, 1, 2, 3, 4, 5, 6, 7][..], &[12u8, 1, 2, 3, 4, 5, 6, 7, 8][..], &[255u8][..]] {
        for program in [&SPL_TOKEN_PROGRAM_ID, &SPL_TOKEN_2022_PROGRAM_ID] {
            let error = decode(program, payload).unwrap_err();
            assert!(matches!(error, ParseInstructionDataError::ProgramError(_)));
            assert_eq!(error.to_string(), "program error: Custom program error: 0xc");
        }
    }
    let error = decode(&SPL_TOKEN_PROGRAM_ID, &[26u8]).unwrap_err();
    assert!(matches!(error, ParseInstructionDataError::ProgramError(_)));
}

#[test]
fn unknown_program_is_no_failure() {
    let program = [9u8; 32];
    assert_eq!(decode(&program, &[3u8, 1, 0, 0, 0, 0, 0, 0, 0]).unwrap(), ParsedInstructionData::Unknown);
    assert_eq!(decode(&program, &[]).unwrap(), ParsedInstructionData::Unknown);
    let mut near = SPL_TOKEN_PROGRAM_ID;
    near[0] = 7;
    assert_eq!(decode(&near, &[3u8, 1, 0, 0, 0, 0, 0, 0, 0]).unwrap(), ParsedInstructionData::Unknown);
}

#[test]
fn program_and_payload_arrive_as_text() {
    let payload = bs58::encode(system_transfer_payload(5_000)).into_string();
    let parsed = ParsedInstructionData::parse(
        InstructionProgramId::Base58(SYSTEM_TEXT),
        InstructionDataFormat::Base58(&payload),
    )
    .unwrap();
    assert_eq!(parsed, ParsedInstructionData::System(SystemInstruction::Transfer { lamports: 5_000 }));
    let token = bs58::encode([12u8, 2, 0, 0, 0, 0, 0, 0, 0, 9]).into_string();
    let parsed = ParsedInstructionData::parse(
        InstructionProgramId::Base58(TOKEN_TEXT),
        InstructionDataFormat::Base58(&token),
    )
    .unwrap();
    assert_eq!(parsed, ParsedInstructionData::SplToken(SplTokenInstruction::TransferChecked { amount: 2, decimals: 9 }));
    let parsed = ParsedInstructionData::parse(
        InstructionProgramId::Base58(TOKEN_2022_TEXT),
        InstructionDataFormat::Binary(&[3u8, 2, 0, 0, 0, 0, 0, 0, 0]),
    )
    .unwrap();
    assert_eq!(parsed, ParsedInstructionData::SplToken2022(SplToken2022Instruction::Transfer { amount: 2 }));
    let parsed = ParsedInstructionData::parse(
        InstructionProgramId::Pubkey(&SPL_TOKEN_PROGRAM_ID),
        InstructionDataFormat::Base58("A"),
    )
    .unwrap();
    assert_eq!(parsed, ParsedInstructionData::SplToken(SplTokenInstruction::Other));
}

#[test]
fn empty_text_is_an_empty_payload() {
    let parsed = ParsedInstructionData::parse(
        InstructionProgramId::Base58("ComputeBudget111111111111111111111111111111"),
        InstructionDataFormat::Base58(""),
    )
    .unwrap();
    assert_eq!(parsed, ParsedInstructionData::Unknown);
}

#[test]
fn program_text_that_is_no_base58_is_rejected() {
    let error = ParsedInstructionData::parse(
        InstructionProgramId::Base58("0OIl"),
        InstructionDataFormat::Binary(&[]),
    )
    .unwrap_err();
    assert!(matches!(error, ParseInstructionDataError::ParseBase58Error(_)));
    assert_eq!(
        error.to_string(),
        "FromBase58Error: provided string contained invalid character '0' at byte 0"
    );
    let error = ParsedInstructionData::parse(
        InstructionProgramId::Base58("11\u{e9}"),
        InstructionDataFormat::Binary(&[]),
    )
    .unwrap_err();
    assert_eq!(
        error.to_string(),
        "FromBase58Error: provided string contained non-ascii character starting at byte 2"
    );
}

#[test]
fn program_text_of_the_wrong_length_is_rejected() {
    let short = bs58::encode([1u8; 31]).into_string();
    let long = bs58::encode([1u8; 33]).into_string();
    for text in [short.as_str(), long.as_str(), ""] {
        let error = ParsedInstructionData::parse(
            InstructionProgramId::Base58(text),
            InstructionDataFormat::Binary(&[]),
        )
        .unwrap_err();
        assert!(matches!(error, ParseInstructionDataError::ParsePubkeyError(_)));
        assert_eq!(error.to_string(), "parse pubkey error: parse pubkey error");
    }
}

#[test]
fn payload_text_that_is_no_base58_is_rejected() {
    let error = ParsedInstructionData::parse(
        InstructionProgramId::Base58(SYSTEM_TEXT),
        InstructionDataFormat::Base58("3Bx!"),
    )
    .unwrap_err();
    assert!(matches!(error, ParseInstructionDataError::ParseBase58Error(_)));
    assert_eq!(
        error.to_string(),
        "FromBase58Error: provided string contained invalid character '!' at byte 3"
    );
}

#[test]
fn the_error_of_the_program_comes_first() {
    let error = ParsedInstructionData::parse(
        InstructionProgramId::Base58("l"),
        InstructionDataFormat::Base58("!"),
    )
    .unwrap_err();
    assert_eq!(
        error.to_string(),
        "FromBase58Error: provided string contained invalid character 'l' at byte 0"
    );
}

#[test]
fn key_is_made_of_exactly_32_bytes() {
    let bytes: Vec<u8> = (0u8..32).collect();
    let key = pubkey_from_bytes(&bytes).unwrap();
    assert_eq!(key.to_vec(), bytes);
    assert_eq!(solana_pubkey::Pubkey::try_from(bytes.clone()).unwrap().to_bytes(), key);
    for length in [0usize, 1, 31, 33, 64] {
        let error = pubkey_from_bytes(&vec![0u8; length]).unwrap_err();
        assert!(matches!(error, ParseInstructionDataError::ParsePubkeyError(_)));
        assert!(solana_pubkey::Pubkey::try_from(vec![0u8; length]).is_err());
    }
}

#[test]
fn error_messages_name_their_kind() {
    assert_eq!(ParseInstructionDataError::ProgramError("a".to_string()).to_string(), "program error: a");
    assert_eq!(ParseInstructionDataError::ParseBase58Error("b".to_string()).to_string(), "FromBase58Error: b");
    assert_eq!(ParseInstructionDataError::ParsePubkeyError("c".to_string()).to_string(), "parse pubkey error: c");
    assert_eq!(ParseInstructionDataError::BincodeError(String::new()).to_string(), "bincode error: ");
}
