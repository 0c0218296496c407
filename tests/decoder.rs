use solana_sdk::instruction::CompiledInstruction;
use solana_sdk::pubkey::Pubkey;
use transaction_status::address::Address;
use transaction_status::parse_token::{
    parse_token, FieldName, FieldValue, InstructionType, ParsableProgram, ParseInstructionError,
};

fn table(n: u8) -> Vec<Address> {
    (0..n).map(|i| Address::new([i + 1; 32])).collect()
}

fn text_of(i: u8) -> FieldValue {
    FieldValue::Text(Pubkey::new(&[i + 1; 32]).to_string())
}

fn instruction(accounts: Vec<u8>, data: Vec<u8>) -> CompiledInstruction {
    CompiledInstruction { program_id_index: 0, accounts, data }
}

const MISMATCH: ParseInstructionError =
    ParseInstructionError::InstructionKeyMismatch(ParsableProgram::SplToken);
const NOT_PARSABLE: ParseInstructionError =
    ParseInstructionError::InstructionNotParsable(ParsableProgram::SplToken);

#[test]
fn zero_address_renders_as_base58_ones() {
    let ix = instruction(vec![0, 1], vec![5]);
    let keys = vec![Address::new([0; 32]), Address::new([0; 32])];
    let parsed = parse_token(&ix, &keys).unwrap();
    assert_eq!(parsed.instruction_type, InstructionType::Revoke);
    let ones = "1".repeat(32);
    assert_eq!(
        parsed.fields,
        vec![
            (FieldName::Source, FieldValue::Text(ones.clone())),
            (FieldName::Owner, FieldValue::Text(ones)),
        ]
    );
}

#[test]
fn amount_is_read_least_significant_byte_first() {
    let ix = instruction(vec![0, 1, 2], vec![3, 1, 2, 0, 0, 0, 0, 0, 0]);
    let parsed = parse_token(&ix, &table(3)).unwrap();
    assert_eq!(parsed.instruction_type, InstructionType::Transfer);
    assert_eq!(
        parsed.fields,
        vec![
            (FieldName::Source, text_of(0)),
            (FieldName::Destination, text_of(1)),
            (FieldName::Amount, FieldValue::Number(513)),
            (FieldName::Authority, text_of(2)),
        ]
    );
}

#[test]
fn largest_mint_amount_and_trailing_bytes() {
    let mut data = vec![0u8];
    data.extend_from_slice(&[255; 8]);
    data.push(6);
    data.push(99);
    let ix = instruction(vec![0, 1], data);
    let parsed = parse_token(&ix, &table(2)).unwrap();
    assert_eq!(
        parsed.fields,
        vec![
            (FieldName::Mint, text_of(0)),
            (FieldName::Amount, FieldValue::Number(u64::MAX)),
            (FieldName::Decimals, FieldValue::Number(6)),
            (FieldName::Account, text_of(1)),
        ]
    );
}

#[test]
fn unparsable_inputs() {
    let keys = table(3);
    assert_eq!(parse_token(&instruction(vec![0, 1, 2], vec![]), &keys), Err(NOT_PARSABLE));
    assert_eq!(parse_token(&instruction(vec![0, 1, 2], vec![10]), &keys), Err(NOT_PARSABLE));
    assert_eq!(
        parse_token(&instruction(vec![0, 1, 2], vec![0, 1, 0, 0, 0, 0, 0, 0, 0]), &keys),
        Err(NOT_PARSABLE)
    );
    assert_eq!(parse_token(&instruction(vec![0, 1, 2], vec![2]), &keys), Err(NOT_PARSABLE));
    assert_eq!(
        parse_token(&instruction(vec![0, 1, 2], vec![8, 1, 0, 0, 0, 0, 0, 0]), &keys),
        Err(NOT_PARSABLE)
    );
}

#[test]
fn too_few_accounts_is_a_key_mismatch() {
    // the instruction's own account list is short
    assert_eq!(parse_token(&instruction(vec![0, 1], vec![9]), &table(5)), Err(MISMATCH));
    assert_eq!(parse_token(&instruction(vec![0], vec![2, 1]), &table(5)), Err(MISMATCH));
    // the key table is short
    assert_eq!(parse_token(&instruction(vec![0, 1, 2], vec![6]), &table(2)), Err(MISMATCH));
    assert_eq!(parse_token(&instruction(vec![0, 1], vec![5]), &table(1)), Err(MISMATCH));
}

#[test]
fn index_past_the_key_table_is_out_of_range() {
    assert_eq!(
        parse_token(&instruction(vec![0, 5, 1], vec![1]), &table(3)),
        Err(ParseInstructionError::InstructionIndexOutOfRange(ParsableProgram::SplToken))
    );
}

#[test]
fn one_account_past_the_authority_makes_a_multisig() {
    let ix = instruction(vec![0, 1, 2], vec![8, 7, 0, 0, 0, 0, 0, 0, 0]);
    let parsed = parse_token(&ix, &table(3)).unwrap();
    assert_eq!(parsed.instruction_type, InstructionType::Burn);
    assert_eq!(
        parsed.fields,
        vec![
            (FieldName::Account, text_of(0)),
            (FieldName::Amount, FieldValue::Number(7)),
            (FieldName::MultisigAuthority, text_of(1)),
            (FieldName::Signers, FieldValue::TextList(vec![Pubkey::new(&[3; 32]).to_string()])),
        ]
    );
}

#[test]
fn multisig_signers_keep_their_order() {
    let ix = instruction(vec![4, 3, 0, 2, 1], vec![6]);
    let parsed = parse_token(&ix, &table(5)).unwrap();
    let signers: Vec<String> =
        [2u8, 1].iter().map(|i| Pubkey::new(&[i + 1; 32]).to_string()).collect();
    assert_eq!(
        parsed.fields,
        vec![
            (FieldName::Owned, text_of(4)),
            (FieldName::NewOwner, text_of(3)),
            (FieldName::MultisigOwner, text_of(0)),
            (FieldName::Signers, FieldValue::TextList(signers)),
        ]
    );
}

#[test]
fn every_address_comes_from_the_key_table() {
    let keys = table(6);
    let texts: Vec<String> = (0..6u8).map(|i| Pubkey::new(&[i + 1; 32]).to_string()).collect();
    let ix = instruction(vec![5, 3, 1, 0, 4], vec![4, 42, 0, 0, 0, 0, 0, 0, 0]);
    let parsed = parse_token(&ix, &keys).unwrap();
    for (_, value) in parsed.fields.iter() {
        match value {
            FieldValue::Text(t) => assert!(texts.contains(t)),
            FieldValue::TextList(ts) => assert!(ts.iter().all(|t| texts.contains(t))),
            FieldValue::Number(n) => assert_eq!(*n, 42),
        }
    }
}

#[test]
fn decoding_twice_gives_the_same_record() {
    let keys = table(4);
    let ix = instruction(vec![0, 1, 2, 3], vec![2, 2]);
    let first = parse_token(&ix, &keys);
    let second = parse_token(&ix, &keys);
    assert_eq!(first, second);
    let parsed = first.unwrap();
    assert_eq!(
        parsed.fields,
        vec![
            (FieldName::Multisig, text_of(0)),
            (FieldName::Signers, FieldValue::TextList(vec![
                Pubkey::new(&[2; 32]).to_string(),
                Pubkey::new(&[3; 32]).to_string(),
                Pubkey::new(&[4; 32]).to_string(),
            ])),
            (FieldName::M, FieldValue::Number(2)),
        ]
    );
}

#[test]
fn report_names() {
    assert_eq!(InstructionType::InitializeMint.as_str(), "initializeMint");
    assert_eq!(InstructionType::CloseAccount.as_str(), "closeAccount");
    assert_eq!(FieldName::MultisigAuthority.as_str(), "multisigAuthority");
    assert_eq!(FieldName::NewOwner.as_str(), "newOwner");
    assert_eq!(FieldName::M.as_str(), "m");
}
