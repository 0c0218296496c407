use vstd::prelude::*;
use solana_sdk::instruction::CompiledInstruction;
use spl_token::instruction::TokenInstruction;
use crate::address::{Address, address_string, address_text};
use crate::instruction::{token_instruction_of, unpack_token_instruction};

verus! {

/// The program whose instructions a decoder reads.
#[derive(Clone, Copy, Debug, PartialEq, Eq, Structural)]
pub enum ParsableProgram {
    SplToken,
}

#[derive(Clone, Copy, Debug, PartialEq, Eq, Structural)]
pub enum ParseInstructionError {
    /// The instruction's input bytes are not an instruction of the program.
    InstructionNotParsable(ParsableProgram),
    /// The instruction names more accounts than the key table holds, or
    /// fewer than its kind needs.
    InstructionKeyMismatch(ParsableProgram),
    /// An account index of the instruction lies past the end of the key table.
    InstructionIndexOutOfRange(ParsableProgram),
}

/// The operation that a decoded record reports.
#[derive(Clone, Copy, Debug, PartialEq, Eq, Structural)]
pub enum InstructionType {
    InitializeMint,
    InitializeAccount,
    InitializeMultisig,
    Transfer,
    Approve,
    Revoke,
    SetOwner,
    MintTo,
    Burn,
    CloseAccount,
}

/// The name of a field of a decoded record.
#[derive(Clone, Copy, Debug, PartialEq, Eq, Structural)]
pub enum FieldName {
    Mint,
    Amount,
    Decimals,
    Account,
    Owner,
    Multisig,
    Signers,
    M,
    Source,
    Destination,
    Delegate,
    Authority,
    MultisigAuthority,
    MultisigOwner,
    Owned,
    NewOwner,
}

/// The value of a field: an address in text form, an integer, or a list of addresses.
#[derive(Clone, Debug, PartialEq, Eq)]
pub enum FieldValue {
    Text(String),
    Number(u64),
    TextList(Vec<String>),
}

pub enum FieldView {
    Text(Seq<char>),
    Number(u64),
    TextList(Seq<Seq<char>>),
}

pub open spec fn texts_view(v: Seq<String>) -> Seq<Seq<char>> {
    v.map_values(|s: String| s@)
}

impl View for FieldValue {
    type V = FieldView;

    open spec fn view(&self) -> FieldView {
        match self {
            FieldValue::Text(s) => FieldView::Text(s@),
            FieldValue::Number(n) => FieldView::Number(*n),
            FieldValue::TextList(v) => FieldView::TextList(texts_view(v@)),
        }
    }
}

pub open spec fn fields_view(fields: Seq<(FieldName, FieldValue)>) -> Seq<(FieldName, FieldView)> {
    fields.map_values(|p: (FieldName, FieldValue)| (p.0, p.1@))
}

/// A decoded instruction: its operation and its fields, in a fixed order.
#[derive(Clone, Debug, PartialEq, Eq)]
pub struct ParsedInstruction {
    pub instruction_type: InstructionType,
    pub fields: Vec<(FieldName, FieldValue)>,
}

pub struct ParsedView {
    pub instruction_type: InstructionType,
    pub fields: Seq<(FieldName, FieldView)>,
}

impl View for ParsedInstruction {
    type V = ParsedView;

    open spec fn view(&self) -> ParsedView {
        ParsedView { instruction_type: self.instruction_type, fields: fields_view(self.fields@) }
    }
}

/// Every account index is below `n`.
pub open spec fn indices_below(accounts: Seq<u8>, n: int) -> bool {
    forall|i: int| 0 <= i < accounts.len() ==> (accounts[i] as int) < n
}

/// The text of the key that the instruction's `i`-th account index points at.
pub open spec fn text_at(keys: Seq<Address>, accounts: Seq<u8>, i: int) -> Seq<char> {
    address_text(keys[accounts[i] as int]@)
}

/// The texts of the keys that the account indices from `start` on point at, in order.
pub open spec fn texts_from(keys: Seq<Address>, accounts: Seq<u8>, start: int) -> Seq<Seq<char>> {
    Seq::new((accounts.len() - start) as nat, |j: int| text_at(keys, accounts, start + j))
}

pub open spec fn address_field(name: FieldName, keys: Seq<Address>, accounts: Seq<u8>, i: int) -> (
    FieldName,
    FieldView,
) {
    (name, FieldView::Text(text_at(keys, accounts, i)))
}

/// The authority rule at index `k`: with accounts past `k`, the account at
/// `k` is a multisignature authority and those past it are its signers;
/// otherwise the account at `k` is a single authority.
pub open spec fn authority_fields(
    keys: Seq<Address>,
    accounts: Seq<u8>,
    k: int,
    owner_name: FieldName,
    multisig_name: FieldName,
) -> Seq<(FieldName, FieldView)> {
    if accounts.len() > k + 1 {
        seq![
            address_field(multisig_name, keys, accounts, k),
            (FieldName::Signers, FieldView::TextList(texts_from(keys, accounts, k + 1))),
        ]
    } else {
        seq![address_field(owner_name, keys, accounts, k)]
    }
}

/// The least number of accounts that an instruction of this kind carries.
pub open spec fn min_accounts(ix: TokenInstruction) -> nat {
    match ix {
        TokenInstruction::InitializeMint { .. } => 2,
        TokenInstruction::InitializeAccount => 3,
        TokenInstruction::InitializeMultisig { .. } => 2,
        TokenInstruction::Transfer { .. } => 3,
        TokenInstruction::Approve { .. } => 3,
        TokenInstruction::Revoke => 2,
        TokenInstruction::SetOwner => 3,
        TokenInstruction::MintTo { .. } => 3,
        TokenInstruction::Burn { .. } => 2,
        TokenInstruction::CloseAccount => 3,
    }
}

/// The index of the authority account, for the kinds that have one.
pub open spec fn authority_index(ix: TokenInstruction) -> Option<nat> {
    match ix {
        TokenInstruction::Transfer { .. } => Some(2),
        TokenInstruction::Approve { .. } => Some(2),
        TokenInstruction::Revoke => Some(1),
        TokenInstruction::SetOwner => Some(2),
        TokenInstruction::MintTo { .. } => Some(2),
        TokenInstruction::Burn { .. } => Some(1),
        TokenInstruction::CloseAccount => Some(2),
        _ => None,
    }
}

/// The field names of a single authority and of a multisignature authority.
pub open spec fn authority_names(ix: TokenInstruction) -> (FieldName, FieldName) {
    match ix {
        TokenInstruction::Transfer { .. } => (FieldName::Authority, FieldName::MultisigAuthority),
        TokenInstruction::Burn { .. } => (FieldName::Authority, FieldName::MultisigAuthority),
        _ => (FieldName::Owner, FieldName::MultisigOwner),
    }
}

pub open spec fn instruction_type_of(ix: TokenInstruction) -> InstructionType {
    match ix {
        TokenInstruction::InitializeMint { .. } => InstructionType::InitializeMint,
        TokenInstruction::InitializeAccount => InstructionType::InitializeAccount,
        TokenInstruction::InitializeMultisig { .. } => InstructionType::InitializeMultisig,
        TokenInstruction::Transfer { .. } => InstructionType::Transfer,
        TokenInstruction::Approve { .. } => InstructionType::Approve,
        TokenInstruction::Revoke => InstructionType::Revoke,
        TokenInstruction::SetOwner => InstructionType::SetOwner,
        TokenInstruction::MintTo { .. } => InstructionType::MintTo,
        TokenInstruction::Burn { .. } => InstructionType::Burn,
        TokenInstruction::CloseAccount => InstructionType::CloseAccount,
    }
}

/// The fields of a record that come before its authority fields.
pub open spec fn base_fields(ix: TokenInstruction, keys: Seq<Address>, accounts: Seq<u8>) -> Seq<
    (FieldName, FieldView),
> {
    match ix {
        TokenInstruction::InitializeMint { amount, decimals } => seq![
            address_field(FieldName::Mint, keys, accounts, 0),
            (FieldName::Amount, FieldView::Number(amount)),
            (FieldName::Decimals, FieldView::Number(decimals as u64)),
        ] + if amount == 0 {
            seq![address_field(FieldName::Owner, keys, accounts, 1)]
        } else if accounts.len() > 2 {
            seq![
                address_field(FieldName::Account, keys, accounts, 1),
                address_field(FieldName::Owner, keys, accounts, 2),
            ]
        } else {
            seq![address_field(FieldName::Account, keys, accounts, 1)]
        },
        TokenInstruction::InitializeAccount => seq![
            address_field(FieldName::Account, keys, accounts, 0),
            address_field(FieldName::Mint, keys, accounts, 1),
            address_field(FieldName::Owner, keys, accounts, 2),
        ],
        TokenInstruction::InitializeMultisig { m } => seq![
            address_field(FieldName::Multisig, keys, accounts, 0),
            (FieldName::Signers, FieldView::TextList(texts_from(keys, accounts, 1))),
            (FieldName::M, FieldView::Number(m as u64)),
        ],
        TokenInstruction::Transfer { amount } => seq![
            address_field(FieldName::Source, keys, accounts, 0),
            address_field(FieldName::Destination, keys, accounts, 1),
            (FieldName::Amount, FieldView::Number(amount)),
        ],
        TokenInstruction::Approve { amount } => seq![
            address_field(FieldName::Source, keys, accounts, 0),
            address_field(FieldName::Delegate, keys, accounts, 1),
            (FieldName::Amount, FieldView::Number(amount)),
        ],
        TokenInstruction::Revoke => seq![address_field(FieldName::Source, keys, accounts, 0)],
        TokenInstruction::SetOwner => seq![
            address_field(FieldName::Owned, keys, accounts, 0),
            address_field(FieldName::NewOwner, keys, accounts, 1),
        ],
        TokenInstruction::MintTo { amount } => seq![
            address_field(FieldName::Mint, keys, accounts, 0),
            address_field(FieldName::Account, keys, accounts, 1),
            (FieldName::Amount, FieldView::Number(amount)),
        ],
        TokenInstruction::Burn { amount } => seq![
            address_field(FieldName::Account, keys, accounts, 0),
            (FieldName::Amount, FieldView::Number(amount)),
        ],
        TokenInstruction::CloseAccount => seq![
            address_field(FieldName::Account, keys, accounts, 0),
            address_field(FieldName::Destination, keys, accounts, 1),
        ],
    }
}

/// All fields of the record of a well-formed instruction.
pub open spec fn record_fields(ix: TokenInstruction, keys: Seq<Address>, accounts: Seq<u8>) -> Seq<
    (FieldName, FieldView),
> {
    match authority_index(ix) {
        Some(k) => base_fields(ix, keys, accounts) + authority_fields(
            keys,
            accounts,
            k as int,
            authority_names(ix).0,
            authority_names(ix).1,
        ),
        None => base_fields(ix, keys, accounts),
    }
}

/// What decoding an instruction with input `data` and account indices
/// `accounts` against the key table `keys` yields.
pub open spec fn decoded(data: Seq<u8>, accounts: Seq<u8>, keys: Seq<Address>) -> Result<
    ParsedView,
    ParseInstructionError,
> {
    match token_instruction_of(data) {
        None => Err(ParseInstructionError::InstructionNotParsable(ParsableProgram::SplToken)),
        Some(ix) => if accounts.len() > keys.len() || accounts.len() < min_accounts(ix) {
            Err(ParseInstructionError::InstructionKeyMismatch(ParsableProgram::SplToken))
        } else if !indices_below(accounts, keys.len() as int) {
            Err(ParseInstructionError::InstructionIndexOutOfRange(ParsableProgram::SplToken))
        } else {
            Ok(
                ParsedView {
                    instruction_type: instruction_type_of(ix),
                    fields: record_fields(ix, keys, accounts),
                },
            )
        },
    }
}

/// Whether every account index is below `n`.
fn all_indices_below(accounts: &[u8], n: usize) -> (r: bool)
    ensures
        r == indices_below(accounts@, n as int),
{
    let mut i: usize = 0;
    while i < accounts.len()
        invariant
            i <= accounts@.len(),
            forall|j: int| 0 <= j < i ==> (accounts@[j] as int) < n,
        decreases accounts@.len() - i,
    {
        if accounts[i] as usize >= n {
            return false;
        }
        i = i + 1;
    }
    true
}

/// The least number of accounts that an instruction of this kind carries.
fn min_account_count(ix: &TokenInstruction) -> (r: usize)
    ensures
        r as nat == min_accounts(*ix),
{
    match ix {
        TokenInstruction::InitializeMint { .. } => 2,
        TokenInstruction::InitializeAccount => 3,
        TokenInstruction::InitializeMultisig { .. } => 2,
        TokenInstruction::Transfer { .. } => 3,
        TokenInstruction::Approve { .. } => 3,
        TokenInstruction::Revoke => 2,
        TokenInstruction::SetOwner => 3,
        TokenInstruction::MintTo { .. } => 3,
        TokenInstruction::Burn { .. } => 2,
        TokenInstruction::CloseAccount => 3,
    }
}

/// The text of the key that the `i`-th account index points at.
fn key_string(account_keys: &[Address], accounts: &[u8], i: usize) -> (r: String)
    requires
        i < accounts@.len(),
        indices_below(accounts@, account_keys@.len() as int),
    ensures
        r@ == text_at(account_keys@, accounts@, i as int),
{
    address_string(&account_keys[accounts[i] as usize])
}

/// The texts of the keys that the account indices from `start` on point at.
fn key_strings_from(account_keys: &[Address], accounts: &[u8], start: usize) -> (r: Vec<String>)
    requires
        start <= accounts@.len(),
        indices_below(accounts@, account_keys@.len() as int),
    ensures
        texts_view(r@) == texts_from(account_keys@, accounts@, start as int),
{
    let mut out: Vec<String> = Vec::new();
    let mut i: usize = start;
    while i < accounts.len()
        invariant
            start <= i <= accounts@.len(),
            indices_below(accounts@, account_keys@.len() as int),
            out@.len() == i - start,
            forall|j: int|
                0 <= j < out@.len() ==> out@[j]@ == text_at(account_keys@, accounts@, start + j),
        decreases accounts@.len() - i,
    {
        out.push(key_string(account_keys, accounts, i));
        i = i + 1;
    }
    assert(texts_view(out@) =~= texts_from(account_keys@, accounts@, start as int));
    out
}

/// Appends the authority fields for the authority at `last_nonsigner_index`:
/// a multisignature authority and its signers where accounts follow it, a
/// single authority otherwise.
fn parse_signers(
    fields: &mut Vec<(FieldName, FieldValue)>,
    last_nonsigner_index: usize,
    account_keys: &[Address],
    accounts: &[u8],
    owner_field_name: FieldName,
    multisig_field_name: FieldName,
)
    requires
        last_nonsigner_index < accounts@.len(),
        indices_below(accounts@, account_keys@.len() as int),
    ensures
        fields_view(final(fields)@) == fields_view(old(fields)@) + authority_fields(
            account_keys@,
            accounts@,
            last_nonsigner_index as int,
            owner_field_name,
            multisig_field_name,
        ),
{
    if accounts.len() > last_nonsigner_index + 1 {
        let signers = key_strings_from(account_keys, accounts, last_nonsigner_index + 1);
        let authority = key_string(account_keys, accounts, last_nonsigner_index);
        fields.push((multisig_field_name, FieldValue::Text(authority)));
        fields.push((FieldName::Signers, FieldValue::TextList(signers)));
    } else {
        let owner = key_string(account_keys, accounts, last_nonsigner_index);
        fields.push((owner_field_name, FieldValue::Text(owner)));
    }
    assert(fields_view(fields@) =~= fields_view(old(fields)@) + authority_fields(
        account_keys@,
        accounts@,
        last_nonsigner_index as int,
        owner_field_name,
        multisig_field_name,
    ));
}

/// Decodes a token program instruction against the message's account keys
/// into a record of named fields, with addresses in their text form.
///
/// The result is `decoded` of the instruction's input bytes, its account
/// indices and the key table, and depends on nothing else.
pub fn parse_token(instruction: &CompiledInstruction, account_keys: &[Address]) -> (r: Result<
    ParsedInstruction,
    ParseInstructionError,
>)
    ensures
        match r {
            Ok(p) => decoded(instruction.data@, instruction.accounts@, account_keys@) == Ok::<
                ParsedView,
                ParseInstructionError,
            >(p@),
            Err(e) => decoded(instruction.data@, instruction.accounts@, account_keys@) == Err::<
                ParsedView,
                ParseInstructionError,
            >(e),
        },
{
    let token_instruction = match unpack_token_instruction(instruction.data.as_slice()) {
        Some(ix) => ix,
        None => {
            return Err(ParseInstructionError::InstructionNotParsable(ParsableProgram::SplToken));
        },
    };
    let ghost ix = token_instruction;
    let accounts = instruction.accounts.as_slice();
    if accounts.len() > account_keys.len() || accounts.len() < min_account_count(
        &token_instruction,
    ) {
        return Err(ParseInstructionError::InstructionKeyMismatch(ParsableProgram::SplToken));
    }
    if !all_indices_below(accounts, account_keys.len()) {
        return Err(ParseInstructionError::InstructionIndexOutOfRange(ParsableProgram::SplToken));
    }
    let ghost keys = account_keys@;
    let (instruction_type, fields) = match token_instruction {
        TokenInstruction::InitializeMint { amount, decimals } => {
            let mint = key_string(account_keys, accounts, 0);
            let fields = if amount == 0 {
                let owner = key_string(account_keys, accounts, 1);
                vec![
                    (FieldName::Mint, FieldValue::Text(mint)),
                    (FieldName::Amount, FieldValue::Number(amount)),
                    (FieldName::Decimals, FieldValue::Number(decimals as u64)),
                    (FieldName::Owner, FieldValue::Text(owner)),
                ]
            } else if accounts.len() > 2 {
                let account = key_string(account_keys, accounts, 1);
                let owner = key_string(account_keys, accounts, 2);
                vec![
                    (FieldName::Mint, FieldValue::Text(mint)),
                    (FieldName::Amount, FieldValue::Number(amount)),
                    (FieldName::Decimals, FieldValue::Number(decimals as u64)),
                    (FieldName::Account, FieldValue::Text(account)),
                    (FieldName::Owner, FieldValue::Text(owner)),
                ]
            } else {
                let account = key_string(account_keys, accounts, 1);
                vec![
                    (FieldName::Mint, FieldValue::Text(mint)),
                    (FieldName::Amount, FieldValue::Number(amount)),
                    (FieldName::Decimals, FieldValue::Number(decimals as u64)),
                    (FieldName::Account, FieldValue::Text(account)),
                ]
            };
            assert(fields_view(fields@) =~= record_fields(ix, keys, accounts@));
            (InstructionType::InitializeMint, fields)
        },
        TokenInstruction::InitializeAccount => {
            let fields = vec![
                (FieldName::Account, FieldValue::Text(key_string(account_keys, accounts, 0))),
                (FieldName::Mint, FieldValue::Text(key_string(account_keys, accounts, 1))),
                (FieldName::Owner, FieldValue::Text(key_string(account_keys, accounts, 2))),
            ];
            assert(fields_view(fields@) =~= record_fields(ix, keys, accounts@));
            (InstructionType::InitializeAccount, fields)
        },
        TokenInstruction::InitializeMultisig { m } => {
            let multisig = key_string(account_keys, accounts, 0);
            let signers = key_strings_from(account_keys, accounts, 1);
            let fields = vec![
                (FieldName::Multisig, FieldValue::Text(multisig)),
                (FieldName::Signers, FieldValue::TextList(signers)),
                (FieldName::M, FieldValue::Number(m as u64)),
            ];
            assert(fields_view(fields@) =~= record_fields(ix, keys, accounts@));
            (InstructionType::InitializeMultisig, fields)
        },
        TokenInstruction::Transfer { amount } => {
            let mut fields = vec![
                (FieldName::Source, FieldValue::Text(key_string(account_keys, accounts, 0))),
                (FieldName::Destination, FieldValue::Text(key_string(account_keys, accounts, 1))),
                (FieldName::Amount, FieldValue::Number(amount)),
            ];
            assert(fields_view(fields@) =~= base_fields(ix, keys, accounts@));
            parse_signers(
                &mut fields,
                2,
                account_keys,
                accounts,
                FieldName::Authority,
                FieldName::MultisigAuthority,
            );
            (InstructionType::Transfer, fields)
        },
        TokenInstruction::Approve { amount } => {
            let mut fields = vec![
                (FieldName::Source, FieldValue::Text(key_string(account_keys, accounts, 0))),
                (FieldName::Delegate, FieldValue::Text(key_string(account_keys, accounts, 1))),
                (FieldName::Amount, FieldValue::Number(amount)),
            ];
            assert(fields_view(fields@) =~= base_fields(ix, keys, accounts@));
            parse_signers(
                &mut fields,
                2,
                account_keys,
                accounts,
                FieldName::Owner,
                FieldName::MultisigOwner,
            );
            (InstructionType::Approve, fields)
        },
        TokenInstruction::Revoke => {
            let mut fields = vec![
                (FieldName::Source, FieldValue::Text(key_string(account_keys, accounts, 0))),
            ];
            assert(fields_view(fields@) =~= base_fields(ix, keys, accounts@));
            parse_signers(
                &mut fields,
                1,
                account_keys,
                accounts,
                FieldName::Owner,
                FieldName::MultisigOwner,
            );
            (InstructionType::Revoke, fields)
        },
        TokenInstruction::SetOwner => {
            let mut fields = vec![
                (FieldName::Owned, FieldValue::Text(key_string(account_keys, accounts, 0))),
                (FieldName::NewOwner, FieldValue::Text(key_string(account_keys, accounts, 1))),
            ];
            assert(fields_view(fields@) =~= base_fields(ix, keys, accounts@));
            parse_signers(
                &mut fields,
                2,
                account_keys,
                accounts,
                FieldName::Owner,
                FieldName::MultisigOwner,
            );
            (InstructionType::SetOwner, fields)
        },
        TokenInstruction::MintTo { amount } => {
            let mut fields = vec![
                (FieldName::Mint, FieldValue::Text(key_string(account_keys, accounts, 0))),
                (FieldName::Account, FieldValue::Text(key_string(account_keys, accounts, 1))),
                (FieldName::Amount, FieldValue::Number(amount)),
            ];
            assert(fields_view(fields@) =~= base_fields(ix, keys, accounts@));
            parse_signers(
                &mut fields,
                2,
                account_keys,
                accounts,
                FieldName::Owner,
                FieldName::MultisigOwner,
            );
            (InstructionType::MintTo, fields)
        },
        TokenInstruction::Burn { amount } => {
            let mut fields = vec![
                (FieldName::Account, FieldValue::Text(key_string(account_keys, accounts, 0))),
                (FieldName::Amount, FieldValue::Number(amount)),
            ];
            assert(fields_view(fields@) =~= base_fields(ix, keys, accounts@));
            parse_signers(
                &mut fields,
                1,
                account_keys,
                accounts,
                FieldName::Authority,
                FieldName::MultisigAuthority,
            );
            (InstructionType::Burn, fields)
        },
        TokenInstruction::CloseAccount => {
            let mut fields = vec![
                (FieldName::Account, FieldValue::Text(key_string(account_keys, accounts, 0))),
                (FieldName::Destination, FieldValue::Text(key_string(account_keys, accounts, 1))),
            ];
            assert(fields_view(fields@) =~= base_fields(ix, keys, accounts@));
            parse_signers(
                &mut fields,
                2,
                account_keys,
                accounts,
                FieldName::Owner,
                FieldName::MultisigOwner,
            );
            (InstructionType::CloseAccount, fields)
        },
    };
    Ok(ParsedInstruction { instruction_type, fields })
}

/// The text `t` is that of the key table entry that one of the instruction's
/// account indices points at.
pub open spec fn from_key_table(t: Seq<char>, keys: Seq<Address>, accounts: Seq<u8>) -> bool {
    exists|i: int| 0 <= i < accounts.len() && #[trigger] text_at(keys, accounts, i) == t
}

/// Every address that the value holds comes from the key table.
pub open spec fn value_from_key_table(v: FieldView, keys: Seq<Address>, accounts: Seq<u8>) -> bool {
    match v {
        FieldView::Text(t) => from_key_table(t, keys, accounts),
        FieldView::Number(_) => true,
        FieldView::TextList(ts) => forall|j: int|
            0 <= j < ts.len() ==> from_key_table(#[trigger] ts[j], keys, accounts),
    }
}

/// A field of this name is among the fields.
pub open spec fn has_field(fields: Seq<(FieldName, FieldView)>, name: FieldName) -> bool {
    exists|n: int| 0 <= n < fields.len() && (#[trigger] fields[n]).0 == name
}

/// Every address in a decoded record is the text of the key table entry that
/// one of the instruction's account indices points at.
pub proof fn lemma_addresses_from_key_table(data: Seq<u8>, accounts: Seq<u8>, keys: Seq<Address>)
    requires
        decoded(data, accounts, keys) is Ok,
    ensures
        forall|n: int|
            0 <= n < decoded(data, accounts, keys)->Ok_0.fields.len() ==> value_from_key_table(
                (#[trigger] decoded(data, accounts, keys)->Ok_0.fields[n]).1,
                keys,
                accounts,
            ),
{
    let ix = token_instruction_of(data)->0;
    let fields = record_fields(ix, keys, accounts);
    assert(decoded(data, accounts, keys)->Ok_0.fields == fields);
    assert forall|i: int| 0 <= i < accounts.len() implies from_key_table(
        text_at(keys, accounts, i),
        keys,
        accounts,
    ) by {}
    assert forall|s: int| 0 <= s <= accounts.len() implies value_from_key_table(
        FieldView::TextList(#[trigger] texts_from(keys, accounts, s)),
        keys,
        accounts,
    ) by {
        assert forall|j: int| 0 <= j < texts_from(keys, accounts, s).len() implies from_key_table(
            #[trigger] texts_from(keys, accounts, s)[j],
            keys,
            accounts,
        ) by {
            assert(texts_from(keys, accounts, s)[j] == text_at(keys, accounts, s + j));
        }
    }
    let base = base_fields(ix, keys, accounts);
    assert forall|n: int| 0 <= n < base.len() implies value_from_key_table(
        (#[trigger] base[n]).1,
        keys,
        accounts,
    ) by {}
    match authority_index(ix) {
        Some(k) => {
            let auth = authority_fields(
                keys,
                accounts,
                k as int,
                authority_names(ix).0,
                authority_names(ix).1,
            );
            assert forall|n: int| 0 <= n < auth.len() implies value_from_key_table(
                (#[trigger] auth[n]).1,
                keys,
                accounts,
            ) by {}
            assert forall|n: int| 0 <= n < fields.len() implies value_from_key_table(
                (#[trigger] fields[n]).1,
                keys,
                accounts,
            ) by {
                if n >= base.len() {
                    assert(fields[n] == auth[n - base.len()]);
                }
            }
        },
        None => {},
    }
}

/// The authority rule, for the kinds that have an authority at index `k`:
/// with more than `k + 1` accounts, the record names the account at `k` as a
/// multisignature authority and lists the `len - (k + 1)` accounts after it as
/// signers, in their order, with no single-authority field; with exactly
/// `k + 1` accounts, it names the account at `k` as the single authority,
/// with no multisignature field and no signers.
pub proof fn lemma_authority_rule(data: Seq<u8>, accounts: Seq<u8>, keys: Seq<Address>)
    requires
        decoded(data, accounts, keys) is Ok,
        authority_index(token_instruction_of(data)->0) is Some,
    ensures
        ({
            let ix = token_instruction_of(data)->0;
            let k = authority_index(ix)->0 as int;
            let single = authority_names(ix).0;
            let multisig = authority_names(ix).1;
            let fields = decoded(data, accounts, keys)->Ok_0.fields;
            &&& accounts.len() > k + 1 ==> {
                &&& fields.contains(address_field(multisig, keys, accounts, k))
                &&& fields.contains(
                    (FieldName::Signers, FieldView::TextList(texts_from(keys, accounts, k + 1))),
                )
                &&& texts_from(keys, accounts, k + 1).len() == accounts.len() - (k + 1)
                &&& forall|j: int|
                    0 <= j < accounts.len() - (k + 1) ==> #[trigger] texts_from(
                        keys,
                        accounts,
                        k + 1,
                    )[j] == text_at(keys, accounts, k + 1 + j)
                &&& !has_field(fields, single)
            }
            &&& accounts.len() == k + 1 ==> {
                &&& fields.contains(address_field(single, keys, accounts, k))
                &&& !has_field(fields, multisig)
                &&& !has_field(fields, FieldName::Signers)
            }
        }),
{
    let ix = token_instruction_of(data)->0;
    let k = authority_index(ix)->0 as int;
    let single = authority_names(ix).0;
    let multisig = authority_names(ix).1;
    let fields = decoded(data, accounts, keys)->Ok_0.fields;
    let base = base_fields(ix, keys, accounts);
    let auth = authority_fields(keys, accounts, k, single, multisig);
    assert(fields == base + auth);
    assert forall|n: int| 0 <= n < base.len() implies {
        &&& (#[trigger] base[n]).0 != single
        &&& base[n].0 != multisig
        &&& base[n].0 != FieldName::Signers
    } by {}
    if accounts.len() > k + 1 {
        assert(fields[base.len() as int] == auth[0]);
        assert(fields[base.len() + 1int] == auth[1]);
        assert forall|n: int| 0 <= n < fields.len() implies (#[trigger] fields[n]).0 != single by {
            if n >= base.len() {
                assert(fields[n] == auth[n - base.len()]);
            }
        }
    }
    if accounts.len() == k + 1 {
        assert(fields[base.len() as int] == auth[0]);
        assert forall|n: int| 0 <= n < fields.len() implies {
            &&& (#[trigger] fields[n]).0 != multisig
            &&& fields[n].0 != FieldName::Signers
        } by {
            if n >= base.len() {
                assert(fields[n] == auth[n - base.len()]);
            }
        }
    }
}

/// An instruction with fewer accounts than its kind needs, or read against
/// a key table shorter than that, is refused as a key mismatch.
pub proof fn lemma_too_few_accounts(data: Seq<u8>, accounts: Seq<u8>, keys: Seq<Address>)
    requires
        token_instruction_of(data) is Some,
        accounts.len() < min_accounts(token_instruction_of(data)->0) || keys.len() < min_accounts(
            token_instruction_of(data)->0,
        ),
    ensures
        decoded(data, accounts, keys) == Err::<ParsedView, ParseInstructionError>(
            ParseInstructionError::InstructionKeyMismatch(ParsableProgram::SplToken),
        ),
{
}

/// The name under which a record reports its operation.
pub open spec fn instruction_type_text(t: InstructionType) -> Seq<char> {
    match t {
        InstructionType::InitializeMint => "initializeMint"@,
        InstructionType::InitializeAccount => "initializeAccount"@,
        InstructionType::InitializeMultisig => "initializeMultisig"@,
        InstructionType::Transfer => "transfer"@,
        InstructionType::Approve => "approve"@,
        InstructionType::Revoke => "revoke"@,
        InstructionType::SetOwner => "setOwner"@,
        InstructionType::MintTo => "mintTo"@,
        InstructionType::Burn => "burn"@,
        InstructionType::CloseAccount => "closeAccount"@,
    }
}

/// The name under which a record reports a field.
pub open spec fn field_name_text(n: FieldName) -> Seq<char> {
    match n {
        FieldName::Mint => "mint"@,
        FieldName::Amount => "amount"@,
        FieldName::Decimals => "decimals"@,
        FieldName::Account => "account"@,
        FieldName::Owner => "owner"@,
        FieldName::Multisig => "multisig"@,
        FieldName::Signers => "signers"@,
        FieldName::M => "m"@,
        FieldName::Source => "source"@,
        FieldName::Destination => "destination"@,
        FieldName::Delegate => "delegate"@,
        FieldName::Authority => "authority"@,
        FieldName::MultisigAuthority => "multisigAuthority"@,
        FieldName::MultisigOwner => "multisigOwner"@,
        FieldName::Owned => "owned"@,
        FieldName::NewOwner => "newOwner"@,
    }
}

impl InstructionType {
    pub fn as_str(&self) -> (r: &'static str)
        ensures
            r@ == instruction_type_text(*self),
    {
        match self {
            InstructionType::InitializeMint => "initializeMint",
            InstructionType::InitializeAccount => "initializeAccount",
            InstructionType::InitializeMultisig => "initializeMultisig",
            InstructionType::Transfer => "transfer",
            InstructionType::Approve => "approve",
            InstructionType::Revoke => "revoke",
            InstructionType::SetOwner => "setOwner",
            InstructionType::MintTo => "mintTo",
            InstructionType::Burn => "burn",
            InstructionType::CloseAccount => "closeAccount",
        }
    }
}

impl FieldName {
    pub fn as_str(&self) -> (r: &'static str)
        ensures
            r@ == field_name_text(*self),
    {
        match self {
            FieldName::Mint => "mint",
            FieldName::Amount => "amount",
            FieldName::Decimals => "decimals",
            FieldName::Account => "account",
            FieldName::Owner => "owner",
            FieldName::Multisig => "multisig",
            FieldName::Signers => "signers",
            FieldName::M => "m",
            FieldName::Source => "source",
            FieldName::Destination => "destination",
            FieldName::Delegate => "delegate",
            FieldName::Authority => "authority",
            FieldName::MultisigAuthority => "multisigAuthority",
            FieldName::MultisigOwner => "multisigOwner",
            FieldName::Owned => "owned",
            FieldName::NewOwner => "newOwner",
        }
    }
}

} // verus!
