use vstd::prelude::*;
use solana_sdk::instruction::CompiledInstruction;
use spl_token::instruction::TokenInstruction;

verus! {

/// The token program's instruction, with its variants and their plain fields.
#[verifier::external_type_specification]
pub struct ExTokenInstruction(TokenInstruction);

/// An instruction as it stands in a transaction message: indices into the
/// message's account keys, and opaque input bytes.
#[verifier::external_type_specification]
pub struct ExCompiledInstruction(CompiledInstruction);

/// The value of bytes read least significant first.
pub open spec fn le_value(bytes: Seq<u8>) -> nat
    decreases bytes.len(),
{
    if bytes.len() == 0 {
        0
    } else {
        bytes[0] as nat + 256 * le_value(bytes.drop_first())
    }
}

/// The 64-bit amount that follows the tag byte.
pub open spec fn amount_after_tag(data: Seq<u8>) -> u64 {
    le_value(data.subrange(1, 9)) as u64
}

/// The token program's instruction encoding: a tag byte, then the variant's
/// fields (a 64-bit amount, least significant byte first, and single bytes).
/// Bytes past the fields are ignored.
pub open spec fn token_instruction_of(data: Seq<u8>) -> Option<TokenInstruction> {
    if data.len() < 1 {
        None
    } else if data[0] == 0 {
        if data.len() < 10 {
            None
        } else {
            Some(TokenInstruction::InitializeMint { amount: amount_after_tag(data), decimals: data[9] })
        }
    } else if data[0] == 1 {
        Some(TokenInstruction::InitializeAccount)
    } else if data[0] == 2 {
        if data.len() < 2 {
            None
        } else {
            Some(TokenInstruction::InitializeMultisig { m: data[1] })
        }
    } else if data[0] == 5 {
        Some(TokenInstruction::Revoke)
    } else if data[0] == 6 {
        Some(TokenInstruction::SetOwner)
    } else if data[0] == 9 {
        Some(TokenInstruction::CloseAccount)
    } else if data[0] == 3 || data[0] == 4 || data[0] == 7 || data[0] == 8 {
        if data.len() < 9 {
            None
        } else {
            let amount = amount_after_tag(data);
            Some(
                if data[0] == 3 {
                    TokenInstruction::Transfer { amount }
                } else if data[0] == 4 {
                    TokenInstruction::Approve { amount }
                } else if data[0] == 7 {
                    TokenInstruction::MintTo { amount }
                } else {
                    TokenInstruction::Burn { amount }
                },
            )
        }
    } else {
        None
    }
}

/// 256 to the power `n`.
pub open spec fn pow256(n: nat) -> nat
    decreases n,
{
    if n == 0 {
        1
    } else {
        256 * pow256((n - 1) as nat)
    }
}

proof fn lemma_le_value_step(data: Seq<u8>, i: int, end: int)
    requires
        0 <= i < end <= data.len(),
    ensures
        le_value(data.subrange(i, end)) == data[i] as nat + 256 * le_value(
            data.subrange(i + 1, end),
        ),
{
    assert(data.subrange(i, end).drop_first() =~= data.subrange(i + 1, end));
}

/// The 64-bit amount stored least significant byte first at `data[1..9]`.
fn read_amount(data: &[u8]) -> (r: u64)
    requires
        data@.len() >= 9,
    ensures
        r == amount_after_tag(data@),
{
    let mut acc: u64 = 0;
    let mut i: usize = 9;
    assert(data@.subrange(9, 9) =~= Seq::<u8>::empty());
    while i > 1
        invariant
            1 <= i <= 9,
            data@.len() >= 9,
            acc as nat == le_value(data@.subrange(i as int, 9)),
            (acc as nat) < pow256((9 - i) as nat),
        decreases i,
    {
        proof {
            lemma_le_value_step(data@, i - 1, 9);
            reveal_with_fuel(pow256, 9);
            let k = (9 - i) as nat;
            assert(pow256(k + 1) == 256 * pow256(k));
            assert(pow256(k) <= pow256(8));
            assert((acc as nat) * 256 + (data@[i - 1] as nat) < 256 * pow256(k)) by (nonlinear_arith)
                requires
                    (acc as nat) < pow256(k),
                    data@[i - 1] < 256,
            ;
        }
        acc = acc * 256 + data[i - 1] as u64;
        i = i - 1;
    }
    acc
}

/// Reads a token program instruction from its encoding.
///
/// spl-token 1.0's `TokenInstruction::unpack` reads the amount through a
/// misaligned pointer, which aborts in builds with debug assertions, so the
/// encoding is read here instead, against its statement above.
pub fn unpack_token_instruction(data: &[u8]) -> (r: Option<TokenInstruction>)
    ensures
        r == token_instruction_of(data@),
{
    if data.len() < 1 {
        return None;
    }
    match data[0] {
        0 => if data.len() < 10 {
            None
        } else {
            Some(TokenInstruction::InitializeMint { amount: read_amount(data), decimals: data[9] })
        },
        1 => Some(TokenInstruction::InitializeAccount),
        2 => if data.len() < 2 {
            None
        } else {
            Some(TokenInstruction::InitializeMultisig { m: data[1] })
        },
        3 => if data.len() < 9 {
            None
        } else {
            Some(TokenInstruction::Transfer { amount: read_amount(data) })
        },
        4 => if data.len() < 9 {
            None
        } else {
            Some(TokenInstruction::Approve { amount: read_amount(data) })
        },
        5 => Some(TokenInstruction::Revoke),
        6 => Some(TokenInstruction::SetOwner),
        7 => if data.len() < 9 {
            None
        } else {
            Some(TokenInstruction::MintTo { amount: read_amount(data) })
        },
        8 => if data.len() < 9 {
            None
        } else {
            Some(TokenInstruction::Burn { amount: read_amount(data) })
        },
        9 => Some(TokenInstruction::CloseAccount),
        _ => None,
    }
}

} // verus!
