//! Lazy, idempotent provisioning of the accounts a mint writes.
use crate::accounts::AccountState;
use crate::address::Address;
use crate::calls::ExternalCall;
use crate::error::ErrorCode;
use vstd::prelude::*;

verus! {

/// Space of a manifest account: 8-byte tag, the 272-byte record, 8 bytes of
/// padding.
pub const MANIFEST_ACCOUNT_LEN: u64 = 288;

/// Space of a mint record of the token ledger.
pub const MINT_ACCOUNT_LEN: u64 = 82;

/// A top-up of `account` from `payer`, if it holds less than `required`.
pub open spec fn spec_top_up(payer: Address, account: AccountState, required: u64) -> Seq<ExternalCall> {
    if account.lamports < required {
        seq![ExternalCall::TransferLamports { from: payer, to: account.key, amount: (required - account.lamports) as u64 }]
    } else {
        Seq::empty()
    }
}

fn top_up(payer: &Address, account: &AccountState, required: u64) -> (r: Vec<ExternalCall>)
    ensures
        r@ == spec_top_up(*payer, *account, required),
{
    let mut r: Vec<ExternalCall> = Vec::new();
    if account.lamports < required {
        r.push(ExternalCall::TransferLamports { from: *payer, to: account.key, amount: required - account.lamports });
    }
    assert(r@ =~= spec_top_up(*payer, *account, required));
    r
}

/// What ensuring the manifest account takes.
pub open spec fn spec_ensure_object_manifest_account(
    manifest: AccountState,
    payer: Address,
    program_id: Address,
    required_lamports: u64,
) -> Result<Seq<ExternalCall>, ErrorCode> {
    if manifest.data_len == 0 {
        Ok(seq![ExternalCall::CreateAccount {
            payer,
            account: manifest.key,
            lamports: required_lamports,
            space: MANIFEST_ACCOUNT_LEN,
            owner: program_id,
        }])
    } else if manifest.owner.bytes@ != program_id.bytes@ {
        Err(ErrorCode::InvalidManifestAccount)
    } else {
        Ok(spec_top_up(payer, manifest, required_lamports) + if manifest.data_len < MANIFEST_ACCOUNT_LEN {
            seq![ExternalCall::Realloc { account: manifest.key, new_len: MANIFEST_ACCOUNT_LEN }]
        } else {
            Seq::empty()
        })
    }
}

/// Creates the manifest account when it is empty; otherwise requires that this
/// program owns it, tops it up to `required_lamports` and grows it to the
/// manifest size.
pub fn ensure_object_manifest_account(
    manifest: &AccountState,
    payer: &Address,
    program_id: &Address,
    required_lamports: u64,
) -> (r: Result<Vec<ExternalCall>, ErrorCode>)
    ensures
        match (r, spec_ensure_object_manifest_account(*manifest, *payer, *program_id, required_lamports)) {
            (Ok(c), Ok(s)) => c@ == s,
            (Err(e), Err(f)) => e == f,
            _ => false,
        },
{
    if manifest.data_len == 0 {
        let r: Vec<ExternalCall> = vec![ExternalCall::CreateAccount {
            payer: *payer,
            account: manifest.key,
            lamports: required_lamports,
            space: MANIFEST_ACCOUNT_LEN,
            owner: *program_id,
        }];
        return Ok(r);
    }
    if manifest.owner != *program_id {
        return Err(ErrorCode::InvalidManifestAccount);
    }
    let mut r = top_up(payer, manifest, required_lamports);
    if (manifest.data_len as u64) < MANIFEST_ACCOUNT_LEN {
        r.push(ExternalCall::Realloc { account: manifest.key, new_len: MANIFEST_ACCOUNT_LEN });
    }
    proof {
        let s = spec_ensure_object_manifest_account(*manifest, *payer, *program_id, required_lamports);
        assert(s is Ok);
        assert(r@ =~= s->Ok_0);
    }
    Ok(r)
}

/// What ensuring the mint account takes.
pub open spec fn spec_ensure_object_mint_account(
    mint: AccountState,
    payer: Address,
    authority: Address,
    token_program: Address,
    required_lamports: u64,
) -> Result<Seq<ExternalCall>, ErrorCode> {
    if mint.data_len == 0 {
        Ok(seq![
            ExternalCall::CreateAccount {
                payer,
                account: mint.key,
                lamports: required_lamports,
                space: MINT_ACCOUNT_LEN,
                owner: token_program,
            },
            ExternalCall::InitializeMint {
                mint: mint.key,
                decimals: 0,
                mint_authority: authority,
                freeze_authority: authority,
            },
        ])
    } else if mint.owner.bytes@ != token_program.bytes@ {
        Err(ErrorCode::InvalidObjectMintAccount)
    } else {
        Ok(spec_top_up(payer, mint, required_lamports))
    }
}

/// Creates and initializes the mint when it is empty, with `authority` as
/// mint and freeze authority and no decimals; otherwise requires that the
/// token ledger owns it and tops it up to `required_lamports`.
pub fn ensure_object_mint_account(
    mint: &AccountState,
    payer: &Address,
    authority: &Address,
    token_program: &Address,
    required_lamports: u64,
) -> (r: Result<Vec<ExternalCall>, ErrorCode>)
    ensures
        match (r, spec_ensure_object_mint_account(*mint, *payer, *authority, *token_program, required_lamports)) {
            (Ok(c), Ok(s)) => c@ == s,
            (Err(e), Err(f)) => e == f,
            _ => false,
        },
{
    if mint.data_len == 0 {
        let r: Vec<ExternalCall> = vec![
            ExternalCall::CreateAccount {
                payer: *payer,
                account: mint.key,
                lamports: required_lamports,
                space: MINT_ACCOUNT_LEN,
                owner: *token_program,
            },
            ExternalCall::InitializeMint {
                mint: mint.key,
                decimals: 0,
                mint_authority: *authority,
                freeze_authority: *authority,
            },
        ];
        return Ok(r);
    }
    if mint.owner != *token_program {
        return Err(ErrorCode::InvalidObjectMintAccount);
    }
    Ok(top_up(payer, mint, required_lamports))
}

/// What ensuring the recipient's token account takes.
pub open spec fn spec_ensure_recipient_token_account(
    token_account: AccountState,
    wallet: Address,
    payer: Address,
    mint: Address,
    token_program: Address,
) -> Result<Seq<ExternalCall>, ErrorCode> {
    if token_account.data_len == 0 {
        Ok(seq![ExternalCall::CreateAssociatedTokenAccount { payer, account: token_account.key, wallet, mint }])
    } else if token_account.owner.bytes@ != token_program.bytes@ {
        Err(ErrorCode::InvalidRecipientTokenAccount)
    } else {
        Ok(Seq::empty())
    }
}

/// Creates the associated token account of `wallet` for `mint` when it is
/// empty; otherwise requires that the token ledger owns it.
pub fn ensure_recipient_token_account(
    token_account: &AccountState,
    wallet: &Address,
    payer: &Address,
    mint: &Address,
    token_program: &Address,
) -> (r: Result<Vec<ExternalCall>, ErrorCode>)
    ensures
        match (r, spec_ensure_recipient_token_account(*token_account, *wallet, *payer, *mint, *token_program)) {
            (Ok(c), Ok(s)) => c@ == s,
            (Err(e), Err(f)) => e == f,
            _ => false,
        },
{
    if token_account.data_len == 0 {
        let r: Vec<ExternalCall> = vec![ExternalCall::CreateAssociatedTokenAccount {
            payer: *payer,
            account: token_account.key,
            wallet: *wallet,
            mint: *mint,
        }];
        return Ok(r);
    }
    if token_account.owner != *token_program {
        return Err(ErrorCode::InvalidRecipientTokenAccount);
    }
    let r: Vec<ExternalCall> = Vec::new();
    assert(r@ =~= Seq::<ExternalCall>::empty());
    Ok(r)
}

} // verus!
