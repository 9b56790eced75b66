//! The protocol laws: settlement and atomicity theorems over the movement
//! plans the operations decide, stated against the ledger semantics of
//! `crate::ops`.

use vstd::prelude::*;
use crate::account::AccountV;
use crate::amm::{
    WithdrawInstructionData,
    WithdrawQuoteInput,
    spec_initialize_plan,
    spec_swap_settle,
    spec_withdraw_settle,
    InitializeDataV,
};
use crate::errors::{ProgramError, ProtocolError};
use crate::escrow::{spec_escrow_decode, spec_refund_settlement, spec_take_settlement};
use crate::flash::{
    FlashError,
    spec_borrow,
    spec_instruction_count,
    spec_loan_check,
    spec_parse_instruction_at,
};
use crate::ops::{LedgerV, OpV, apply_op, apply_ops};
use crate::validate::spec_token_amount;

verus! {

/// Applying a four-movement plan step by step.
proof fn lemma_apply_four(st: LedgerV, ops: Seq<OpV>)
    requires
        ops.len() == 4,
        apply_op(st, ops[0]) is Some,
        apply_op(apply_op(st, ops[0])->Some_0, ops[1]) is Some,
        apply_op(apply_op(apply_op(st, ops[0])->Some_0, ops[1])->Some_0, ops[2]) is Some,
        apply_op(
            apply_op(apply_op(apply_op(st, ops[0])->Some_0, ops[1])->Some_0, ops[2])->Some_0,
            ops[3],
        ) is Some,
    ensures
        apply_ops(st, ops) == apply_op(
            apply_op(apply_op(apply_op(st, ops[0])->Some_0, ops[1])->Some_0, ops[2])->Some_0,
            ops[3],
        ),
{
    let s1 = ops.subrange(1, 4);
    let s2 = s1.subrange(1, 3);
    let s3 = s2.subrange(1, 2);
    let s4 = s3.subrange(1, 1);
    assert(s1[0] == ops[1] && s1[1] == ops[2] && s1[2] == ops[3]);
    assert(s2 =~= s1.subrange(1, s1.len() as int));
    assert(s3 =~= s2.subrange(1, s2.len() as int));
    assert(s4 =~= s3.subrange(1, s3.len() as int));
    let st1 = apply_op(st, ops[0])->Some_0;
    let st2 = apply_op(st1, ops[1])->Some_0;
    let st3 = apply_op(st2, ops[2])->Some_0;
    assert(apply_ops(st, ops) == apply_ops(st1, s1));
    assert(apply_ops(st1, s1) == apply_ops(st2, s2));
    assert(apply_ops(st2, s2) == apply_ops(st3, s3));
    assert(apply_ops(st3, s3) == apply_ops(apply_op(st3, ops[3])->Some_0, s4));
    assert(apply_ops(apply_op(st3, ops[3])->Some_0, s4) == Some(apply_op(st3, ops[3])->Some_0));
}

/// Applying a three-movement plan step by step.
proof fn lemma_apply_three(st: LedgerV, ops: Seq<OpV>)
    requires
        ops.len() == 3,
        apply_op(st, ops[0]) is Some,
        apply_op(apply_op(st, ops[0])->Some_0, ops[1]) is Some,
        apply_op(apply_op(apply_op(st, ops[0])->Some_0, ops[1])->Some_0, ops[2]) is Some,
    ensures
        apply_ops(st, ops) == apply_op(
            apply_op(apply_op(st, ops[0])->Some_0, ops[1])->Some_0,
            ops[2],
        ),
{
    let s1 = ops.subrange(1, 3);
    let s2 = s1.subrange(1, 2);
    let s3 = s2.subrange(1, 1);
    assert(s1[0] == ops[1] && s1[1] == ops[2]);
    assert(s2 =~= s1.subrange(1, s1.len() as int));
    assert(s3 =~= s2.subrange(1, s2.len() as int));
    let st1 = apply_op(st, ops[0])->Some_0;
    let st2 = apply_op(st1, ops[1])->Some_0;
    assert(apply_ops(st, ops) == apply_ops(st1, s1));
    assert(apply_ops(st1, s1) == apply_ops(st2, s2));
    assert(apply_ops(st2, s2) == apply_ops(apply_op(st2, ops[2])->Some_0, s3));
    assert(apply_ops(apply_op(st2, ops[2])->Some_0, s3) == Some(apply_op(st2, ops[2])->Some_0));
}

/// Escrow Take settles exactly: in any valid Take — distinct accounts, a
/// sufficiently funded taker, and no balance overflow — the taker's
/// `mint_a` balance increases by exactly the vault's pre-transfer balance,
/// the maker's `mint_b` balance increases by exactly the demanded amount,
/// and neither the vault nor the escrow record exists afterwards.
pub proof fn lemma_take_settles_exactly(
    escrow_acct: AccountV,
    maker: AccountV,
    taker: AccountV,
    vault: AccountV,
    taker_ata_a: AccountV,
    taker_ata_b: AccountV,
    maker_ata_b: AccountV,
    program_id: Seq<u8>,
    token_id: Seq<u8>,
    plan: Seq<OpV>,
    st: LedgerV,
)
    requires
        spec_take_settlement(
            escrow_acct,
            maker,
            taker,
            vault,
            taker_ata_a,
            taker_ata_b,
            maker_ata_b,
            program_id,
            token_id,
        ) == Ok::<Seq<OpV>, ProgramError>(plan),
        st.contains_key(vault.key),
        st.contains_key(taker_ata_a.key),
        st.contains_key(taker_ata_b.key),
        st.contains_key(maker_ata_b.key),
        st.contains_key(escrow_acct.key),
        vault.key != taker_ata_a.key,
        vault.key != taker_ata_b.key,
        vault.key != maker_ata_b.key,
        taker_ata_a.key != taker_ata_b.key,
        taker_ata_a.key != maker_ata_b.key,
        taker_ata_b.key != maker_ata_b.key,
        escrow_acct.key != vault.key,
        escrow_acct.key != taker_ata_a.key,
        escrow_acct.key != maker_ata_b.key,
        st[vault.key] == spec_token_amount(vault.data),
        st[taker_ata_a.key] + spec_token_amount(vault.data) <= u64::MAX,
        st[taker_ata_b.key] >= spec_escrow_decode(escrow_acct.data).receive,
        st[maker_ata_b.key] + spec_escrow_decode(escrow_acct.data).receive <= u64::MAX,
    ensures
        apply_ops(st, plan) is Some,
        ({
            let st2 = apply_ops(st, plan)->Some_0;
            &&& st2[taker_ata_a.key] == st[taker_ata_a.key] + spec_token_amount(vault.data)
            &&& st2[maker_ata_b.key] == st[maker_ata_b.key] + spec_escrow_decode(
                escrow_acct.data,
            ).receive
            &&& !st2.contains_key(vault.key)
            &&& !st2.contains_key(escrow_acct.key)
        }),
{
    let e = spec_escrow_decode(escrow_acct.data);
    let amount = spec_token_amount(vault.data);
    assert(plan == seq![
        OpV::Transfer {
            from: vault.key,
            to: taker_ata_a.key,
            authority: escrow_acct.key,
            amount,
        },
        OpV::Transfer {
            from: taker_ata_b.key,
            to: maker_ata_b.key,
            authority: taker.key,
            amount: e.receive,
        },
        OpV::CloseTokenAccount {
            account: vault.key,
            destination: maker.key,
            authority: escrow_acct.key,
        },
        OpV::CloseProgramAccount { account: escrow_acct.key, destination: taker.key },
    ]);
    lemma_apply_four(st, plan);
}

/// Escrow Refund settles exactly: the maker regains the full vault balance,
/// no movement but the vault's refund transfer occurs — in particular no
/// `mint_b` transfer — and neither the vault nor the escrow record exists
/// afterwards.
pub proof fn lemma_refund_settles_exactly(
    escrow_acct: AccountV,
    maker: AccountV,
    vault: AccountV,
    maker_ata_a: AccountV,
    program_id: Seq<u8>,
    token_id: Seq<u8>,
    plan: Seq<OpV>,
    st: LedgerV,
)
    requires
        spec_refund_settlement(
            escrow_acct,
            maker,
            vault,
            maker_ata_a,
            program_id,
            token_id,
        ) == Ok::<Seq<OpV>, ProgramError>(plan),
        st.contains_key(vault.key),
        st.contains_key(maker_ata_a.key),
        st.contains_key(escrow_acct.key),
        vault.key != maker_ata_a.key,
        escrow_acct.key != vault.key,
        escrow_acct.key != maker_ata_a.key,
        st[vault.key] == spec_token_amount(vault.data),
        st[maker_ata_a.key] + spec_token_amount(vault.data) <= u64::MAX,
    ensures
        apply_ops(st, plan) is Some,
        ({
            let st2 = apply_ops(st, plan)->Some_0;
            &&& st2[maker_ata_a.key] == st[maker_ata_a.key] + spec_token_amount(vault.data)
            &&& !st2.contains_key(vault.key)
            &&& !st2.contains_key(escrow_acct.key)
        }),
        forall|i: int|
            0 <= i < plan.len() && plan[i] is Transfer ==> plan[i]->Transfer_from == vault.key,
{
    let amount = spec_token_amount(vault.data);
    assert(plan == seq![
        OpV::Transfer {
            from: vault.key,
            to: maker_ata_a.key,
            authority: escrow_acct.key,
            amount,
        },
        OpV::CloseTokenAccount {
            account: vault.key,
            destination: maker.key,
            authority: escrow_acct.key,
        },
        OpV::CloseProgramAccount { account: escrow_acct.key, destination: maker.key },
    ]);
    lemma_apply_three(st, plan);
}

/// Swap is direction-symmetric: swapping in one direction and then swapping
/// back with the curve's exact inverse amounts returns every balance to its
/// pre-swap value.
pub proof fn lemma_swap_inverse_restores(
    user: AccountV,
    user_x: AccountV,
    user_y: AccountV,
    vault_x: AccountV,
    vault_y: AccountV,
    config_acct: AccountV,
    min1: u64,
    min2: u64,
    deposit: u64,
    withdraw: u64,
    forward: Seq<OpV>,
    back: Seq<OpV>,
    st: LedgerV,
)
    requires
        spec_swap_settle(
            user,
            user_x,
            user_y,
            vault_x,
            vault_y,
            config_acct,
            true,
            min1,
            Some((deposit, withdraw)),
        ) == Ok::<Seq<OpV>, ProgramError>(forward),
        spec_swap_settle(
            user,
            user_x,
            user_y,
            vault_x,
            vault_y,
            config_acct,
            false,
            min2,
            Some((withdraw, deposit)),
        ) == Ok::<Seq<OpV>, ProgramError>(back),
        st.contains_key(user_x.key),
        st.contains_key(user_y.key),
        st.contains_key(vault_x.key),
        st.contains_key(vault_y.key),
        user_x.key != user_y.key,
        user_x.key != vault_x.key,
        user_x.key != vault_y.key,
        user_y.key != vault_x.key,
        user_y.key != vault_y.key,
        vault_x.key != vault_y.key,
        st[user_x.key] >= deposit,
        st[vault_y.key] >= withdraw,
        st[vault_x.key] + deposit <= u64::MAX,
        st[user_y.key] + withdraw <= u64::MAX,
    ensures
        apply_ops(st, forward + back) == Some(st),
{
    lemma_apply_four(st, forward + back);
    let ops = forward + back;
    assert(ops[0] == forward[0] && ops[1] == forward[1] && ops[2] == back[0] && ops[3] == back[1]);
    let st4 = apply_op(
        apply_op(apply_op(apply_op(st, ops[0])->Some_0, ops[1])->Some_0, ops[2])->Some_0,
        ops[3],
    )->Some_0;
    assert(st4 =~= st);
}

/// Withdrawing the whole liquidity supply returns exactly the two reserves,
/// with no rounding loss and no curve call.
pub proof fn lemma_withdraw_full_supply_returns_reserves(
    user: AccountV,
    mint_lp: AccountV,
    vault_x: AccountV,
    vault_y: AccountV,
    user_x_ata: AccountV,
    user_y_ata: AccountV,
    user_lp_ata: AccountV,
    config_acct: AccountV,
    d: WithdrawInstructionData,
    quote: WithdrawQuoteInput,
    curve_out: Option<(u64, u64)>,
    plan: Seq<OpV>,
)
    requires
        d.amount == quote.lp_supply,
        spec_withdraw_settle(
            user,
            mint_lp,
            vault_x,
            vault_y,
            user_x_ata,
            user_y_ata,
            user_lp_ata,
            config_acct,
            d,
            quote,
            curve_out,
        ) == Ok::<Seq<OpV>, ProgramError>(plan),
    ensures
        plan.len() == 3,
        plan[0] == (OpV::Transfer {
            from: vault_x.key,
            to: user_x_ata.key,
            authority: config_acct.key,
            amount: quote.reserve_x,
        }),
        plan[1] == (OpV::Transfer {
            from: vault_y.key,
            to: user_y_ata.key,
            authority: config_acct.key,
            amount: quote.reserve_y,
        }),
{
}

/// A Borrow whose transaction does not end in a parsable final instruction
/// aborts with exactly the missing-Repay error, whatever else the accounts
/// and the principal say.
pub proof fn lemma_borrow_without_trailing_repay_aborts(
    accounts: Seq<AccountV>,
    amount: u64,
    sysvar_data: Seq<u8>,
    program_id: Seq<u8>,
    token_id: Seq<u8>,
    ata_id: Seq<u8>,
    instructions_id: Seq<u8>,
)
    requires
        spec_loan_check(accounts, program_id, token_id, ata_id, instructions_id) is Ok,
        amount != 0,
        spec_parse_instruction_at(sysvar_data, spec_instruction_count(sysvar_data) - 1) is None,
    ensures
        spec_borrow(
            accounts,
            amount,
            sysvar_data,
            program_id,
            token_id,
            ata_id,
            instructions_id,
        ) == Err::<Seq<OpV>, FlashError>(
            FlashError::Protocol(ProtocolError::MissingRepayIx),
        ),
{
}

/// Re-running Initialize on a live pool aborts: applying the Initialize
/// plan to any ledger where the configuration account already exists fails
/// at the very first movement, so nothing is overwritten.
pub proof fn lemma_initialize_on_existing_pool_aborts(
    initializer: AccountV,
    mint_lp: AccountV,
    config: AccountV,
    d: InitializeDataV,
    program_id: Seq<u8>,
    token_id: Seq<u8>,
    st: LedgerV,
)
    requires
        st.contains_key(config.key),
    ensures
        apply_ops(st, spec_initialize_plan(initializer, mint_lp, config, d, program_id, token_id))
            is None,
{
    let plan = spec_initialize_plan(initializer, mint_lp, config, d, program_id, token_id);
    assert(apply_op(st, plan[0]) is None);
}

/// A failed check decides no movement: every operation's result is either
/// the exact error of the first failing check, carrying no movements, or a
/// plan — here stated for Take, whose settlement errs exactly when the
/// record, the re-derived escrow address or the vault is rejected.
pub proof fn lemma_take_fails_closed(
    escrow_acct: AccountV,
    maker: AccountV,
    taker: AccountV,
    vault: AccountV,
    taker_ata_a: AccountV,
    taker_ata_b: AccountV,
    maker_ata_b: AccountV,
    program_id: Seq<u8>,
    token_id: Seq<u8>,
)
    ensures
        ({
            let r = spec_take_settlement(
                escrow_acct,
                maker,
                taker,
                vault,
                taker_ata_a,
                taker_ata_b,
                maker_ata_b,
                program_id,
                token_id,
            );
            let e = spec_escrow_decode(escrow_acct.data);
            &&& (escrow_acct.data.len() != crate::escrow::ESCROW_LEN ==> r == Err::<
                Seq<OpV>,
                ProgramError,
            >(ProgramError::InvalidAccountData))
            &&& ((escrow_acct.data.len() == crate::escrow::ESCROW_LEN
                && (crate::escrow::spec_escrow_address_check(
                escrow_acct.key,
                maker.key,
                e.seed,
                e.bump,
                program_id,
            ) matches Err(_))) ==> r == Err::<Seq<OpV>, ProgramError>(
                crate::escrow::spec_escrow_address_check(
                    escrow_acct.key,
                    maker.key,
                    e.seed,
                    e.bump,
                    program_id,
                )->Err_0,
            ))
        }),
{
}

} // verus!
