//! The supply counter as a state machine.
//!
//! Only two operations touch `total_supply`: the one-time mint and burn.
//! This module states their effect on the counter as spec functions — the
//! entry points' contracts are written against them — and proves the
//! accounting laws that hold of every sequence of such operations.

use vstd::prelude::*;
use crate::errors::ErrorCode;
use crate::state::INITIAL_SUPPLY;

verus! {

/// What the one-time mint does to the supply counter: it succeeds only
/// while the counter is zero, setting it to the fixed initial supply.
pub open spec fn mint_supply_outcome(supply: u64) -> Result<u64, ErrorCode> {
    if supply == 0 {
        Ok(INITIAL_SUPPLY)
    } else {
        Err(ErrorCode::AlreadyMinted)
    }
}

/// What a burn does to the supply counter, given the burned account's
/// balance: the amount must be positive, covered by the balance, and
/// covered by the counter (checked subtraction), in that order.
pub open spec fn burn_supply_outcome(supply: u64, balance: u64, amount: u64) -> Result<u64, ErrorCode> {
    if amount == 0 {
        Err(ErrorCode::InvalidAmount)
    } else if balance < amount {
        Err(ErrorCode::InsufficientBalance)
    } else if supply < amount {
        Err(ErrorCode::Overflow)
    } else {
        Ok((supply - amount) as u64)
    }
}

/// One supply-touching operation, with the inputs its outcome depends on.
/// `balance` is the burned account's balance at the time of the call.
pub enum SupplyOp {
    Mint,
    Burn { balance: u64, amount: u64 },
}

/// The supply counter after one operation; a rejected operation leaves it
/// unchanged.
pub open spec fn supply_step(supply: u64, op: SupplyOp) -> u64 {
    match op {
        SupplyOp::Mint => match mint_supply_outcome(supply) {
            Ok(s) => s,
            Err(_) => supply,
        },
        SupplyOp::Burn { balance, amount } => match burn_supply_outcome(supply, balance, amount) {
            Ok(s) => s,
            Err(_) => supply,
        },
    }
}

/// The supply counter after a sequence of operations.
pub open spec fn run_supply(supply: u64, ops: Seq<SupplyOp>) -> u64
    decreases ops.len(),
{
    if ops.len() == 0 {
        supply
    } else {
        run_supply(supply_step(supply, ops[0]), ops.drop_first())
    }
}

/// The sum of the amounts of the successful mints in a sequence.
pub open spec fn minted_total(supply: u64, ops: Seq<SupplyOp>) -> int
    decreases ops.len(),
{
    if ops.len() == 0 {
        0
    } else {
        let here: int = match ops[0] {
            SupplyOp::Mint => if mint_supply_outcome(supply) is Ok { INITIAL_SUPPLY as int } else { 0 },
            SupplyOp::Burn { balance, amount } => 0,
        };
        here + minted_total(supply_step(supply, ops[0]), ops.drop_first())
    }
}

/// The sum of the amounts of the successful burns in a sequence.
pub open spec fn burned_total(supply: u64, ops: Seq<SupplyOp>) -> int
    decreases ops.len(),
{
    if ops.len() == 0 {
        0
    } else {
        let here: int = match ops[0] {
            SupplyOp::Mint => 0,
            SupplyOp::Burn { balance, amount } => if burn_supply_outcome(
                supply,
                balance,
                amount,
            ) is Ok {
                amount as int
            } else {
                0
            },
        };
        here + burned_total(supply_step(supply, ops[0]), ops.drop_first())
    }
}

/// Supply accounting: after any sequence of operations the supply counter
/// equals the starting counter plus the cumulative successfully minted
/// amount minus the cumulative successfully burned amount, and the burned
/// amount never exceeds what was available — the counter cannot underflow.
pub proof fn lemma_supply_accounting(supply: u64, ops: Seq<SupplyOp>)
    ensures
        run_supply(supply, ops) == supply + minted_total(supply, ops) - burned_total(supply, ops),
        burned_total(supply, ops) <= supply + minted_total(supply, ops),
    decreases ops.len(),
{
    if ops.len() > 0 {
        lemma_supply_accounting(supply_step(supply, ops[0]), ops.drop_first());
    }
}

/// Supply accounting from a fresh record: the counter is exactly the
/// cumulative successful mint amount minus the cumulative successful burn
/// amount, and never underflows.
pub proof fn lemma_supply_accounting_from_zero(ops: Seq<SupplyOp>)
    ensures
        run_supply(0, ops) == minted_total(0, ops) - burned_total(0, ops),
        burned_total(0, ops) <= minted_total(0, ops),
{
    lemma_supply_accounting(0, ops);
}

/// The supply counter after the first `k` operations of a sequence.
pub open spec fn supply_at(supply: u64, ops: Seq<SupplyOp>, k: int) -> u64 {
    run_supply(supply, ops.take(k))
}

/// Running one more operation is one more step.
pub proof fn lemma_run_supply_push(supply: u64, ops: Seq<SupplyOp>, op: SupplyOp)
    ensures
        run_supply(supply, ops.push(op)) == supply_step(run_supply(supply, ops), op),
    decreases ops.len(),
{
    if ops.len() == 0 {
        assert(ops.push(op)[0] == op);
        assert(ops.push(op).drop_first() =~= ops);
        assert(run_supply(supply, ops.push(op)) == run_supply(supply_step(supply, op), ops));
        assert(run_supply(supply_step(supply, op), ops) == supply_step(supply, op));
        assert(run_supply(supply, ops) == supply);
    } else {
        assert(ops.push(op)[0] == ops[0]);
        assert(ops.push(op).drop_first() =~= ops.drop_first().push(op));
        assert(run_supply(supply, ops.push(op)) == run_supply(
            supply_step(supply, ops[0]),
            ops.drop_first().push(op),
        ));
        lemma_run_supply_push(supply_step(supply, ops[0]), ops.drop_first(), op);
        assert(run_supply(supply, ops) == run_supply(supply_step(supply, ops[0]), ops.drop_first()));
    }
}

/// Operation `k` of the sequence is a burn that succeeds and removes the
/// entire remaining counter.
pub open spec fn exhausts_supply_at(supply: u64, ops: Seq<SupplyOp>, k: int) -> bool {
    ops[k] matches SupplyOp::Burn { balance, amount }
        && burn_supply_outcome(supply_at(supply, ops, k), balance, amount) is Ok
        && amount == supply_at(supply, ops, k)
}

/// While no burn takes out the entire remaining counter, a positive
/// counter stays positive.
proof fn lemma_supply_stays_positive(supply: u64, ops: Seq<SupplyOp>, i: int, j: int)
    requires
        0 <= i <= j <= ops.len(),
        supply_at(supply, ops, i) > 0,
        forall|k: int| i <= k < j ==> !exhausts_supply_at(supply, ops, k),
    ensures
        supply_at(supply, ops, j) > 0,
    decreases j - i,
{
    if j > i {
        lemma_supply_stays_positive(supply, ops, i, j - 1);
        assert(ops.take(j) =~= ops.take(j - 1).push(ops[j - 1]));
        lemma_run_supply_push(supply, ops.take(j - 1), ops[j - 1]);
        assert(!exhausts_supply_at(supply, ops, j - 1));
        assert(supply_at(supply, ops, j) == supply_step(supply_at(supply, ops, j - 1), ops[j - 1]));
    }
}

/// The one-time mint succeeds at most once: once a mint has succeeded at
/// position `i`, a later mint at position `j` is rejected with
/// `AlreadyMinted` and leaves the counter unchanged — provided no burn in
/// between removed the entire remaining supply (a burn of exactly the
/// whole counter would reset it to zero and re-arm the one-time mint).
pub proof fn lemma_mint_at_most_once(ops: Seq<SupplyOp>, i: int, j: int)
    requires
        0 <= i < j < ops.len(),
        ops[i] is Mint,
        supply_at(0, ops, i) == 0,
        ops[j] is Mint,
        forall|k: int| i < k < j ==> !exhausts_supply_at(0, ops, k),
    ensures
        mint_supply_outcome(supply_at(0, ops, j)) == Err::<u64, ErrorCode>(ErrorCode::AlreadyMinted),
        supply_at(0, ops, j + 1) == supply_at(0, ops, j),
{
    assert(ops.take(i + 1) =~= ops.take(i).push(ops[i]));
    lemma_run_supply_push(0, ops.take(i), ops[i]);
    assert(supply_at(0, ops, i + 1) == INITIAL_SUPPLY);
    lemma_supply_stays_positive(0, ops, i + 1, j);
    assert(ops.take(j + 1) =~= ops.take(j).push(ops[j]));
    lemma_run_supply_push(0, ops.take(j), ops[j]);
}

} // verus!
