use vstd::prelude::*;

verus! {

/// The top-up owed to bring a storage account up to its required minimum
/// reserve: the shortfall when the current balance is below the minimum,
/// and zero when the balance already suffices. The caller reads both
/// balances from the ledger and performs the transfer.
pub fn reserve_top_up(minimum_balance: u64, current_balance: u64) -> (r: u64)
    ensures
        r == (if minimum_balance > current_balance {
            (minimum_balance - current_balance) as u64
        } else {
            0u64
        }),
{
    if minimum_balance > current_balance {
        minimum_balance - current_balance
    } else {
        0
    }
}

} // verus!
