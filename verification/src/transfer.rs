use vstd::prelude::*;

verus! {

/// One movement of funds on the ledger, from one account address to another.
///
/// The engine only ever decides transfers; the surrounding runtime performs
/// them. An operation's transfers are returned in the order they must be
/// executed, and the whole operation is atomic: either every transfer is
/// performed or none is.
#[derive(Clone, Copy, Debug, PartialEq, Eq, Structural)]
pub struct Transfer {
    pub from: u64,
    pub to: u64,
    pub lamports: u64,
}

/// One movement of asset units of a given mint between holdings.
#[derive(Clone, Copy, Debug, PartialEq, Eq, Structural)]
pub struct AssetTransfer {
    pub mint: u64,
    pub from: u64,
    pub to: u64,
    pub amount: u64,
}

/// The ledger after performing `t` on `balances`: the source is debited and
/// the destination credited by the same amount.
pub open spec fn apply_transfer(balances: Map<u64, int>, t: Transfer) -> Map<u64, int> {
    let debited = balances.insert(t.from, balances[t.from] - t.lamports);
    debited.insert(t.to, debited[t.to] + t.lamports)
}

/// The ledger after performing `ts` in order on `balances`.
pub open spec fn apply_transfers(balances: Map<u64, int>, ts: Seq<Transfer>) -> Map<u64, int>
    decreases ts.len(),
{
    if ts.len() == 0 {
        balances
    } else {
        apply_transfers(apply_transfer(balances, ts[0]), ts.drop_first())
    }
}

} // verus!
