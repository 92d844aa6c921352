use vstd::prelude::*;

use crate::transfer::Transfer;

verus! {

/// What the top-up decision of [`fund_account`] looks at: the paying party,
/// the account to be funded, the balance the allocator demands of it, and
/// the balance it holds now.
pub struct FundAccountArgs {
    /// Address of the party covering the shortfall.
    pub payer: u64,
    /// Address of the account being funded.
    pub account: u64,
    /// The minimum balance the account must hold to stay allocated.
    pub required_rent: u64,
    /// The balance the account holds when the call starts.
    pub current_lamports: u64,
}

/// Decides the top-up that brings an account to its required minimum
/// balance: the exact shortfall when the account is under it, nothing when
/// it already holds enough.
pub fn fund_account(args: FundAccountArgs) -> (t: Option<Transfer>)
    ensures
        args.required_rent > args.current_lamports ==> t == Some(
            Transfer {
                from: args.payer,
                to: args.account,
                lamports: (args.required_rent - args.current_lamports) as u64,
            },
        ),
        args.required_rent <= args.current_lamports ==> t is None,
{
    if args.required_rent > args.current_lamports {
        Some(Transfer {
            from: args.payer,
            to: args.account,
            lamports: args.required_rent - args.current_lamports,
        })
    } else {
        None
    }
}

/// Marker for an allocation that carries no data beyond its existence, such
/// as the vault account: its required minimum balance is that of an empty
/// record.
pub struct NoData;

} // verus!
