use vstd::prelude::*;

verus! {

/// The token accounts between which an instruction moves tokens.
#[derive(Debug, Clone, Copy, PartialEq, Eq, Structural)]
pub enum TokenAccountRole {
    /// The user's account of the pool's token.
    UserToken,
    /// The pool's account of the pool's token.
    PoolToken,
    /// The trader's account of the pool's token.
    Trader,
    /// The account that collects withdrawal fees.
    FeeReceiver,
    /// The user's account of the staked NFT.
    UserNft,
    /// The pool's account of the staked NFT.
    PoolNft,
}

/// Who signs a transfer: the user, or the pool through its derived address.
#[derive(Debug, Clone, Copy, PartialEq, Eq, Structural)]
pub enum TransferAuthority {
    Owner,
    Pool,
}

/// One token transfer that an instruction orders.
#[derive(Debug, Clone, Copy, PartialEq, Eq, Structural)]
pub struct TokenTransfer {
    pub from: TokenAccountRole,
    pub to: TokenAccountRole,
    pub authority: TransferAuthority,
    pub amount: u64,
}

/// The transfer of `amount` from `from` to `to`, signed by `authority`.
pub open spec fn transfer(
    from: TokenAccountRole,
    to: TokenAccountRole,
    authority: TransferAuthority,
    amount: int,
) -> TokenTransfer {
    TokenTransfer { from, to, authority, amount: amount as u64 }
}

/// The reward payment of `amount` from the pool to the user.
pub open spec fn reward_payment(amount: int) -> TokenTransfer {
    transfer(TokenAccountRole::PoolToken, TokenAccountRole::UserToken, TransferAuthority::Pool, amount)
}

/// The return of the staked NFT from the pool to the user.
pub open spec fn nft_return() -> TokenTransfer {
    transfer(TokenAccountRole::PoolNft, TokenAccountRole::UserNft, TransferAuthority::Pool, 1)
}

} // verus!
