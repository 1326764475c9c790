use vstd::prelude::*;

use crate::address::Address;
use crate::constants::{DEFAULT_MINT_FEE, DEFAULT_PLATFORM_FEE, TOTAL_BASIS_POINTS};
use crate::error::CustomError;

verus! {

/// Global fee configuration and the running total of fees collected.
#[derive(Clone, Copy, Debug)]
pub struct Treasury {
    /// The identity allowed to reconfigure the treasury and withdraw from it.
    pub authority: Address,
    /// Where fees are sent.
    pub treasury_wallet: Address,
    /// The only identity allowed to submit streaming batches.
    pub streaming_provider: Address,
    pub mint_fee: u64,
    pub platform_fee_basis_points: u16,
    /// Fees collected so far, in the currency's smallest unit.
    pub total_revenue_collected: u64,
    pub created_at: i64,
    pub updated_at: i64,
}

/// A transfer of `amount` to `to`, for the caller to carry out.
#[derive(Clone, Copy, Debug, PartialEq, Eq)]
pub struct Transfer {
    pub to: Address,
    pub amount: u64,
}

impl Treasury {
    /// The fee rate is at most 100%.
    pub open spec fn wf(&self) -> bool {
        self.platform_fee_basis_points <= TOTAL_BASIS_POINTS
    }

    /// A fresh treasury: default fees, nothing collected, and the authority as
    /// streaming provider until one is set.
    pub fn initialize(authority: Address, treasury_wallet: Address, now: i64) -> (r: Treasury)
        ensures
            r.wf(),
            r.authority == authority,
            r.treasury_wallet == treasury_wallet,
            r.streaming_provider == authority,
            r.mint_fee == DEFAULT_MINT_FEE,
            r.platform_fee_basis_points == DEFAULT_PLATFORM_FEE,
            r.total_revenue_collected == 0,
            r.created_at == now,
            r.updated_at == now,
    {
        Treasury {
            authority,
            treasury_wallet,
            streaming_provider: authority,
            mint_fee: DEFAULT_MINT_FEE,
            platform_fee_basis_points: DEFAULT_PLATFORM_FEE,
            total_revenue_collected: 0,
            created_at: now,
            updated_at: now,
        }
    }

    /// Changes the fees and the wallet that are given. Only the authority may do
    /// so, and the fee rate may not exceed 100%; on failure nothing changes.
    pub fn update_treasury_config(
        &mut self,
        caller: Address,
        mint_fee: Option<u64>,
        platform_fee_basis_points: Option<u16>,
        new_treasury_wallet: Option<Address>,
        now: i64,
    ) -> (r: Result<(), CustomError>)
        ensures
            r == (if caller@ != old(self).authority@ {
                Err(CustomError::Unauthorized)
            } else if platform_fee_basis_points is Some && platform_fee_basis_points->0
                > TOTAL_BASIS_POINTS {
                Err(CustomError::InvalidFeePercentage)
            } else {
                Ok(())
            }),
            r is Err ==> *final(self) == *old(self),
            r is Ok ==> *final(self) == (Treasury {
                mint_fee: match mint_fee {
                    Some(f) => f,
                    None => old(self).mint_fee,
                },
                platform_fee_basis_points: match platform_fee_basis_points {
                    Some(f) => f,
                    None => old(self).platform_fee_basis_points,
                },
                treasury_wallet: match new_treasury_wallet {
                    Some(w) => w,
                    None => old(self).treasury_wallet,
                },
                updated_at: now,
                ..*old(self)
            }),
            old(self).wf() ==> final(self).wf(),
    {
        if !caller.same_as(&self.authority) {
            return Err(CustomError::Unauthorized);
        }
        if let Some(fee) = platform_fee_basis_points {
            if fee > TOTAL_BASIS_POINTS {
                return Err(CustomError::InvalidFeePercentage);
            }
            self.platform_fee_basis_points = fee;
        }
        if let Some(fee) = mint_fee {
            self.mint_fee = fee;
        }
        if let Some(wallet) = new_treasury_wallet {
            self.treasury_wallet = wallet;
        }
        self.updated_at = now;
        Ok(())
    }

    /// Names the identity allowed to submit streaming batches. Only the
    /// authority may do so; on failure nothing changes.
    pub fn update_streaming_provider(
        &mut self,
        caller: Address,
        new_streaming_provider: Address,
        now: i64,
    ) -> (r: Result<(), CustomError>)
        ensures
            caller@ != old(self).authority@ <==> r == Err::<(), CustomError>(
                CustomError::Unauthorized,
            ),
            caller@ == old(self).authority@ <==> r is Ok,
            r is Err ==> *final(self) == *old(self),
            r is Ok ==> *final(self) == (Treasury {
                streaming_provider: new_streaming_provider,
                updated_at: now,
                ..*old(self)
            }),
    {
        if !caller.same_as(&self.authority) {
            return Err(CustomError::Unauthorized);
        }
        self.streaming_provider = new_streaming_provider;
        self.updated_at = now;
        Ok(())
    }

    /// Checks a withdrawal of `amount` from an account holding `available`,
    /// to `destination`, asked for by `caller`, and returns the transfer to make.
    /// The checks come in this order: a zero amount, a caller other than the
    /// authority, a destination other than the treasury wallet, and funds short
    /// of the amount.
    pub fn withdraw_treasury_funds(
        &self,
        caller: Address,
        destination: Address,
        available: u64,
        amount: u64,
    ) -> (r: Result<Transfer, CustomError>)
        ensures
            r == (if amount == 0 {
                Err(CustomError::InvalidAmount)
            } else if caller@ != self.authority@ {
                Err(CustomError::Unauthorized)
            } else if destination@ != self.treasury_wallet@ {
                Err(CustomError::InvalidTreasuryWallet)
            } else if available < amount {
                Err(CustomError::InsufficientFunds)
            } else {
                Ok(Transfer { to: self.treasury_wallet, amount })
            }),
    {
        if amount == 0 {
            return Err(CustomError::InvalidAmount);
        }
        if !caller.same_as(&self.authority) {
            return Err(CustomError::Unauthorized);
        }
        if !destination.same_as(&self.treasury_wallet) {
            return Err(CustomError::InvalidTreasuryWallet);
        }
        if available < amount {
            return Err(CustomError::InsufficientFunds);
        }
        Ok(Transfer { to: self.treasury_wallet, amount })
    }
}

} // verus!
