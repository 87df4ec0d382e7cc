//! What the token's operations do, told over the ledger as a mathematical
//! map from keys to records.
//!
//! An operation either fails, and then leaves the ledger as it was, or yields
//! the ledger that follows. A key that holds a record of a kind that does not
//! belong under it is read as if it held none.

use super::types::{DataKeyView, RecordView, TokenError, DECIMALS, FULL_PROGRESS};
use vstd::prelude::*;

verus! {

/// The ledger of the token.
pub type Ledger = Map<DataKeyView, RecordView>;

/// The administrator of the token, once it is initialized.
pub open spec fn admin(ledger: Ledger) -> Option<Seq<char>> {
    match ledger.get(DataKeyView::Admin) {
        Some(RecordView::Address(address)) => Some(address),
        _ => None,
    }
}

/// The text filed under `key`, if there is one.
pub open spec fn text(ledger: Ledger, key: DataKeyView) -> Option<Seq<char>> {
    match ledger.get(key) {
        Some(RecordView::Text(text)) => Some(text),
        _ => None,
    }
}

/// What `holder` owns; 0 where nothing was recorded.
pub open spec fn balance_of(ledger: Ledger, holder: Seq<char>) -> i128 {
    match ledger.get(DataKeyView::Balance(holder)) {
        Some(RecordView::Amount(amount)) => amount,
        _ => 0,
    }
}

/// What has been minted in all; 0 where nothing was recorded.
pub open spec fn total_supply(ledger: Ledger) -> i128 {
    match ledger.get(DataKeyView::TotalSupply) {
        Some(RecordView::Amount(amount)) => amount,
        _ => 0,
    }
}

/// Whether `amount` can be held in a record.
pub open spec fn fits(amount: int) -> bool {
    i128::MIN <= amount <= i128::MAX
}

/// Initialization: the ledger that follows.
///
/// A token is initialized once. It then records its administrator, its name
/// and symbol, seven decimals, and a supply of 0.
pub open spec fn initialize(
    ledger: Ledger,
    administrator: Seq<char>,
    name: Seq<char>,
    symbol: Seq<char>,
) -> Result<Ledger, TokenError> {
    if ledger.contains_key(DataKeyView::Admin) {
        Err(TokenError::AlreadyInitialized)
    } else {
        Ok(
            ledger.insert(DataKeyView::Admin, RecordView::Address(administrator)).insert(
                DataKeyView::Name,
                RecordView::Text(name),
            ).insert(DataKeyView::Symbol, RecordView::Text(symbol)).insert(
                DataKeyView::Decimals,
                RecordView::Decimals(DECIMALS),
            ).insert(DataKeyView::TotalSupply, RecordView::Amount(0)),
        )
    }
}

/// The ledger with `amount` newly credited to `holder`, if the balance and
/// the supply can hold it.
pub open spec fn credit(ledger: Ledger, holder: Seq<char>, amount: i128) -> Result<
    Ledger,
    TokenError,
> {
    if !fits(balance_of(ledger, holder) + amount) || !fits(total_supply(ledger) + amount) {
        Err(TokenError::Overflow)
    } else {
        Ok(
            ledger.insert(
                DataKeyView::Balance(holder),
                RecordView::Amount((balance_of(ledger, holder) + amount) as i128),
            ).insert(
                DataKeyView::TotalSupply,
                RecordView::Amount((total_supply(ledger) + amount) as i128),
            ),
        )
    }
}

/// Minting of `amount` to `to`: the ledger that follows.
///
/// Only the administrator mints, and only positive amounts.
pub open spec fn mint(ledger: Ledger, caller: Seq<char>, to: Seq<char>, amount: i128) -> Result<
    Ledger,
    TokenError,
> {
    match admin(ledger) {
        None => Err(TokenError::NotInitialized),
        Some(administrator) => {
            if caller != administrator {
                Err(TokenError::Unauthorized)
            } else if amount <= 0 {
                Err(TokenError::InvalidAmount)
            } else {
                credit(ledger, to, amount)
            }
        },
    }
}

/// A transfer of `amount` from `from` to `to`: the ledger that follows.
///
/// The caller has to be `from`, the amount positive and covered by the
/// balance of `from`. The balance of `to` is read after that of `from` has
/// been lowered, so that a transfer to oneself leaves the balance as it was.
pub open spec fn transfer(
    ledger: Ledger,
    caller: Seq<char>,
    from: Seq<char>,
    to: Seq<char>,
    amount: i128,
) -> Result<Ledger, TokenError> {
    if caller != from {
        Err(TokenError::Unauthorized)
    } else if amount <= 0 {
        Err(TokenError::InvalidAmount)
    } else if balance_of(ledger, from) < amount {
        Err(TokenError::InsufficientBalance)
    } else {
        let debited = ledger.insert(
            DataKeyView::Balance(from),
            RecordView::Amount((balance_of(ledger, from) - amount) as i128),
        );
        if !fits(balance_of(debited, to) + amount) {
            Err(TokenError::Overflow)
        } else {
            Ok(
                debited.insert(
                    DataKeyView::Balance(to),
                    RecordView::Amount((balance_of(debited, to) + amount) as i128),
                ),
            )
        }
    }
}

/// A distribution for `progress` percent to `student`: the ledger that
/// follows and the amount minted.
///
/// Only the administrator distributes. One percent of progress is worth one
/// token; no progress mints nothing.
pub open spec fn distribute(
    ledger: Ledger,
    caller: Seq<char>,
    student: Seq<char>,
    progress: u32,
) -> Result<(Ledger, i128), TokenError> {
    match admin(ledger) {
        None => Err(TokenError::NotInitialized),
        Some(administrator) => {
            if caller != administrator {
                Err(TokenError::Unauthorized)
            } else if progress > FULL_PROGRESS {
                Err(TokenError::InvalidProgress)
            } else if progress == 0 {
                Ok((ledger, 0))
            } else {
                match credit(ledger, student, progress as i128) {
                    Ok(after) => Ok((after, progress as i128)),
                    Err(error) => Err(error),
                }
            }
        },
    }
}

} // verus!
