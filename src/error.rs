use vstd::prelude::*;

use crate::state::{coins_view, Coin, CoinView};

verus! {

/// Why an operation failed.
pub enum ErrorView {
    NotFound,
    InvalidAddress { msg: Seq<char> },
    Unauthorized,
    OptionExpired { expired: u64 },
    OptionNotExpired { expires: u64 },
    CounterOfferMismatch { offer: Seq<CoinView>, counter_offer: Seq<CoinView> },
    FundsSentWithBurn,
}

/// The failures of the option's operations. A failed operation changes nothing.
#[derive(Clone, Debug, PartialEq, Eq)]
pub enum ContractError {
    /// There is no option record.
    NotFound,
    /// The host's validator refused an account identifier, with its message.
    InvalidAddress { msg: String },
    /// The sender is not the option's owner.
    Unauthorized,
    /// The option has expired, or would already be expired at creation.
    OptionExpired { expired: u64 },
    /// The option cannot be burned before it expires.
    OptionNotExpired { expires: u64 },
    /// The attached funds are not the counter offer.
    CounterOfferMismatch { offer: Vec<Coin>, counter_offer: Vec<Coin> },
    /// Burning takes no funds.
    FundsSentWithBurn,
}

impl View for ContractError {
    type V = ErrorView;

    open spec fn view(&self) -> ErrorView {
        match self {
            ContractError::NotFound => ErrorView::NotFound,
            ContractError::InvalidAddress { msg } => ErrorView::InvalidAddress { msg: msg@ },
            ContractError::Unauthorized => ErrorView::Unauthorized,
            ContractError::OptionExpired { expired } => ErrorView::OptionExpired { expired: *expired },
            ContractError::OptionNotExpired { expires } => ErrorView::OptionNotExpired {
                expires: *expires,
            },
            ContractError::CounterOfferMismatch { offer, counter_offer } =>
                ErrorView::CounterOfferMismatch {
                    offer: coins_view(offer@),
                    counter_offer: coins_view(counter_offer@),
                },
            ContractError::FundsSentWithBurn => ErrorView::FundsSentWithBurn,
        }
    }
}

} // verus!
