use vstd::prelude::*;

use crate::contract::{
    burn_step, execute_step, handle_step, instantiate_step, query_step, transfer_step,
};
use crate::error::ErrorView;
use crate::msg::ExecuteMsg;
use crate::response::ResponseView;
use crate::state::{CoinView, StateView};

verus! {

/// Creating an option that would expire at or before the current height fails
/// with `OptionExpired` and persists nothing.
pub proof fn creation_requires_future_expiry(
    rec: Option<StateView>,
    height: u64,
    sender: Seq<char>,
    funds: Seq<CoinView>,
    counter_offer: Seq<CoinView>,
    expires: u64,
)
    requires
        expires <= height,
    ensures
        instantiate_step(rec, height, sender, funds, counter_offer, expires) == (
            rec,
            Err::<ResponseView, ErrorView>(ErrorView::OptionExpired { expired: expires }),
        ),
{
}

/// A successful creation records the creating sender as both creator and owner.
pub proof fn creator_is_first_owner(
    rec: Option<StateView>,
    height: u64,
    sender: Seq<char>,
    funds: Seq<CoinView>,
    counter_offer: Seq<CoinView>,
    expires: u64,
)
    requires
        expires > height,
    ensures
        ({
            let (after, out) = instantiate_step(rec, height, sender, funds, counter_offer, expires);
            &&& out is Ok
            &&& after is Some
            &&& after->Some_0.creator == sender
            &&& after->Some_0.owner == sender
        }),
{
}

/// A transfer sent by anyone but the owner fails with `Unauthorized` and
/// leaves the record, its owner included, as it was.
pub proof fn transfer_by_non_owner_is_refused(
    rec: Option<StateView>,
    sender: Seq<char>,
    recipient: Seq<char>,
    verdict: Result<Seq<char>, Seq<char>>,
)
    requires
        rec is Some,
        sender != rec->Some_0.owner,
    ensures
        transfer_step(rec, sender, recipient, verdict) == (
            rec,
            Err::<ResponseView, ErrorView>(ErrorView::Unauthorized),
        ),
{
}

/// Executing before expiry, by the owner, with exactly the counter offer,
/// removes the record and pays exactly twice: the counter offer to the creator,
/// then the collateral to the owner.
pub proof fn execution_settles_both_sides(
    rec: Option<StateView>,
    height: u64,
    sender: Seq<char>,
    funds: Seq<CoinView>,
)
    requires
        rec is Some,
        sender == rec->Some_0.owner,
        height < rec->Some_0.expires,
        funds == rec->Some_0.counter_offer,
    ensures
        ({
            let s = rec->Some_0;
            let (after, out) = execute_step(rec, height, sender, funds);
            &&& after is None
            &&& out is Ok
            &&& out->Ok_0.sends == seq![(s.creator, s.counter_offer), (s.owner, s.collateral)]
        }),
{
}

/// Funds other than the counter offer never execute the option: the record
/// stays, and for the owner before expiry the error is `CounterOfferMismatch`.
pub proof fn mismatched_funds_do_not_execute(
    rec: Option<StateView>,
    height: u64,
    sender: Seq<char>,
    funds: Seq<CoinView>,
)
    requires
        rec is Some,
        funds != rec->Some_0.counter_offer,
    ensures
        ({
            let s = rec->Some_0;
            let (after, out) = execute_step(rec, height, sender, funds);
            &&& after == rec
            &&& out is Err
            &&& (sender == s.owner && height < s.expires) ==> out == Err::<ResponseView, ErrorView>(
                ErrorView::CounterOfferMismatch { offer: funds, counter_offer: s.counter_offer },
            )
        }),
{
}

/// From its expiry height on, the owner cannot execute the option, whatever
/// funds are attached.
pub proof fn expired_option_cannot_execute(
    rec: Option<StateView>,
    height: u64,
    sender: Seq<char>,
    funds: Seq<CoinView>,
)
    requires
        rec is Some,
        sender == rec->Some_0.owner,
        height >= rec->Some_0.expires,
    ensures
        execute_step(rec, height, sender, funds) == (
            rec,
            Err::<ResponseView, ErrorView>(
                ErrorView::OptionExpired { expired: rec->Some_0.expires },
            ),
        ),
{
}

/// Burning before expiry fails with `OptionNotExpired`; burning with funds
/// attached fails with `FundsSentWithBurn` even after expiry.
pub proof fn burn_refusals(rec: Option<StateView>, height: u64, funds: Seq<CoinView>)
    requires
        rec is Some,
    ensures
        height < rec->Some_0.expires ==> burn_step(rec, height, funds) == (
            rec,
            Err::<ResponseView, ErrorView>(
                ErrorView::OptionNotExpired { expires: rec->Some_0.expires },
            ),
        ),
        height >= rec->Some_0.expires && funds.len() > 0 ==> burn_step(rec, height, funds) == (
            rec,
            Err::<ResponseView, ErrorView>(ErrorView::FundsSentWithBurn),
        ),
{
}

/// From expiry on, a burn with no funds, whoever sends it, removes the record
/// and pays exactly once: the collateral back to the creator.
pub proof fn burn_returns_collateral(
    rec: Option<StateView>,
    height: u64,
    sender: Seq<char>,
    verdict: Result<Seq<char>, Seq<char>>,
)
    requires
        rec is Some,
        height >= rec->Some_0.expires,
    ensures
        ({
            let s = rec->Some_0;
            let (after, out) = handle_step(
                rec,
                height,
                sender,
                Seq::<CoinView>::empty(),
                ExecuteMsg::Burn {  },
                verdict,
            );
            &&& after is None
            &&& out is Ok
            &&& out->Ok_0.sends == seq![(s.creator, s.collateral)]
        }),
{
}

/// Once an execute or a burn has succeeded, the record is gone: every later
/// operation fails with `NotFound` and changes nothing, and so does the query.
pub proof fn settled_option_is_gone(
    rec: Option<StateView>,
    height: u64,
    sender: Seq<char>,
    funds: Seq<CoinView>,
    settling: ExecuteMsg,
    verdict: Result<Seq<char>, Seq<char>>,
    later_height: u64,
    later_sender: Seq<char>,
    later_funds: Seq<CoinView>,
    later: ExecuteMsg,
    later_verdict: Result<Seq<char>, Seq<char>>,
)
    requires
        !(settling is Transfer),
        handle_step(rec, height, sender, funds, settling, verdict).1 is Ok,
    ensures
        ({
            let after = handle_step(rec, height, sender, funds, settling, verdict).0;
            &&& after is None
            &&& handle_step(after, later_height, later_sender, later_funds, later, later_verdict)
                == (after, Err::<ResponseView, ErrorView>(ErrorView::NotFound))
            &&& query_step(after) == Err::<StateView, ErrorView>(ErrorView::NotFound)
        }),
{
}

/// A failed operation leaves the record exactly as it was.
pub proof fn failure_changes_nothing(
    rec: Option<StateView>,
    height: u64,
    sender: Seq<char>,
    funds: Seq<CoinView>,
    msg: ExecuteMsg,
    verdict: Result<Seq<char>, Seq<char>>,
)
    requires
        handle_step(rec, height, sender, funds, msg, verdict).1 is Err,
    ensures
        handle_step(rec, height, sender, funds, msg, verdict).0 == rec,
{
}

} // verus!
