use vstd::prelude::*;

use crate::error::{ContractError, ErrorView};
use crate::msg::{ExecuteMsg, InstantiateMsg, MessageInfo, QueryMsg};
use crate::response::{Response, ResponseView};
use crate::state::{coins_equal, clone_coins, coins_view, Addr, CoinView, State, StateView};

verus! {

/// What an operation yields: the host's instructions, or why it failed.
pub type Outcome = Result<ResponseView, ErrorView>;

pub open spec fn outcome_view(r: Result<Response, ContractError>) -> Outcome {
    match r {
        Ok(resp) => Ok(resp@),
        Err(e) => Err(e@),
    }
}

/// The host validator's verdict on an account identifier: the identifier, or
/// its message.
pub open spec fn verdict_view(v: Result<Addr, String>) -> Result<Seq<char>, Seq<char>> {
    match v {
        Ok(a) => Ok(a@),
        Err(m) => Err(m@),
    }
}

/// Creation: the sender's funds become the collateral, and the sender both
/// creator and owner, provided the option expires after the current height.
pub open spec fn instantiate_step(
    rec: Option<StateView>,
    height: u64,
    sender: Seq<char>,
    funds: Seq<CoinView>,
    counter_offer: Seq<CoinView>,
    expires: u64,
) -> (Option<StateView>, Outcome) {
    if expires <= height {
        (rec, Err(ErrorView::OptionExpired { expired: expires }))
    } else {
        (
            Some(
                StateView {
                    creator: sender,
                    owner: sender,
                    collateral: funds,
                    counter_offer,
                    expires,
                },
            ),
            Ok(ResponseView { sends: seq![], attributes: seq![] }),
        )
    }
}

/// Transfer: the owner, and only the owner, names a new owner.
pub open spec fn transfer_step(
    rec: Option<StateView>,
    sender: Seq<char>,
    recipient: Seq<char>,
    verdict: Result<Seq<char>, Seq<char>>,
) -> (Option<StateView>, Outcome) {
    match rec {
        None => (rec, Err(ErrorView::NotFound)),
        Some(s) => if sender != s.owner {
            (rec, Err(ErrorView::Unauthorized))
        } else {
            match verdict {
                Err(m) => (rec, Err(ErrorView::InvalidAddress { msg: m })),
                Ok(a) => (
                    Some(
                        StateView {
                            creator: s.creator,
                            owner: a,
                            collateral: s.collateral,
                            counter_offer: s.counter_offer,
                            expires: s.expires,
                        },
                    ),
                    Ok(
                        ResponseView {
                            sends: seq![],
                            attributes: seq![("action"@, "transfer"@), ("owner"@, recipient)],
                        },
                    ),
                ),
            }
        },
    }
}

/// Execution: the owner pays exactly the counter offer before expiry; the
/// creator is paid the counter offer, the owner the collateral, and the record
/// is gone.
pub open spec fn execute_step(
    rec: Option<StateView>,
    height: u64,
    sender: Seq<char>,
    funds: Seq<CoinView>,
) -> (Option<StateView>, Outcome) {
    match rec {
        None => (rec, Err(ErrorView::NotFound)),
        Some(s) => if sender != s.owner {
            (rec, Err(ErrorView::Unauthorized))
        } else if height >= s.expires {
            (rec, Err(ErrorView::OptionExpired { expired: s.expires }))
        } else if funds != s.counter_offer {
            (
                rec,
                Err(ErrorView::CounterOfferMismatch { offer: funds, counter_offer: s.counter_offer }),
            )
        } else {
            (
                None,
                Ok(
                    ResponseView {
                        sends: seq![(s.creator, s.counter_offer), (s.owner, s.collateral)],
                        attributes: seq![("action"@, "execute"@)],
                    },
                ),
            )
        },
    }
}

/// Burn: from expiry on, anyone sending no funds returns the collateral to
/// the creator, and the record is gone.
pub open spec fn burn_step(rec: Option<StateView>, height: u64, funds: Seq<CoinView>) -> (
    Option<StateView>,
    Outcome,
) {
    match rec {
        None => (rec, Err(ErrorView::NotFound)),
        Some(s) => if height < s.expires {
            (rec, Err(ErrorView::OptionNotExpired { expires: s.expires }))
        } else if funds.len() > 0 {
            (rec, Err(ErrorView::FundsSentWithBurn))
        } else {
            (
                None,
                Ok(
                    ResponseView {
                        sends: seq![(s.creator, s.collateral)],
                        attributes: seq![("action"@, "burn"@)],
                    },
                ),
            )
        },
    }
}

/// One operation on a live option, chosen by the message.
pub open spec fn handle_step(
    rec: Option<StateView>,
    height: u64,
    sender: Seq<char>,
    funds: Seq<CoinView>,
    msg: ExecuteMsg,
    verdict: Result<Seq<char>, Seq<char>>,
) -> (Option<StateView>, Outcome) {
    match msg {
        ExecuteMsg::Transfer { recipient } => transfer_step(rec, sender, recipient@, verdict),
        ExecuteMsg::Execute {  } => execute_step(rec, height, sender, funds),
        ExecuteMsg::Burn {  } => burn_step(rec, height, funds),
    }
}

/// The query: the record as it stands.
pub open spec fn query_step(rec: Option<StateView>) -> Result<StateView, ErrorView> {
    match rec {
        None => Err(ErrorView::NotFound),
        Some(s) => Ok(s),
    }
}

/// The contract instance: its single slot, empty when no option is live.
pub struct OptionContract {
    pub config: Option<State>,
}

impl OptionContract {
    pub open spec fn record(&self) -> Option<StateView> {
        match self.config {
            Some(s) => Some(s@),
            None => None,
        }
    }

    /// Creates the option at `height`, with the sender's funds as collateral.
    pub fn instantiate(&mut self, height: u64, info: MessageInfo, msg: InstantiateMsg) -> (r:
        Result<Response, ContractError>)
        ensures
            (final(self).record(), outcome_view(r)) == instantiate_step(
                old(self).record(),
                height,
                info.sender@,
                coins_view(info.funds@),
                coins_view(msg.counter_offer@),
                msg.expires,
            ),
    {
        if msg.expires <= height {
            return Err(ContractError::OptionExpired { expired: msg.expires });
        }
        let creator = info.sender.duplicate();
        self.config = Some(
            State {
                creator,
                owner: info.sender,
                collateral: info.funds,
                counter_offer: msg.counter_offer,
                expires: msg.expires,
            },
        );
        Ok(Response::new())
    }

    /// Runs the operation that `msg` names. `verdict` is the host validator's
    /// answer on the recipient of a transfer; the other operations ignore it.
    pub fn execute(
        &mut self,
        height: u64,
        info: MessageInfo,
        msg: ExecuteMsg,
        verdict: Result<Addr, String>,
    ) -> (r: Result<Response, ContractError>)
        ensures
            (final(self).record(), outcome_view(r)) == handle_step(
                old(self).record(),
                height,
                info.sender@,
                coins_view(info.funds@),
                msg,
                verdict_view(verdict),
            ),
    {
        match msg {
            ExecuteMsg::Transfer { recipient } => self.execute_transfer(info, recipient, verdict),
            ExecuteMsg::Execute {  } => self.execute_execute(height, info),
            ExecuteMsg::Burn {  } => self.execute_burn(height, info),
        }
    }

    /// Hands the right to execute to the validated `recipient`.
    pub fn execute_transfer(
        &mut self,
        info: MessageInfo,
        recipient: String,
        verdict: Result<Addr, String>,
    ) -> (r: Result<Response, ContractError>)
        ensures
            (final(self).record(), outcome_view(r)) == transfer_step(
                old(self).record(),
                info.sender@,
                recipient@,
                verdict_view(verdict),
            ),
    {
        let by_owner = match &self.config {
            None => {
                return Err(ContractError::NotFound);
            },
            Some(s) => info.sender.same_as(&s.owner),
        };
        if !by_owner {
            return Err(ContractError::Unauthorized);
        }
        let owner = match verdict {
            Ok(a) => a,
            Err(msg) => {
                return Err(ContractError::InvalidAddress { msg });
            },
        };
        let mut s = self.config.take().unwrap();
        s.owner = owner;
        self.config = Some(s);
        let mut res = Response::new();
        res.add_attribute("action", "transfer");
        res.add_attribute("owner", recipient.as_str());
        proof {
            assert(res@.sends =~= seq![]);
            assert(res@.attributes =~= seq![("action"@, "transfer"@), ("owner"@, recipient@)]);
        }
        Ok(res)
    }

    /// Settles the option: takes the counter offer, pays both parties and
    /// removes the record.
    pub fn execute_execute(&mut self, height: u64, info: MessageInfo) -> (r: Result<
        Response,
        ContractError,
    >)
        ensures
            (final(self).record(), outcome_view(r)) == execute_step(
                old(self).record(),
                height,
                info.sender@,
                coins_view(info.funds@),
            ),
    {
        match &self.config {
            None => {
                return Err(ContractError::NotFound);
            },
            Some(s) => {
                if !info.sender.same_as(&s.owner) {
                    return Err(ContractError::Unauthorized);
                }
                if height >= s.expires {
                    return Err(ContractError::OptionExpired { expired: s.expires });
                }
                if !coins_equal(&info.funds, &s.counter_offer) {
                    return Err(
                        ContractError::CounterOfferMismatch {
                            offer: info.funds,
                            counter_offer: clone_coins(&s.counter_offer),
                        },
                    );
                }
            },
        }
        let s = self.config.take().unwrap();
        let mut res = Response::new();
        res.add_message(s.creator.into_string(), s.counter_offer);
        res.add_message(s.owner.into_string(), s.collateral);
        res.add_attribute("action", "execute");
        proof {
            assert(res@.sends =~= seq![
                (s@.creator, s@.counter_offer),
                (s@.owner, s@.collateral),
            ]);
            assert(res@.attributes =~= seq![("action"@, "execute"@)]);
        }
        Ok(res)
    }

    /// Reclaims the collateral for the creator once the option has expired.
    pub fn execute_burn(&mut self, height: u64, info: MessageInfo) -> (r: Result<
        Response,
        ContractError,
    >)
        ensures
            (final(self).record(), outcome_view(r)) == burn_step(
                old(self).record(),
                height,
                coins_view(info.funds@),
            ),
    {
        match &self.config {
            None => {
                return Err(ContractError::NotFound);
            },
            Some(s) => {
                if height < s.expires {
                    return Err(ContractError::OptionNotExpired { expires: s.expires });
                }
            },
        }
        if info.funds.len() != 0 {
            return Err(ContractError::FundsSentWithBurn);
        }
        let s = self.config.take().unwrap();
        let mut res = Response::new();
        res.add_message(s.creator.into_string(), s.collateral);
        res.add_attribute("action", "burn");
        proof {
            assert(res@.sends =~= seq![(s@.creator, s@.collateral)]);
            assert(res@.attributes =~= seq![("action"@, "burn"@)]);
        }
        Ok(res)
    }

    /// Answers a query; it changes nothing.
    pub fn query(&self, msg: QueryMsg) -> (r: Result<&State, ContractError>)
        ensures
            match r {
                Ok(s) => Ok(s@),
                Err(e) => Err(e@),
            } == query_step(self.record()),
    {
        match msg {
            QueryMsg::Config {  } => self.query_config(),
        }
    }

    fn query_config(&self) -> (r: Result<&State, ContractError>)
        ensures
            match r {
                Ok(s) => Ok(s@),
                Err(e) => Err(e@),
            } == query_step(self.record()),
    {
        match &self.config {
            Some(s) => Ok(s),
            None => Err(ContractError::NotFound),
        }
    }
}

} // verus!
