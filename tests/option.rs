use simple_option::contract::OptionContract;
use simple_option::error::ContractError;
use simple_option::msg::{ExecuteMsg, InstantiateMsg, MessageInfo, QueryMsg};
use simple_option::response::Response;
use simple_option::state::{clone_coins, coins_equal, Addr, Coin};

fn addr(s: &str) -> Addr {
    Addr::unchecked(s.to_string())
}

fn coins(list: &[(u128, &str)]) -> Vec<Coin> {
    list.iter().map(|(a, d)| Coin::new(*a, d.to_string())).collect()
}

fn plain(v: &[Coin]) -> Vec<(String, u128)> {
    v.iter().map(|c| (c.denom.clone(), c.amount)).collect()
}

fn info(sender: &str, funds: &[(u128, &str)]) -> MessageInfo {
    MessageInfo { sender: addr(sender), funds: coins(funds) }
}

fn sends(r: &Response) -> Vec<(String, Vec<(String, u128)>)> {
    r.messages.iter().map(|m| (m.to_address.clone(), plain(&m.amount))).collect()
}

fn attrs(r: &Response) -> Vec<(String, String)> {
    r.attributes.iter().map(|a| (a.key.clone(), a.value.clone())).collect()
}

fn created(height: u64) -> OptionContract {
    let mut c = OptionContract { config: None };
    let msg = InstantiateMsg { counter_offer: coins(&[(100, "denomA")]), expires: 500 };
    c.instantiate(height, info("creator", &[(10, "denomB")]), msg).unwrap();
    c
}

fn no_verdict() -> Result<Addr, String> {
    Err("not a transfer".to_string())
}

#[test]
fn create_then_execute_example() {
    let mut c = created(400);
    let r = c
        .execute(450, info("creator", &[(100, "denomA")]), ExecuteMsg::Execute {}, no_verdict())
        .unwrap();
    assert_eq!(
        sends(&r),
        vec![
            ("creator".to_string(), vec![("denomA".to_string(), 100)]),
            ("creator".to_string(), vec![("denomB".to_string(), 10)]),
        ]
    );
    assert_eq!(attrs(&r), vec![("action".to_string(), "execute".to_string())]);
    assert!(c.config.is_none());
}

#[test]
fn create_records_terms() {
    let c = created(400);
    let s = c.query(QueryMsg::Config {}).unwrap();
    assert_eq!(s.creator.id, "creator");
    assert_eq!(s.owner.id, "creator");
    assert_eq!(plain(&s.collateral), vec![("denomB".to_string(), 10)]);
    assert_eq!(plain(&s.counter_offer), vec![("denomA".to_string(), 100)]);
    assert_eq!(s.expires, 500);
}

#[test]
fn create_response_is_empty() {
    let mut c = OptionContract { config: None };
    let msg = InstantiateMsg { counter_offer: coins(&[(1, "x")]), expires: 2 };
    let r = c.instantiate(1, info("a", &[]), msg).unwrap();
    assert!(r.messages.is_empty());
    assert!(r.attributes.is_empty());
}

#[test]
fn create_at_or_before_height_is_expired() {
    for expires in [399u64, 400] {
        let mut c = OptionContract { config: None };
        let msg = InstantiateMsg { counter_offer: coins(&[(100, "denomA")]), expires };
        let r = c.instantiate(400, info("creator", &[(10, "denomB")]), msg);
        assert!(matches!(r, Err(ContractError::OptionExpired { expired }) if expired == expires));
        assert!(c.config.is_none());
    }
}

#[test]
fn transfer_by_owner_changes_owner() {
    let mut c = created(400);
    let r = c
        .execute(
            410,
            info("creator", &[]),
            ExecuteMsg::Transfer { recipient: "bob".to_string() },
            Ok(addr("bob")),
        )
        .unwrap();
    assert!(r.messages.is_empty());
    assert_eq!(
        attrs(&r),
        vec![
            ("action".to_string(), "transfer".to_string()),
            ("owner".to_string(), "bob".to_string()),
        ]
    );
    let s = c.query(QueryMsg::Config {}).unwrap();
    assert_eq!(s.owner.id, "bob");
    assert_eq!(s.creator.id, "creator");
}

#[test]
fn transfer_by_non_owner_is_unauthorized() {
    let mut c = created(400);
    let r = c.execute_transfer(info("mallory", &[]), "mallory".to_string(), Ok(addr("mallory")));
    assert!(matches!(r, Err(ContractError::Unauthorized)));
    assert_eq!(c.query(QueryMsg::Config {}).unwrap().owner.id, "creator");
}

#[test]
fn transfer_to_invalid_address_fails() {
    let mut c = created(400);
    let r = c.execute_transfer(info("creator", &[]), "??".to_string(), Err("bad".to_string()));
    assert!(matches!(r, Err(ContractError::InvalidAddress { msg }) if msg == "bad"));
    assert_eq!(c.query(QueryMsg::Config {}).unwrap().owner.id, "creator");
}

#[test]
fn execute_after_transfer_pays_new_owner() {
    let mut c = created(400);
    c.execute_transfer(info("creator", &[]), "bob".to_string(), Ok(addr("bob"))).unwrap();
    let r = c.execute_execute(499, info("bob", &[(100, "denomA")])).unwrap();
    assert_eq!(
        sends(&r),
        vec![
            ("creator".to_string(), vec![("denomA".to_string(), 100)]),
            ("bob".to_string(), vec![("denomB".to_string(), 10)]),
        ]
    );
    assert!(c.config.is_none());
}

#[test]
fn execute_by_non_owner_is_unauthorized() {
    let mut c = created(400);
    let r = c.execute_execute(450, info("bob", &[(100, "denomA")]));
    assert!(matches!(r, Err(ContractError::Unauthorized)));
    assert!(c.config.is_some());
}

#[test]
fn execute_with_wrong_funds_is_mismatch() {
    let mut c = created(400);
    let cases: Vec<Vec<(u128, &str)>> = vec![
        vec![],
        vec![(99, "denomA")],
        vec![(100, "denomB")],
        vec![(100, "denomA"), (1, "denomC")],
    ];
    for funds in cases {
        let r = c.execute_execute(450, info("creator", &funds));
        match r {
            Err(ContractError::CounterOfferMismatch { offer, counter_offer }) => {
                assert_eq!(plain(&offer), plain(&coins(&funds)));
                assert_eq!(plain(&counter_offer), vec![("denomA".to_string(), 100)]);
            }
            _ => panic!("expected a counter offer mismatch"),
        }
        assert!(c.config.is_some());
    }
}

#[test]
fn execute_compares_funds_in_order() {
    let mut c = OptionContract { config: None };
    let msg = InstantiateMsg { counter_offer: coins(&[(1, "a"), (2, "b")]), expires: 10 };
    c.instantiate(0, info("o", &[]), msg).unwrap();
    let r = c.execute_execute(5, info("o", &[(2, "b"), (1, "a")]));
    assert!(matches!(r, Err(ContractError::CounterOfferMismatch { .. })));
    assert!(c.execute_execute(5, info("o", &[(1, "a"), (2, "b")])).is_ok());
}

#[test]
fn execute_at_or_after_expiry_is_expired() {
    for height in [500u64, 501] {
        let mut c = created(400);
        let r = c.execute_execute(height, info("creator", &[(100, "denomA")]));
        assert!(matches!(r, Err(ContractError::OptionExpired { expired: 500 })));
        assert!(c.config.is_some());
    }
}

#[test]
fn burn_before_expiry_is_not_expired() {
    let mut c = created(400);
    let r = c.execute_burn(499, info("anyone", &[]));
    assert!(matches!(r, Err(ContractError::OptionNotExpired { expires: 500 })));
    let r = c.execute_burn(499, info("anyone", &[(1, "x")]));
    assert!(matches!(r, Err(ContractError::OptionNotExpired { expires: 500 })));
    assert!(c.config.is_some());
}

#[test]
fn burn_with_funds_is_refused() {
    let mut c = created(400);
    let r = c.execute_burn(600, info("anyone", &[(1, "denomB")]));
    assert!(matches!(r, Err(ContractError::FundsSentWithBurn)));
    assert!(c.config.is_some());
}

#[test]
fn burn_after_expiry_returns_collateral() {
    let mut c = created(400);
    let r = c.execute(500, info("stranger", &[]), ExecuteMsg::Burn {}, no_verdict()).unwrap();
    assert_eq!(
        sends(&r),
        vec![("creator".to_string(), vec![("denomB".to_string(), 10)])]
    );
    assert_eq!(attrs(&r), vec![("action".to_string(), "burn".to_string())]);
    assert!(c.config.is_none());
}

#[test]
fn settled_option_refuses_everything() {
    let mut settled_by_execute = created(400);
    settled_by_execute.execute_execute(450, info("creator", &[(100, "denomA")])).unwrap();
    let mut settled_by_burn = created(400);
    settled_by_burn.execute_burn(500, info("x", &[])).unwrap();
    for c in [&mut settled_by_execute, &mut settled_by_burn] {
        let r = c.execute_execute(450, info("creator", &[(100, "denomA")]));
        assert!(matches!(r, Err(ContractError::NotFound)));
        let r = c.execute_burn(600, info("creator", &[]));
        assert!(matches!(r, Err(ContractError::NotFound)));
        let r = c.execute_transfer(info("creator", &[]), "bob".to_string(), Ok(addr("bob")));
        assert!(matches!(r, Err(ContractError::NotFound)));
        assert!(matches!(c.query(QueryMsg::Config {}), Err(ContractError::NotFound)));
        assert!(c.config.is_none());
    }
}

#[test]
fn coin_lists_compare_by_position() {
    assert!(coins_equal(&coins(&[]), &coins(&[])));
    assert!(coins_equal(&coins(&[(5, "a")]), &coins(&[(5, "a")])));
    assert!(!coins_equal(&coins(&[(5, "a")]), &coins(&[(6, "a")])));
    assert!(!coins_equal(&coins(&[(5, "a")]), &coins(&[(5, "b")])));
    assert!(!coins_equal(&coins(&[(5, "a")]), &coins(&[])));
    assert!(!coins_equal(&coins(&[(1, "a"), (2, "b")]), &coins(&[(2, "b"), (1, "a")])));
}

#[test]
fn cloned_coins_are_equal() {
    let v = coins(&[(1, "a"), (u128::MAX, "b")]);
    let w = clone_coins(&v);
    assert_eq!(plain(&w), plain(&v));
    assert!(clone_coins(&coins(&[])).is_empty());
}

#[test]
fn addresses_compare_by_identifier() {
    assert!(addr("a").same_as(&addr("a")));
    assert!(!addr("a").same_as(&addr("b")));
    assert_eq!(addr("abc").duplicate().into_string(), "abc");
}
