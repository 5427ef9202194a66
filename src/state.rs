use vstd::prelude::*;

verus! {

/// An account identifier, in the validated string form the host hands out.
#[derive(Clone, Debug, PartialEq, Eq)]
pub struct Addr {
    pub id: String,
}

impl View for Addr {
    type V = Seq<char>;

    open spec fn view(&self) -> Seq<char> {
        self.id@
    }
}

impl Addr {
    /// Wraps an identifier that the host's validator has accepted.
    pub fn unchecked(id: String) -> (r: Addr)
        ensures
            r@ == id@,
    {
        Addr { id }
    }

    pub fn same_as(&self, other: &Addr) -> (r: bool)
        ensures
            r == (self@ == other@),
    {
        self.id == other.id
    }

    pub fn duplicate(&self) -> (r: Addr)
        ensures
            r@ == self@,
    {
        Addr { id: self.id.clone() }
    }

    pub fn into_string(self) -> (r: String)
        ensures
            r@ == self@,
    {
        self.id
    }
}

/// What a coin is: its denomination and its quantity.
pub type CoinView = (Seq<char>, u128);

/// An amount of one denomination.
#[derive(Clone, Debug, PartialEq, Eq)]
pub struct Coin {
    pub denom: String,
    pub amount: u128,
}

impl View for Coin {
    type V = CoinView;

    open spec fn view(&self) -> CoinView {
        (self.denom@, self.amount)
    }
}

impl Coin {
    pub fn new(amount: u128, denom: String) -> (r: Coin)
        ensures
            r@ == (denom@, amount),
    {
        Coin { denom, amount }
    }

    pub fn duplicate(&self) -> (r: Coin)
        ensures
            r@ == self@,
    {
        Coin { denom: self.denom.clone(), amount: self.amount }
    }
}

/// A list of coins, as the sequence of what each coin is.
pub open spec fn coins_view(s: Seq<Coin>) -> Seq<CoinView> {
    s.map_values(|c: Coin| c@)
}

/// Compares two coin lists position by position: the same denominations with
/// the same quantities, in the same order.
pub fn coins_equal(a: &Vec<Coin>, b: &Vec<Coin>) -> (r: bool)
    ensures
        r == (coins_view(a@) == coins_view(b@)),
{
    if a.len() != b.len() {
        proof {
            assert(coins_view(a@).len() != coins_view(b@).len());
        }
        return false;
    }
    let mut i: usize = 0;
    while i < a.len()
        invariant
            a@.len() == b@.len(),
            i <= a@.len(),
            forall|j: int| 0 <= j < i ==> a@[j]@ == b@[j]@,
        decreases a@.len() - i,
    {
        if a[i].amount != b[i].amount || a[i].denom != b[i].denom {
            proof {
                assert(coins_view(a@)[i as int] != coins_view(b@)[i as int]);
            }
            return false;
        }
        i = i + 1;
    }
    proof {
        assert(coins_view(a@) =~= coins_view(b@));
    }
    true
}

/// A copy of a coin list that holds the same coins in the same order.
pub fn clone_coins(v: &Vec<Coin>) -> (r: Vec<Coin>)
    ensures
        coins_view(r@) == coins_view(v@),
{
    let mut r: Vec<Coin> = Vec::new();
    let mut i: usize = 0;
    while i < v.len()
        invariant
            i <= v@.len(),
            r@.len() == i,
            forall|j: int| 0 <= j < i ==> r@[j]@ == v@[j]@,
        decreases v@.len() - i,
    {
        r.push(v[i].duplicate());
        i = i + 1;
    }
    proof {
        assert(coins_view(r@) =~= coins_view(v@));
    }
    r
}

/// What the option record holds.
pub struct StateView {
    pub creator: Seq<char>,
    pub owner: Seq<char>,
    pub collateral: Seq<CoinView>,
    pub counter_offer: Seq<CoinView>,
    pub expires: u64,
}

/// The option record: the creator's collateral, the holder of the right to
/// execute, the price of executing, and the height from which it has expired.
#[derive(Clone, Debug, PartialEq, Eq)]
pub struct State {
    pub creator: Addr,
    pub owner: Addr,
    pub collateral: Vec<Coin>,
    pub counter_offer: Vec<Coin>,
    pub expires: u64,
}

impl View for State {
    type V = StateView;

    open spec fn view(&self) -> StateView {
        StateView {
            creator: self.creator@,
            owner: self.owner@,
            collateral: coins_view(self.collateral@),
            counter_offer: coins_view(self.counter_offer@),
            expires: self.expires,
        }
    }
}

} // verus!
