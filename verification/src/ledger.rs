//! Movements of funds between the parties of a trade, and what each party
//! gains or loses by them.

use vstd::prelude::*;
use crate::identity::Identity;

verus! {

/// Who can hold funds in a trade.
#[derive(Clone, Copy, Debug, PartialEq, Eq, Structural)]
pub enum Party {
    Seller,
    Buyer,
    FeeRecipient,
    Arbitrator,
    /// The custody of the order.
    Order,
    /// The custody of the seller's registry: the pooled balance.
    Registry,
}

/// By what right a movement of funds is made.
#[derive(Clone, Copy, Debug, PartialEq, Eq, Structural)]
pub enum Authority {
    /// The program debits and credits the two balances itself.
    Program,
    /// The host's transfer, under the personal signature of a party.
    Personal(Party),
    /// Out of the pool, under the registry's derived authority.
    Registry,
    /// The host's transfer, under the order's derived authority; the value is
    /// the bump seed of the order's address.
    Order(u8),
}

/// One movement of funds. An all-zero `token` stands for the native currency.
#[derive(Clone, Copy, Debug, PartialEq, Eq)]
pub struct Transfer {
    pub from: Party,
    pub to: Party,
    pub amount: u64,
    pub token: Identity,
    pub authority: Authority,
}

/// One step the host is asked to take, in order.
#[derive(Clone, Copy, Debug, PartialEq, Eq)]
pub enum Action {
    /// Create the token holding of a party unless it is there.
    OpenHolding(Party),
    /// Move funds.
    Move(Transfer),
}

/// Debits one balance and credits another by the same amount. `None` where
/// the first holds less than the amount or the second cannot take it; the two
/// balances then stay as they are.
pub fn move_balance(from: u64, to: u64, amount: u64) -> (r: Option<(u64, u64)>)
    ensures
        r is Some <==> amount <= from && to + amount <= u64::MAX,
        r is Some ==> r.unwrap().0 == from - amount && r.unwrap().1 == to + amount,
{
    if amount > from || amount > u64::MAX - to {
        None
    } else {
        Some((from - amount, to + amount))
    }
}

/// What `party` gains of the asset `token` by one action; negative for a loss.
pub open spec fn gain(action: Action, party: Party, token: Identity) -> int {
    match action {
        Action::OpenHolding(_) => 0,
        Action::Move(t) => if t.token == token {
            (if t.to == party { t.amount as int } else { 0 })
                - (if t.from == party { t.amount as int } else { 0 })
        } else {
            0
        },
    }
}

/// What `party` gains of the asset `token` by a sequence of actions.
pub open spec fn net_gain(actions: Seq<Action>, party: Party, token: Identity) -> int
    decreases actions.len(),
{
    if actions.len() == 0 {
        0
    } else {
        net_gain(actions.drop_last(), party, token) + gain(actions.last(), party, token)
    }
}

/// What the five holders of a trade's funds gain together: order custody,
/// buyer, seller, fee recipient and registry pool.
pub open spec fn trade_gain(actions: Seq<Action>, token: Identity) -> int {
    net_gain(actions, Party::Order, token) + net_gain(actions, Party::Buyer, token)
        + net_gain(actions, Party::Seller, token) + net_gain(actions, Party::FeeRecipient, token)
        + net_gain(actions, Party::Registry, token)
}

/// What each party holds of each asset.
pub type Balances = spec_fn(Party, Identity) -> int;

/// The balances once the host has carried one action out: a movement debits
/// the sender and credits the receiver by its amount, in its asset; opening a
/// holding moves nothing.
pub open spec fn carried_out(held: Balances, action: Action) -> Balances {
    match action {
        Action::OpenHolding(_) => held,
        Action::Move(t) => |party: Party, token: Identity|
            {
                let debited = if party == t.from && token == t.token {
                    held(party, token) - t.amount
                } else {
                    held(party, token)
                };
                if party == t.to && token == t.token {
                    debited + t.amount
                } else {
                    debited
                }
            },
    }
}

/// The balances once the host has carried a sequence of actions out, in
/// order.
pub open spec fn balances_after(held: Balances, actions: Seq<Action>) -> Balances
    decreases actions.len(),
{
    if actions.len() == 0 {
        held
    } else {
        carried_out(balances_after(held, actions.drop_last()), actions.last())
    }
}

/// The funds of a trade in one asset: what order custody, buyer, seller, fee
/// recipient and registry pool hold together.
pub open spec fn trade_funds(held: Balances, token: Identity) -> int {
    held(Party::Order, token) + held(Party::Buyer, token) + held(Party::Seller, token) + held(
        Party::FeeRecipient,
        token,
    ) + held(Party::Registry, token)
}

/// A party holds afterwards what it held before and what the actions brought
/// it.
pub proof fn lemma_balance_after(held: Balances, actions: Seq<Action>, party: Party, token: Identity)
    ensures
        balances_after(held, actions)(party, token) == held(party, token) + net_gain(
            actions,
            party,
            token,
        ),
    decreases actions.len(),
{
    if actions.len() > 0 {
        lemma_balance_after(held, actions.drop_last(), party, token);
    }
}

/// Actions that leave one party out neither pay nor draw on it.
pub proof fn lemma_untouched_party(actions: Seq<Action>, party: Party, token: Identity)
    requires
        forall|i: int| 0 <= i < actions.len() ==> gain(#[trigger] actions[i], party, token) == 0,
    ensures
        net_gain(actions, party, token) == 0,
    decreases actions.len(),
{
    if actions.len() > 0 {
        lemma_untouched_party(actions.drop_last(), party, token);
    }
}

/// Where only the last action touches a party, the party gains what that
/// action brings it.
pub proof fn lemma_only_last_counts(actions: Seq<Action>, party: Party, token: Identity)
    requires
        actions.len() > 0,
        forall|i: int| 0 <= i < actions.len() - 1 ==> gain(#[trigger] actions[i], party, token) == 0,
    ensures
        net_gain(actions, party, token) == gain(actions.last(), party, token),
{
    lemma_untouched_party(actions.drop_last(), party, token);
}

/// What three actions in a row bring a party.
pub proof fn lemma_net_gain_of_three(a: Action, b: Action, c: Action, party: Party, token: Identity)
    ensures
        net_gain(seq![a, b, c], party, token) == gain(a, party, token) + gain(b, party, token)
            + gain(c, party, token),
{
    let s = seq![a, b, c];
    assert(s.drop_last() =~= seq![a, b]);
    assert(s.drop_last().drop_last() =~= seq![a]);
    assert(s.drop_last().drop_last().drop_last() =~= Seq::<Action>::empty());
    reveal_with_fuel(net_gain, 4);
}

/// Funds are neither made nor lost: whatever the actions, the gains of the
/// five holders of a trade's funds and of the arbitrator add up to nothing.
pub proof fn lemma_funds_conserved(actions: Seq<Action>, token: Identity)
    ensures
        trade_gain(actions, token) + net_gain(actions, Party::Arbitrator, token) == 0,
    decreases actions.len(),
{
    if actions.len() > 0 {
        lemma_funds_conserved(actions.drop_last(), token);
    }
}

/// The funds of a trade change by what the arbitrator is paid, and by nothing
/// else.
pub proof fn lemma_trade_funds_after(held: Balances, actions: Seq<Action>, token: Identity)
    ensures
        trade_funds(balances_after(held, actions), token) == trade_funds(held, token) - net_gain(
            actions,
            Party::Arbitrator,
            token,
        ),
{
    lemma_funds_conserved(actions, token);
    lemma_balance_after(held, actions, Party::Order, token);
    lemma_balance_after(held, actions, Party::Buyer, token);
    lemma_balance_after(held, actions, Party::Seller, token);
    lemma_balance_after(held, actions, Party::FeeRecipient, token);
    lemma_balance_after(held, actions, Party::Registry, token);
}

/// Actions that leave the arbitrator out leave the funds of a trade as they
/// were.
pub proof fn lemma_closed_actions_conserve(held: Balances, actions: Seq<Action>, token: Identity)
    requires
        forall|i: int|
            0 <= i < actions.len() ==> gain(#[trigger] actions[i], Party::Arbitrator, token) == 0,
    ensures
        trade_gain(actions, token) == 0,
        trade_funds(balances_after(held, actions), token) == trade_funds(held, token),
{
    lemma_untouched_party(actions, Party::Arbitrator, token);
    lemma_funds_conserved(actions, token);
    lemma_trade_funds_after(held, actions, token);
}

} // verus!
