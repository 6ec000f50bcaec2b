//! What an instruction has the ledger do, and what that moves.
use vstd::prelude::*;

use crate::pubkey::Pubkey;

verus! {

/// A movement of tokens between two token accounts.
#[derive(Clone, Copy, Debug, PartialEq, Eq)]
pub struct Transfer {
    pub from: Pubkey,
    pub to: Pubkey,
    /// The owner of `from`, who has to have signed.
    pub authority: Pubkey,
    pub amount: u64,
}

/// The closing of an empty token account, whose rent goes to `destination`.
#[derive(Clone, Copy, Debug, PartialEq, Eq)]
pub struct CloseAccount {
    pub account: Pubkey,
    pub destination: Pubkey,
    pub authority: Pubkey,
}

/// One step that the ledger performs for an instruction. The steps of an
/// instruction are performed in order, and all of them or none.
#[derive(Clone, Copy, Debug, PartialEq, Eq)]
pub enum Action {
    /// Create an account of `space` bytes that the program `owner` owns.
    CreateAccount { address: Pubkey, payer: Pubkey, space: u64, owner: Pubkey },
    /// Create a token account of `mint` whose tokens `authority` disposes of.
    CreateTokenAccount { address: Pubkey, payer: Pubkey, mint: Pubkey, authority: Pubkey },
    /// A transfer that a wallet signed for.
    Transfer(Transfer),
    /// A transfer that the deal's own address signs for.
    SignedTransfer(Transfer),
    /// A closing that the deal's own address signs for.
    SignedClose(CloseAccount),
}

impl Action {
    /// The tokens that the step takes out of an account.
    pub open spec fn takes(self, account: Pubkey) -> int {
        match self {
            Action::Transfer(t) | Action::SignedTransfer(t) => if t.from == account {
                t.amount as int
            } else {
                0
            },
            _ => 0,
        }
    }

    /// The tokens that the step brings into an account.
    pub open spec fn brings(self, account: Pubkey) -> int {
        match self {
            Action::Transfer(t) | Action::SignedTransfer(t) => if t.to == account {
                t.amount as int
            } else {
                0
            },
            _ => 0,
        }
    }
}

/// The tokens that a run of steps takes out of an account.
pub open spec fn outflow(actions: Seq<Action>, account: Pubkey) -> int
    decreases actions.len(),
{
    if actions.len() == 0 {
        0
    } else {
        outflow(actions.drop_last(), account) + actions.last().takes(account)
    }
}

/// The tokens that a run of steps brings into an account.
pub open spec fn inflow(actions: Seq<Action>, account: Pubkey) -> int
    decreases actions.len(),
{
    if actions.len() == 0 {
        0
    } else {
        inflow(actions.drop_last(), account) + actions.last().brings(account)
    }
}

/// The tokens that an account holds after a run of steps, where it held
/// `before`.
pub open spec fn holds_after(actions: Seq<Action>, account: Pubkey, before: int) -> int {
    before + inflow(actions, account) - outflow(actions, account)
}

/// Whether the balances let a run of steps go through: each transfer is covered
/// when its turn comes, and each account that is closed is empty by then.
pub open spec fn goes_through(actions: Seq<Action>, balances: spec_fn(Pubkey) -> int) -> bool {
    forall|i: int|
        0 <= i < actions.len() ==> match #[trigger] actions[i] {
            Action::Transfer(t) | Action::SignedTransfer(t) => t.amount <= holds_after(
                actions.take(i),
                t.from,
                balances(t.from),
            ),
            Action::SignedClose(c) => holds_after(
                actions.take(i),
                c.account,
                balances(c.account),
            ) == 0,
            _ => true,
        }
}

/// The flows of the steps before one and of that one are within those of the
/// whole run.
pub proof fn lemma_flow_of_prefix(actions: Seq<Action>, i: int, account: Pubkey)
    requires
        0 <= i < actions.len(),
    ensures
        0 <= outflow(actions.take(i), account),
        outflow(actions.take(i), account) + actions[i].takes(account) <= outflow(actions, account),
        0 <= inflow(actions.take(i), account),
        inflow(actions.take(i), account) + actions[i].brings(account) <= inflow(actions, account),
    decreases actions.len(),
{
    let fewer = actions.drop_last();
    if i < fewer.len() {
        lemma_flow_of_prefix(fewer, i, account);
        assert(fewer.take(i) =~= actions.take(i));
    } else {
        assert(fewer =~= actions.take(i));
        if i > 0 {
            lemma_flow_of_prefix(fewer, i - 1, account);
        }
    }
}

/// Whether an account exists after a run of steps, given whether it did before.
pub open spec fn exists_after(actions: Seq<Action>, account: Pubkey, before: bool) -> bool
    decreases actions.len(),
{
    if actions.len() == 0 {
        before
    } else {
        match actions.last() {
            Action::CreateAccount { address, .. } if address == account => true,
            Action::CreateTokenAccount { address, .. } if address == account => true,
            Action::SignedClose(c) if c.account == account => false,
            _ => exists_after(actions.drop_last(), account, before),
        }
    }
}

/// Whether a run of steps closes an account.
pub open spec fn closes(actions: Seq<Action>, account: Pubkey) -> bool {
    exists|i: int|
        0 <= i < actions.len() && (#[trigger] actions[i] matches Action::SignedClose(c)
            && c.account == account)
}

/// An account that exists stays where no step closes it.
pub proof fn lemma_unclosed_stays(actions: Seq<Action>, account: Pubkey)
    requires
        !closes(actions, account),
    ensures
        exists_after(actions, account, true),
    decreases actions.len(),
{
    if actions.len() > 0 {
        let fewer = actions.drop_last();
        assert(!closes(fewer, account)) by {
            if closes(fewer, account) {
                let i = choose|i: int|
                    0 <= i < fewer.len() && (#[trigger] fewer[i] matches Action::SignedClose(c)
                        && c.account == account);
                assert(actions[i] == fewer[i]);
            }
        }
        lemma_unclosed_stays(fewer, account);
        let last = actions[actions.len() - 1];
        assert(!(last matches Action::SignedClose(c) && c.account == account));
    }
}

/// What exists after two runs of steps exists after the second, given what
/// exists after the first.
pub proof fn lemma_existence_over_concat(
    first: Seq<Action>,
    second: Seq<Action>,
    account: Pubkey,
    before: bool,
)
    ensures
        exists_after(first + second, account, before) == exists_after(
            second,
            account,
            exists_after(first, account, before),
        ),
    decreases second.len(),
{
    if second.len() == 0 {
        assert(first + second =~= first);
    } else {
        lemma_existence_over_concat(first, second.drop_last(), account, before);
        assert((first + second).drop_last() =~= first + second.drop_last());
        assert((first + second).last() == second.last());
    }
}

/// One more step adds what it moves.
pub proof fn lemma_flow_of_push(actions: Seq<Action>, action: Action, account: Pubkey)
    ensures
        outflow(actions.push(action), account) == outflow(actions, account) + action.takes(account),
        inflow(actions.push(action), account) == inflow(actions, account) + action.brings(account),
{
    assert(actions.push(action).drop_last() =~= actions);
}

/// Two runs of steps move the sum of what each moves.
pub proof fn lemma_flow_of_concat(first: Seq<Action>, second: Seq<Action>, account: Pubkey)
    ensures
        outflow(first + second, account) == outflow(first, account) + outflow(second, account),
        inflow(first + second, account) == inflow(first, account) + inflow(second, account),
    decreases second.len(),
{
    if second.len() == 0 {
        assert(first + second =~= first);
    } else {
        lemma_flow_of_concat(first, second.drop_last(), account);
        lemma_flow_of_push(first + second.drop_last(), second.last(), account);
        assert(first + second =~= (first + second.drop_last()).push(second.last()));
    }
}

} // verus!
