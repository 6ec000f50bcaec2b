//! What holds of the escrow as a whole.
use vstd::bytes::{lemma_auto_spec_u64_to_from_le_bytes, spec_u64_to_le_bytes};
use vstd::prelude::*;

use crate::accounts::{Account, AccountInfo, NewAccount, TokenAccount};
use crate::action::{
    closes, exists_after, goes_through, holds_after, inflow, lemma_existence_over_concat,
    lemma_flow_of_concat, lemma_flow_of_prefix, lemma_flow_of_push, lemma_unclosed_stays, outflow,
    Action, CloseAccount,
};
use crate::address::{
    bump_of, bump_search, canonical, collide, config_seeds, escrow_seeds, program_address,
    settlement_addresses, vault_seeds, without_bump, AddressSet,
};
use crate::configure::{
    initialize_config_actions, initialize_config_fault, initialized, update_config_fault, updated, InitializeConfig,
    UpdateConfig,
};
use crate::constants::{BPS_DENOMINATOR, CONFIG_SEED, ESCROW_SEED, VAULT_SEED};
use crate::dispute::{
    open_dispute_fault, resolve_dispute_actions, resolve_dispute_fault, OpenDispute,
    ResolveDispute,
};
use crate::error::{AccountError, EscrowError, ProgramError};
use crate::funding::{
    create_and_fund_actions, create_and_fund_fault, created, creation_addresses, CreateAndFund,
    CreationAddressSet,
};
use crate::lifecycle::{
    all_actions, is_history, may_all_follow, state_after, status_may_become, total_outflow,
    DealStep, Instruction,
};
use crate::payout::{lemma_payout_flows, lemma_refund_flows, lemma_split_flows, payout_actions};
use crate::pubkey::{lemma_pubkey_ext, Pubkey};
use crate::refund::{refund_undelivered_actions, refund_undelivered_fault, RefundUndelivered};
use crate::release::{
    approve_and_release_actions, approve_and_release_fault, release_after_timeout_actions,
    release_after_timeout_fault, tip_actions, ApproveAndRelease, ReleaseAfterTimeout,
};
use crate::shares::{lemma_fee_within_a_tenth, lemma_share_bounds, share};
use crate::state::{Config, Escrow};

verus! {

/// No step changes the terms of a deal: the parties, the amount, the time of
/// creation, the review period and the place stay as they were created.
pub proof fn law_terms_are_fixed(step: DealStep)
    ensures
        step.after().same_terms(step.before()),
{
}

/// The status moves only from funded to delivered or refunded, from delivered
/// to released or disputed, and from disputed to released, refunded or split.
pub proof fn law_status_follows_the_diagram(step: DealStep)
    requires
        step.accepted(),
    ensures
        status_may_become(step.before().status, step.after().status),
{
}

/// What holds of every stored deal holds after every step.
pub proof fn law_valid_deals_stay_valid(step: DealStep)
    requires
        step.accepted(),
        step.before().valid(),
    ensures
        step.after().valid(),
{
}

/// A released, refunded or split deal takes no further step. With the accounts in
/// order, the answer is that its status is wrong.
pub proof fn law_settled_deals_refuse_every_step(step: DealStep)
    requires
        step.before().settled(),
    ensures
        !step.accepted(),
        step.accounts_fault() is None ==> step.fault() == Some(
            ProgramError::Escrow(EscrowError::InvalidStatus),
        ),
{
}

/// A refused step is refused for its accounts where something is wrong with
/// them.
pub proof fn law_accounts_are_checked_first(step: DealStep)
    requires
        step.accounts_fault() is Some,
    ensures
        step.fault() == step.accounts_fault(),
{
}

/// The written accounts of an accepted settlement differ from each other.
proof fn lemma_written_differ(step: DealStep)
    requires
        step.accepted(),
        step.settles(),
    ensures
        ({
            let vault = step.vault()->0.key;
            &&& step.buyer_token() matches Some(b) ==> b.key != vault
            &&& step.seller_token() matches Some(s) ==> s.key != vault
            &&& step is Refund || step.config()->0.data.fee_vault != vault
            &&& step.buyer_token() matches Some(b) ==> {
                &&& step is Refund || step.config()->0.data.fee_vault != b.key
                &&& step.seller_token() matches Some(s) ==> b.key != s.key
            }
            &&& step.seller_token() matches Some(s) ==> step.config()->0.data.fee_vault != s.key
        }),
{
    match step {
        DealStep::Approve { ctx, .. } => {
            let w = ctx.written();
            assert(w.no_duplicates());
            assert(w[1] != w[2] && w[1] != w[3] && w[1] != w[4] && w[2] != w[3] && w[2] != w[4]
                && w[3] != w[4]);
        },
        DealStep::Timeout { ctx, .. } => {
            let w = ctx.written();
            assert(w.no_duplicates());
            assert(w[1] != w[2] && w[1] != w[3] && w[2] != w[3]);
        },
        DealStep::Refund { ctx, .. } => {
            let w = ctx.written();
            assert(w.no_duplicates());
            assert(w[1] != w[2]);
        },
        DealStep::Resolve { ctx, .. } => {
            let w = ctx.written();
            assert(w.no_duplicates());
            assert(w[1] != w[2] && w[1] != w[3] && w[1] != w[4] && w[2] != w[3] && w[2] != w[4]
                && w[3] != w[4]);
        },
        _ => {},
    }
}

/// The vault of an accepted settlement is not the account of the deal.
proof fn lemma_vault_is_not_the_deal(step: DealStep)
    requires
        step.accepted(),
        step.settles(),
    ensures
        step.vault()->0.key != step.account().key,
{
    match step {
        DealStep::Approve { ctx, .. } => {
            let w = ctx.written();
            assert(w[0] != w[1]);
        },
        DealStep::Timeout { ctx, .. } => {
            let w = ctx.written();
            assert(w[0] != w[1]);
        },
        DealStep::Refund { ctx, .. } => {
            let w = ctx.written();
            assert(w[0] != w[1]);
        },
        DealStep::Resolve { ctx, .. } => {
            let w = ctx.written();
            assert(w[0] != w[1]);
        },
        _ => {},
    }
}

/// An approval takes the amount out of the vault and the tip from the buyer.
/// The seller gets the tip in full and the amount less the fee, which does not
/// depend on the tip.
pub proof fn law_approval_pays(ctx: ApproveAndRelease, at: AddressSet, tip_amount: u64)
    requires
        approve_and_release_fault(ctx, at) is None,
    ensures
        ({
            let amount = ctx.escrow.data.amount;
            let fee = share(amount, ctx.config.data.fee_bps);
            let actions = approve_and_release_actions(ctx, tip_amount);
            &&& outflow(actions, ctx.vault.key) == amount
            &&& inflow(actions, ctx.vault.key) == 0
            &&& outflow(actions, ctx.buyer_token.key) == tip_amount
            &&& inflow(actions, ctx.seller_token.key) == amount - fee + tip_amount
            &&& inflow(actions, ctx.fee_vault.key) == fee
        }),
{
    let step = DealStep::Approve { ctx, at, tip_amount };
    lemma_written_differ(step);
    let tip = tip_actions(ctx, tip_amount);
    let actions = approve_and_release_actions(ctx, tip_amount);
    let empty = Seq::<Action>::empty();
    assert forall|account: Pubkey|
        {
            &&& #[trigger] outflow(tip, account) == (if account == ctx.buyer_token.key {
                tip_amount as int
            } else {
                0
            })
            &&& inflow(tip, account) == (if account == ctx.seller_token.key {
                tip_amount as int
            } else {
                0
            })
        } by {
        if tip_amount > 0 {
            lemma_flow_of_push(empty, tip[0], account);
            assert(tip =~= empty.push(tip[0]));
        } else {
            assert(tip =~= empty);
        }
    }
    assert forall|account: Pubkey|
        {
            &&& #[trigger] outflow(actions, account) == outflow(tip, account) + (if account
                == ctx.vault.key {
                ctx.escrow.data.amount as int
            } else {
                0
            })
            &&& inflow(actions, account) == inflow(tip, account) + (if account
                == ctx.seller_token.key {
                ctx.escrow.data.amount - share(ctx.escrow.data.amount, ctx.config.data.fee_bps)
            } else if account == ctx.fee_vault.key {
                share(ctx.escrow.data.amount, ctx.config.data.fee_bps)
            } else {
                0
            })
        } by {
        lemma_payout_flows(
            ctx.escrow,
            ctx.vault.key,
            ctx.seller_token.key,
            ctx.fee_vault.key,
            ctx.config.data.fee_bps,
            ctx.buyer.key,
            account,
        );
        let paid = payout_actions(
            ctx.escrow,
            ctx.vault.key,
            ctx.seller_token.key,
            ctx.fee_vault.key,
            ctx.config.data.fee_bps,
            ctx.buyer.key,
        );
        lemma_flow_of_concat(tip, paid, account);
    }
    assert(outflow(tip, ctx.vault.key) == 0);
    assert(outflow(tip, ctx.buyer_token.key) == tip_amount);
    assert(outflow(tip, ctx.seller_token.key) == 0);
    assert(outflow(tip, ctx.fee_vault.key) == 0);
    assert(outflow(actions, ctx.vault.key) == ctx.escrow.data.amount);
    assert(outflow(actions, ctx.buyer_token.key) == tip_amount);
    assert(outflow(actions, ctx.seller_token.key) == 0);
    assert(outflow(actions, ctx.fee_vault.key) == 0);
}

/// A release after the review period takes the amount out of the vault: the
/// fee to the platform and the rest to the seller.
pub proof fn law_timeout_pays(ctx: ReleaseAfterTimeout, at: AddressSet, now: i64)
    requires
        release_after_timeout_fault(ctx, at, now) is None,
    ensures
        ({
            let amount = ctx.escrow.data.amount;
            let fee = share(amount, ctx.config.data.fee_bps);
            let actions = release_after_timeout_actions(ctx);
            &&& outflow(actions, ctx.vault.key) == amount
            &&& inflow(actions, ctx.vault.key) == 0
            &&& inflow(actions, ctx.seller_token.key) == amount - fee
            &&& inflow(actions, ctx.fee_vault.key) == fee
        }),
{
    lemma_written_differ(DealStep::Timeout { ctx, at, now });
    let vault = ctx.vault.key;
    let seller = ctx.seller_token.key;
    let fee_vault = ctx.fee_vault.key;
    let bps = ctx.config.data.fee_bps;
    lemma_payout_flows(ctx.escrow, vault, seller, fee_vault, bps, ctx.buyer.key, vault);
    lemma_payout_flows(ctx.escrow, vault, seller, fee_vault, bps, ctx.buyer.key, seller);
    lemma_payout_flows(ctx.escrow, vault, seller, fee_vault, bps, ctx.buyer.key, fee_vault);
}

/// A refund takes the amount out of the vault and gives all of it back to the
/// buyer. No fee is taken.
pub proof fn law_refund_pays(ctx: RefundUndelivered, at: AddressSet, now: i64)
    requires
        refund_undelivered_fault(ctx, at, now) is None,
    ensures
        ({
            let actions = refund_undelivered_actions(ctx);
            &&& outflow(actions, ctx.vault.key) == ctx.escrow.data.amount
            &&& inflow(actions, ctx.vault.key) == 0
            &&& inflow(actions, ctx.buyer_token.key) == ctx.escrow.data.amount
        }),
{
    lemma_written_differ(DealStep::Refund { ctx, at, now });
    let vault = ctx.vault.key;
    let buyer = ctx.buyer_token.key;
    lemma_refund_flows(ctx.escrow, vault, buyer, ctx.buyer.key, vault);
    lemma_refund_flows(ctx.escrow, vault, buyer, ctx.buyer.key, buyer);
}

/// A decision takes the amount out of the vault. The seller gets their share
/// less the fee, which is taken on that share only, and the buyer the rest.
pub proof fn law_decision_pays(ctx: ResolveDispute, at: AddressSet, seller_bps: u16)
    requires
        resolve_dispute_fault(ctx, at, seller_bps) is None,
    ensures
        ({
            let amount = ctx.escrow.data.amount;
            let gross = share(amount, seller_bps);
            let fee = share(gross as u64, ctx.config.data.fee_bps);
            let actions = resolve_dispute_actions(ctx, seller_bps);
            &&& outflow(actions, ctx.vault.key) == amount
            &&& inflow(actions, ctx.vault.key) == 0
            &&& inflow(actions, ctx.seller_token.key) == gross - fee
            &&& inflow(actions, ctx.fee_vault.key) == fee
            &&& inflow(actions, ctx.buyer_token.key) == amount - gross
        }),
{
    lemma_written_differ(DealStep::Resolve { ctx, at, seller_bps });
    let vault = ctx.vault.key;
    let seller = ctx.seller_token.key;
    let fee_vault = ctx.fee_vault.key;
    let buyer = ctx.buyer_token.key;
    let bps = ctx.config.data.fee_bps;
    let rent = ctx.buyer.key;
    lemma_split_flows(ctx.escrow, vault, seller, fee_vault, buyer, bps, seller_bps, rent, vault);
    lemma_split_flows(ctx.escrow, vault, seller, fee_vault, buyer, bps, seller_bps, rent, seller);
    lemma_split_flows(ctx.escrow, vault, seller, fee_vault, buyer, bps, seller_bps, rent, fee_vault);
    lemma_split_flows(ctx.escrow, vault, seller, fee_vault, buyer, bps, seller_bps, rent, buyer);
}

/// A decision for nothing to the seller gives the buyer the whole amount, with
/// no fee, and refunds the deal. A decision for everything pays the seller what
/// a release pays, and releases it. Any decision between splits the deal.
pub proof fn law_decision_extremes(ctx: ResolveDispute, at: AddressSet, seller_bps: u16)
    requires
        resolve_dispute_fault(ctx, at, seller_bps) is None,
    ensures
        ({
            let amount = ctx.escrow.data.amount;
            let fee = share(amount, ctx.config.data.fee_bps);
            let actions = resolve_dispute_actions(ctx, seller_bps);
            let after = (DealStep::Resolve { ctx, at, seller_bps }).after();
            &&& seller_bps == 0 ==> {
                &&& inflow(actions, ctx.buyer_token.key) == amount
                &&& inflow(actions, ctx.seller_token.key) == 0
                &&& inflow(actions, ctx.fee_vault.key) == 0
                &&& after.status is Refunded
            }
            &&& seller_bps == BPS_DENOMINATOR ==> {
                &&& inflow(actions, ctx.buyer_token.key) == 0
                &&& inflow(actions, ctx.seller_token.key) == amount - fee
                &&& inflow(actions, ctx.fee_vault.key) == fee
                &&& after.status is Released
            }
            &&& 0 < seller_bps < BPS_DENOMINATOR ==> after.status is Split
        }),
{
    law_decision_pays(ctx, at, seller_bps);
    lemma_share_bounds(ctx.escrow.data.amount, seller_bps, seller_bps);
    assert(0 * ctx.config.data.fee_bps == 0) by (nonlinear_arith);
}

/// Under the hard cap no release and no decision takes a fee of more than a
/// tenth of what the fee is taken on.
pub proof fn law_fee_is_at_most_a_tenth(config: Config, amount: u64)
    requires
        config.valid(),
    ensures
        0 <= 10 * share(amount, config.fee_bps) <= amount,
{
    lemma_fee_within_a_tenth(amount, config.fee_bps);
}

/// An accepted settlement takes exactly the amount out of the vault, brings
/// nothing into it, ends the deal, and last of all closes the vault, whose rent
/// goes to the buyer. Any other accepted step moves nothing and leaves the deal
/// open.
pub proof fn law_settlement_empties_the_vault(step: DealStep)
    requires
        step.accepted(),
    ensures
        step.settles() == step.after().settled(),
        step.settles() ==> {
            let vault = step.vault()->0;
            let actions = step.actions();
            &&& outflow(actions, vault.key) == step.before().amount
            &&& inflow(actions, vault.key) == 0
            &&& actions.len() > 0
            &&& actions.last() == Action::SignedClose(
                CloseAccount {
                    account: vault.key,
                    destination: step.before().buyer,
                    authority: step.account().key,
                },
            )
        },
        !step.settles() ==> step.actions().len() == 0,
{
    match step {
        DealStep::Approve { ctx, at, tip_amount } => {
            law_approval_pays(ctx, at, tip_amount);
        },
        DealStep::Timeout { ctx, at, now } => {
            law_timeout_pays(ctx, at, now);
        },
        DealStep::Refund { ctx, at, now } => {
            law_refund_pays(ctx, at, now);
        },
        DealStep::Resolve { ctx, at, seller_bps } => {
            law_decision_pays(ctx, at, seller_bps);
        },
        _ => {},
    }
}

/// Whether an account is the token account of a party.
pub open spec fn belongs_to(
    account: Option<Account<TokenAccount>>,
    key: Pubkey,
    owner: Pubkey,
    mint: Pubkey,
) -> bool {
    account matches Some(a) && a.key == key && a.data.owner == owner && a.data.mint == mint
}

/// What an accepted settlement pays out of the vault goes to the seller's
/// account, the buyer's account or the fee account of the configuration, and
/// the parties' accounts hold the configured token. It comes from the deal's
/// own vault, with the deal as the authority. The only other payment is the
/// tip, which the buyer who signed makes from their account to the seller's.
pub proof fn law_payments_reach_only_the_parties(step: DealStep, i: int)
    requires
        step.accepted(),
        0 <= i < step.actions().len(),
    ensures
        ({
            let deal = step.before();
            let config = step.config()->0.data;
            let vault = step.vault()->0;
            &&& step.settles()
            &&& vault.data.owner == step.account().key
            &&& step.addresses()->0.vault == Some(vault.key@)
            &&& match step.actions()[i] {
                Action::SignedTransfer(t) => {
                    &&& t.from == vault.key
                    &&& t.authority == step.account().key
                    &&& {
                        ||| belongs_to(step.seller_token(), t.to, deal.seller, config.usdc_mint)
                        ||| belongs_to(step.buyer_token(), t.to, deal.buyer, config.usdc_mint)
                        ||| t.to == config.fee_vault
                    }
                },
                Action::Transfer(t) => {
                    &&& step matches DealStep::Approve { ctx, tip_amount, .. }
                    &&& ctx.buyer.is_signer
                    &&& t.authority == deal.buyer
                    &&& t.amount == tip_amount
                    &&& belongs_to(step.buyer_token(), t.from, deal.buyer, config.usdc_mint)
                    &&& belongs_to(step.seller_token(), t.to, deal.seller, config.usdc_mint)
                },
                Action::SignedClose(c) => {
                    &&& c.account == vault.key
                    &&& c.authority == step.account().key
                    &&& c.destination == deal.buyer
                },
                _ => false,
            }
        }),
{
}

/// The seeds by which an accepted settlement signs derive the deal's own
/// address, so the deal and nothing else signs for its vault.
pub proof fn law_settlement_is_signed_by_the_deal(program_id: Pubkey, step: DealStep)
    requires
        step.accepted(),
        step.settles(),
        step.addresses() == Some(
            settlement_addresses(program_id, step.config()->0, step.account()),
        ),
    ensures
        program_address(step.before().signer_seeds(), program_id@) == Some(step.account().key@),
{
}

/// Two accepted settlements of the deal at one address are of the same vault.
pub proof fn law_one_vault_per_deal(program_id: Pubkey, first: DealStep, second: DealStep)
    requires
        first.accepted(),
        first.settles(),
        second.accepted(),
        second.settles(),
        first.account().key == second.account().key,
        first.addresses() == Some(
            settlement_addresses(program_id, first.config()->0, first.account()),
        ),
        second.addresses() == Some(
            settlement_addresses(program_id, second.config()->0, second.account()),
        ),
    ensures
        first.vault()->0.key == second.vault()->0.key,
{
    lemma_pubkey_ext(first.vault()->0.key, second.vault()->0.key);
}

/// However a deal goes on, its terms stay, it stays valid, and over all its
/// steps the vault pays out nothing until the deal is settled and the amount
/// once it is: no deal is paid out twice.
pub proof fn law_deal_is_paid_out_once(
    key: Pubkey,
    vault: Pubkey,
    start: Escrow,
    steps: Seq<DealStep>,
)
    requires
        is_history(key, vault, start, steps),
        start.valid(),
        !start.settled(),
    ensures
        state_after(start, steps).same_terms(start),
        state_after(start, steps).valid(),
        total_outflow(steps, vault) == (if state_after(start, steps).settled() {
            start.amount as int
        } else {
            0
        }),
    decreases steps.len(),
{
    if steps.len() > 0 {
        let step = steps.last();
        let before = steps.drop_last();
        law_deal_is_paid_out_once(key, vault, start, before);
        law_terms_are_fixed(step);
        law_valid_deals_stay_valid(step);
        law_settlement_empties_the_vault(step);
        if step.before().settled() {
            law_settled_deals_refuse_every_step(step);
        }
        if !step.settles() {
            assert(outflow(step.actions(), vault) == 0);
        }
    }
}

/// The balances let an accepted settlement go through exactly where the vault
/// holds the amount and, on an approval, the buyer's account holds the tip: every
/// payment is then covered, and the vault is empty when it is closed.
pub proof fn law_settlement_goes_through(step: DealStep, balances: spec_fn(Pubkey) -> int)
    requires
        step.accepted(),
        step.settles(),
    ensures
        ({
            let vault = step.vault()->0.key;
            goes_through(step.actions(), balances) <==> {
                &&& balances(vault) == step.before().amount
                &&& step matches DealStep::Approve { ctx, tip_amount, .. } ==> tip_amount == 0
                    || tip_amount <= balances(ctx.buyer_token.key)
            }
        }),
{
    let vault = step.vault()->0.key;
    let actions = step.actions();
    let last = actions.len() - 1;
    law_settlement_empties_the_vault(step);
    lemma_flow_of_prefix(actions, last, vault);
    assert(actions.take(last) =~= actions.drop_last());
    assert(actions[last] == actions.last());
    assert(holds_after(actions.take(last), vault, balances(vault)) == balances(vault)
        - step.before().amount);
    let covered = step matches DealStep::Approve { ctx, tip_amount, .. } ==> tip_amount == 0
        || tip_amount <= balances(ctx.buyer_token.key);
    if let DealStep::Approve { ctx, at, tip_amount } = step {
        law_approval_pays(ctx, at, tip_amount);
        assert(actions.take(0) =~= Seq::empty());
        if tip_amount > 0 {
            assert(actions[0] == tip_actions(ctx, tip_amount)[0]);
        }
    }
    if balances(vault) == step.before().amount && covered {
        assert forall|i: int| 0 <= i < actions.len() implies match #[trigger] actions[i] {
            Action::Transfer(t) | Action::SignedTransfer(t) => t.amount <= holds_after(
                actions.take(i),
                t.from,
                balances(t.from),
            ),
            Action::SignedClose(c) => holds_after(
                actions.take(i),
                c.account,
                balances(c.account),
            ) == 0,
            _ => true,
        } by {
            law_payments_reach_only_the_parties(step, i);
            lemma_flow_of_prefix(actions, i, vault);
            match actions[i] {
                Action::Transfer(t) => {
                    lemma_flow_of_prefix(actions, i, t.from);
                },
                Action::SignedClose(_) => {
                    assert(i == last);
                },
                _ => {},
            }
        }
    }
}

/// What a creation locks can be paid out: where the payment comes from another
/// account than the new vault, and nobody but the program moves tokens of the
/// vault, it holds the amount for as long as the deal is open, and the balances
/// let whichever settlement is accepted go through.
pub proof fn law_locked_payment_can_be_paid_out(
    program_id: Pubkey,
    ctx: CreateAndFund,
    at: CreationAddressSet,
    start: Escrow,
    steps: Seq<DealStep>,
    last: DealStep,
    balances: spec_fn(Pubkey) -> int,
)
    requires
        create_and_fund_fault(ctx, at, start.amount) is None,
        ctx.buyer_token.key != ctx.vault.key,
        start.valid(),
        !start.settled(),
        is_history(ctx.escrow.key, ctx.vault.key, start, steps.push(last)),
        last.settles(),
        balances(ctx.vault.key) == holds_after(
            create_and_fund_actions(program_id, ctx, start.amount),
            ctx.vault.key,
            0,
        ) - total_outflow(steps, ctx.vault.key),
        last matches DealStep::Approve { ctx, tip_amount, .. } ==> tip_amount <= balances(
            ctx.buyer_token.key,
        ),
    ensures
        balances(ctx.vault.key) == start.amount,
        goes_through(last.actions(), balances),
{
    assert(steps.push(last).drop_last() =~= steps);
    assert(steps.push(last).last() == last);
    law_creation_locks_the_payment(program_id, ctx, at, start.amount, ctx.vault.key);
    law_deal_is_paid_out_once(ctx.escrow.key, ctx.vault.key, start, steps);
    if last.before().settled() {
        law_settled_deals_refuse_every_step(last);
    }
    law_settlement_goes_through(last, balances);
}

/// Of the configuration, who the admin is, whether new deals are stopped, the
/// review period of new deals and the cap have no bearing on a deal that
/// exists: the admin has no way to its vault, and releases, refunds and
/// decisions go on while new deals are stopped.
pub proof fn law_live_deals_ignore_admin_pause_period_and_cap(
    step: DealStep,
    admin: Pubkey,
    paused: bool,
    default_review_period: i64,
    max_deal_amount: u64,
)
    requires
        step.settles(),
    ensures
        ({
            let config = Config {
                admin,
                paused,
                default_review_period,
                max_deal_amount,
                ..step.config()->0.data
            };
            let other = step.with_config(config);
            &&& other.fault() == step.fault()
            &&& other.actions() == step.actions()
            &&& other.after() == step.after()
        }),
{
}

/// While new deals are stopped none is created. With the accounts in order the
/// answer is that the protocol is paused.
pub proof fn law_pause_stops_creation(ctx: CreateAndFund, at: CreationAddressSet, amount: u64)
    requires
        ctx.config.data.paused,
    ensures
        create_and_fund_fault(ctx, at, amount) is Some,
        ctx.fault(at) is None ==> create_and_fund_fault(ctx, at, amount) == Some(
            ProgramError::Escrow(EscrowError::ProtocolPaused),
        ),
{
}

/// A created deal is valid, within the cap of the moment, between two parties,
/// and reviewed for as long as the configuration says then. It is delivered at
/// once if the goods come with the payment, and funded otherwise.
pub proof fn law_created_deals_are_valid(
    ctx: CreateAndFund,
    at: CreationAddressSet,
    bump: u8,
    order_id: u64,
    amount: u64,
    instant_delivery: bool,
    now: i64,
)
    requires
        create_and_fund_fault(ctx, at, amount) is None,
        ctx.config.data.valid(),
    ensures
        ({
            let deal = created(ctx, bump, order_id, amount, instant_delivery, now);
            &&& deal.valid()
            &&& !deal.settled()
            &&& 0 < deal.amount <= ctx.config.data.max_deal_amount
            &&& deal.review_period == ctx.config.data.default_review_period
            &&& instant_delivery ==> deal.status is Delivered && deal.delivered_at == now
            &&& !instant_delivery ==> deal.status is Funded && deal.delivered_at == 0
        }),
{
}

/// A creation takes only the amount, from the account of the buyer who signed,
/// into the new vault, which holds the configured token and which the new deal
/// disposes of.
pub proof fn law_creation_locks_the_payment(
    program_id: Pubkey,
    ctx: CreateAndFund,
    at: CreationAddressSet,
    amount: u64,
    account: Pubkey,
)
    requires
        create_and_fund_fault(ctx, at, amount) is None,
    ensures
        ({
            let actions = create_and_fund_actions(program_id, ctx, amount);
            &&& ctx.buyer.is_signer
            &&& ctx.buyer_token.data.owner == ctx.buyer.key
            &&& ctx.buyer_token.data.mint == ctx.config.data.usdc_mint
            &&& outflow(actions, account) == (if account == ctx.buyer_token.key {
                amount as int
            } else {
                0
            })
            &&& inflow(actions, account) == (if account == ctx.vault.key {
                amount as int
            } else {
                0
            })
            &&& actions[1] == Action::CreateTokenAccount {
                address: ctx.vault.key,
                payer: ctx.buyer.key,
                mint: ctx.config.data.usdc_mint,
                authority: ctx.escrow.key,
            }
        }),
{
    let actions = create_and_fund_actions(program_id, ctx, amount);
    let empty = Seq::<Action>::empty();
    lemma_flow_of_push(empty, actions[0], account);
    lemma_flow_of_push(empty.push(actions[0]), actions[1], account);
    lemma_flow_of_push(empty.push(actions[0]).push(actions[1]), actions[2], account);
    assert(actions =~= empty.push(actions[0]).push(actions[1]).push(actions[2]));
}

/// A deal is created once: where its account or its vault exists, the creation
/// is refused. If the accounts would be in order but for that, the answer is
/// that the account is in use.
pub proof fn law_no_deal_is_created_twice(
    ctx: CreateAndFund,
    at: CreationAddressSet,
    amount: u64,
)
    ensures
        ctx.escrow.in_use || ctx.vault.in_use ==> create_and_fund_fault(ctx, at, amount) is Some,
        (ctx.escrow.in_use || ctx.vault.in_use) && (CreateAndFund {
            escrow: NewAccount { in_use: false, ..ctx.escrow },
            vault: NewAccount { in_use: false, ..ctx.vault },
            ..ctx
        }).fault(at) is None ==> create_and_fund_fault(ctx, at, amount) == Some(
            ProgramError::Account(AccountError::AccountAlreadyInUse),
        ),
{
}

/// One order between one buyer and one seller has one account: two accepted
/// creations of it are at the same address, with the same vault.
pub proof fn law_one_account_per_deal(
    program_id: Pubkey,
    first: CreateAndFund,
    second: CreateAndFund,
    order_id: u64,
    first_amount: u64,
    second_amount: u64,
)
    requires
        first.buyer.key == second.buyer.key,
        first.seller == second.seller,
        create_and_fund_fault(
            first,
            creation_addresses(program_id, first, order_id),
            first_amount,
        ) is None,
        create_and_fund_fault(
            second,
            creation_addresses(program_id, second, order_id),
            second_amount,
        ) is None,
    ensures
        first.escrow.key == second.escrow.key,
        first.vault.key == second.vault.key,
{
    lemma_pubkey_ext(first.escrow.key, second.escrow.key);
    lemma_pubkey_ext(first.vault.key, second.vault.key);
}

/// An account that exists is there to stay: no instruction closes it, as long as
/// it is the account of the deal or no vault.
proof fn lemma_account_stays(done: Seq<Action>, key: Pubkey, since: Seq<Instruction>)
    requires
        exists_after(done, key, false),
        may_all_follow(since, key),
    ensures
        exists_after(done + all_actions(since), key, false),
    decreases since.len(),
{
    if since.len() == 0 {
        assert(done + all_actions(since) =~= done);
    } else {
        let last = since.last();
        let before = since.drop_last();
        assert forall|i: int| 0 <= i < before.len() implies #[trigger] before[i] == since[i] by {}
        lemma_account_stays(done, key, before);
        assert(since[since.len() - 1] == last);
        if let Instruction::Step(step) = last {
            if step.settles() && step.account().key == key {
                lemma_vault_is_not_the_deal(step);
            }
        }
        assert(!closes(last.actions(), key));
        lemma_unclosed_stays(last.actions(), key);
        lemma_existence_over_concat(done + all_actions(before), last.actions(), key, false);
        assert(done + all_actions(since) =~= (done + all_actions(before)) + last.actions());
    }
}

/// The account of a created deal is there to stay: no instruction closes it,
/// whether the deal is open or settled, as long as no other deal has its vault
/// there.
pub proof fn law_accounts_of_deals_stay(
    program_id: Pubkey,
    ctx: CreateAndFund,
    amount: u64,
    since: Seq<Instruction>,
)
    requires
        may_all_follow(since, ctx.escrow.key),
    ensures
        exists_after(
            create_and_fund_actions(program_id, ctx, amount) + all_actions(since),
            ctx.escrow.key,
            false,
        ),
{
    let creation = create_and_fund_actions(program_id, ctx, amount);
    reveal_with_fuel(exists_after, 4);
    assert(creation.drop_last().drop_last().last() == creation[0]);
    lemma_account_stays(creation, ctx.escrow.key, since);
}

/// The account of the configuration is there to stay: no instruction closes it,
/// as long as no deal has its vault there.
pub proof fn law_account_of_the_config_stays(
    program_id: Pubkey,
    ctx: InitializeConfig,
    since: Seq<Instruction>,
)
    requires
        may_all_follow(since, ctx.config.key),
    ensures
        exists_after(
            initialize_config_actions(program_id, ctx) + all_actions(since),
            ctx.config.key,
            false,
        ),
{
    lemma_account_stays(initialize_config_actions(program_id, ctx), ctx.config.key, since);
}

/// The configuration is set up once: a second initialisation is refused, whoever
/// pays for it, whatever it asks for, and whatever happened since. If the
/// accounts would be in order but for that, the answer is that the account is in
/// use.
pub proof fn law_config_is_set_up_once(
    program_id: Pubkey,
    first: InitializeConfig,
    first_fee_bps: u16,
    first_review_period: i64,
    first_max_deal_amount: u64,
    second: InitializeConfig,
    second_fee_bps: u16,
    second_review_period: i64,
    second_max_deal_amount: u64,
    since: Seq<Instruction>,
)
    requires
        initialize_config_fault(
            first,
            canonical(config_seeds(), program_id@),
            first_fee_bps,
            first_review_period,
            first_max_deal_amount,
        ) is None,
        may_all_follow(since, first.config.key),
        second.config.key == first.config.key ==> second.config.in_use == exists_after(
            initialize_config_actions(program_id, first) + all_actions(since),
            first.config.key,
            false,
        ),
    ensures
        ({
            let found = canonical(config_seeds(), program_id@);
            let fault = initialize_config_fault(
                second,
                found,
                second_fee_bps,
                second_review_period,
                second_max_deal_amount,
            );
            &&& fault is Some
            &&& (InitializeConfig {
                config: NewAccount { in_use: false, ..second.config },
                ..second
            }).fault(without_bump(found)) is None ==> fault == Some(
                ProgramError::Account(AccountError::AccountAlreadyInUse),
            )
        }),
{
    law_account_of_the_config_stays(program_id, first, since);
    lemma_pubkey_ext(first.config.key, second.config.key);
}

/// A repeated creation for the same order, buyer and seller is refused, whatever
/// the amount, the goods and the time, and whatever happened since. If the
/// accounts would be in order but for that, the answer is that the account is in
/// use.
pub proof fn law_repeated_creation_is_refused(
    program_id: Pubkey,
    first: CreateAndFund,
    second: CreateAndFund,
    order_id: u64,
    first_amount: u64,
    second_amount: u64,
    since: Seq<Instruction>,
)
    requires
        first.buyer.key == second.buyer.key,
        first.seller == second.seller,
        create_and_fund_fault(
            first,
            creation_addresses(program_id, first, order_id),
            first_amount,
        ) is None,
        may_all_follow(since, first.escrow.key),
        second.escrow.key == first.escrow.key ==> second.escrow.in_use == exists_after(
            create_and_fund_actions(program_id, first, first_amount) + all_actions(since),
            first.escrow.key,
            false,
        ),
    ensures
        ({
            let at = creation_addresses(program_id, second, order_id);
            let fault = create_and_fund_fault(second, at, second_amount);
            &&& fault is Some
            &&& (CreateAndFund {
                escrow: NewAccount { in_use: false, ..second.escrow },
                vault: NewAccount { in_use: false, ..second.vault },
                ..second
            }).fault(at) is None ==> fault == Some(
                ProgramError::Account(AccountError::AccountAlreadyInUse),
            )
        }),
{
    law_accounts_of_deals_stay(program_id, first, first_amount, since);
    lemma_pubkey_ext(first.escrow.key, second.escrow.key);
}

/// Another order, buyer or seller has another account and another vault, as long
/// as the derivations of the two do not collide.
pub proof fn law_other_deals_have_other_accounts(
    program_id: Pubkey,
    first: CreateAndFund,
    second: CreateAndFund,
    first_order: u64,
    second_order: u64,
    first_amount: u64,
    second_amount: u64,
)
    requires
        first_order != second_order || first.buyer.key != second.buyer.key || first.seller
            != second.seller,
        create_and_fund_fault(
            first,
            creation_addresses(program_id, first, first_order),
            first_amount,
        ) is None,
        create_and_fund_fault(
            second,
            creation_addresses(program_id, second, second_order),
            second_amount,
        ) is None,
        ({
            let a = creation_addresses(program_id, first, first_order);
            let b = creation_addresses(program_id, second, second_order);
            &&& !collide(
                escrow_seeds(first_order, first.buyer.key, first.seller).push(
                    seq![bump_of(a.escrow)],
                ),
                escrow_seeds(second_order, second.buyer.key, second.seller).push(
                    seq![bump_of(b.escrow)],
                ),
                program_id@,
            )
            &&& !collide(
                vault_seeds(first.escrow.key).push(seq![bump_of(a.vault)]),
                vault_seeds(second.escrow.key).push(seq![bump_of(b.vault)]),
                program_id@,
            )
        }),
    ensures
        first.escrow.key != second.escrow.key,
        first.vault.key != second.vault.key,
{
    let a = creation_addresses(program_id, first, first_order);
    let b = creation_addresses(program_id, second, second_order);
    let x = created(first, bump_of(a.escrow), first_order, first_amount, false, 0);
    let y = created(second, bump_of(b.escrow), second_order, second_amount, false, 0);
    let first_seeds = escrow_seeds(first_order, first.buyer.key, first.seller);
    let second_seeds = escrow_seeds(second_order, second.buyer.key, second.seller);
    lemma_found_address_derives(first_seeds, program_id@, 255);
    lemma_found_address_derives(second_seeds, program_id@, 255);
    lemma_found_address_derives(vault_seeds(first.escrow.key), program_id@, 255);
    lemma_found_address_derives(vault_seeds(second.escrow.key), program_id@, 255);
    if first.escrow.key == second.escrow.key {
        law_no_two_deals_share_seeds(x, y);
    }
    if first.vault.key == second.vault.key {
        law_kinds_of_account_share_no_seeds(
            x,
            first.escrow.key,
            second.escrow.key,
            0,
            bump_of(a.vault),
            bump_of(b.vault),
        );
    }
}

/// The found bump makes the seeds derive the found address.
pub proof fn lemma_found_address_derives(seeds: Seq<Seq<u8>>, program_id: Seq<u8>, top: nat)
    requires
        top <= 255,
    ensures
        bump_search(seeds, program_id, top) matches Some((address, bump)) ==> {
            &&& program_address(seeds.push(seq![bump]), program_id) == Some(address)
            &&& 1 <= bump <= top
        },
    decreases top,
{
    if top > 0 {
        lemma_found_address_derives(seeds, program_id, (top - 1) as nat);
    }
}

/// A created deal is found again: with the bump that is stored it stands at its
/// own address, and its vault at the address of its vault.
pub proof fn law_created_deal_is_found_again(
    program_id: Pubkey,
    ctx: CreateAndFund,
    config: Account<Config>,
    is_writable: bool,
    order_id: u64,
    amount: u64,
    instant_delivery: bool,
    now: i64,
)
    requires
        create_and_fund_fault(ctx, creation_addresses(program_id, ctx, order_id), amount) is None,
    ensures
        ({
            let at = creation_addresses(program_id, ctx, order_id);
            let deal = created(ctx, bump_of(at.escrow), order_id, amount, instant_delivery, now);
            let account = Account { key: ctx.escrow.key, is_writable, data: deal };
            let found = settlement_addresses(program_id, config, account);
            &&& found.escrow == Some(ctx.escrow.key@)
            &&& found.vault == Some(ctx.vault.key@)
        }),
{
    lemma_found_address_derives(
        escrow_seeds(order_id, ctx.buyer.key, ctx.seller),
        program_id@,
        255,
    );
}

/// The initialised configuration is found again under the bump that is stored.
pub proof fn law_initialized_config_is_found_again(
    program_id: Pubkey,
    ctx: InitializeConfig,
    fee_bps: u16,
    default_review_period: i64,
    delivery_deadline: i64,
    max_deal_amount: u64,
)
    requires
        initialize_config_fault(
            ctx,
            canonical(config_seeds(), program_id@),
            fee_bps,
            default_review_period,
            max_deal_amount,
        ) is None,
    ensures
        ({
            let config = initialized(
                ctx,
                bump_of(canonical(config_seeds(), program_id@)),
                fee_bps,
                default_review_period,
                delivery_deadline,
                max_deal_amount,
            );
            program_address(config_seeds().push(seq![config.bump]), program_id@) == Some(
                ctx.config.key@,
            )
        }),
{
    lemma_found_address_derives(config_seeds(), program_id@, 255);
}

/// The configuration is initialised within the hard caps, not paused, for the
/// token that the fee account holds, and once.
pub proof fn law_initial_config_is_valid(
    ctx: InitializeConfig,
    found: Option<(Seq<u8>, u8)>,
    bump: u8,
    fee_bps: u16,
    default_review_period: i64,
    delivery_deadline: i64,
    max_deal_amount: u64,
)
    ensures
        ctx.config.in_use ==> initialize_config_fault(
            ctx,
            found,
            fee_bps,
            default_review_period,
            max_deal_amount,
        ) is Some,
        initialize_config_fault(
            ctx,
            found,
            fee_bps,
            default_review_period,
            max_deal_amount,
        ) is None ==> {
            let config = initialized(
                ctx,
                bump,
                fee_bps,
                default_review_period,
                delivery_deadline,
                max_deal_amount,
            );
            &&& config.valid()
            &&& !config.paused
            &&& ctx.fee_vault.key == config.fee_vault
            &&& ctx.fee_vault.data.mint == config.usdc_mint
        },
{
}

/// An accepted update keeps the hard caps, and never changes the admin, the
/// token, the fee account, the delivery deadline or the place.
pub proof fn law_updates_keep_the_hard_caps(
    ctx: UpdateConfig,
    address: Option<Seq<u8>>,
    fee_bps: Option<u16>,
    default_review_period: Option<i64>,
    arbiter: Option<Pubkey>,
    paused: Option<bool>,
    max_deal_amount: Option<u64>,
)
    requires
        ctx.config.data.valid(),
        update_config_fault(
            ctx,
            address,
            fee_bps,
            default_review_period,
            max_deal_amount,
        ) is None,
    ensures
        ({
            let old_config = ctx.config.data;
            let config = updated(
                old_config,
                fee_bps,
                default_review_period,
                arbiter,
                paused,
                max_deal_amount,
            );
            &&& config.valid()
            &&& config.admin == old_config.admin
            &&& config.usdc_mint == old_config.usdc_mint
            &&& config.fee_vault == old_config.fee_vault
            &&& config.delivery_deadline == old_config.delivery_deadline
            &&& config.bump == old_config.bump
        }),
{
}

/// Whether an account of an address signed.
pub open spec fn signed_by(account: AccountInfo, key: Pubkey) -> bool {
    account.is_signer && account.key == key
}

/// Each accepted step has the signature it needs: the seller's to deliver, the
/// buyer's to approve, a party's to dispute, the arbiter's to decide. A release
/// after the review period and a refund need none.
pub proof fn law_steps_need_their_signer(step: DealStep)
    requires
        step.accepted(),
    ensures
        match step {
            DealStep::Deliver { ctx, .. } => signed_by(ctx.seller, step.before().seller),
            DealStep::Approve { ctx, .. } => signed_by(ctx.buyer, step.before().buyer),
            DealStep::Dispute { ctx, .. } => {
                ||| signed_by(ctx.party, step.before().buyer)
                ||| signed_by(ctx.party, step.before().seller)
            },
            DealStep::Resolve { ctx, .. } => signed_by(ctx.arbiter, ctx.config.data.arbiter),
            DealStep::Timeout { .. } => true,
            DealStep::Refund { .. } => true,
        },
{
}

/// Only the admin who signed updates the configuration.
pub proof fn law_updates_need_the_admin(
    ctx: UpdateConfig,
    address: Option<Seq<u8>>,
    fee_bps: Option<u16>,
    default_review_period: Option<i64>,
    max_deal_amount: Option<u64>,
)
    requires
        update_config_fault(
            ctx,
            address,
            fee_bps,
            default_review_period,
            max_deal_amount,
        ) is None,
    ensures
        signed_by(ctx.admin, ctx.config.data.admin),
{
}

/// The review period of a delivered deal splits time in two: until it is over
/// the parties can dispute and nobody can release for the timeout, and from
/// then on it is the other way round.
pub proof fn law_dispute_ends_where_timeout_begins(
    dispute: OpenDispute,
    address: Option<Seq<u8>>,
    release: ReleaseAfterTimeout,
    at: AddressSet,
    now: i64,
)
    requires
        dispute.escrow.data == release.escrow.data,
        dispute.escrow.data.status is Delivered,
        i64::MIN <= dispute.escrow.data.review_deadline() <= i64::MAX,
        dispute.fault(address) is None,
        dispute.party.key == dispute.escrow.data.buyer || dispute.party.key
            == dispute.escrow.data.seller,
        release.fault(at) is None,
        release.config.data.valid(),
    ensures
        now < dispute.escrow.data.review_deadline() ==> {
            &&& open_dispute_fault(dispute, address, now) is None
            &&& release_after_timeout_fault(release, at, now) == Some(
                ProgramError::Escrow(EscrowError::ReviewPeriodNotOver),
            )
        },
        now >= dispute.escrow.data.review_deadline() ==> {
            &&& release_after_timeout_fault(release, at, now) is None
            &&& open_dispute_fault(dispute, address, now) == Some(
                ProgramError::Escrow(EscrowError::TooLateForDispute),
            )
        },
{
    lemma_fee_within_a_tenth(release.escrow.data.amount, release.config.data.fee_bps);
}

/// A step under a valid configuration is refused for its
/// accounts, for the status, for the time or the basis points, but not for the
/// arithmetic of the payment: with the accounts in order, a delivered deal can
/// be approved at any time and released once its review is over, a funded deal
/// can be refunded once its delivery is overdue, and a disputed deal can be
/// decided for any share.
pub proof fn law_open_deals_can_be_settled(step: DealStep)
    requires
        step.accounts_fault() is None,
        step.config() matches Some(config) ==> config.data.valid(),
    ensures
        match step {
            DealStep::Approve { .. } => step.before().status is Delivered ==> step.accepted(),
            DealStep::Timeout { now, .. } => step.before().status is Delivered && i64::MIN
                <= step.before().review_deadline() <= now ==> step.accepted(),
            DealStep::Refund { ctx, now, .. } => step.before().status is Funded && i64::MIN
                <= step.before().delivery_deadline(ctx.config.data) <= now ==> step.accepted(),
            DealStep::Resolve { seller_bps, .. } => step.before().status is Disputed
                && seller_bps <= BPS_DENOMINATOR ==> step.accepted(),
            DealStep::Deliver { .. } => step.before().status is Funded ==> step.accepted(),
            DealStep::Dispute { .. } => true,
        },
{
    match step {
        DealStep::Approve { ctx, .. } => {
            lemma_fee_within_a_tenth(ctx.escrow.data.amount, ctx.config.data.fee_bps);
        },
        DealStep::Timeout { ctx, .. } => {
            lemma_fee_within_a_tenth(ctx.escrow.data.amount, ctx.config.data.fee_bps);
        },
        DealStep::Resolve { ctx, seller_bps, .. } => {
            if seller_bps <= BPS_DENOMINATOR {
                lemma_share_bounds(ctx.escrow.data.amount, seller_bps, seller_bps);
                let gross = share(ctx.escrow.data.amount, seller_bps);
                lemma_fee_within_a_tenth(gross as u64, ctx.config.data.fee_bps);
            }
        },
        _ => {},
    }
}

/// The seeds of a deal run together: the name, the order, the parties and the
/// bump.
proof fn lemma_escrow_seeds_flat(order_id: u64, buyer: Pubkey, seller: Pubkey, bump: u8)
    ensures
        ({
            let flat = escrow_seeds(order_id, buyer, seller).push(seq![bump]).flatten();
            &&& flat.len() == 79
            &&& flat.subrange(6, 14) == spec_u64_to_le_bytes(order_id)
            &&& flat.subrange(14, 46) == buyer@
            &&& flat.subrange(46, 78) == seller@
            &&& flat[78] == bump
        }),
{
    lemma_auto_spec_u64_to_from_le_bytes();
    let seeds = escrow_seeds(order_id, buyer, seller).push(seq![bump]);
    let order = spec_u64_to_le_bytes(order_id);
    assert(order.len() == 8);
    reveal_with_fuel(Seq::<_>::flatten, 6);
    let flat = ESCROW_SEED@ + (order + (buyer@ + (seller@ + (seq![bump] + Seq::<u8>::empty()))));
    assert(seeds.drop_first().drop_first().drop_first().drop_first().drop_first().len() == 0);
    assert(seeds.flatten() =~= flat);
    assert(flat.subrange(6, 14) =~= order);
    assert(flat.subrange(14, 46) =~= buyer@);
    assert(flat.subrange(46, 78) =~= seller@);
}

/// The bytes from which the addresses of two deals are derived agree only where
/// the order, the buyer, the seller and the bump agree, also when the seeds are
/// run together: no two deals share their seeds.
pub proof fn law_no_two_deals_share_seeds(first: Escrow, second: Escrow)
    requires
        first.signer_seeds().flatten() == second.signer_seeds().flatten(),
    ensures
        first.order_id == second.order_id,
        first.buyer == second.buyer,
        first.seller == second.seller,
        first.bump == second.bump,
{
    lemma_auto_spec_u64_to_from_le_bytes();
    lemma_escrow_seeds_flat(first.order_id, first.buyer, first.seller, first.bump);
    lemma_escrow_seeds_flat(second.order_id, second.buyer, second.seller, second.bump);
    lemma_pubkey_ext(first.buyer, second.buyer);
    lemma_pubkey_ext(first.seller, second.seller);
}

/// The seeds of the configuration, of a deal and of a vault never run together
/// to the same bytes, and those of two vaults only for one deal.
pub proof fn law_kinds_of_account_share_no_seeds(
    deal: Escrow,
    first: Pubkey,
    second: Pubkey,
    config_bump: u8,
    first_bump: u8,
    second_bump: u8,
)
    ensures
        ({
            let config = config_seeds().push(seq![config_bump]).flatten();
            let vault = vault_seeds(first).push(seq![first_bump]).flatten();
            let other = vault_seeds(second).push(seq![second_bump]).flatten();
            &&& config != vault
            &&& config != deal.signer_seeds().flatten()
            &&& vault != deal.signer_seeds().flatten()
            &&& vault == other ==> first == second && first_bump == second_bump
        }),
{
    lemma_escrow_seeds_flat(deal.order_id, deal.buyer, deal.seller, deal.bump);
    reveal_with_fuel(Seq::<_>::flatten, 4);
    let config = config_seeds().push(seq![config_bump]);
    assert(config.drop_first().drop_first().len() == 0);
    assert(config.flatten() =~= CONFIG_SEED@ + (seq![config_bump] + Seq::<u8>::empty()));
    assert(config.flatten().len() == 7);
    let vault = vault_seeds(first).push(seq![first_bump]);
    let other = vault_seeds(second).push(seq![second_bump]);
    let vault_flat = VAULT_SEED@ + (first@ + (seq![first_bump] + Seq::<u8>::empty()));
    let other_flat = VAULT_SEED@ + (second@ + (seq![second_bump] + Seq::<u8>::empty()));
    assert(vault.drop_first().drop_first().drop_first().len() == 0);
    assert(other.drop_first().drop_first().drop_first().len() == 0);
    assert(vault.flatten() =~= vault_flat);
    assert(other.flatten() =~= other_flat);
    assert(vault_flat.len() == 38);
    assert(vault_flat.subrange(5, 37) =~= first@);
    assert(other_flat.subrange(5, 37) =~= second@);
    assert(vault_flat[37] == first_bump);
    assert(other_flat[37] == second_bump);
    lemma_pubkey_ext(first, second);
}

} // verus!
