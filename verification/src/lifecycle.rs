//! The life of a deal: the steps that act on it, and histories of them.
use vstd::prelude::*;

use crate::accounts::{Account, TokenAccount};
use crate::action::{outflow, Action};
use crate::address::AddressSet;
use crate::configure::{initialize_config_actions, InitializeConfig, UpdateConfig};
use crate::delivery::{mark_delivered_fault, mark_delivered_result, MarkDelivered};
use crate::dispute::{
    open_dispute_fault, open_dispute_result, resolve_dispute_actions, resolve_dispute_fault,
    resolve_dispute_result, resolved, OpenDispute, ResolveDispute,
};
use crate::error::ProgramError;
use crate::event::{Delivered, DisputeOpened, DisputeResolved, Refunded, Released};
use crate::funding::{create_and_fund_actions, CreateAndFund};
use crate::payout::Settlement;
use crate::pubkey::Pubkey;
use crate::refund::{
    refund_undelivered_actions, refund_undelivered_fault, refund_undelivered_result,
    RefundUndelivered,
};
use crate::release::{
    approve_and_release_actions, approve_and_release_fault, approve_and_release_result, approved,
    release_after_timeout_actions, release_after_timeout_fault, release_after_timeout_result,
    ApproveAndRelease, ReleaseAfterTimeout,
};
use crate::state::{Config, Escrow, EscrowStatus};

verus! {

/// An instruction on an existing deal, with the accounts it is handed, the
/// addresses derived for them and the time.
#[allow(inconsistent_fields)]
pub enum DealStep {
    Deliver { ctx: MarkDelivered, address: Option<Seq<u8>>, now: i64 },
    Approve { ctx: ApproveAndRelease, at: AddressSet, tip_amount: u64 },
    Timeout { ctx: ReleaseAfterTimeout, at: AddressSet, now: i64 },
    Refund { ctx: RefundUndelivered, at: AddressSet, now: i64 },
    Dispute { ctx: OpenDispute, address: Option<Seq<u8>>, now: i64 },
    Resolve { ctx: ResolveDispute, at: AddressSet, seller_bps: u16 },
}

impl DealStep {
    /// The account of the deal.
    pub open spec fn account(self) -> Account<Escrow> {
        match self {
            DealStep::Deliver { ctx, .. } => ctx.escrow,
            DealStep::Approve { ctx, .. } => ctx.escrow,
            DealStep::Timeout { ctx, .. } => ctx.escrow,
            DealStep::Refund { ctx, .. } => ctx.escrow,
            DealStep::Dispute { ctx, .. } => ctx.escrow,
            DealStep::Resolve { ctx, .. } => ctx.escrow,
        }
    }

    /// The deal before the step.
    pub open spec fn before(self) -> Escrow {
        self.account().data
    }

    /// The deal after the step, where it is accepted.
    pub open spec fn after(self) -> Escrow {
        match self {
            DealStep::Deliver { ctx, now, .. } => Escrow {
                status: EscrowStatus::Delivered,
                delivered_at: now,
                ..ctx.escrow.data
            },
            DealStep::Approve { ctx, tip_amount, .. } => approved(ctx.escrow.data, tip_amount),
            DealStep::Timeout { ctx, .. } => Escrow {
                status: EscrowStatus::Released,
                ..ctx.escrow.data
            },
            DealStep::Refund { ctx, .. } => Escrow {
                status: EscrowStatus::Refunded,
                ..ctx.escrow.data
            },
            DealStep::Dispute { ctx, .. } => Escrow {
                status: EscrowStatus::Disputed,
                ..ctx.escrow.data
            },
            DealStep::Resolve { ctx, seller_bps, .. } => resolved(ctx.escrow.data, seller_bps),
        }
    }

    /// What is wrong with the accounts of the step.
    pub open spec fn accounts_fault(self) -> Option<ProgramError> {
        match self {
            DealStep::Deliver { ctx, address, .. } => ctx.fault(address),
            DealStep::Approve { ctx, at, .. } => ctx.fault(at),
            DealStep::Timeout { ctx, at, .. } => ctx.fault(at),
            DealStep::Refund { ctx, at, .. } => ctx.fault(at),
            DealStep::Dispute { ctx, address, .. } => ctx.fault(address),
            DealStep::Resolve { ctx, at, .. } => ctx.fault(at),
        }
    }

    /// Why the step is refused, if it is.
    pub open spec fn fault(self) -> Option<ProgramError> {
        match self {
            DealStep::Deliver { ctx, address, .. } => mark_delivered_fault(ctx, address),
            DealStep::Approve { ctx, at, .. } => approve_and_release_fault(ctx, at),
            DealStep::Timeout { ctx, at, now } => release_after_timeout_fault(ctx, at, now),
            DealStep::Refund { ctx, at, now } => refund_undelivered_fault(ctx, at, now),
            DealStep::Dispute { ctx, address, now } => open_dispute_fault(ctx, address, now),
            DealStep::Resolve { ctx, at, seller_bps } => resolve_dispute_fault(ctx, at, seller_bps),
        }
    }

    /// Whether the step is accepted.
    pub open spec fn accepted(self) -> bool {
        self.fault() is None
    }

    /// What the step has the ledger do, where it is accepted.
    pub open spec fn actions(self) -> Seq<Action> {
        match self {
            DealStep::Deliver { .. } => seq![],
            DealStep::Approve { ctx, tip_amount, .. } => approve_and_release_actions(
                ctx,
                tip_amount,
            ),
            DealStep::Timeout { ctx, .. } => release_after_timeout_actions(ctx),
            DealStep::Refund { ctx, .. } => refund_undelivered_actions(ctx),
            DealStep::Dispute { .. } => seq![],
            DealStep::Resolve { ctx, seller_bps, .. } => resolve_dispute_actions(ctx, seller_bps),
        }
    }

    /// Whether the step pays the vault out.
    pub open spec fn settles(self) -> bool {
        match self {
            DealStep::Deliver { .. } | DealStep::Dispute { .. } => false,
            _ => true,
        }
    }

    /// The vault that the step pays out, where it does.
    pub open spec fn vault(self) -> Option<Account<TokenAccount>> {
        match self {
            DealStep::Approve { ctx, .. } => Some(ctx.vault),
            DealStep::Timeout { ctx, .. } => Some(ctx.vault),
            DealStep::Refund { ctx, .. } => Some(ctx.vault),
            DealStep::Resolve { ctx, .. } => Some(ctx.vault),
            _ => None,
        }
    }

    /// The configuration that the step reads, where it does.
    pub open spec fn config(self) -> Option<Account<Config>> {
        match self {
            DealStep::Approve { ctx, .. } => Some(ctx.config),
            DealStep::Timeout { ctx, .. } => Some(ctx.config),
            DealStep::Refund { ctx, .. } => Some(ctx.config),
            DealStep::Resolve { ctx, .. } => Some(ctx.config),
            _ => None,
        }
    }

    /// The addresses derived for the step, where it settles.
    pub open spec fn addresses(self) -> Option<AddressSet> {
        match self {
            DealStep::Approve { at, .. } => Some(at),
            DealStep::Timeout { at, .. } => Some(at),
            DealStep::Refund { at, .. } => Some(at),
            DealStep::Resolve { at, .. } => Some(at),
            _ => None,
        }
    }

    /// The buyer's token account of the step, where it has one.
    pub open spec fn buyer_token(self) -> Option<Account<TokenAccount>> {
        match self {
            DealStep::Approve { ctx, .. } => Some(ctx.buyer_token),
            DealStep::Refund { ctx, .. } => Some(ctx.buyer_token),
            DealStep::Resolve { ctx, .. } => Some(ctx.buyer_token),
            _ => None,
        }
    }

    /// The seller's token account of the step, where it has one.
    pub open spec fn seller_token(self) -> Option<Account<TokenAccount>> {
        match self {
            DealStep::Approve { ctx, .. } => Some(ctx.seller_token),
            DealStep::Timeout { ctx, .. } => Some(ctx.seller_token),
            DealStep::Resolve { ctx, .. } => Some(ctx.seller_token),
            _ => None,
        }
    }

    /// The same step under another configuration in the same place.
    pub open spec fn with_config(self, config: Config) -> DealStep {
        match self {
            DealStep::Approve { ctx, at, tip_amount } => DealStep::Approve {
                ctx: ApproveAndRelease { config: Account { data: config, ..ctx.config }, ..ctx },
                at,
                tip_amount,
            },
            DealStep::Timeout { ctx, at, now } => DealStep::Timeout {
                ctx: ReleaseAfterTimeout { config: Account { data: config, ..ctx.config }, ..ctx },
                at,
                now,
            },
            DealStep::Refund { ctx, at, now } => DealStep::Refund {
                ctx: RefundUndelivered { config: Account { data: config, ..ctx.config }, ..ctx },
                at,
                now,
            },
            DealStep::Resolve { ctx, at, seller_bps } => DealStep::Resolve {
                ctx: ResolveDispute { config: Account { data: config, ..ctx.config }, ..ctx },
                at,
                seller_bps,
            },
            other => other,
        }
    }
}

/// A delivery is a step.
pub proof fn lemma_delivery_is_a_step(
    before: MarkDelivered,
    after: MarkDelivered,
    address: Option<Seq<u8>>,
    now: i64,
    res: Result<Delivered, ProgramError>,
)
    requires
        mark_delivered_result(before, after, address, now, res),
    ensures
        ({
            let step = DealStep::Deliver { ctx: before, address, now };
            match res {
                Ok(s) => {
                    &&& step.accepted()
                    &&& step.actions().len() == 0
                    &&& after.escrow == (Account { data: step.after(), ..before.escrow })
                },
                Err(e) => step.fault() == Some(e) && after == before,
            }
        }),
{
}

/// An approval is a step.
pub proof fn lemma_approval_is_a_step(
    before: ApproveAndRelease,
    after: ApproveAndRelease,
    at: AddressSet,
    tip_amount: u64,
    res: Result<Settlement<Released>, ProgramError>,
)
    requires
        approve_and_release_result(before, after, at, tip_amount, res),
    ensures
        ({
            let step = DealStep::Approve { ctx: before, at, tip_amount };
            match res {
                Ok(s) => {
                    &&& step.accepted()
                    &&& s.actions@ == step.actions()
                    &&& after.escrow == (Account { data: step.after(), ..before.escrow })
                },
                Err(e) => step.fault() == Some(e) && after == before,
            }
        }),
{
}

/// A release after the review period is a step.
pub proof fn lemma_timeout_is_a_step(
    before: ReleaseAfterTimeout,
    after: ReleaseAfterTimeout,
    at: AddressSet,
    now: i64,
    res: Result<Settlement<Released>, ProgramError>,
)
    requires
        release_after_timeout_result(before, after, at, now, res),
    ensures
        ({
            let step = DealStep::Timeout { ctx: before, at, now };
            match res {
                Ok(s) => {
                    &&& step.accepted()
                    &&& s.actions@ == step.actions()
                    &&& after.escrow == (Account { data: step.after(), ..before.escrow })
                },
                Err(e) => step.fault() == Some(e) && after == before,
            }
        }),
{
}

/// A refund is a step.
pub proof fn lemma_refund_is_a_step(
    before: RefundUndelivered,
    after: RefundUndelivered,
    at: AddressSet,
    now: i64,
    res: Result<Settlement<Refunded>, ProgramError>,
)
    requires
        refund_undelivered_result(before, after, at, now, res),
    ensures
        ({
            let step = DealStep::Refund { ctx: before, at, now };
            match res {
                Ok(s) => {
                    &&& step.accepted()
                    &&& s.actions@ == step.actions()
                    &&& after.escrow == (Account { data: step.after(), ..before.escrow })
                },
                Err(e) => step.fault() == Some(e) && after == before,
            }
        }),
{
}

/// The opening of a dispute is a step.
pub proof fn lemma_dispute_is_a_step(
    before: OpenDispute,
    after: OpenDispute,
    address: Option<Seq<u8>>,
    now: i64,
    res: Result<DisputeOpened, ProgramError>,
)
    requires
        open_dispute_result(before, after, address, now, res),
    ensures
        ({
            let step = DealStep::Dispute { ctx: before, address, now };
            match res {
                Ok(s) => {
                    &&& step.accepted()
                    &&& step.actions().len() == 0
                    &&& after.escrow == (Account { data: step.after(), ..before.escrow })
                },
                Err(e) => step.fault() == Some(e) && after == before,
            }
        }),
{
}

/// A decision is a step.
pub proof fn lemma_decision_is_a_step(
    before: ResolveDispute,
    after: ResolveDispute,
    at: AddressSet,
    seller_bps: u16,
    res: Result<Settlement<DisputeResolved>, ProgramError>,
)
    requires
        resolve_dispute_result(before, after, at, seller_bps, res),
    ensures
        ({
            let step = DealStep::Resolve { ctx: before, at, seller_bps };
            match res {
                Ok(s) => {
                    &&& step.accepted()
                    &&& s.actions@ == step.actions()
                    &&& after.escrow == (Account { data: step.after(), ..before.escrow })
                },
                Err(e) => step.fault() == Some(e) && after == before,
            }
        }),
{
}

/// The moves that the life of a deal consists of.
pub open spec fn status_may_become(from: EscrowStatus, to: EscrowStatus) -> bool {
    match from {
        EscrowStatus::Funded => to is Delivered || to is Refunded,
        EscrowStatus::Delivered => to is Released || to is Disputed,
        EscrowStatus::Disputed => to is Released || to is Refunded || to is Split,
        EscrowStatus::Released => false,
        EscrowStatus::Refunded => false,
        EscrowStatus::Split => false,
    }
}

/// Accepted steps on the deal at `key` with the vault at `vault`, each on what
/// the one before it left.
pub open spec fn is_history(
    key: Pubkey,
    vault: Pubkey,
    start: Escrow,
    steps: Seq<DealStep>,
) -> bool
    decreases steps.len(),
{
    if steps.len() == 0 {
        true
    } else {
        let step = steps.last();
        &&& is_history(key, vault, start, steps.drop_last())
        &&& step.accepted()
        &&& step.account().key == key
        &&& step.vault() matches Some(account) ==> account.key == vault
        &&& step.before() == state_after(start, steps.drop_last())
    }
}

/// The deal after the steps.
pub open spec fn state_after(start: Escrow, steps: Seq<DealStep>) -> Escrow {
    if steps.len() == 0 {
        start
    } else {
        steps.last().after()
    }
}

/// Any instruction of the program, by what it has the ledger do.
#[allow(inconsistent_fields)]
pub enum Instruction {
    Initialize { program_id: Pubkey, ctx: InitializeConfig },
    Update { ctx: UpdateConfig },
    Create { program_id: Pubkey, ctx: CreateAndFund, amount: u64 },
    Step(DealStep),
}

impl Instruction {
    /// What the instruction has the ledger do, where it is accepted.
    pub open spec fn actions(self) -> Seq<Action> {
        match self {
            Instruction::Initialize { program_id, ctx } => initialize_config_actions(
                program_id,
                ctx,
            ),
            Instruction::Update { .. } => seq![],
            Instruction::Create { program_id, ctx, amount } => create_and_fund_actions(
                program_id,
                ctx,
                amount,
            ),
            Instruction::Step(step) => step.actions(),
        }
    }

    /// Whether the instruction, if it is a step of a deal, is accepted and of
    /// the deal at `key` or of one that has its vault elsewhere.
    pub open spec fn may_follow(self, key: Pubkey) -> bool {
        self matches Instruction::Step(step) ==> {
            &&& step.accepted()
            &&& step.account().key == key || (step.vault() matches Some(vault) ==> vault.key
                != key)
        }
    }
}

/// What the instructions have the ledger do, one after the other.
pub open spec fn all_actions(instructions: Seq<Instruction>) -> Seq<Action>
    decreases instructions.len(),
{
    if instructions.len() == 0 {
        Seq::empty()
    } else {
        all_actions(instructions.drop_last()) + instructions.last().actions()
    }
}

/// Whether each of the instructions may follow the creation of the deal at
/// `key`.
pub open spec fn may_all_follow(instructions: Seq<Instruction>, key: Pubkey) -> bool {
    forall|i: int| 0 <= i < instructions.len() ==> (#[trigger] instructions[i]).may_follow(key)
}

/// The tokens that the steps take out of an account.
pub open spec fn total_outflow(steps: Seq<DealStep>, account: Pubkey) -> int
    decreases steps.len(),
{
    if steps.len() == 0 {
        0
    } else {
        total_outflow(steps.drop_last(), account) + outflow(steps.last().actions(), account)
    }
}

} // verus!
