//! Asset descriptors and the movement directives that transfer them.
use vstd::prelude::*;

verus! {

/// An amount of one denomination, as attached to a call.
#[derive(Clone, Debug, PartialEq, Eq)]
pub struct Coin {
    pub denom: String,
    pub amount: u128,
}

/// How an asset moves: natively on the host ledger, or through the token
/// contract that manages it.
#[derive(Clone, Copy, Debug, PartialEq, Eq, Structural)]
pub enum AssetKind {
    Native,
    Managed,
}

/// An amount of one asset. `identifier` is the denomination of a native
/// asset or the address of the contract that manages a token.
#[derive(Clone, Debug)]
pub struct Asset {
    pub kind: AssetKind,
    pub identifier: String,
    pub amount: u128,
}

/// The mathematical form of an [`Asset`].
pub struct AssetView {
    pub kind: AssetKind,
    pub identifier: Seq<char>,
    pub amount: u128,
}

impl View for Asset {
    type V = AssetView;

    open spec fn view(&self) -> AssetView {
        AssetView { kind: self.kind, identifier: self.identifier@, amount: self.amount }
    }
}

/// The amount of the first coin of denomination `denom` among `funds`, or
/// zero where there is none.
pub open spec fn attached_amount(funds: Seq<Coin>, denom: Seq<char>) -> u128
    decreases funds.len(),
{
    if funds.len() == 0 {
        0
    } else if funds[0].denom@ == denom {
        funds[0].amount
    } else {
        attached_amount(funds.drop_first(), denom)
    }
}

/// How much of `denom` is attached among `funds`.
pub fn attached(funds: &Vec<Coin>, denom: &String) -> (r: u128)
    ensures
        r == attached_amount(funds@, denom@),
{
    let mut i: usize = 0;
    assert(funds@.subrange(0, funds.len() as int) =~= funds@);
    while i < funds.len()
        invariant
            i <= funds.len(),
            attached_amount(funds@, denom@) == attached_amount(
                funds@.subrange(i as int, funds.len() as int),
                denom@,
            ),
        decreases funds.len() - i,
    {
        if funds[i].denom == *denom {
            return funds[i].amount;
        }
        proof {
            assert(funds@.subrange(i as int, funds.len() as int).drop_first() =~= funds@.subrange(
                i + 1,
                funds.len() as int,
            ));
        }
        i = i + 1;
    }
    proof {
        assert(funds@.subrange(i as int, funds.len() as int) =~= Seq::<Coin>::empty());
    }
    0
}

/// An instruction to a managed token's contract.
#[derive(Clone, Debug, PartialEq, Eq)]
pub enum TokenInstruction {
    /// Move tokens that this contract holds.
    Transfer { recipient: String, amount: u128 },
    /// Move tokens that `owner` has allowed this contract to spend.
    TransferFrom { owner: String, recipient: String, amount: u128 },
}

/// A transfer that the host ledger is to perform; it is produced, never
/// executed, by this library.
#[derive(Clone, Debug, PartialEq, Eq)]
pub enum Movement {
    /// A direct transfer of a native asset out of this contract's custody.
    Send { to: String, denom: String, amount: u128 },
    /// A delegated call to the contract that manages a token.
    Execute { contract: String, instruction: TokenInstruction },
}

/// The mathematical form of a [`TokenInstruction`].
pub enum InstructionView {
    Transfer { recipient: Seq<char>, amount: u128 },
    TransferFrom { owner: Seq<char>, recipient: Seq<char>, amount: u128 },
}

/// The mathematical form of a [`Movement`].
pub enum MovementView {
    Send { to: Seq<char>, denom: Seq<char>, amount: u128 },
    Execute { contract: Seq<char>, instruction: InstructionView },
}

impl View for TokenInstruction {
    type V = InstructionView;

    open spec fn view(&self) -> InstructionView {
        match self {
            TokenInstruction::Transfer { recipient, amount } => InstructionView::Transfer {
                recipient: recipient@,
                amount: *amount,
            },
            TokenInstruction::TransferFrom { owner, recipient, amount } =>
                InstructionView::TransferFrom { owner: owner@, recipient: recipient@, amount: *amount },
        }
    }
}

impl View for Movement {
    type V = MovementView;

    open spec fn view(&self) -> MovementView {
        match self {
            Movement::Send { to, denom, amount } => MovementView::Send {
                to: to@,
                denom: denom@,
                amount: *amount,
            },
            Movement::Execute { contract, instruction } => MovementView::Execute {
                contract: contract@,
                instruction: instruction@,
            },
        }
    }
}

/// The views of a list of movements.
pub open spec fn movements_view(ms: Seq<Movement>) -> Seq<MovementView> {
    ms.map_values(|m: Movement| m@)
}

/// Moves `amount` of an asset held in custody by this contract to `to`.
pub open spec fn released(
    kind: AssetKind,
    identifier: Seq<char>,
    to: Seq<char>,
    amount: u128,
) -> MovementView {
    match kind {
        AssetKind::Native => MovementView::Send { to, denom: identifier, amount },
        AssetKind::Managed => MovementView::Execute {
            contract: identifier,
            instruction: InstructionView::Transfer { recipient: to, amount },
        },
    }
}

/// Moves `amount` of an asset paid by `payer` to `to`. A native payment is
/// attached to the call and so already in custody; a managed one is drawn
/// from the payer's allowance.
pub open spec fn collected(
    kind: AssetKind,
    identifier: Seq<char>,
    payer: Seq<char>,
    to: Seq<char>,
    amount: u128,
) -> MovementView {
    match kind {
        AssetKind::Native => MovementView::Send { to, denom: identifier, amount },
        AssetKind::Managed => MovementView::Execute {
            contract: identifier,
            instruction: InstructionView::TransferFrom { owner: payer, recipient: to, amount },
        },
    }
}

/// `ms` followed by `m`, unless `amount` is zero: a transfer of nothing is
/// left out.
pub open spec fn push_positive(ms: Seq<MovementView>, m: MovementView, amount: u128) -> Seq<
    MovementView,
> {
    if amount > 0 {
        ms.push(m)
    } else {
        ms
    }
}

/// The amount that a movement transfers.
pub open spec fn amount_moved(m: MovementView) -> u128 {
    match m {
        MovementView::Send { amount, .. } => amount,
        MovementView::Execute { instruction, .. } => match instruction {
            InstructionView::Transfer { amount, .. } => amount,
            InstructionView::TransferFrom { amount, .. } => amount,
        },
    }
}

/// The sum of the amounts that a list of movements transfers.
pub open spec fn total_moved(ms: Seq<MovementView>) -> int
    decreases ms.len(),
{
    if ms.len() == 0 {
        0
    } else {
        total_moved(ms.drop_last()) + amount_moved(ms.last())
    }
}

/// Leaving out a transfer of nothing does not change the total moved.
pub proof fn lemma_push_positive_total(ms: Seq<MovementView>, m: MovementView, amount: u128)
    requires
        amount_moved(m) == amount,
    ensures
        total_moved(push_positive(ms, m, amount)) == total_moved(ms) + amount,
{
    if amount > 0 {
        assert(ms.push(m).drop_last() =~= ms);
    }
}

impl Asset {
    /// A movement of `amount` of this asset, out of custody, to `to`.
    pub fn release(&self, to: &String, amount: u128) -> (m: Movement)
        ensures
            m@ == released(self.kind, self.identifier@, to@, amount),
    {
        match self.kind {
            AssetKind::Native => Movement::Send {
                to: to.clone(),
                denom: self.identifier.clone(),
                amount,
            },
            AssetKind::Managed => Movement::Execute {
                contract: self.identifier.clone(),
                instruction: TokenInstruction::Transfer { recipient: to.clone(), amount },
            },
        }
    }

    /// A movement of `amount` of this asset, paid by `payer`, to `to`.
    pub fn collect(&self, payer: &String, to: &String, amount: u128) -> (m: Movement)
        ensures
            m@ == collected(self.kind, self.identifier@, payer@, to@, amount),
    {
        match self.kind {
            AssetKind::Native => Movement::Send {
                to: to.clone(),
                denom: self.identifier.clone(),
                amount,
            },
            AssetKind::Managed => Movement::Execute {
                contract: self.identifier.clone(),
                instruction: TokenInstruction::TransferFrom {
                    owner: payer.clone(),
                    recipient: to.clone(),
                    amount,
                },
            },
        }
    }
}

/// Appends `m` to `ms` unless `amount` is zero.
pub fn push_if_positive(ms: &mut Vec<Movement>, m: Movement, amount: u128)
    ensures
        movements_view(final(ms)@) == push_positive(movements_view(old(ms)@), m@, amount),
{
    if amount > 0 {
        ms.push(m);
        proof {
            assert(movements_view(ms@) =~= movements_view(old(ms)@).push(m@));
        }
    }
}

} // verus!
