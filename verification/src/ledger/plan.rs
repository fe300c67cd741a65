//! The balance adjustments each ledger operation makes, in the order it
//! makes them, and the laws that relate them.

use vstd::prelude::*;
use crate::money::{Direction, Money};

verus! {

/// How a missing balance sheet is described in the error that reports it.
#[derive(Debug, Clone, Copy, PartialEq, Eq)]
pub enum SheetLabel {
    /// `Current sheet not found for asset <id>`
    Plain,
    /// `Current sheet for asset <id> not found`
    Asset,
    OldAsset,
    NewAsset,
    SourceAsset,
    DestinationAsset,
    OldSourceAsset,
    OldDestinationAsset,
    NewSourceAsset,
    NewDestinationAsset,
}

/// How an amount that could not be turned into a decimal is described in the
/// error that reports it (`Failed to convert <label> to Decimal`).
#[derive(Debug, Clone, Copy, PartialEq, Eq)]
pub enum AmountLabel {
    /// `amount`
    Amount,
    /// `balance change`
    BalanceChange,
    /// `old_amount`
    OldAmount,
    /// `new amount`
    NewAmountWords,
    /// `new_amount`
    NewAmount,
    /// `amount_to_add_back`
    AmountToAddBack,
    /// `amount_to_subtract`
    AmountToSubtract,
}

/// One move of one asset's balance. `amount` is `None` when the recorded
/// amount has no decimal form.
#[derive(Debug, Clone, Copy, PartialEq, Eq)]
pub struct Adjustment {
    pub asset: u128,
    pub direction: Direction,
    pub amount: Option<Money>,
    pub sheet: SheetLabel,
    pub label: AmountLabel,
}

/// The adjustment with the given parts.
pub open spec fn adj(
    asset: u128,
    direction: Direction,
    amount: Option<Money>,
    sheet: SheetLabel,
    label: AmountLabel,
) -> Adjustment {
    Adjustment { asset, direction, amount, sheet, label }
}

/// Recording a payment lowers its asset by its amount.
pub open spec fn payment_created(asset: u128, amount: Option<Money>) -> Seq<Adjustment> {
    seq![adj(asset, Direction::Decrease, amount, SheetLabel::Plain, AmountLabel::Amount)]
}

/// Deleting a payment gives its amount back to its asset.
pub open spec fn payment_deleted(asset: u128, amount: Option<Money>) -> Seq<Adjustment> {
    seq![adj(asset, Direction::Increase, amount, SheetLabel::Plain, AmountLabel::AmountToAddBack)]
}

/// Changing a payment: on the same asset the balance rises by `change`
/// (the old amount less the new one); otherwise the old asset gets the old
/// amount back and the new asset is lowered by the new amount.
pub open spec fn payment_updated(
    old_asset: u128,
    old_amount: Option<Money>,
    new_asset: u128,
    new_amount: Option<Money>,
    change: Option<Money>,
) -> Seq<Adjustment> {
    if old_asset == new_asset {
        seq![adj(new_asset, Direction::Increase, change, SheetLabel::Asset, AmountLabel::BalanceChange)]
    } else {
        seq![
            adj(old_asset, Direction::Increase, old_amount, SheetLabel::OldAsset, AmountLabel::OldAmount),
            adj(new_asset, Direction::Decrease, new_amount, SheetLabel::NewAsset, AmountLabel::NewAmountWords),
        ]
    }
}

/// Recording an income raises its asset by its amount.
pub open spec fn income_created(asset: u128, amount: Option<Money>) -> Seq<Adjustment> {
    seq![adj(asset, Direction::Increase, amount, SheetLabel::Plain, AmountLabel::Amount)]
}

/// Deleting an income takes its amount back from its asset.
pub open spec fn income_deleted(asset: u128, amount: Option<Money>) -> Seq<Adjustment> {
    seq![adj(asset, Direction::Decrease, amount, SheetLabel::Plain, AmountLabel::AmountToSubtract)]
}

/// Changing an income: on the same asset the balance rises by `change`
/// (the new amount less the old one); otherwise the old asset loses the old
/// amount and the new asset gains the new amount.
pub open spec fn income_updated(
    old_asset: u128,
    old_amount: Option<Money>,
    new_asset: u128,
    new_amount: Option<Money>,
    change: Option<Money>,
) -> Seq<Adjustment> {
    if old_asset == new_asset {
        seq![adj(new_asset, Direction::Increase, change, SheetLabel::Asset, AmountLabel::BalanceChange)]
    } else {
        seq![
            adj(old_asset, Direction::Decrease, old_amount, SheetLabel::OldAsset, AmountLabel::OldAmount),
            adj(new_asset, Direction::Increase, new_amount, SheetLabel::NewAsset, AmountLabel::NewAmountWords),
        ]
    }
}

/// Recording a transfer lowers the source and raises the destination by its
/// amount.
pub open spec fn transfer_created(
    source: u128,
    destination: u128,
    amount: Option<Money>,
) -> Seq<Adjustment> {
    seq![
        adj(source, Direction::Decrease, amount, SheetLabel::SourceAsset, AmountLabel::Amount),
        adj(destination, Direction::Increase, amount, SheetLabel::DestinationAsset, AmountLabel::Amount),
    ]
}

/// Deleting a transfer gives the amount back to the source and takes it from
/// the destination.
pub open spec fn transfer_deleted(
    source: u128,
    destination: u128,
    amount: Option<Money>,
) -> Seq<Adjustment> {
    seq![
        adj(source, Direction::Increase, amount, SheetLabel::SourceAsset, AmountLabel::Amount),
        adj(destination, Direction::Decrease, amount, SheetLabel::DestinationAsset, AmountLabel::Amount),
    ]
}

/// Changing a transfer reverts the old one on its two assets, then applies
/// the new one on its two assets.
pub open spec fn transfer_updated(
    old_source: u128,
    old_destination: u128,
    old_amount: Option<Money>,
    new_source: u128,
    new_destination: u128,
    new_amount: Option<Money>,
) -> Seq<Adjustment> {
    seq![
        adj(old_source, Direction::Increase, old_amount, SheetLabel::OldSourceAsset, AmountLabel::OldAmount),
        adj(old_destination, Direction::Decrease, old_amount, SheetLabel::OldDestinationAsset, AmountLabel::OldAmount),
        adj(new_source, Direction::Decrease, new_amount, SheetLabel::NewSourceAsset, AmountLabel::NewAmount),
        adj(new_destination, Direction::Increase, new_amount, SheetLabel::NewDestinationAsset, AmountLabel::NewAmount),
    ]
}

/// The signed value, in units of `10^-28`, by which an adjustment moves its
/// asset (nothing when it has no amount).
pub open spec fn signed_units(a: Adjustment) -> int {
    match a.amount {
        Some(m) => match a.direction {
            Direction::Increase => m.units(),
            Direction::Decrease => -m.units(),
        },
        None => 0,
    }
}

/// The net change the adjustments make to one asset's balance.
pub open spec fn net(plan: Seq<Adjustment>, asset: u128) -> int
    decreases plan.len(),
{
    if plan.len() == 0 {
        0
    } else {
        net(plan.drop_last(), asset) + if plan.last().asset == asset {
            signed_units(plan.last())
        } else {
            0
        }
    }
}

/// The net change the adjustments make to all balances together.
pub open spec fn total(plan: Seq<Adjustment>) -> int
    decreases plan.len(),
{
    if plan.len() == 0 {
        0
    } else {
        total(plan.drop_last()) + signed_units(plan.last())
    }
}

proof fn lemma_net_one(a: Adjustment, asset: u128)
    ensures
        net(seq![a], asset) == if a.asset == asset { signed_units(a) } else { 0 },
        total(seq![a]) == signed_units(a),
{
    let s = seq![a];
    assert(s.drop_last() =~= Seq::<Adjustment>::empty());
    assert(net(Seq::<Adjustment>::empty(), asset) == 0);
    assert(total(Seq::<Adjustment>::empty()) == 0);
    assert(s.last() == a);
    assert(net(s, asset) == net(s.drop_last(), asset) + (if a.asset == asset { signed_units(a) } else { 0 }));
    assert(total(s) == total(s.drop_last()) + signed_units(a));
}

proof fn lemma_net_two(a: Adjustment, b: Adjustment, asset: u128)
    ensures
        net(seq![a, b], asset) == (if a.asset == asset { signed_units(a) } else { 0 }) + (if b.asset
            == asset {
            signed_units(b)
        } else {
            0
        }),
        total(seq![a, b]) == signed_units(a) + signed_units(b),
{
    assert(seq![a, b].drop_last() =~= seq![a]);
    lemma_net_one(a, asset);
}

proof fn lemma_net_four(a: Adjustment, b: Adjustment, c: Adjustment, d: Adjustment, asset: u128)
    ensures
        net(seq![a, b, c, d], asset) == net(seq![a, b], asset) + net(seq![c, d], asset),
        total(seq![a, b, c, d]) == signed_units(a) + signed_units(b) + signed_units(c)
            + signed_units(d),
{
    let s4 = seq![a, b, c, d];
    let s3 = seq![a, b, c];
    assert(s4.drop_last() =~= s3);
    assert(s3.drop_last() =~= seq![a, b]);
    lemma_net_two(a, b, asset);
    lemma_net_two(c, d, asset);
    assert(net(s3, asset) == net(seq![a, b], asset) + (if c.asset == asset { signed_units(c) } else { 0 }));
    assert(net(s4, asset) == net(s3, asset) + (if d.asset == asset { signed_units(d) } else { 0 }));
    assert(total(s3) == total(seq![a, b]) + signed_units(c));
    assert(total(s4) == total(s3) + signed_units(d));
}

/// A payment lowers its asset by its amount and touches no other asset; an
/// income raises its asset by its amount and touches no other asset.
pub proof fn law_payment_lowers_income_raises(asset: u128, amount: Money, other: u128)
    requires
        other != asset,
    ensures
        net(payment_created(asset, Some(amount)), asset) == -amount.units(),
        net(payment_created(asset, Some(amount)), other) == 0,
        net(income_created(asset, Some(amount)), asset) == amount.units(),
        net(income_created(asset, Some(amount)), other) == 0,
{
    lemma_net_one(payment_created(asset, Some(amount))[0], asset);
    lemma_net_one(payment_created(asset, Some(amount))[0], other);
    lemma_net_one(income_created(asset, Some(amount))[0], asset);
    lemma_net_one(income_created(asset, Some(amount))[0], other);
}

/// Deleting a payment, an income or a transfer undoes, on every asset, what
/// recording it did.
pub proof fn law_delete_undoes_create(
    asset: u128,
    destination: u128,
    amount: Option<Money>,
    any: u128,
)
    ensures
        net(payment_created(asset, amount), any) + net(payment_deleted(asset, amount), any) == 0,
        net(income_created(asset, amount), any) + net(income_deleted(asset, amount), any) == 0,
        net(transfer_created(asset, destination, amount), any) + net(
            transfer_deleted(asset, destination, amount),
            any,
        ) == 0,
{
    lemma_net_one(payment_created(asset, amount)[0], any);
    lemma_net_one(payment_deleted(asset, amount)[0], any);
    lemma_net_one(income_created(asset, amount)[0], any);
    lemma_net_one(income_deleted(asset, amount)[0], any);
    let tc = transfer_created(asset, destination, amount);
    let td = transfer_deleted(asset, destination, amount);
    lemma_net_two(tc[0], tc[1], any);
    lemma_net_two(td[0], td[1], any);
    assert(tc =~= seq![tc[0], tc[1]]);
    assert(td =~= seq![td[0], td[1]]);
}

/// A transfer only moves money between assets: recording, changing or
/// deleting one leaves the sum of all balances unchanged.
pub proof fn law_transfer_conserves_total(
    old_source: u128,
    old_destination: u128,
    old_amount: Option<Money>,
    new_source: u128,
    new_destination: u128,
    new_amount: Option<Money>,
)
    ensures
        total(transfer_created(new_source, new_destination, new_amount)) == 0,
        total(transfer_deleted(old_source, old_destination, old_amount)) == 0,
        total(
            transfer_updated(
                old_source,
                old_destination,
                old_amount,
                new_source,
                new_destination,
                new_amount,
            ),
        ) == 0,
{
    let tc = transfer_created(new_source, new_destination, new_amount);
    let td = transfer_deleted(old_source, old_destination, old_amount);
    let tu = transfer_updated(old_source, old_destination, old_amount, new_source, new_destination, new_amount);
    lemma_net_two(tc[0], tc[1], new_source);
    lemma_net_two(td[0], td[1], old_source);
    lemma_net_four(tu[0], tu[1], tu[2], tu[3], old_source);
    assert(tc =~= seq![tc[0], tc[1]]);
    assert(td =~= seq![td[0], td[1]]);
    assert(tu =~= seq![tu[0], tu[1], tu[2], tu[3]]);
}

/// Changing a transfer has, on every asset, the effect of deleting the old
/// transfer and recording the new one.
pub proof fn law_transfer_update_is_delete_then_create(
    old_source: u128,
    old_destination: u128,
    old_amount: Option<Money>,
    new_source: u128,
    new_destination: u128,
    new_amount: Option<Money>,
    any: u128,
)
    ensures
        net(
            transfer_updated(
                old_source,
                old_destination,
                old_amount,
                new_source,
                new_destination,
                new_amount,
            ),
            any,
        ) == net(transfer_deleted(old_source, old_destination, old_amount), any) + net(
            transfer_created(new_source, new_destination, new_amount),
            any,
        ),
{
    let tc = transfer_created(new_source, new_destination, new_amount);
    let td = transfer_deleted(old_source, old_destination, old_amount);
    let tu = transfer_updated(old_source, old_destination, old_amount, new_source, new_destination, new_amount);
    lemma_net_two(tc[0], tc[1], any);
    lemma_net_two(td[0], td[1], any);
    lemma_net_two(tu[0], tu[1], any);
    lemma_net_two(tu[2], tu[3], any);
    lemma_net_four(tu[0], tu[1], tu[2], tu[3], any);
    assert(tc =~= seq![tc[0], tc[1]]);
    assert(td =~= seq![td[0], td[1]]);
    assert(tu =~= seq![tu[0], tu[1], tu[2], tu[3]]);
}

/// Changing a payment or an income has, on every asset, the effect of
/// deleting the old record and recording the new one, provided that on an
/// unchanged asset the change handed in is exactly the difference of the two
/// amounts (old less new for a payment, new less old for an income).
pub proof fn law_update_is_delete_then_create(
    old_asset: u128,
    old_amount: Money,
    new_asset: u128,
    new_amount: Money,
    payment_change: Money,
    income_change: Money,
    any: u128,
)
    requires
        old_asset == new_asset ==> payment_change.units() == old_amount.units()
            - new_amount.units(),
        old_asset == new_asset ==> income_change.units() == new_amount.units()
            - old_amount.units(),
    ensures
        net(
            payment_updated(
                old_asset,
                Some(old_amount),
                new_asset,
                Some(new_amount),
                Some(payment_change),
            ),
            any,
        ) == net(payment_deleted(old_asset, Some(old_amount)), any) + net(
            payment_created(new_asset, Some(new_amount)),
            any,
        ),
        net(
            income_updated(
                old_asset,
                Some(old_amount),
                new_asset,
                Some(new_amount),
                Some(income_change),
            ),
            any,
        ) == net(income_deleted(old_asset, Some(old_amount)), any) + net(
            income_created(new_asset, Some(new_amount)),
            any,
        ),
{
    let pu = payment_updated(old_asset, Some(old_amount), new_asset, Some(new_amount), Some(payment_change));
    let iu = income_updated(old_asset, Some(old_amount), new_asset, Some(new_amount), Some(income_change));
    lemma_net_one(payment_deleted(old_asset, Some(old_amount))[0], any);
    lemma_net_one(payment_created(new_asset, Some(new_amount))[0], any);
    lemma_net_one(income_deleted(old_asset, Some(old_amount))[0], any);
    lemma_net_one(income_created(new_asset, Some(new_amount))[0], any);
    if old_asset == new_asset {
        lemma_net_one(pu[0], any);
        lemma_net_one(iu[0], any);
    } else {
        lemma_net_two(pu[0], pu[1], any);
        lemma_net_two(iu[0], iu[1], any);
        assert(pu =~= seq![pu[0], pu[1]]);
        assert(iu =~= seq![iu[0], iu[1]]);
    }
}

/// The balances, in units of `10^-28`, after the adjustments are made one
/// after another on the balances `start`: each adjustment moves its asset's
/// balance by its signed amount, as `LedgerRun::on_sheet` writes it whenever
/// the exact result fits a decimal.
pub open spec fn applied(plan: Seq<Adjustment>, start: spec_fn(u128) -> int) -> spec_fn(u128) -> int
    decreases plan.len(),
{
    if plan.len() == 0 {
        start
    } else {
        let before = applied(plan.drop_last(), start);
        let last = plan.last();
        |a: u128| before(a) + if last.asset == a { signed_units(last) } else { 0 }
    }
}

/// Making the adjustments moves each balance by the plan's net change on it.
pub proof fn lemma_applied_is_net(plan: Seq<Adjustment>, start: spec_fn(u128) -> int, asset: u128)
    ensures
        applied(plan, start)(asset) == start(asset) + net(plan, asset),
    decreases plan.len(),
{
    if plan.len() > 0 {
        lemma_applied_is_net(plan.drop_last(), start, asset);
    }
}

/// Recording a payment, an income or a transfer and then deleting it leaves
/// every stored balance as it was.
pub proof fn law_stored_delete_undoes_create(
    asset: u128,
    destination: u128,
    amount: Option<Money>,
    start: spec_fn(u128) -> int,
    any: u128,
)
    ensures
        applied(payment_deleted(asset, amount), applied(payment_created(asset, amount), start))(any)
            == start(any),
        applied(income_deleted(asset, amount), applied(income_created(asset, amount), start))(any)
            == start(any),
        applied(
            transfer_deleted(asset, destination, amount),
            applied(transfer_created(asset, destination, amount), start),
        )(any) == start(any),
{
    law_delete_undoes_create(asset, destination, amount, any);
    let pc = applied(payment_created(asset, amount), start);
    lemma_applied_is_net(payment_created(asset, amount), start, any);
    lemma_applied_is_net(payment_deleted(asset, amount), pc, any);
    let ic = applied(income_created(asset, amount), start);
    lemma_applied_is_net(income_created(asset, amount), start, any);
    lemma_applied_is_net(income_deleted(asset, amount), ic, any);
    let tc = applied(transfer_created(asset, destination, amount), start);
    lemma_applied_is_net(transfer_created(asset, destination, amount), start, any);
    lemma_applied_is_net(transfer_deleted(asset, destination, amount), tc, any);
}

/// Changing a payment or an income leaves every stored balance as deleting
/// the old record and recording the new one would, provided that on an
/// unchanged asset the change handed in is exactly the difference of the two
/// amounts.
pub proof fn law_stored_update_is_delete_then_create(
    old_asset: u128,
    old_amount: Money,
    new_asset: u128,
    new_amount: Money,
    payment_change: Money,
    income_change: Money,
    start: spec_fn(u128) -> int,
    any: u128,
)
    requires
        old_asset == new_asset ==> payment_change.units() == old_amount.units()
            - new_amount.units(),
        old_asset == new_asset ==> income_change.units() == new_amount.units()
            - old_amount.units(),
    ensures
        applied(
            payment_updated(old_asset, Some(old_amount), new_asset, Some(new_amount), Some(payment_change)),
            start,
        )(any) == applied(
            payment_created(new_asset, Some(new_amount)),
            applied(payment_deleted(old_asset, Some(old_amount)), start),
        )(any),
        applied(
            income_updated(old_asset, Some(old_amount), new_asset, Some(new_amount), Some(income_change)),
            start,
        )(any) == applied(
            income_created(new_asset, Some(new_amount)),
            applied(income_deleted(old_asset, Some(old_amount)), start),
        )(any),
{
    law_update_is_delete_then_create(
        old_asset,
        old_amount,
        new_asset,
        new_amount,
        payment_change,
        income_change,
        any,
    );
    let pu = payment_updated(old_asset, Some(old_amount), new_asset, Some(new_amount), Some(payment_change));
    let pd = payment_deleted(old_asset, Some(old_amount));
    let pc = payment_created(new_asset, Some(new_amount));
    lemma_applied_is_net(pu, start, any);
    lemma_applied_is_net(pd, start, any);
    lemma_applied_is_net(pc, applied(pd, start), any);
    let iu = income_updated(old_asset, Some(old_amount), new_asset, Some(new_amount), Some(income_change));
    let id = income_deleted(old_asset, Some(old_amount));
    let ic = income_created(new_asset, Some(new_amount));
    lemma_applied_is_net(iu, start, any);
    lemma_applied_is_net(id, start, any);
    lemma_applied_is_net(ic, applied(id, start), any);
}

/// Changing a transfer leaves every stored balance as deleting the old
/// transfer and recording the new one would.
pub proof fn law_stored_transfer_update_is_delete_then_create(
    old_source: u128,
    old_destination: u128,
    old_amount: Option<Money>,
    new_source: u128,
    new_destination: u128,
    new_amount: Option<Money>,
    start: spec_fn(u128) -> int,
    any: u128,
)
    ensures
        applied(
            transfer_updated(old_source, old_destination, old_amount, new_source, new_destination, new_amount),
            start,
        )(any) == applied(
            transfer_created(new_source, new_destination, new_amount),
            applied(transfer_deleted(old_source, old_destination, old_amount), start),
        )(any),
{
    law_transfer_update_is_delete_then_create(
        old_source,
        old_destination,
        old_amount,
        new_source,
        new_destination,
        new_amount,
        any,
    );
    let tu = transfer_updated(old_source, old_destination, old_amount, new_source, new_destination, new_amount);
    let td = transfer_deleted(old_source, old_destination, old_amount);
    let tc = transfer_created(new_source, new_destination, new_amount);
    lemma_applied_is_net(tu, start, any);
    lemma_applied_is_net(td, start, any);
    lemma_applied_is_net(tc, applied(td, start), any);
}

/// The value, in units of `10^-28`, of an amount (nothing when it has no
/// decimal form).
pub open spec fn amount_units(amount: Option<Money>) -> int {
    match amount {
        Some(m) => m.units(),
        None => 0,
    }
}

/// What a payment of `amount` on `asset` does to the balance of `x`: it
/// lowers its own asset by the amount and leaves every other asset alone.
pub open spec fn payment_effect(asset: u128, amount: Option<Money>, x: u128) -> int {
    if x == asset {
        -amount_units(amount)
    } else {
        0
    }
}

/// What an income of `amount` on `asset` does to the balance of `x`: it
/// raises its own asset by the amount and leaves every other asset alone.
pub open spec fn income_effect(asset: u128, amount: Option<Money>, x: u128) -> int {
    if x == asset {
        amount_units(amount)
    } else {
        0
    }
}

/// What a transfer of `amount` from `source` to `destination` does to the
/// balance of `x`: the source gives the amount and the destination gets it.
pub open spec fn transfer_effect(source: u128, destination: u128, amount: Option<Money>, x: u128) -> int {
    (if x == destination {
        amount_units(amount)
    } else {
        0
    }) - (if x == source {
        amount_units(amount)
    } else {
        0
    })
}

/// Each plan moves every balance as the entry it records or deletes does:
/// recording a payment lowers its asset by its amount, recording an income
/// raises its asset by its amount, recording a transfer moves the amount from
/// the source to the destination; deleting undoes exactly that; changing a
/// transfer undoes the old one and makes the new one.
pub proof fn law_plans_move_balances_as_entries_do(
    asset: u128,
    source: u128,
    destination: u128,
    amount: Option<Money>,
    new_source: u128,
    new_destination: u128,
    new_amount: Option<Money>,
    x: u128,
)
    ensures
        net(payment_created(asset, amount), x) == payment_effect(asset, amount, x),
        net(payment_deleted(asset, amount), x) == -payment_effect(asset, amount, x),
        net(income_created(asset, amount), x) == income_effect(asset, amount, x),
        net(income_deleted(asset, amount), x) == -income_effect(asset, amount, x),
        net(transfer_created(source, destination, amount), x) == transfer_effect(
            source,
            destination,
            amount,
            x,
        ),
        net(transfer_deleted(source, destination, amount), x) == -transfer_effect(
            source,
            destination,
            amount,
            x,
        ),
        net(transfer_updated(source, destination, amount, new_source, new_destination, new_amount), x)
            == transfer_effect(new_source, new_destination, new_amount, x) - transfer_effect(
            source,
            destination,
            amount,
            x,
        ),
{
    lemma_net_one(payment_created(asset, amount)[0], x);
    lemma_net_one(payment_deleted(asset, amount)[0], x);
    lemma_net_one(income_created(asset, amount)[0], x);
    lemma_net_one(income_deleted(asset, amount)[0], x);
    let tc = transfer_created(source, destination, amount);
    let td = transfer_deleted(source, destination, amount);
    let tu = transfer_updated(source, destination, amount, new_source, new_destination, new_amount);
    lemma_net_two(tc[0], tc[1], x);
    lemma_net_two(td[0], td[1], x);
    lemma_net_two(tu[0], tu[1], x);
    lemma_net_two(tu[2], tu[3], x);
    lemma_net_four(tu[0], tu[1], tu[2], tu[3], x);
    assert(tc =~= seq![tc[0], tc[1]]);
    assert(td =~= seq![td[0], td[1]]);
    assert(tu =~= seq![tu[0], tu[1], tu[2], tu[3]]);
}

/// Changing a payment moves every balance by undoing the old payment and
/// making the new one; changing an income likewise. On an unchanged asset
/// this holds when the change handed in is the exact difference of the two
/// amounts (old less new for a payment, new less old for an income).
pub proof fn law_changes_move_balances_as_entries_do(
    old_asset: u128,
    old_amount: Option<Money>,
    new_asset: u128,
    new_amount: Option<Money>,
    payment_change: Option<Money>,
    income_change: Option<Money>,
    x: u128,
)
    ensures
        (old_asset == new_asset ==> amount_units(payment_change) == amount_units(old_amount)
            - amount_units(new_amount)) ==> net(
            payment_updated(old_asset, old_amount, new_asset, new_amount, payment_change),
            x,
        ) == payment_effect(new_asset, new_amount, x) - payment_effect(old_asset, old_amount, x),
        (old_asset == new_asset ==> amount_units(income_change) == amount_units(new_amount)
            - amount_units(old_amount)) ==> net(
            income_updated(old_asset, old_amount, new_asset, new_amount, income_change),
            x,
        ) == income_effect(new_asset, new_amount, x) - income_effect(old_asset, old_amount, x),
{
    let pu = payment_updated(old_asset, old_amount, new_asset, new_amount, payment_change);
    let iu = income_updated(old_asset, old_amount, new_asset, new_amount, income_change);
    if old_asset == new_asset {
        lemma_net_one(pu[0], x);
        lemma_net_one(iu[0], x);
    } else {
        lemma_net_two(pu[0], pu[1], x);
        lemma_net_two(iu[0], iu[1], x);
        assert(pu =~= seq![pu[0], pu[1]]);
        assert(iu =~= seq![iu[0], iu[1]]);
    }
}

/// The adjustments of recording a payment.
pub fn plan_payment_created(asset: u128, amount: Option<Money>) -> (r: Vec<Adjustment>)
    ensures
        r@ == payment_created(asset, amount),
{
    vec![Adjustment { asset, direction: Direction::Decrease, amount, sheet: SheetLabel::Plain, label: AmountLabel::Amount }]
}

/// The adjustments of deleting a payment.
pub fn plan_payment_deleted(asset: u128, amount: Option<Money>) -> (r: Vec<Adjustment>)
    ensures
        r@ == payment_deleted(asset, amount),
{
    vec![Adjustment { asset, direction: Direction::Increase, amount, sheet: SheetLabel::Plain, label: AmountLabel::AmountToAddBack }]
}

/// The adjustments of changing a payment.
pub fn plan_payment_updated(
    old_asset: u128,
    old_amount: Option<Money>,
    new_asset: u128,
    new_amount: Option<Money>,
    change: Option<Money>,
) -> (r: Vec<Adjustment>)
    ensures
        r@ == payment_updated(old_asset, old_amount, new_asset, new_amount, change),
{
    if old_asset == new_asset {
        vec![Adjustment { asset: new_asset, direction: Direction::Increase, amount: change, sheet: SheetLabel::Asset, label: AmountLabel::BalanceChange }]
    } else {
        vec![
            Adjustment { asset: old_asset, direction: Direction::Increase, amount: old_amount, sheet: SheetLabel::OldAsset, label: AmountLabel::OldAmount },
            Adjustment { asset: new_asset, direction: Direction::Decrease, amount: new_amount, sheet: SheetLabel::NewAsset, label: AmountLabel::NewAmountWords },
        ]
    }
}

/// The adjustments of recording an income.
pub fn plan_income_created(asset: u128, amount: Option<Money>) -> (r: Vec<Adjustment>)
    ensures
        r@ == income_created(asset, amount),
{
    vec![Adjustment { asset, direction: Direction::Increase, amount, sheet: SheetLabel::Plain, label: AmountLabel::Amount }]
}

/// The adjustments of deleting an income.
pub fn plan_income_deleted(asset: u128, amount: Option<Money>) -> (r: Vec<Adjustment>)
    ensures
        r@ == income_deleted(asset, amount),
{
    vec![Adjustment { asset, direction: Direction::Decrease, amount, sheet: SheetLabel::Plain, label: AmountLabel::AmountToSubtract }]
}

/// The adjustments of changing an income.
pub fn plan_income_updated(
    old_asset: u128,
    old_amount: Option<Money>,
    new_asset: u128,
    new_amount: Option<Money>,
    change: Option<Money>,
) -> (r: Vec<Adjustment>)
    ensures
        r@ == income_updated(old_asset, old_amount, new_asset, new_amount, change),
{
    if old_asset == new_asset {
        vec![Adjustment { asset: new_asset, direction: Direction::Increase, amount: change, sheet: SheetLabel::Asset, label: AmountLabel::BalanceChange }]
    } else {
        vec![
            Adjustment { asset: old_asset, direction: Direction::Decrease, amount: old_amount, sheet: SheetLabel::OldAsset, label: AmountLabel::OldAmount },
            Adjustment { asset: new_asset, direction: Direction::Increase, amount: new_amount, sheet: SheetLabel::NewAsset, label: AmountLabel::NewAmountWords },
        ]
    }
}

/// The adjustments of recording a transfer.
pub fn plan_transfer_created(source: u128, destination: u128, amount: Option<Money>) -> (r: Vec<
    Adjustment,
>)
    ensures
        r@ == transfer_created(source, destination, amount),
{
    vec![
        Adjustment { asset: source, direction: Direction::Decrease, amount, sheet: SheetLabel::SourceAsset, label: AmountLabel::Amount },
        Adjustment { asset: destination, direction: Direction::Increase, amount, sheet: SheetLabel::DestinationAsset, label: AmountLabel::Amount },
    ]
}

/// The adjustments of deleting a transfer.
pub fn plan_transfer_deleted(source: u128, destination: u128, amount: Option<Money>) -> (r: Vec<
    Adjustment,
>)
    ensures
        r@ == transfer_deleted(source, destination, amount),
{
    vec![
        Adjustment { asset: source, direction: Direction::Increase, amount, sheet: SheetLabel::SourceAsset, label: AmountLabel::Amount },
        Adjustment { asset: destination, direction: Direction::Decrease, amount, sheet: SheetLabel::DestinationAsset, label: AmountLabel::Amount },
    ]
}

/// The adjustments of changing a transfer.
pub fn plan_transfer_updated(
    old_source: u128,
    old_destination: u128,
    old_amount: Option<Money>,
    new_source: u128,
    new_destination: u128,
    new_amount: Option<Money>,
) -> (r: Vec<Adjustment>)
    ensures
        r@ == transfer_updated(
            old_source,
            old_destination,
            old_amount,
            new_source,
            new_destination,
            new_amount,
        ),
{
    vec![
        Adjustment { asset: old_source, direction: Direction::Increase, amount: old_amount, sheet: SheetLabel::OldSourceAsset, label: AmountLabel::OldAmount },
        Adjustment { asset: old_destination, direction: Direction::Decrease, amount: old_amount, sheet: SheetLabel::OldDestinationAsset, label: AmountLabel::OldAmount },
        Adjustment { asset: new_source, direction: Direction::Decrease, amount: new_amount, sheet: SheetLabel::NewSourceAsset, label: AmountLabel::NewAmount },
        Adjustment { asset: new_destination, direction: Direction::Increase, amount: new_amount, sheet: SheetLabel::NewDestinationAsset, label: AmountLabel::NewAmount },
    ]
}

} // verus!
