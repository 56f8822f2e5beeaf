//! Balance accounting for the two assets of a market: locking funds for
//! resting orders, deposits, verified withdrawals, and settlement transfers.
//!
//! A [`Balances`] record keeps, for the base and the quote asset, a total and
//! an available amount. Locked funds are the difference `total - available`.

use vstd::prelude::*;

verus! {

/// Per-user balances. `asset` arguments are 0 for base, anything else for
/// quote.
#[derive(Clone, Copy, PartialEq, Eq, Structural, Debug)]
pub struct Balances {
    pub base_total: u64,
    pub base_available: u64,
    pub quote_total: u64,
    pub quote_available: u64,
}

impl Balances {
    /// The balance invariant: available funds never exceed the total, for
    /// either asset.
    pub open spec fn wf(self) -> bool {
        self.base_available <= self.base_total && self.quote_available <= self.quote_total
    }
}

/// The all-zero balances record.
pub fn init_user_ledger() -> (r: Balances)
    ensures
        r == (Balances { base_total: 0, base_available: 0, quote_total: 0, quote_available: 0 }),
        r.wf(),
{
    Balances { base_total: 0, base_available: 0, quote_total: 0, quote_available: 0 }
}

/// Funds a submission must lock: a buy (order type 0) needs
/// `amount * price` units of quote; a sell needs `amount` units of base.
pub open spec fn spec_required(order_type: u8, amount: u64, price: u64) -> int {
    if order_type == 0 {
        amount * price
    } else {
        amount as int
    }
}

/// Compute the funds a submission must lock.
pub fn required(order_type: u8, amount: u64, price: u64) -> (r: u64)
    requires
        order_type == 0 ==> amount * price <= u64::MAX,
    ensures
        r == spec_required(order_type, amount, price),
{
    if order_type == 0 {
        amount * price
    } else {
        amount
    }
}

/// Whether `b` can lock `req` for an order of the given type: a buy locks
/// quote, a sell locks base.
pub open spec fn spec_lock_ok(b: Balances, order_type: u8, req: u64) -> bool {
    if order_type == 0 {
        b.quote_available >= req
    } else {
        b.base_available >= req
    }
}

/// The balances after locking `req`: only the available amount of the
/// locked asset drops; totals are untouched.
pub open spec fn spec_lock(b: Balances, order_type: u8, req: u64) -> Balances {
    if order_type == 0 {
        Balances { quote_available: (b.quote_available - req) as u64, ..b }
    } else {
        Balances { base_available: (b.base_available - req) as u64, ..b }
    }
}

/// Lock funds for an order. Fails (returns `false`, no mutation) when the
/// available amount of the asset the order demands is short.
pub fn lock(balances: &mut Balances, order_type: u8, req: u64) -> (success: bool)
    ensures
        success == spec_lock_ok(*old(balances), order_type, req),
        success ==> *final(balances) == spec_lock(*old(balances), order_type, req),
        !success ==> *final(balances) == *old(balances),
{
    if order_type == 0 {
        if balances.quote_available < req {
            false
        } else {
            balances.quote_available = balances.quote_available - req;
            true
        }
    } else {
        if balances.base_available < req {
            false
        } else {
            balances.base_available = balances.base_available - req;
            true
        }
    }
}

/// The balances after a deposit: total and available of the deposited asset
/// both grow by the amount.
pub open spec fn spec_deposit(b: Balances, amount: u64, is_base: u8) -> Balances {
    if is_base == 0 {
        Balances {
            base_total: (b.base_total + amount) as u64,
            base_available: (b.base_available + amount) as u64,
            ..b
        }
    } else {
        Balances {
            quote_total: (b.quote_total + amount) as u64,
            quote_available: (b.quote_available + amount) as u64,
            ..b
        }
    }
}

/// Credit a deposit. No failure mode: both the total and the available
/// amount of the asset grow by `amount`.
pub fn update_ledger_deposit(balances: Balances, amount: u64, is_base: u8) -> (r: Balances)
    requires
        is_base == 0 ==> balances.base_total + amount <= u64::MAX && balances.base_available
            + amount <= u64::MAX,
        is_base != 0 ==> balances.quote_total + amount <= u64::MAX && balances.quote_available
            + amount <= u64::MAX,
    ensures
        r == spec_deposit(balances, amount, is_base),
{
    let mut balances = balances;
    if is_base == 0 {
        balances.base_total = balances.base_total + amount;
        balances.base_available = balances.base_available + amount;
    } else {
        balances.quote_total = balances.quote_total + amount;
        balances.quote_available = balances.quote_available + amount;
    }
    balances
}

/// Whether `b` covers a withdrawal of `amount` of the given asset.
pub open spec fn spec_withdraw_ok(b: Balances, amount: u64, is_base: u8) -> bool {
    if is_base == 0 {
        b.base_available >= amount
    } else {
        b.quote_available >= amount
    }
}

/// The balances after a covered withdrawal: total and available of the
/// asset both drop by the amount.
pub open spec fn spec_withdraw(b: Balances, amount: u64, is_base: u8) -> Balances {
    if is_base == 0 {
        Balances {
            base_total: (b.base_total - amount) as u64,
            base_available: (b.base_available - amount) as u64,
            ..b
        }
    } else {
        Balances {
            quote_total: (b.quote_total - amount) as u64,
            quote_available: (b.quote_available - amount) as u64,
            ..b
        }
    }
}

/// Verify and apply a withdrawal. Fails (balances unchanged, `false`) when
/// the available amount of the asset is short; otherwise both the total and
/// the available amount drop by `amount`.
pub fn update_ledger_withdraw_verify(balances: Balances, amount: u64, is_base: u8) -> (r: (
    Balances,
    bool,
))
    requires
        balances.wf(),
    ensures
        r.1 == spec_withdraw_ok(balances, amount, is_base),
        r.1 ==> r.0 == spec_withdraw(balances, amount, is_base),
        !r.1 ==> r.0 == balances,
        r.0.wf(),
{
    let mut balances = balances;
    let available = if is_base == 0 {
        balances.base_available
    } else {
        balances.quote_available
    };

    let mut possible = false;

    if available >= amount {
        possible = true;
        if is_base == 0 {
            balances.base_total = balances.base_total - amount;
            balances.base_available = balances.base_available - amount;
        } else {
            balances.quote_total = balances.quote_total - amount;
            balances.quote_available = balances.quote_available - amount;
        }
    }

    (balances, possible)
}

/// The two balance records after settling a fill: the paying side's
/// available amount of the asset drops by `execution_price`, the receiving
/// side's grows by it. Totals are untouched; this is a pure transfer.
pub open spec fn spec_settle(payer: Balances, receiver: Balances, execution_price: u64, is_base: u8) -> (
    Balances,
    Balances,
) {
    if is_base == 0 {
        (
            Balances { base_available: (payer.base_available - execution_price) as u64, ..payer },
            Balances {
                base_available: (receiver.base_available + execution_price) as u64,
                ..receiver
            },
        )
    } else {
        (
            Balances { quote_available: (payer.quote_available - execution_price) as u64, ..payer },
            Balances {
                quote_available: (receiver.quote_available + execution_price) as u64,
                ..receiver
            },
        )
    }
}

/// Settle one leg of a completed match: move `execution_price` units of the
/// asset from the first party's available funds to the second party's.
/// Callers hand in matched, validated fills only, so the paying side has
/// the funds and the receiving side cannot overflow.
pub fn execute_settlement(
    user1_balances: Balances,
    user2_balances: Balances,
    execution_price: u64,
    is_base: u8,
) -> (r: (Balances, Balances))
    requires
        is_base == 0 ==> user1_balances.base_available >= execution_price
            && user2_balances.base_available + execution_price <= u64::MAX,
        is_base != 0 ==> user1_balances.quote_available >= execution_price
            && user2_balances.quote_available + execution_price <= u64::MAX,
    ensures
        r == spec_settle(user1_balances, user2_balances, execution_price, is_base),
{
    let mut user1_balances = user1_balances;
    let mut user2_balances = user2_balances;

    if is_base == 0 {
        user1_balances.base_available = user1_balances.base_available - execution_price;
        user2_balances.base_available = user2_balances.base_available + execution_price;
    } else {
        user1_balances.quote_available = user1_balances.quote_available - execution_price;
        user2_balances.quote_available = user2_balances.quote_available + execution_price;
    }

    (user1_balances, user2_balances)
}

/// A deposit that stays within the 64-bit range preserves the balance
/// invariant.
pub proof fn lemma_deposit_preserves_invariant(b: Balances, amount: u64, is_base: u8)
    requires
        b.wf(),
        is_base == 0 ==> b.base_total + amount <= u64::MAX,
        is_base != 0 ==> b.quote_total + amount <= u64::MAX,
    ensures
        spec_deposit(b, amount, is_base).wf(),
{
}

/// Locking funds preserves the balance invariant: only an available amount
/// drops.
pub proof fn lemma_lock_preserves_invariant(b: Balances, order_type: u8, req: u64)
    requires
        b.wf(),
        spec_lock_ok(b, order_type, req),
    ensures
        spec_lock(b, order_type, req).wf(),
{
}

/// A covered withdrawal preserves the balance invariant: total and
/// available drop by the same amount.
pub proof fn lemma_withdraw_preserves_invariant(b: Balances, amount: u64, is_base: u8)
    requires
        b.wf(),
        spec_withdraw_ok(b, amount, is_base),
    ensures
        spec_withdraw(b, amount, is_base).wf(),
{
}

/// Settlement preserves the balance invariant on both sides, provided the
/// paying side has the funds available and the receiving side has at least
/// that much of the asset locked (its total exceeds its available amount by
/// the transferred price, as it does for funds locked at submission).
pub proof fn lemma_settle_preserves_invariant(
    payer: Balances,
    receiver: Balances,
    execution_price: u64,
    is_base: u8,
)
    requires
        payer.wf(),
        receiver.wf(),
        is_base == 0 ==> payer.base_available >= execution_price && receiver.base_available
            + execution_price <= receiver.base_total,
        is_base != 0 ==> payer.quote_available >= execution_price && receiver.quote_available
            + execution_price <= receiver.quote_total,
    ensures
        spec_settle(payer, receiver, execution_price, is_base).0.wf(),
        spec_settle(payer, receiver, execution_price, is_base).1.wf(),
{
}

} // verus!
