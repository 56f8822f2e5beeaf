//! The bounded order book: two array-backed binary heaps with a hard
//! capacity of four resting orders per side.
//!
//! The bid heap is a max-heap under [`bid_before`] (higher price first,
//! earlier timestamp on ties); the ask heap is a min-heap under
//! [`ask_before`] (lower price first, earlier timestamp on ties). Each heap
//! array is a packed prefix: indices `[0, count)` hold live entries and the
//! remainder is ignored.

use vstd::prelude::*;
use vstd::seq_lib::group_to_multiset_ensures;
use vstd::seq_lib::lemma_seq_take_update_commut1;
use vstd::seq_lib::to_multiset_update;

use crate::order::ask_before;
use crate::order::bid_before;
use crate::order::Order;

verus! {

/// Hard capacity of each side of the book.
pub const MAX_ORDERS: usize = 4;

#[derive(Clone, Copy, PartialEq, Debug)]
#[verifier::ext_equal]
pub struct OrderBook {
    pub buy_orders: [Order; 4],
    pub buy_count: u8,
    pub sell_orders: [Order; 4],
    pub sell_count: u8,
}

impl OrderBook {
    /// The live bids: the packed prefix of the bid array.
    pub open spec fn bids(self) -> Seq<Order> {
        self.buy_orders@.take(self.buy_count as int)
    }

    /// The live asks: the packed prefix of the ask array.
    pub open spec fn asks(self) -> Seq<Order> {
        self.sell_orders@.take(self.sell_count as int)
    }

    /// The bid side is a packed max-heap: no live entry is strictly before
    /// its parent.
    pub open spec fn buy_heap_wf(self) -> bool {
        &&& self.buy_count <= 4
        &&& forall|j: int|
            1 <= j < self.buy_count ==> !bid_before(
                #[trigger] self.buy_orders@[j],
                self.buy_orders@[(j - 1) / 2],
            )
    }

    /// The ask side is a packed min-heap: no live entry is strictly before
    /// its parent.
    pub open spec fn sell_heap_wf(self) -> bool {
        &&& self.sell_count <= 4
        &&& forall|j: int|
            1 <= j < self.sell_count ==> !ask_before(
                #[trigger] self.sell_orders@[j],
                self.sell_orders@[(j - 1) / 2],
            )
    }

    /// Both sides satisfy their heap ordering and capacity bound.
    pub open spec fn wf(self) -> bool {
        self.buy_heap_wf() && self.sell_heap_wf()
    }
}

/// In a well-formed bid heap the root is a live bid of highest priority.
pub proof fn lemma_buy_root_max(book: OrderBook)
    requires
        book.buy_heap_wf(),
        book.buy_count > 0,
    ensures
        forall|j: int|
            0 <= j < book.buy_count ==> !bid_before(
                #[trigger] book.buy_orders@[j],
                book.buy_orders@[0],
            ),
{
}

/// In a well-formed ask heap the root is a live ask of highest priority.
pub proof fn lemma_sell_root_max(book: OrderBook)
    requires
        book.sell_heap_wf(),
        book.sell_count > 0,
    ensures
        forall|j: int|
            0 <= j < book.sell_count ==> !ask_before(
                #[trigger] book.sell_orders@[j],
                book.sell_orders@[0],
            ),
{
}

/// The total order quantity resting in a sequence of orders.
pub open spec fn sum_amounts(s: Seq<Order>) -> int
    decreases s.len(),
{
    if s.len() <= 0 {
        0
    } else {
        sum_amounts(s.drop_last()) + s.last().amount
    }
}

/// Overwriting one entry of a sequence changes the total quantity by the
/// difference of the amounts.
proof fn lemma_sum_update(s: Seq<Order>, i: int, v: Order)
    requires
        0 <= i < s.len(),
    ensures
        sum_amounts(s.update(i, v)) == sum_amounts(s) - s[i].amount + v.amount,
    decreases s.len(),
{
    let t = s.update(i, v);
    if i == s.len() - 1 {
        assert(t.drop_last() =~= s.drop_last());
    } else {
        assert(t.drop_last() =~= s.drop_last().update(i, v));
        lemma_sum_update(s.drop_last(), i, v);
    }
}

/// Swapping two entries of a sequence leaves its multiset of entries and
/// its total quantity unchanged.
proof fn lemma_swap_multiset(s: Seq<Order>, i: int, j: int)
    requires
        0 <= i < s.len(),
        0 <= j < s.len(),
    ensures
        s.update(i, s[j]).update(j, s[i]).to_multiset() == s.to_multiset(),
        sum_amounts(s.update(i, s[j]).update(j, s[i])) == sum_amounts(s),
{
    lemma_sum_update(s, i, s[j]);
    lemma_sum_update(s.update(i, s[j]), j, s[i]);
    broadcast use group_to_multiset_ensures;
    broadcast use to_multiset_update;
    broadcast use vstd::multiset::group_multiset_axioms;

    if i == j {
        assert(s.update(i, s[j]).update(j, s[i]) =~= s);
    } else {
        let s1 = s.update(i, s[j]);
        assert(s.to_multiset().count(s[i]) > 0) by {
            assert(s.contains(s[i]));
        }
        assert(s.to_multiset().count(s[j]) > 0) by {
            assert(s.contains(s[j]));
        }
        assert(s1[j] == s[j]);
        assert(s1.update(j, s[i]).to_multiset() =~= s.to_multiset());
    }
}

/// Swap two entries of an order array.
fn swap_orders(a: &mut [Order; 4], i: usize, j: usize)
    requires
        i < 4,
        j < 4,
    ensures
        final(a)@ == old(a)@.update(i as int, old(a)@[j as int]).update(j as int, old(a)@[i as int]),
{
    let tmp = a[i];
    a[i] = a[j];
    a[j] = tmp;
}

impl OrderBook {
    /// The empty book: both sides empty, every slot zeroed.
    pub fn new() -> (r: Self)
        ensures
            r.buy_count == 0,
            r.sell_count == 0,
            forall|j: int|
                0 <= j < 4 ==> #[trigger] r.buy_orders@[j] == (Order {
                    order_id: 0,
                    amount: 0,
                    price: 0,
                    order_type: 0,
                    timestamp: 0,
                }),
            forall|j: int|
                0 <= j < 4 ==> #[trigger] r.sell_orders@[j] == (Order {
                    order_id: 0,
                    amount: 0,
                    price: 0,
                    order_type: 0,
                    timestamp: 0,
                }),
            r.wf(),
    {
        let r = OrderBook {
            buy_orders: [Order::empty(), Order::empty(), Order::empty(), Order::empty()],
            buy_count: 0,
            sell_orders: [Order::empty(), Order::empty(), Order::empty(), Order::empty()],
            sell_count: 0,
        };
        r
    }

    fn compare_buy(&self, i: usize, j: usize) -> (r: bool)
        requires
            i < 4,
            j < 4,
        ensures
            r == bid_before(self.buy_orders@[i as int], self.buy_orders@[j as int]),
    {
        let a = &self.buy_orders[i];
        let b = &self.buy_orders[j];
        if a.price != b.price {
            a.price > b.price
        } else {
            a.timestamp < b.timestamp
        }
    }

    fn compare_sell(&self, i: usize, j: usize) -> (r: bool)
        requires
            i < 4,
            j < 4,
        ensures
            r == ask_before(self.sell_orders@[i as int], self.sell_orders@[j as int]),
    {
        let a = &self.sell_orders[i];
        let b = &self.sell_orders[j];
        if a.price != b.price {
            a.price < b.price
        } else {
            a.timestamp < b.timestamp
        }
    }

    /// Insert a bid. Fails (returns `false`, no mutation) when the bid side
    /// is full; otherwise appends the order and sifts it up.
    pub fn insert_buy(&mut self, order: Order) -> (success: bool)
        requires
            old(self).wf(),
        ensures
            final(self).wf(),
            success == (old(self).buy_count < 4),
            !success ==> *final(self) == *old(self),
            success ==> final(self).buy_count == old(self).buy_count + 1,
            success ==> final(self).bids().to_multiset() == old(self).bids().to_multiset().insert(
                order,
            ),
            success ==> sum_amounts(final(self).bids()) == sum_amounts(old(self).bids())
                + order.amount,
            final(self).sell_orders == old(self).sell_orders,
            final(self).sell_count == old(self).sell_count,
    {
        if self.buy_count >= MAX_ORDERS as u8 {
            false
        } else {
            let c: usize = self.buy_count as usize;
            self.buy_orders[c] = order;
            self.buy_count = self.buy_count + 1;
            proof {
                broadcast use group_to_multiset_ensures;

                assert(self.bids() =~= old(self).bids().push(order));
                assert(old(self).bids().push(order).drop_last() =~= old(self).bids());
            }

            let mut i: usize = c;
            while i > 0
                invariant
                    self.buy_count == old(self).buy_count + 1,
                    self.buy_count <= 4,
                    i < self.buy_count,
                    self.sell_orders == old(self).sell_orders,
                    self.sell_count == old(self).sell_count,
                    self.bids().to_multiset() == old(self).bids().to_multiset().insert(order),
                    sum_amounts(self.bids()) == sum_amounts(old(self).bids()) + order.amount,
                    forall|j: int|
                        1 <= j < self.buy_count && j != i ==> !bid_before(
                            #[trigger] self.buy_orders@[j],
                            self.buy_orders@[(j - 1) / 2],
                        ),
                    i > 0 ==> forall|j: int|
                        1 <= j < self.buy_count && (j - 1) / 2 == i ==> !bid_before(
                            #[trigger] self.buy_orders@[j],
                            self.buy_orders@[(i - 1) / 2],
                        ),
                ensures
                    self.buy_count == old(self).buy_count + 1,
                    self.sell_orders == old(self).sell_orders,
                    self.sell_count == old(self).sell_count,
                    self.bids().to_multiset() == old(self).bids().to_multiset().insert(order),
                    sum_amounts(self.bids()) == sum_amounts(old(self).bids()) + order.amount,
                    self.buy_heap_wf(),
                decreases i,
            {
                let parent: usize = (i - 1) / 2;
                if self.compare_buy(i, parent) {
                    let ghost pre = self.buy_orders@;
                    swap_orders(&mut self.buy_orders, i, parent);
                    proof {
                        lemma_swap_multiset(
                            pre.take(self.buy_count as int),
                            i as int,
                            parent as int,
                        );
                        broadcast use lemma_seq_take_update_commut1;

                        assert(self.bids() =~= pre.take(self.buy_count as int).update(
                            i as int,
                            pre[parent as int],
                        ).update(parent as int, pre[i as int]));
                    }
                    i = parent;
                } else {
                    break ;
                }
            }
            true
        }
    }

    /// Insert an ask. Fails (returns `false`, no mutation) when the ask side
    /// is full; otherwise appends the order and sifts it up.
    pub fn insert_sell(&mut self, order: Order) -> (success: bool)
        requires
            old(self).wf(),
        ensures
            final(self).wf(),
            success == (old(self).sell_count < 4),
            !success ==> *final(self) == *old(self),
            success ==> final(self).sell_count == old(self).sell_count + 1,
            success ==> final(self).asks().to_multiset() == old(self).asks().to_multiset().insert(
                order,
            ),
            success ==> sum_amounts(final(self).asks()) == sum_amounts(old(self).asks())
                + order.amount,
            final(self).buy_orders == old(self).buy_orders,
            final(self).buy_count == old(self).buy_count,
    {
        if self.sell_count >= MAX_ORDERS as u8 {
            false
        } else {
            let c: usize = self.sell_count as usize;
            self.sell_orders[c] = order;
            self.sell_count = self.sell_count + 1;
            proof {
                broadcast use group_to_multiset_ensures;

                assert(self.asks() =~= old(self).asks().push(order));
                assert(old(self).asks().push(order).drop_last() =~= old(self).asks());
            }

            let mut i: usize = c;
            while i > 0
                invariant
                    self.sell_count == old(self).sell_count + 1,
                    self.sell_count <= 4,
                    i < self.sell_count,
                    self.buy_orders == old(self).buy_orders,
                    self.buy_count == old(self).buy_count,
                    self.asks().to_multiset() == old(self).asks().to_multiset().insert(order),
                    sum_amounts(self.asks()) == sum_amounts(old(self).asks()) + order.amount,
                    forall|j: int|
                        1 <= j < self.sell_count && j != i ==> !ask_before(
                            #[trigger] self.sell_orders@[j],
                            self.sell_orders@[(j - 1) / 2],
                        ),
                    i > 0 ==> forall|j: int|
                        1 <= j < self.sell_count && (j - 1) / 2 == i ==> !ask_before(
                            #[trigger] self.sell_orders@[j],
                            self.sell_orders@[(i - 1) / 2],
                        ),
                ensures
                    self.sell_count == old(self).sell_count + 1,
                    self.buy_orders == old(self).buy_orders,
                    self.buy_count == old(self).buy_count,
                    self.asks().to_multiset() == old(self).asks().to_multiset().insert(order),
                    sum_amounts(self.asks()) == sum_amounts(old(self).asks()) + order.amount,
                    self.sell_heap_wf(),
                decreases i,
            {
                let parent: usize = (i - 1) / 2;
                if self.compare_sell(i, parent) {
                    let ghost pre = self.sell_orders@;
                    swap_orders(&mut self.sell_orders, i, parent);
                    proof {
                        lemma_swap_multiset(
                            pre.take(self.sell_count as int),
                            i as int,
                            parent as int,
                        );
                        broadcast use lemma_seq_take_update_commut1;

                        assert(self.asks() =~= pre.take(self.sell_count as int).update(
                            i as int,
                            pre[parent as int],
                        ).update(parent as int, pre[i as int]));
                    }
                    i = parent;
                } else {
                    break ;
                }
            }
            true
        }
    }

    /// Restore the bid heap after the root has been replaced. The caller
    /// hands a bid array whose entries all satisfy the heap ordering except
    /// possibly the children of the root.
    fn heapify_buy(&mut self, at: usize)
        requires
            at == 0,
            old(self).buy_count <= 4,
            forall|j: int|
                3 <= j < old(self).buy_count ==> !bid_before(
                    #[trigger] old(self).buy_orders@[j],
                    old(self).buy_orders@[(j - 1) / 2],
                ),
        ensures
            final(self).buy_heap_wf(),
            final(self).buy_count == old(self).buy_count,
            final(self).bids().to_multiset() == old(self).bids().to_multiset(),
            sum_amounts(final(self).bids()) == sum_amounts(old(self).bids()),
            final(self).sell_orders == old(self).sell_orders,
            final(self).sell_count == old(self).sell_count,
    {
        let mut i: usize = at;
        loop
            invariant_except_break
                self.buy_count == old(self).buy_count,
                self.buy_count <= 4,
                i < 4,
                self.sell_orders == old(self).sell_orders,
                self.sell_count == old(self).sell_count,
                self.bids().to_multiset() == old(self).bids().to_multiset(),
                sum_amounts(self.bids()) == sum_amounts(old(self).bids()),
                forall|j: int|
                    1 <= j < self.buy_count && (j - 1) / 2 != i ==> !bid_before(
                        #[trigger] self.buy_orders@[j],
                        self.buy_orders@[(j - 1) / 2],
                    ),
                i > 0 ==> forall|j: int|
                    1 <= j < self.buy_count && (j - 1) / 2 == i ==> !bid_before(
                        #[trigger] self.buy_orders@[j],
                        self.buy_orders@[(i - 1) / 2],
                    ),
            ensures
                self.buy_count == old(self).buy_count,
                self.sell_orders == old(self).sell_orders,
                self.sell_count == old(self).sell_count,
                self.bids().to_multiset() == old(self).bids().to_multiset(),
                sum_amounts(self.bids()) == sum_amounts(old(self).bids()),
                self.buy_heap_wf(),
            decreases 4 - i,
        {
            let left: usize = 2 * i + 1;
            let right: usize = 2 * i + 2;
            let mut largest: usize = i;

            if left < self.buy_count as usize && self.compare_buy(left, largest) {
                largest = left;
            }
            if right < self.buy_count as usize && self.compare_buy(right, largest) {
                largest = right;
            }

            if largest != i {
                let ghost pre = self.buy_orders@;
                swap_orders(&mut self.buy_orders, i, largest);
                proof {
                    lemma_swap_multiset(pre.take(self.buy_count as int), i as int, largest as int);
                    broadcast use lemma_seq_take_update_commut1;

                    assert(self.bids() =~= pre.take(self.buy_count as int).update(
                        i as int,
                        pre[largest as int],
                    ).update(largest as int, pre[i as int]));
                }
                i = largest;
            } else {
                break ;
            }
        }
    }

    /// Restore the ask heap after the root has been replaced. The caller
    /// hands an ask array whose entries all satisfy the heap ordering except
    /// possibly the children of the root.
    fn heapify_sell(&mut self, at: usize)
        requires
            at == 0,
            old(self).sell_count <= 4,
            forall|j: int|
                3 <= j < old(self).sell_count ==> !ask_before(
                    #[trigger] old(self).sell_orders@[j],
                    old(self).sell_orders@[(j - 1) / 2],
                ),
        ensures
            final(self).sell_heap_wf(),
            final(self).sell_count == old(self).sell_count,
            final(self).asks().to_multiset() == old(self).asks().to_multiset(),
            sum_amounts(final(self).asks()) == sum_amounts(old(self).asks()),
            final(self).buy_orders == old(self).buy_orders,
            final(self).buy_count == old(self).buy_count,
    {
        let mut i: usize = at;
        loop
            invariant_except_break
                self.sell_count == old(self).sell_count,
                self.sell_count <= 4,
                i < 4,
                self.buy_orders == old(self).buy_orders,
                self.buy_count == old(self).buy_count,
                self.asks().to_multiset() == old(self).asks().to_multiset(),
                sum_amounts(self.asks()) == sum_amounts(old(self).asks()),
                forall|j: int|
                    1 <= j < self.sell_count && (j - 1) / 2 != i ==> !ask_before(
                        #[trigger] self.sell_orders@[j],
                        self.sell_orders@[(j - 1) / 2],
                    ),
                i > 0 ==> forall|j: int|
                    1 <= j < self.sell_count && (j - 1) / 2 == i ==> !ask_before(
                        #[trigger] self.sell_orders@[j],
                        self.sell_orders@[(i - 1) / 2],
                    ),
            ensures
                self.sell_count == old(self).sell_count,
                self.buy_orders == old(self).buy_orders,
                self.buy_count == old(self).buy_count,
                self.asks().to_multiset() == old(self).asks().to_multiset(),
                sum_amounts(self.asks()) == sum_amounts(old(self).asks()),
                self.sell_heap_wf(),
            decreases 4 - i,
        {
            let left: usize = 2 * i + 1;
            let right: usize = 2 * i + 2;
            let mut smallest: usize = i;

            if left < self.sell_count as usize && self.compare_sell(left, smallest) {
                smallest = left;
            }
            if right < self.sell_count as usize && self.compare_sell(right, smallest) {
                smallest = right;
            }

            if smallest != i {
                let ghost pre = self.sell_orders@;
                swap_orders(&mut self.sell_orders, i, smallest);
                proof {
                    lemma_swap_multiset(pre.take(self.sell_count as int), i as int, smallest as int);
                    broadcast use lemma_seq_take_update_commut1;

                    assert(self.asks() =~= pre.take(self.sell_count as int).update(
                        i as int,
                        pre[smallest as int],
                    ).update(smallest as int, pre[i as int]));
                }
                i = smallest;
            } else {
                break ;
            }
        }
    }

    /// Remove and return the best bid. The best bid is the root; the last
    /// live entry moves to the root and sifts down.
    pub fn pop_buy(&mut self) -> (r: Order)
        requires
            old(self).wf(),
            old(self).buy_count > 0,
        ensures
            final(self).wf(),
            r == old(self).bids()[0],
            forall|j: int|
                0 <= j < old(self).buy_count ==> !bid_before(#[trigger] old(self).bids()[j], r),
            final(self).buy_count == old(self).buy_count - 1,
            final(self).bids().to_multiset() == old(self).bids().to_multiset().remove(r),
            sum_amounts(final(self).bids()) == sum_amounts(old(self).bids()) - r.amount,
            final(self).sell_orders == old(self).sell_orders,
            final(self).sell_count == old(self).sell_count,
    {
        proof {
            lemma_buy_root_max(*self);
        }
        let order = self.buy_orders[0];
        self.buy_count = self.buy_count - 1;

        if self.buy_count > 0 {
            let last: usize = self.buy_count as usize;
            self.buy_orders[0] = self.buy_orders[last];
            proof {
                broadcast use group_to_multiset_ensures;
                broadcast use to_multiset_update;
                broadcast use vstd::multiset::group_multiset_axioms;
                broadcast use lemma_seq_take_update_commut1;

                let pre = old(self).bids();
                assert(pre.contains(pre[last as int]));
                assert(self.bids() =~= pre.update(0, pre[last as int]).take(last as int));
                assert(pre.update(0, pre[last as int]).take(last as int) =~= pre.update(
                    0,
                    pre[last as int],
                ).remove(last as int));
                assert(self.bids().to_multiset() =~= old(self).bids().to_multiset().remove(order));
                lemma_sum_update(pre, 0, pre[last as int]);
                assert(pre.update(0, pre[last as int]).take(last as int) =~= pre.update(
                    0,
                    pre[last as int],
                ).drop_last());
                assert(pre.update(0, pre[last as int]).last() == pre[last as int]);
                assert(sum_amounts(self.bids()) == sum_amounts(pre) - order.amount);
            }
            self.heapify_buy(0);
        } else {
            proof {
                broadcast use group_to_multiset_ensures;

                assert(self.bids() =~= old(self).bids().remove(0));
                assert(old(self).bids().last() == order);
                assert(sum_amounts(old(self).bids().drop_last()) == 0);
            }
        }
        order
    }

    /// Remove and return the best ask. The best ask is the root; the last
    /// live entry moves to the root and sifts down.
    pub fn pop_sell(&mut self) -> (r: Order)
        requires
            old(self).wf(),
            old(self).sell_count > 0,
        ensures
            final(self).wf(),
            r == old(self).asks()[0],
            forall|j: int|
                0 <= j < old(self).sell_count ==> !ask_before(#[trigger] old(self).asks()[j], r),
            final(self).sell_count == old(self).sell_count - 1,
            final(self).asks().to_multiset() == old(self).asks().to_multiset().remove(r),
            sum_amounts(final(self).asks()) == sum_amounts(old(self).asks()) - r.amount,
            final(self).buy_orders == old(self).buy_orders,
            final(self).buy_count == old(self).buy_count,
    {
        proof {
            lemma_sell_root_max(*self);
        }
        let order = self.sell_orders[0];
        self.sell_count = self.sell_count - 1;

        if self.sell_count > 0 {
            let last: usize = self.sell_count as usize;
            self.sell_orders[0] = self.sell_orders[last];
            proof {
                broadcast use group_to_multiset_ensures;
                broadcast use to_multiset_update;
                broadcast use vstd::multiset::group_multiset_axioms;
                broadcast use lemma_seq_take_update_commut1;

                let pre = old(self).asks();
                assert(pre.contains(pre[last as int]));
                assert(self.asks() =~= pre.update(0, pre[last as int]).take(last as int));
                assert(pre.update(0, pre[last as int]).take(last as int) =~= pre.update(
                    0,
                    pre[last as int],
                ).remove(last as int));
                assert(self.asks().to_multiset() =~= old(self).asks().to_multiset().remove(order));
                lemma_sum_update(pre, 0, pre[last as int]);
                assert(pre.update(0, pre[last as int]).take(last as int) =~= pre.update(
                    0,
                    pre[last as int],
                ).drop_last());
                assert(pre.update(0, pre[last as int]).last() == pre[last as int]);
                assert(sum_amounts(self.asks()) == sum_amounts(pre) - order.amount);
            }
            self.heapify_sell(0);
        } else {
            proof {
                broadcast use group_to_multiset_ensures;

                assert(self.asks() =~= old(self).asks().remove(0));
                assert(old(self).asks().last() == order);
                assert(sum_amounts(old(self).asks().drop_last()) == 0);
            }
        }
        order
    }

    /// The best live bid: highest price, earliest timestamp on ties.
    pub fn peek_buy(&self) -> (r: Order)
        requires
            self.wf(),
            self.buy_count > 0,
        ensures
            r == self.bids()[0],
            forall|j: int| 0 <= j < self.buy_count ==> !bid_before(#[trigger] self.bids()[j], r),
    {
        proof {
            lemma_buy_root_max(*self);
        }
        self.buy_orders[0]
    }

    /// The best live ask: lowest price, earliest timestamp on ties.
    pub fn peek_sell(&self) -> (r: Order)
        requires
            self.wf(),
            self.sell_count > 0,
        ensures
            r == self.asks()[0],
            forall|j: int| 0 <= j < self.sell_count ==> !ask_before(#[trigger] self.asks()[j], r),
    {
        proof {
            lemma_sell_root_max(*self);
        }
        self.sell_orders[0]
    }

    pub fn has_buy(&self) -> (r: bool)
        ensures
            r == (self.buy_count > 0),
    {
        self.buy_count > 0
    }

    pub fn has_sell(&self) -> (r: bool)
        ensures
            r == (self.sell_count > 0),
    {
        self.sell_count > 0
    }
}

} // verus!
