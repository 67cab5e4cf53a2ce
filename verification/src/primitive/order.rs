//! The order of texts.

use vstd::prelude::*;

verus! {

/// How one thing stands to another in an order.
#[derive(Debug, Clone, Copy, PartialEq, Eq, Structural)]
pub enum Order {
    Less,
    Equal,
    Greater,
}

/// How `a` stands to `b` in the order of the dictionary: the first byte
/// in which they differ decides, and a text that another starts with
/// stands before it.
pub open spec fn lex_order(a: Seq<u8>, b: Seq<u8>) -> Order
    decreases a.len(),
{
    if a.len() == 0 {
        if b.len() == 0 {
            Order::Equal
        } else {
            Order::Less
        }
    } else if b.len() == 0 {
        Order::Greater
    } else if a[0] < b[0] {
        Order::Less
    } else if a[0] > b[0] {
        Order::Greater
    } else {
        lex_order(a.drop_first(), b.drop_first())
    }
}

proof fn lex_order_from(a: Seq<u8>, b: Seq<u8>, k: int)
    requires
        0 <= k <= a.len(),
        k <= b.len(),
        forall|i: int| 0 <= i < k ==> a[i] == b[i],
    ensures
        lex_order(a, b) == lex_order(a.skip(k), b.skip(k)),
    decreases k,
{
    if k == 0 {
        assert(a.skip(0) =~= a);
        assert(b.skip(0) =~= b);
    } else {
        let ra = a.drop_first();
        let rb = b.drop_first();
        assert forall|i: int| 0 <= i < k - 1 implies ra[i] == rb[i] by {
        }
        lex_order_from(ra, rb, k - 1);
        assert(ra.skip(k - 1) =~= a.skip(k));
        assert(rb.skip(k - 1) =~= b.skip(k));
    }
}

/// How the bytes `a` stand to the bytes `b` in the order of the
/// dictionary.
pub fn order_of_bytes(a: &[u8], b: &[u8]) -> (r: Order)
    ensures
        r == lex_order(a@, b@),
{
    let mut i: usize = 0;
    while i < a.len() && i < b.len()
        invariant
            i <= a@.len(),
            i <= b@.len(),
            forall|k: int| 0 <= k < i ==> a@[k] == b@[k],
        decreases a@.len() - i,
    {
        if a[i] < b[i] {
            proof {
                lex_order_from(a@, b@, i as int);
            }
            return Order::Less;
        }
        if a[i] > b[i] {
            proof {
                lex_order_from(a@, b@, i as int);
            }
            return Order::Greater;
        }
        i = i + 1;
    }
    proof {
        lex_order_from(a@, b@, i as int);
    }
    if i < a.len() {
        Order::Greater
    } else if i < b.len() {
        Order::Less
    } else {
        Order::Equal
    }
}

/// How the integer `a` stands to the integer `b`.
pub open spec fn int_order(a: int, b: int) -> Order {
    if a < b {
        Order::Less
    } else if a > b {
        Order::Greater
    } else {
        Order::Equal
    }
}

/// How the integer `a` stands to the integer `b`.
pub open spec fn i32_order(a: i32, b: i32) -> Order {
    int_order(a as int, b as int)
}

/// How the index `a` stands to the index `b`.
pub open spec fn index_order(a: usize, b: usize) -> Order {
    int_order(a as int, b as int)
}

/// How the integer `a` stands to the integer `b`.
pub fn order_of_i32(a: i32, b: i32) -> (r: Order)
    ensures
        r == i32_order(a, b),
{
    if a < b {
        Order::Less
    } else if a > b {
        Order::Greater
    } else {
        Order::Equal
    }
}

/// How the index `a` stands to the index `b`.
pub fn order_of_index(a: usize, b: usize) -> (r: Order)
    ensures
        r == index_order(a, b),
{
    if a < b {
        Order::Less
    } else if a > b {
        Order::Greater
    } else {
        Order::Equal
    }
}

} // verus!
