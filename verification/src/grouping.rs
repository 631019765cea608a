//! Partitioning pending orders by product for export.
//!
//! Pending orders (status equal to `STATUS_NOT_ORDERED`) are grouped by
//! product name. Group order is the order in which each product is first
//! seen among the pending rows, and within a group the rows keep their
//! stored (identifier) order, so repeated exports of unchanged data give
//! identical output.

use vstd::prelude::*;
use crate::order::{MklOrder, OrderV, STATUS_NOT_ORDERED};

verus! {

/// A pending order: one the export picks up.
pub open spec fn is_pending(o: OrderV) -> bool {
    o.status == STATUS_NOT_ORDERED@
}

/// View of a row sequence: each order as its ghost view.
pub open spec fn orders_view(s: Seq<MklOrder>) -> Seq<OrderV> {
    s.map_values(|o: MklOrder| o@)
}

/// View of a group list: product names and rows as their views.
pub open spec fn groups_view(g: Seq<(String, Vec<MklOrder>)>) -> Seq<(Seq<char>, Seq<OrderV>)> {
    g.map_values(|pr: (String, Vec<MklOrder>)| (pr.0@, orders_view(pr.1@)))
}

/// The pending rows of `rows` whose product is `p`, in stored order.
pub open spec fn group_of(rows: Seq<OrderV>, p: Seq<char>) -> Seq<OrderV>
    decreases rows.len(),
{
    if rows.len() == 0 {
        Seq::empty()
    } else {
        let rest = group_of(rows.drop_last(), p);
        if is_pending(rows.last()) && rows.last().product == p {
            rest.push(rows.last())
        } else {
            rest
        }
    }
}

/// The distinct products of the pending rows, in first-seen order.
pub open spec fn products_of(rows: Seq<OrderV>) -> Seq<Seq<char>>
    decreases rows.len(),
{
    if rows.len() == 0 {
        Seq::empty()
    } else {
        let rest = products_of(rows.drop_last());
        if is_pending(rows.last()) && !rest.contains(rows.last().product) {
            rest.push(rows.last().product)
        } else {
            rest
        }
    }
}

/// The pending rows grouped by product: one group per distinct product in
/// first-seen order, each holding its pending rows in stored order.
pub open spec fn groups_of(rows: Seq<OrderV>) -> Seq<(Seq<char>, Seq<OrderV>)> {
    products_of(rows).map_values(|p: Seq<char>| (p, group_of(rows, p)))
}

/// Every row of every group is pending and carries its group's product:
/// the grouping never admits an order of any other status.
pub proof fn lemma_group_of_pending(rows: Seq<OrderV>, p: Seq<char>)
    ensures
        forall|j: int|
            0 <= j < group_of(rows, p).len() ==> is_pending(#[trigger] group_of(rows, p)[j])
                && group_of(rows, p)[j].product == p,
    decreases rows.len(),
{
    if rows.len() > 0 {
        lemma_group_of_pending(rows.drop_last(), p);
    }
}

/// The grouping excludes any order whose status is not pending.
pub proof fn lemma_groups_only_pending(rows: Seq<OrderV>)
    ensures
        forall|k: int, j: int|
            0 <= k < groups_of(rows).len() && 0 <= j < groups_of(rows)[k].1.len()
                ==> is_pending(#[trigger] groups_of(rows)[k].1[j]),
{
    assert forall|k: int, j: int|
        0 <= k < groups_of(rows).len() && 0 <= j < groups_of(rows)[k].1.len() implies is_pending(
        #[trigger] groups_of(rows)[k].1[j],
    ) by {
        lemma_group_of_pending(rows, products_of(rows)[k]);
    }
}

/// True when the order is pending.
pub fn is_pending_exec(o: &MklOrder) -> (r: bool)
    ensures
        r == is_pending(o@),
{
    let pat: String = STATUS_NOT_ORDERED.to_owned();
    o.status == pat
}

fn copy_opt_string(o: &Option<String>) -> (r: Option<String>)
    ensures
        r == *o,
{
    match o {
        Some(s) => Some(s.clone()),
        None => None,
    }
}

/// A field-for-field copy of an order.
pub fn copy_order(o: &MklOrder) -> (r: MklOrder)
    ensures
        r == *o,
{
    MklOrder {
        id: o.id,
        fio: o.fio.clone(),
        phone: o.phone.clone(),
        product: o.product.clone(),
        sph: copy_opt_string(&o.sph),
        cyl: copy_opt_string(&o.cyl),
        ax: o.ax,
        bc: copy_opt_string(&o.bc),
        qty: o.qty,
        status: o.status.clone(),
        date: o.date.clone(),
        comment: o.comment.clone(),
    }
}

/// Groups the pending rows of `rows` by product, exactly as `groups_of`
/// describes: first-seen product order, stored order within each group.
pub fn group_pending(rows: &Vec<MklOrder>) -> (g: Vec<(String, Vec<MklOrder>)>)
    ensures
        groups_view(g@) == groups_of(orders_view(rows@)),
{
    let ghost vs = orders_view(rows@);
    let mut products: Vec<String> = Vec::new();
    let mut i: usize = 0;
    while i < rows.len()
        invariant
            i <= rows.len(),
            vs == orders_view(rows@),
            vs.len() == rows@.len(),
            products@.map_values(|s: String| s@) == products_of(vs.take(i as int)),
        decreases rows.len() - i,
    {
        let o = &rows[i];
        proof {
            assert(vs.take(i + 1).drop_last() =~= vs.take(i as int));
            assert(vs.take(i + 1).last() == vs[i as int]);
            assert(vs[i as int] == rows@[i as int]@);
        }
        if is_pending_exec(o) {
            let ghost pv = products@.map_values(|s: String| s@);
            let mut j: usize = 0;
            let mut found = false;
            while j < products.len()
                invariant
                    j <= products.len(),
                    pv == products@.map_values(|s: String| s@),
                    pv.len() == products@.len(),
                    found <==> exists|k: int| 0 <= k < j && pv[k] == o.product@,
                decreases products.len() - j,
            {
                if products[j] == o.product {
                    found = true;
                    proof {
                        assert(pv[j as int] == o.product@);
                    }
                }
                j = j + 1;
            }
            proof {
                assert(found <==> pv.contains(o.product@));
            }
            if !found {
                products.push(o.product.clone());
                proof {
                    assert(products@.map_values(|s: String| s@) =~= pv.push(o.product@));
                }
            }
        }
        proof {
            assert(products@.map_values(|s: String| s@) == products_of(vs.take(i + 1)));
        }
        i = i + 1;
    }
    proof {
        assert(vs.take(rows@.len() as int) =~= vs);
    }
    let mut g: Vec<(String, Vec<MklOrder>)> = Vec::new();
    let mut k: usize = 0;
    while k < products.len()
        invariant
            k <= products.len(),
            vs == orders_view(rows@),
            vs.len() == rows@.len(),
            products@.map_values(|s: String| s@) == products_of(vs),
            g@.len() == k,
            groups_view(g@) == groups_of(vs).take(k as int),
        decreases products.len() - k,
    {
        let p = &products[k];
        let mut grp: Vec<MklOrder> = Vec::new();
        let mut i2: usize = 0;
        while i2 < rows.len()
            invariant
                i2 <= rows.len(),
                vs == orders_view(rows@),
                vs.len() == rows@.len(),
                orders_view(grp@) == group_of(vs.take(i2 as int), p@),
            decreases rows.len() - i2,
        {
            let o = &rows[i2];
            proof {
                assert(vs.take(i2 + 1).drop_last() =~= vs.take(i2 as int));
                assert(vs.take(i2 + 1).last() == vs[i2 as int]);
                assert(vs[i2 as int] == rows@[i2 as int]@);
            }
            if is_pending_exec(o) && o.product == *p {
                let ghost grp0 = orders_view(grp@);
                grp.push(copy_order(o));
                proof {
                    assert(orders_view(grp@) =~= grp0.push(vs[i2 as int]));
                }
            }
            i2 = i2 + 1;
        }
        proof {
            assert(vs.take(rows@.len() as int) =~= vs);
            assert(orders_view(grp@) == group_of(vs, p@));
        }
        let ghost g0 = groups_view(g@);
        g.push((p.clone(), grp));
        proof {
            assert(products_of(vs)[k as int] == p@);
            assert(groups_of(vs)[k as int] == (p@, group_of(vs, p@)));
            assert(groups_view(g@) =~= g0.push((p@, group_of(vs, p@))));
            assert(groups_view(g@) =~= groups_of(vs).take(k + 1));
        }
        k = k + 1;
    }
    proof {
        assert(groups_of(vs).len() == products_of(vs).len());
        assert(groups_view(g@) =~= groups_of(vs));
    }
    g
}

} // verus!
