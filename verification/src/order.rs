//! The contact-lens order record and its mathematical view.
//!
//! Optical powers (`sph`, `cyl`) and the base curve (`bc`) are carried as
//! free-form decimal strings end-to-end: sign and step formatting are kept
//! exactly as entered, never re-interpreted numerically.

use vstd::prelude::*;

verus! {

/// Status literal that marks an order as pending: only these orders are
/// picked up by the export.
pub const STATUS_NOT_ORDERED: &'static str = "Не заказан";

/// Status literal for an order already placed with the supplier.
pub const STATUS_ORDERED: &'static str = "Заказан";

/// One lens-order row.
pub struct MklOrder {
    /// Unique, monotonically assigned identifier.
    pub id: i64,
    /// Customer full name.
    pub fio: String,
    /// Digits-only phone string.
    pub phone: String,
    /// Product name; the export grouping key.
    pub product: String,
    /// Sphere power, verbatim as entered.
    pub sph: Option<String>,
    /// Cylinder power, verbatim as entered.
    pub cyl: Option<String>,
    /// Axis in degrees.
    pub ax: Option<i64>,
    /// Base curve, as its decimal rendering.
    pub bc: Option<String>,
    /// Quantity ordered.
    pub qty: i64,
    /// Lifecycle status string; only `STATUS_NOT_ORDERED` is special.
    pub status: String,
    /// Creation timestamp, `YYYY-MM-DD HH:MM`.
    pub date: String,
    /// Free-text comment.
    pub comment: String,
}

/// Ghost view of an order: every string as its character sequence.
pub ghost struct OrderV {
    pub id: int,
    pub fio: Seq<char>,
    pub phone: Seq<char>,
    pub product: Seq<char>,
    pub sph: Option<Seq<char>>,
    pub cyl: Option<Seq<char>>,
    pub ax: Option<int>,
    pub bc: Option<Seq<char>>,
    pub qty: int,
    pub status: Seq<char>,
    pub date: Seq<char>,
    pub comment: Seq<char>,
}

pub open spec fn opt_str_view(o: Option<String>) -> Option<Seq<char>> {
    match o {
        Some(s) => Some(s@),
        None => None,
    }
}

impl View for MklOrder {
    type V = OrderV;

    open spec fn view(&self) -> OrderV {
        OrderV {
            id: self.id as int,
            fio: self.fio@,
            phone: self.phone@,
            product: self.product@,
            sph: opt_str_view(self.sph),
            cyl: opt_str_view(self.cyl),
            ax: match self.ax {
                Some(a) => Some(a as int),
                None => None,
            },
            bc: opt_str_view(self.bc),
            qty: self.qty as int,
            status: self.status@,
            date: self.date@,
            comment: self.comment@,
        }
    }
}

/// The fields of an order before the store has assigned it an identifier.
pub struct NewOrder {
    pub fio: String,
    pub phone: String,
    pub product: String,
    pub sph: Option<String>,
    pub cyl: Option<String>,
    pub ax: Option<i64>,
    pub bc: Option<String>,
    pub qty: i64,
    pub status: String,
    pub date: String,
    pub comment: String,
}

/// Ghost view of `NewOrder`.
pub ghost struct NewOrderV {
    pub fio: Seq<char>,
    pub phone: Seq<char>,
    pub product: Seq<char>,
    pub sph: Option<Seq<char>>,
    pub cyl: Option<Seq<char>>,
    pub ax: Option<int>,
    pub bc: Option<Seq<char>>,
    pub qty: int,
    pub status: Seq<char>,
    pub date: Seq<char>,
    pub comment: Seq<char>,
}

impl View for NewOrder {
    type V = NewOrderV;

    open spec fn view(&self) -> NewOrderV {
        NewOrderV {
            fio: self.fio@,
            phone: self.phone@,
            product: self.product@,
            sph: opt_str_view(self.sph),
            cyl: opt_str_view(self.cyl),
            ax: match self.ax {
                Some(a) => Some(a as int),
                None => None,
            },
            bc: opt_str_view(self.bc),
            qty: self.qty as int,
            status: self.status@,
            date: self.date@,
            comment: self.comment@,
        }
    }
}

/// A stored row carries exactly the fields of a `NewOrder`, plus some
/// identifier the storage engine assigned.
pub open spec fn row_matches_new(row: OrderV, n: NewOrderV) -> bool {
    &&& row.fio == n.fio
    &&& row.phone == n.phone
    &&& row.product == n.product
    &&& row.sph == n.sph
    &&& row.cyl == n.cyl
    &&& row.ax == n.ax
    &&& row.bc == n.bc
    &&& row.qty == n.qty
    &&& row.status == n.status
    &&& row.date == n.date
    &&& row.comment == n.comment
}

} // verus!
