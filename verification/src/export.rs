//! The export engine: renders pending orders, grouped by product, into
//! the plain-text fulfilment sheet, and computes the export file name.
//!
//! Rendering is pure text formatting: `sph`, `cyl` and `bc` are emitted
//! verbatim as stored, `ax` and the quantity in decimal. A line holds
//! only the non-empty optional fields, in the fixed order Sph, Cyl, Ax,
//! BC, followed by the quantity field. The file I/O around this (writing
//! the sheet into the export directory) is the caller's concern.

use vstd::prelude::*;
use vstd::string::StringExecFns;
use chrono::Datelike;
use crate::numfmt::{dec_of_int, digit_char, i64_to_dec, u32_two_digits};
use crate::order::{MklOrder, OrderV};
use crate::text::{blank, is_blank};
use crate::grouping::{groups_of, groups_view};
use crate::store::{OrderStore, StoreError};

verus! {

/// The parts of one order line: each present optional field rendered as
/// `"<Label>: <value>"`, in the fixed field order, and unconditionally
/// the quantity part. `sph` and `cyl` count as present only when not
/// blank; `ax` and `bc` whenever stored.
pub open spec fn line_parts(o: OrderV) -> Seq<Seq<char>> {
    let sph_part: Seq<Seq<char>> = match o.sph {
        Some(s) => if !blank(s) {
            seq!["Sph: "@ + s]
        } else {
            seq![]
        },
        None => seq![],
    };
    let cyl_part: Seq<Seq<char>> = match o.cyl {
        Some(s) => if !blank(s) {
            seq!["Cyl: "@ + s]
        } else {
            seq![]
        },
        None => seq![],
    };
    let ax_part: Seq<Seq<char>> = match o.ax {
        Some(a) => seq!["Ax: "@ + dec_of_int(a)],
        None => seq![],
    };
    let bc_part: Seq<Seq<char>> = match o.bc {
        Some(b) => seq!["BC: "@ + b],
        None => seq![],
    };
    sph_part + cyl_part + ax_part + bc_part + seq!["Количество: "@ + dec_of_int(o.qty)]
}

/// The parts from index `i` on, joined by single spaces.
pub open spec fn join_from(parts: Seq<Seq<char>>, i: int) -> Seq<char>
    decreases parts.len() - i,
{
    if i < 0 || i >= parts.len() {
        Seq::empty()
    } else if i == parts.len() - 1 {
        parts[i]
    } else {
        parts[i] + " "@ + join_from(parts, i + 1)
    }
}

/// One rendered order line (without the trailing newline).
pub open spec fn line_of(o: OrderV) -> Seq<char> {
    join_from(line_parts(o), 0)
}

/// The rendered lines of the items from index `i` on, one per order,
/// each followed by a newline.
pub open spec fn lines_from(items: Seq<OrderV>, i: int) -> Seq<char>
    decreases items.len() - i,
{
    if i < 0 || i >= items.len() {
        Seq::empty()
    } else {
        line_of(items[i]) + "\n"@ + lines_from(items, i + 1)
    }
}

/// One rendered group: the product name as a header line, the order
/// lines, then a blank line.
pub open spec fn render_group(g: (Seq<char>, Seq<OrderV>)) -> Seq<char> {
    g.0 + "\n"@ + lines_from(g.1, 0) + "\n"@
}

/// The rendered groups from index `k` on, concatenated.
pub open spec fn groups_from(gs: Seq<(Seq<char>, Seq<OrderV>)>, k: int) -> Seq<char>
    decreases gs.len() - k,
{
    if k < 0 || k >= gs.len() {
        Seq::empty()
    } else {
        render_group(gs[k]) + groups_from(gs, k + 1)
    }
}

/// The whole export document for a group list.
pub open spec fn render_groups(gs: Seq<(Seq<char>, Seq<OrderV>)>) -> Seq<char> {
    groups_from(gs, 0)
}

pub open spec fn parts_view(s: Seq<String>) -> Seq<Seq<char>> {
    s.map_values(|x: String| x@)
}

fn join_space(parts: &Vec<String>, i: usize) -> (r: String)
    requires
        i <= parts@.len(),
    ensures
        r@ == join_from(parts_view(parts@), i as int),
    decreases parts@.len() - i,
{
    if i >= parts.len() {
        String::new()
    } else if i == parts.len() - 1 {
        parts[i].clone()
    } else {
        let mut s = parts[i].clone();
        s.append(" ");
        let rest = join_space(parts, i + 1);
        s.append(rest.as_str());
        s
    }
}

/// Renders one order line, exactly as `line_of` describes.
pub fn render_line(o: &MklOrder) -> (r: String)
    ensures
        r@ == line_of(o@),
{
    let mut parts: Vec<String> = Vec::new();
    match &o.sph {
        Some(s) => {
            if !is_blank(s.as_str()) {
                let mut t = "Sph: ".to_owned();
                t.append(s.as_str());
                parts.push(t);
            }
        }
        None => {}
    }
    match &o.cyl {
        Some(s) => {
            if !is_blank(s.as_str()) {
                let mut t = "Cyl: ".to_owned();
                t.append(s.as_str());
                parts.push(t);
            }
        }
        None => {}
    }
    match o.ax {
        Some(a) => {
            let mut t = "Ax: ".to_owned();
            let d = i64_to_dec(a);
            t.append(d.as_str());
            parts.push(t);
        }
        None => {}
    }
    match &o.bc {
        Some(b) => {
            let mut t = "BC: ".to_owned();
            t.append(b.as_str());
            parts.push(t);
        }
        None => {}
    }
    let mut q = "Количество: ".to_owned();
    let qd = i64_to_dec(o.qty);
    q.append(qd.as_str());
    parts.push(q);
    proof {
        assert(parts_view(parts@) =~= line_parts(o@));
    }
    join_space(&parts, 0)
}

/// Renders the whole export document for a group list, exactly as
/// `render_groups` describes. Equal group lists give byte-identical
/// documents.
pub fn render_mkl_export(groups: &Vec<(String, Vec<MklOrder>)>) -> (r: String)
    ensures
        r@ == render_groups(groups_view(groups@)),
{
    let ghost gv = groups_view(groups@);
    let mut out = String::new();
    let mut k: usize = 0;
    while k < groups.len()
        invariant
            k <= groups.len(),
            gv == groups_view(groups@),
            gv.len() == groups@.len(),
            out@ + groups_from(gv, k as int) == render_groups(gv),
        decreases groups.len() - k,
    {
        let pr = &groups[k];
        let ghost iv = gv[k as int].1;
        let mut gs = pr.0.clone();
        gs.append("\n");
        let mut i: usize = 0;
        while i < pr.1.len()
            invariant
                i <= pr.1.len(),
                iv.len() == pr.1@.len(),
                forall|j: int| 0 <= j < iv.len() ==> iv[j] == #[trigger] pr.1@[j]@,
                gs@ + lines_from(iv, i as int) == gv[k as int].0 + "\n"@ + lines_from(iv, 0),
                gv[k as int] == (gv[k as int].0, iv),
            decreases pr.1.len() - i,
        {
            let ghost gs0 = gs@;
            let line = render_line(&pr.1[i]);
            gs.append(line.as_str());
            gs.append("\n");
            proof {
                assert(lines_from(iv, i as int) == line_of(iv[i as int]) + "\n"@ + lines_from(
                    iv,
                    i + 1,
                ));
                assert(gs@ + lines_from(iv, i + 1) =~= gs0 + lines_from(iv, i as int));
            }
            i = i + 1;
        }
        let ghost gs1 = gs@;
        gs.append("\n");
        proof {
            assert(lines_from(iv, pr.1@.len() as int) == Seq::<char>::empty());
            assert(gs1 =~= gs1 + lines_from(iv, pr.1@.len() as int));
            assert(gs@ =~= render_group(gv[k as int]));
        }
        let ghost out0 = out@;
        out.append(gs.as_str());
        proof {
            assert(groups_from(gv, k as int) == render_group(gv[k as int]) + groups_from(
                gv,
                k + 1,
            ));
            assert(out@ + groups_from(gv, k + 1) =~= out0 + groups_from(gv, k as int));
        }
        k = k + 1;
    }
    proof {
        assert(groups_from(gv, gv.len() as int) == Seq::<char>::empty());
        assert(out@ =~= out@ + groups_from(gv, gv.len() as int));
    }
    out
}

/// Two decimal digits: the value modulo 100, zero padded.
pub open spec fn two_dig(n: int) -> Seq<char> {
    seq![digit_char((n % 100) / 10), digit_char((n % 100) % 10)]
}

/// The export file name for a category prefix and a calendar date:
/// `<prefix>_<DD.MM.YY>.txt`, each date part zero padded to two digits.
pub open spec fn spec_filename(prefix: Seq<char>, d: int, m: int, y: int) -> Seq<char> {
    prefix + "_"@ + two_dig(d) + "."@ + two_dig(m) + "."@ + two_dig(y) + ".txt"@
}

/// Builds the export file name for the given date, exactly as
/// `spec_filename` describes.
pub fn filename_for_date(prefix: &str, day: u32, month: u32, year: i32) -> (r: String)
    ensures
        r@ == spec_filename(prefix@, day as int, month as int, year as int),
{
    let mut s = prefix.to_owned();
    s.append("_");
    let dd = u32_two_digits(day);
    s.append(dd.as_str());
    s.append(".");
    let mm = u32_two_digits(month);
    s.append(mm.as_str());
    s.append(".");
    let yr: i32 = match year.checked_rem_euclid(100) {
        Some(v) => v,
        None => 0,
    };
    let yy = u32_two_digits(yr as u32);
    s.append(yy.as_str());
    s.append(".txt");
    s
}

/// Relies on chrono's `Local::now` and the `Datelike` accessors `day`,
/// `month` and `year`: chrono documents day as 1..=31 and month as
/// 1..=12; the values come from the wall clock, so nothing more is
/// promised.
#[verifier::external_body]
fn today_dmy() -> (r: (u32, u32, i32))
    ensures
        1 <= r.0 <= 31,
        1 <= r.1 <= 12,
{
    let now = chrono::Local::now();
    (now.day(), now.month(), now.year())
}

/// The export file name for today's local date.
pub fn today_filename(prefix: &str) -> (r: String)
    ensures
        exists|d: int, m: int, y: int|
            1 <= d <= 31 && 1 <= m <= 12 && r@ == spec_filename(prefix@, d, m, y),
{
    let (d, m, y) = today_dmy();
    let r = filename_for_date(prefix, d, m, y);
    proof {
        assert(r@ == spec_filename(prefix@, d as int, m as int, y as int));
    }
    r
}

/// The full export document for the store's pending orders: the groups
/// fetched in their deterministic order, rendered. The document is a
/// function of the stored orders alone, so re-running it on unchanged
/// data yields byte-identical content.
pub fn export_mkl_text(store: &OrderStore) -> (r: Result<String, StoreError>)
    ensures
        r matches Ok(s) ==> s@ == render_groups(groups_of(store@)),
{
    match store.pending_grouped_by_product() {
        Ok(g) => Ok(render_mkl_export(&g)),
        Err(e) => Err(e),
    }
}

} // verus!
