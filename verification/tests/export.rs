use lens_orders::export::{export_mkl_text, filename_for_date, render_line, today_filename};
use lens_orders::numfmt::{i64_to_dec, u64_to_dec};
use lens_orders::order::{MklOrder, NewOrder, STATUS_NOT_ORDERED};
use lens_orders::store::OrderStore;

fn order_b() -> NewOrder {
    NewOrder {
        fio: "Test Person".to_string(),
        phone: "70000000001".to_string(),
        product: "Air Optix Aqua".to_string(),
        sph: Some("-2.00".to_string()),
        cyl: Some("".to_string()),
        ax: None,
        bc: None,
        qty: 1,
        status: STATUS_NOT_ORDERED.to_string(),
        date: "2024-01-01 10:00".to_string(),
        comment: String::new(),
    }
}

#[test]
fn export_scenario_two_pending_orders() {
    let mut s = OrderStore::open_in_memory().unwrap();
    // the first seed is exactly order A; the second seed is not pending
    s.init_db().unwrap();
    s.insert_order(&order_b()).unwrap();
    let txt = export_mkl_text(&s).unwrap();
    assert_eq!(
        txt,
        "Air Optix Aqua\nSph: -1.25 Cyl: -0.75 Ax: 80 BC: 8.6 Количество: 2\nSph: -2.00 Количество: 1\n\n"
    );
}

#[test]
fn export_is_idempotent_on_unchanged_data() {
    let mut s = OrderStore::open_in_memory().unwrap();
    s.init_db().unwrap();
    s.insert_order(&order_b()).unwrap();
    let first = export_mkl_text(&s).unwrap();
    let second = export_mkl_text(&s).unwrap();
    assert_eq!(first, second);
    assert_eq!(first.as_bytes(), second.as_bytes());
}

#[test]
fn whitespace_only_cyl_is_omitted() {
    let mut s = OrderStore::open_in_memory().unwrap();
    s.init_db().unwrap();
    let mut o = order_b();
    o.product = "Biofinity".to_string();
    o.sph = Some("-1.00".to_string());
    o.cyl = Some("   ".to_string());
    o.qty = 3;
    s.insert_order(&o).unwrap();
    let txt = export_mkl_text(&s).unwrap();
    assert_eq!(
        txt,
        "Air Optix Aqua\nSph: -1.25 Cyl: -0.75 Ax: 80 BC: 8.6 Количество: 2\n\nBiofinity\nSph: -1.00 Количество: 3\n\n"
    );
}

#[test]
fn render_line_keeps_optional_field_order() {
    let o = MklOrder {
        id: 1,
        fio: "Test Person".to_string(),
        phone: "70000000002".to_string(),
        product: "Biofinity".to_string(),
        sph: None,
        cyl: Some("-0.50".to_string()),
        ax: Some(-5),
        bc: Some("8.7".to_string()),
        qty: 12,
        status: STATUS_NOT_ORDERED.to_string(),
        date: "2024-01-01 10:00".to_string(),
        comment: String::new(),
    };
    assert_eq!(render_line(&o), "Cyl: -0.50 Ax: -5 BC: 8.7 Количество: 12");
}

#[test]
fn filename_is_prefix_and_padded_date() {
    assert_eq!(filename_for_date("MKL", 7, 3, 2024), "MKL_07.03.24.txt");
    assert_eq!(filename_for_date("MKL", 31, 12, 1999), "MKL_31.12.99.txt");
    assert_eq!(filename_for_date("MKL", 1, 1, 2000), "MKL_01.01.00.txt");
    let today = today_filename("MKL");
    assert!(today.starts_with("MKL_"));
    assert!(today.ends_with(".txt"));
    assert_eq!(today.len(), "MKL_00.00.00.txt".len());
}

#[test]
fn decimal_rendering_is_exact() {
    assert_eq!(u64_to_dec(0), "0");
    assert_eq!(u64_to_dec(10), "10");
    assert_eq!(u64_to_dec(987654), "987654");
    assert_eq!(i64_to_dec(-1), "-1");
    assert_eq!(i64_to_dec(180), "180");
    assert_eq!(i64_to_dec(i64::MIN), "-9223372036854775808");
}
