use lens_orders::order::{NewOrder, STATUS_NOT_ORDERED, STATUS_ORDERED};
use lens_orders::paths::{db_file, db_path, settings_path};
use lens_orders::store::{OrderStore, StoreError};

fn plain_order(product: &str, status: &str, qty: i64) -> NewOrder {
    NewOrder {
        fio: "Test Person".to_string(),
        phone: "70000000000".to_string(),
        product: product.to_string(),
        sph: None,
        cyl: None,
        ax: None,
        bc: None,
        qty,
        status: status.to_string(),
        date: "2024-01-01 10:00".to_string(),
        comment: String::new(),
    }
}

#[test]
fn init_seeds_empty_store_once() {
    let mut s = OrderStore::open_in_memory().unwrap();
    s.init_db().unwrap();
    assert_eq!(s.count_orders().unwrap(), 2);
    s.init_db().unwrap();
    assert_eq!(s.count_orders().unwrap(), 2);
    s.init_db().unwrap();
    assert_eq!(s.count_orders().unwrap(), 2);
}

#[test]
fn init_leaves_non_empty_store_alone() {
    let mut s = OrderStore::open_in_memory().unwrap();
    s.init_db().unwrap();
    s.insert_order(&plain_order("Biofinity", STATUS_NOT_ORDERED, 1)).unwrap();
    assert_eq!(s.count_orders().unwrap(), 3);
    s.init_db().unwrap();
    assert_eq!(s.count_orders().unwrap(), 3);
}

#[test]
fn seed_records_hold_demo_values() {
    let mut s = OrderStore::open_in_memory().unwrap();
    s.init_db().unwrap();
    let v = s.list_mkl_orders(10).unwrap();
    assert_eq!(v.len(), 2);
    // newest first: the second seed comes first
    assert_eq!(v[0].fio, "Петров Петр Петрович");
    assert_eq!(v[0].phone, "71234567890");
    assert_eq!(v[0].product, "Air Optix Aqua");
    assert_eq!(v[0].sph.as_deref(), Some("-1.25"));
    assert_eq!(v[0].cyl.as_deref(), Some(""));
    assert_eq!(v[0].ax, None);
    assert_eq!(v[0].bc.as_deref(), Some("8.6"));
    assert_eq!(v[0].qty, 1);
    assert_eq!(v[0].status, STATUS_ORDERED);
    assert_eq!(v[0].comment, "Позвонить завтра");
    assert_eq!(v[1].fio, "Иванов Иван Иванович");
    assert_eq!(v[1].phone, "89123456789");
    assert_eq!(v[1].sph.as_deref(), Some("-1.25"));
    assert_eq!(v[1].cyl.as_deref(), Some("-0.75"));
    assert_eq!(v[1].ax, Some(80));
    assert_eq!(v[1].bc.as_deref(), Some("8.6"));
    assert_eq!(v[1].qty, 2);
    assert_eq!(v[1].status, STATUS_NOT_ORDERED);
    assert_eq!(v[1].comment, "");
    assert!(v[0].id > v[1].id);
}

#[test]
fn list_zero_returns_empty() {
    let mut s = OrderStore::open_in_memory().unwrap();
    s.init_db().unwrap();
    let v = s.list_mkl_orders(0).unwrap();
    assert!(v.is_empty());
}

#[test]
fn list_negative_is_invalid_argument() {
    let mut s = OrderStore::open_in_memory().unwrap();
    s.init_db().unwrap();
    match s.list_mkl_orders(-1) {
        Err(e) => assert_eq!(e, StoreError::InvalidArgument),
        Ok(_) => panic!("a negative limit must be rejected"),
    }
}

#[test]
fn list_is_newest_first_and_truncated() {
    let mut s = OrderStore::open_in_memory().unwrap();
    s.init_db().unwrap();
    s.insert_order(&plain_order("Acuvue", STATUS_NOT_ORDERED, 5)).unwrap();
    s.insert_order(&plain_order("Biofinity", STATUS_NOT_ORDERED, 6)).unwrap();
    let v = s.list_mkl_orders(2).unwrap();
    assert_eq!(v.len(), 2);
    assert_eq!(v[0].product, "Biofinity");
    assert_eq!(v[1].product, "Acuvue");
    assert!(v[0].id > v[1].id);
    let all = s.list_mkl_orders(100).unwrap();
    assert_eq!(all.len(), 4);
}

#[test]
fn grouping_excludes_non_pending() {
    let mut s = OrderStore::open_in_memory().unwrap();
    s.init_db().unwrap();
    // the second seed is already ordered, so only the first seed is pending
    let g = s.pending_grouped_by_product().unwrap();
    assert_eq!(g.len(), 1);
    assert_eq!(g[0].0, "Air Optix Aqua");
    assert_eq!(g[0].1.len(), 1);
    assert_eq!(g[0].1[0].fio, "Иванов Иван Иванович");
    s.insert_order(&plain_order("Acuvue", "Вручен", 1)).unwrap();
    s.insert_order(&plain_order("Acuvue", "Прозвонен", 1)).unwrap();
    let g2 = s.pending_grouped_by_product().unwrap();
    assert_eq!(g2.len(), 1);
    assert_eq!(g2[0].1.len(), 1);
}

#[test]
fn grouping_is_first_seen_order() {
    let mut s = OrderStore::open_in_memory().unwrap();
    s.init_db().unwrap();
    s.insert_order(&plain_order("Biofinity", STATUS_NOT_ORDERED, 1)).unwrap();
    s.insert_order(&plain_order("Acuvue", STATUS_NOT_ORDERED, 2)).unwrap();
    s.insert_order(&plain_order("Biofinity", STATUS_NOT_ORDERED, 3)).unwrap();
    let g = s.pending_grouped_by_product().unwrap();
    assert_eq!(g.len(), 3);
    assert_eq!(g[0].0, "Air Optix Aqua");
    assert_eq!(g[1].0, "Biofinity");
    assert_eq!(g[1].1.len(), 2);
    assert_eq!(g[1].1[0].qty, 1);
    assert_eq!(g[1].1[1].qty, 3);
    assert_eq!(g[2].0, "Acuvue");
    assert_eq!(g[2].1.len(), 1);
}

#[test]
fn insert_without_table_is_storage_error() {
    let mut s = OrderStore::open_in_memory().unwrap();
    match s.insert_order(&plain_order("Acuvue", STATUS_NOT_ORDERED, 1)) {
        Err(e) => assert_eq!(e, StoreError::Storage),
        Ok(_) => panic!("insert into a store without a table must fail"),
    }
}

#[test]
fn seed_date_is_a_minute_timestamp() {
    let mut s = OrderStore::open_in_memory().unwrap();
    s.init_db().unwrap();
    let v = s.list_mkl_orders(2).unwrap();
    // YYYY-MM-DD HH:MM
    assert_eq!(v[0].date.len(), 16);
    assert_eq!(v[0].date, v[1].date);
    assert_eq!(v[0].date.as_bytes()[4], b'-');
    assert_eq!(v[0].date.as_bytes()[10], b' ');
    assert_eq!(v[0].date.as_bytes()[13], b':');
}

#[test]
fn path_helpers_join_the_app_dir() {
    assert_eq!(db_file("/srv/app"), "/srv/app/data.db");
    assert_eq!(db_path("/srv/app"), "/srv/app/data.db");
    assert_eq!(settings_path("/srv/app"), "/srv/app/settings.json");
}
