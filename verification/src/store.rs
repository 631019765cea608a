//! The order store: one SQLite table of lens orders, reached through
//! rusqlite behind a small set of trusted declarations.
//!
//! The table is modelled by `db_orders`: the rows of `mkl_orders` in
//! ascending identifier order (the empty sequence while the table does
//! not exist). Every trusted contract below speaks of that model.

use vstd::prelude::*;
use crate::order::{MklOrder, NewOrder, OrderV, NewOrderV, row_matches_new};
use crate::order::{STATUS_NOT_ORDERED, STATUS_ORDERED};
use crate::grouping::{group_pending, groups_of, groups_view, is_pending, orders_view,
    lemma_groups_only_pending};

verus! {

/// Declares rusqlite's `Connection` so it can stand in fields and
/// signatures; its value is opaque here.
#[verifier::external_type_specification]
#[verifier::external_body]
pub struct ExConnection(rusqlite::Connection);

/// Declares rusqlite's `Error` so the trusted wrappers can return it.
#[verifier::external_type_specification]
#[verifier::external_body]
pub struct ExSqliteError(rusqlite::Error);

/// The rows of the `mkl_orders` table behind a connection, in ascending
/// identifier order; the empty sequence while the table does not exist.
/// The model treats the connection as the table's only handle: every
/// store below owns its connection, and nothing else writes the table
/// while it is open.
pub uninterp spec fn db_orders(c: rusqlite::Connection) -> Seq<OrderV>;

/// Relies on rusqlite's `Connection::open`: opens (creating if absent) the
/// database file at `path`. Nothing is known of the table contents found
/// on disk.
#[verifier::external_body]
fn db_open(path: &str) -> (r: Result<rusqlite::Connection, rusqlite::Error>) {
    rusqlite::Connection::open(path)
}

/// Relies on rusqlite's `Connection::open_in_memory`: a fresh private
/// in-memory database holds no tables, so the order table model is empty.
#[verifier::external_body]
fn db_open_in_memory() -> (r: Result<rusqlite::Connection, rusqlite::Error>)
    ensures
        r matches Ok(c) ==> db_orders(c) == Seq::<OrderV>::empty(),
{
    rusqlite::Connection::open_in_memory()
}

/// Relies on rusqlite's `Connection::execute_batch` running a single
/// `CREATE TABLE IF NOT EXISTS`: existing rows are never touched, and a
/// newly created table is empty, so the model is unchanged either way
/// (a failed statement changes nothing).
#[verifier::external_body]
fn db_create_orders_table(c: &mut rusqlite::Connection) -> (r: Result<(), rusqlite::Error>)
    ensures
        db_orders(*final(c)) == db_orders(*old(c)),
{
    c.execute_batch(
        "CREATE TABLE IF NOT EXISTS mkl_orders (id INTEGER PRIMARY KEY AUTOINCREMENT, fio TEXT NOT NULL, phone TEXT NOT NULL, product TEXT NOT NULL, sph TEXT, cyl TEXT, ax INTEGER, bc TEXT, qty INTEGER NOT NULL, status TEXT NOT NULL, date TEXT NOT NULL, comment TEXT DEFAULT '')",
    )
}

/// Relies on rusqlite's `Connection::query_row` running
/// `SELECT COUNT(*)`: on success the count is the number of rows.
#[verifier::external_body]
fn db_count_orders(c: &rusqlite::Connection) -> (r: Result<i64, rusqlite::Error>)
    ensures
        r matches Ok(n) ==> n == db_orders(*c).len(),
{
    c.query_row("SELECT COUNT(*) FROM mkl_orders", (), |row| row.get(0))
}

/// Relies on rusqlite's `Connection::execute` running an `INSERT`: on
/// success exactly one row with these fields is added, and SQLite's
/// `AUTOINCREMENT` assigns it an identifier above every existing one, so
/// the new row stands at the end of the model; a failed statement
/// changes nothing.
#[verifier::external_body]
fn db_insert_order(c: &mut rusqlite::Connection, o: &NewOrder) -> (r: Result<
    (),
    rusqlite::Error,
>)
    ensures
        r is Ok ==> {
            let t0 = db_orders(*old(c));
            let t1 = db_orders(*final(c));
            &&& t1.len() == t0.len() + 1
            &&& (forall|i: int| 0 <= i < t0.len() ==> t1[i] == t0[i])
            &&& row_matches_new(t1[t0.len() as int], o@)
            &&& (forall|i: int| 0 <= i < t0.len() ==> t1[t0.len() as int].id > #[trigger] t1[i].id)
        },
        r is Err ==> db_orders(*final(c)) == db_orders(*old(c)),
{
    c.execute(
        "INSERT INTO mkl_orders (fio, phone, product, sph, cyl, ax, bc, qty, status, date, comment) VALUES (?1, ?2, ?3, ?4, ?5, ?6, ?7, ?8, ?9, ?10, ?11)",
        (&o.fio, &o.phone, &o.product, &o.sph, &o.cyl, &o.ax, &o.bc, &o.qty, &o.status, &o.date,
        &o.comment),
    )?;
    Ok(())
}

/// Relies on rusqlite's `Statement::query_map` running
/// `SELECT ... ORDER BY id DESC LIMIT ?`: on success the result holds the
/// last `limit` rows of the model, newest first; identifiers descend
/// strictly, since `id` is the primary key.
#[verifier::external_body]
fn db_query_orders_desc(c: &rusqlite::Connection, limit: i64) -> (r: Result<
    Vec<MklOrder>,
    rusqlite::Error,
>)
    requires
        limit >= 0,
    ensures
        r matches Ok(v) ==> {
            let t = db_orders(*c);
            &&& v@.len() == (if limit <= t.len() {
                limit as int
            } else {
                t.len() as int
            })
            &&& (forall|i: int| 0 <= i < v@.len() ==> #[trigger] v@[i]@ == t[t.len() - 1 - i])
            &&& (forall|i: int, j: int|
                0 <= i < j < v@.len() ==> #[trigger] v@[i].id > #[trigger] v@[j].id)
        },
{
    let mut stmt = c.prepare(
        "SELECT id, fio, phone, product, sph, cyl, ax, bc, qty, status, date, comment FROM mkl_orders ORDER BY id DESC LIMIT ?1",
    )?;
    let rows = stmt.query_map((limit,), |row| Ok(MklOrder {
        id: row.get(0)?, fio: row.get(1)?, phone: row.get(2)?, product: row.get(3)?,
        sph: row.get(4)?, cyl: row.get(5)?, ax: row.get(6)?, bc: row.get(7)?,
        qty: row.get(8)?, status: row.get(9)?, date: row.get(10)?, comment: row.get(11)?,
    }))?;
    rows.collect()
}

/// Relies on rusqlite's `Statement::query_map` running
/// `SELECT ... ORDER BY id ASC`: on success the result is exactly the
/// model, oldest first; identifiers ascend strictly, since `id` is the
/// primary key.
#[verifier::external_body]
fn db_query_orders_asc(c: &rusqlite::Connection) -> (r: Result<
    Vec<MklOrder>,
    rusqlite::Error,
>)
    ensures
        r matches Ok(v) ==> {
            let t = db_orders(*c);
            &&& v@.len() == t.len()
            &&& (forall|i: int| 0 <= i < v@.len() ==> #[trigger] v@[i]@ == t[i])
            &&& (forall|i: int, j: int|
                0 <= i < j < v@.len() ==> #[trigger] v@[i].id < #[trigger] v@[j].id)
        },
{
    let mut stmt = c.prepare(
        "SELECT id, fio, phone, product, sph, cyl, ax, bc, qty, status, date, comment FROM mkl_orders ORDER BY id ASC",
    )?;
    let rows = stmt.query_map((), |row| Ok(MklOrder {
        id: row.get(0)?, fio: row.get(1)?, phone: row.get(2)?, product: row.get(3)?,
        sph: row.get(4)?, cyl: row.get(5)?, ax: row.get(6)?, bc: row.get(7)?,
        qty: row.get(8)?, status: row.get(9)?, date: row.get(10)?, comment: row.get(11)?,
    }))?;
    rows.collect()
}

/// Relies on chrono's `Local::now` and its `%Y-%m-%d %H:%M` formatting:
/// the creation timestamp of the seed records comes from the wall clock,
/// so nothing is promised of the value.
#[verifier::external_body]
fn now_datetime_string() -> (r: String) {
    chrono::Local::now().format("%Y-%m-%d %H:%M").to_string()
}

/// Errors of the order store.
#[derive(Clone, Copy, Debug, PartialEq, Eq, Structural)]
pub enum StoreError {
    /// A caller handed an argument the store rejects before any I/O,
    /// such as a negative `limit`.
    InvalidArgument,
    /// The storage engine failed to open, query or insert.
    Storage,
}

/// The order store: a connection to the database that holds the
/// `mkl_orders` table. Its view is the sequence of stored orders in
/// ascending identifier order.
pub struct OrderStore {
    conn: rusqlite::Connection,
}

impl View for OrderStore {
    type V = Seq<OrderV>;

    closed spec fn view(&self) -> Seq<OrderV> {
        db_orders(self.conn)
    }
}

/// The first seed record: a full set of optical fields, pending.
pub open spec fn demo_first(date: Seq<char>) -> NewOrderV {
    NewOrderV {
        fio: "Иванов Иван Иванович"@,
        phone: "89123456789"@,
        product: "Air Optix Aqua"@,
        sph: Some("-1.25"@),
        cyl: Some("-0.75"@),
        ax: Some(80),
        bc: Some("8.6"@),
        qty: 2,
        status: STATUS_NOT_ORDERED@,
        date: date,
        comment: ""@,
    }
}

/// The second seed record: empty cylinder, no axis, already ordered.
pub open spec fn demo_second(date: Seq<char>) -> NewOrderV {
    NewOrderV {
        fio: "Петров Петр Петрович"@,
        phone: "71234567890"@,
        product: "Air Optix Aqua"@,
        sph: Some("-1.25"@),
        cyl: Some(""@),
        ax: None,
        bc: Some("8.6"@),
        qty: 1,
        status: STATUS_ORDERED@,
        date: date,
        comment: "Позвонить завтра"@,
    }
}

/// How initialization relates the table before (`t0`) and after (`t1`):
/// an empty table receives exactly the two seed records, dated `date`;
/// a non-empty table is left untouched.
pub open spec fn seeded_from(t0: Seq<OrderV>, t1: Seq<OrderV>, date: Seq<char>) -> bool {
    if t0.len() == 0 {
        &&& t1.len() == 2
        &&& row_matches_new(t1[0], demo_first(date))
        &&& row_matches_new(t1[1], demo_second(date))
    } else {
        t1 == t0
    }
}

/// What a failed initialization can leave behind: a non-empty table is
/// untouched; an empty table is untouched, or holds only the first seed
/// row when the failure struck between the two inserts. In particular a
/// failure never inserts a seed row into a non-empty table.
pub open spec fn seed_interrupted(t0: Seq<OrderV>, t1: Seq<OrderV>, date: Seq<char>) -> bool {
    if t0.len() == 0 {
        t1 == t0 || (t1.len() == 1 && row_matches_new(t1[0], demo_first(date)))
    } else {
        t1 == t0
    }
}

/// Initializing a store a second time never duplicates the seed records:
/// whatever the first initialization left (two seed rows, or the
/// untouched non-empty table), the second leaves it exactly as it is.
pub proof fn lemma_initialize_idempotent(
    t0: Seq<OrderV>,
    t1: Seq<OrderV>,
    t2: Seq<OrderV>,
    d1: Seq<char>,
    d2: Seq<char>,
)
    requires
        seeded_from(t0, t1, d1),
        seeded_from(t1, t2, d2),
    ensures
        t2 == t1,
{
}

/// A failed re-initialization is harmless too: once a store has been
/// initialized (two seed rows, or an untouched non-empty table), a
/// later initialization that fails still leaves it exactly as it was.
pub proof fn lemma_initialize_failure_harmless(
    t0: Seq<OrderV>,
    t1: Seq<OrderV>,
    t2: Seq<OrderV>,
    d1: Seq<char>,
    d2: Seq<char>,
)
    requires
        seeded_from(t0, t1, d1),
        seed_interrupted(t1, t2, d2),
    ensures
        t2 == t1,
{
}

impl OrderStore {
    /// Opens (creating if absent) the database file at `path`. What the
    /// file already holds is unknown until queried.
    pub fn open(path: &str) -> (r: Result<OrderStore, StoreError>) {
        match db_open(path) {
            Ok(c) => Ok(OrderStore { conn: c }),
            Err(_) => Err(StoreError::Storage),
        }
    }

    /// Opens a fresh private in-memory store, which holds no orders.
    pub fn open_in_memory() -> (r: Result<OrderStore, StoreError>)
        ensures
            r matches Ok(s) ==> s@ == Seq::<OrderV>::empty(),
    {
        match db_open_in_memory() {
            Ok(c) => Ok(OrderStore { conn: c }),
            Err(_) => Err(StoreError::Storage),
        }
    }

    /// The number of stored orders.
    pub fn count_orders(&self) -> (r: Result<i64, StoreError>)
        ensures
            r matches Ok(n) ==> n == self@.len(),
    {
        match db_count_orders(&self.conn) {
            Ok(n) => Ok(n),
            Err(_) => Err(StoreError::Storage),
        }
    }

    /// Appends one order; the storage engine assigns its identifier. On
    /// failure the store is unchanged.
    pub fn insert_order(&mut self, o: &NewOrder) -> (r: Result<(), StoreError>)
        ensures
            r is Ok ==> {
                &&& final(self)@.len() == old(self)@.len() + 1
                &&& (forall|i: int| 0 <= i < old(self)@.len() ==> final(self)@[i] == old(self)@[i])
                &&& row_matches_new(final(self)@[old(self)@.len() as int], o@)
                &&& (forall|i: int|
                    0 <= i < old(self)@.len()
                        ==> final(self)@[old(self)@.len() as int].id
                        > #[trigger] final(self)@[i].id)
            },
            r is Err ==> final(self)@ == old(self)@,
    {
        match db_insert_order(&mut self.conn, o) {
            Ok(()) => Ok(()),
            Err(_) => Err(StoreError::Storage),
        }
    }

    /// Idempotently ensures the order table exists, and seeds an empty
    /// table with the two demo records, dated now. A non-empty table is
    /// never touched, whether the call succeeds or fails, so running
    /// this twice never duplicates the seeds; a failure on an empty
    /// table leaves at most the first seed row behind.
    pub fn init_db(&mut self) -> (r: Result<(), StoreError>)
        ensures
            r is Ok ==> exists|d: Seq<char>| seeded_from(old(self)@, final(self)@, d),
            r is Err ==> exists|d: Seq<char>| seed_interrupted(old(self)@, final(self)@, d),
            old(self)@.len() > 0 ==> final(self)@ == old(self)@,
    {
        match db_create_orders_table(&mut self.conn) {
            Ok(()) => {}
            Err(_) => {
                proof {
                    assert(seed_interrupted(old(self)@, self@, ""@));
                }
                return Err(StoreError::Storage);
            }
        }
        let count = match db_count_orders(&self.conn) {
            Ok(n) => n,
            Err(_) => {
                proof {
                    assert(seed_interrupted(old(self)@, self@, ""@));
                }
                return Err(StoreError::Storage);
            }
        };
        if count == 0 {
            let now = now_datetime_string();
            let first = NewOrder {
                fio: "Иванов Иван Иванович".to_owned(),
                phone: "89123456789".to_owned(),
                product: "Air Optix Aqua".to_owned(),
                sph: Some("-1.25".to_owned()),
                cyl: Some("-0.75".to_owned()),
                ax: Some(80),
                bc: Some("8.6".to_owned()),
                qty: 2,
                status: STATUS_NOT_ORDERED.to_owned(),
                date: now.clone(),
                comment: "".to_owned(),
            };
            let second = NewOrder {
                fio: "Петров Петр Петрович".to_owned(),
                phone: "71234567890".to_owned(),
                product: "Air Optix Aqua".to_owned(),
                sph: Some("-1.25".to_owned()),
                cyl: Some("".to_owned()),
                ax: None,
                bc: Some("8.6".to_owned()),
                qty: 1,
                status: STATUS_ORDERED.to_owned(),
                date: now.clone(),
                comment: "Позвонить завтра".to_owned(),
            };
            match self.insert_order(&first) {
                Ok(()) => {}
                Err(_) => {
                    proof {
                        assert(seed_interrupted(old(self)@, self@, ""@));
                    }
                    return Err(StoreError::Storage);
                }
            }
            match self.insert_order(&second) {
                Ok(()) => {}
                Err(_) => {
                    proof {
                        assert(row_matches_new(self@[0], demo_first(now@)));
                        assert(seed_interrupted(old(self)@, self@, now@));
                    }
                    return Err(StoreError::Storage);
                }
            }
            proof {
                assert(row_matches_new(self@[0], demo_first(now@)));
                assert(row_matches_new(self@[1], demo_second(now@)));
                assert(seeded_from(old(self)@, self@, now@));
            }
            Ok(())
        } else {
            proof {
                assert(seeded_from(old(self)@, self@, ""@));
            }
            Ok(())
        }
    }

    /// Up to `limit` most recently created orders, newest first. A
    /// negative `limit` is rejected before any I/O.
    pub fn list_mkl_orders(&self, limit: i64) -> (r: Result<Vec<MklOrder>, StoreError>)
        ensures
            limit < 0 <==> r == Err::<Vec<MklOrder>, StoreError>(StoreError::InvalidArgument),
            r matches Ok(v) ==> {
                &&& v@.len() == (if limit <= self@.len() {
                    limit as int
                } else {
                    self@.len() as int
                })
                &&& (forall|i: int|
                    0 <= i < v@.len() ==> #[trigger] v@[i]@ == self@[self@.len() - 1 - i])
                &&& (forall|i: int, j: int|
                    0 <= i < j < v@.len() ==> #[trigger] v@[i].id > #[trigger] v@[j].id)
            },
    {
        if limit < 0 {
            return Err(StoreError::InvalidArgument);
        }
        match db_query_orders_desc(&self.conn, limit) {
            Ok(v) => Ok(v),
            Err(_) => Err(StoreError::Storage),
        }
    }

    /// All pending orders, grouped by product: one group per distinct
    /// product in first-seen order, each holding its pending rows in
    /// stored order. Orders of any other status are excluded.
    pub fn pending_grouped_by_product(&self) -> (r: Result<
        Vec<(String, Vec<MklOrder>)>,
        StoreError,
    >)
        ensures
            r matches Ok(g) ==> groups_view(g@) == groups_of(self@),
            r matches Ok(g) ==> forall|k: int, j: int|
                0 <= k < groups_view(g@).len() && 0 <= j < groups_view(g@)[k].1.len()
                    ==> is_pending(#[trigger] groups_view(g@)[k].1[j]),
    {
        match db_query_orders_asc(&self.conn) {
            Ok(v) => {
                proof {
                    assert(orders_view(v@) =~= self@);
                }
                let g = group_pending(&v);
                proof {
                    lemma_groups_only_pending(self@);
                }
                Ok(g)
            }
            Err(_) => Err(StoreError::Storage),
        }
    }
}

} // verus!
