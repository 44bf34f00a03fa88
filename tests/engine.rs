use std::collections::HashMap;
use std::sync::Arc;

use tts_database::handler::{DatabaseHandler, DbError, GetStep, Query};
use tts_database::key::CacheKeyTrait;

#[derive(Clone, Debug, PartialEq)]
struct Settings {
    volume: f64,
}

const SELECT: &str = "SELECT * FROM guilds WHERE guild_id = $1";
const DELETE: &str = "DELETE FROM guilds WHERE guild_id = $1";
const CREATE: &str = "INSERT INTO guilds(guild_id) VALUES ($1)";
const UPDATE: &str = "UPDATE guilds SET {key} = $2 WHERE guild_id = $1";

/// Rows by bound identifier fields, and how many selects were run.
struct Table {
    rows: HashMap<Vec<i64>, Settings>,
    selects: usize,
}

impl Table {
    fn with_default(volume: f64) -> Table {
        let mut rows = HashMap::new();
        rows.insert(vec![0], Settings { volume });
        rows.insert(vec![0, 0], Settings { volume });
        Table { rows, selects: 0 }
    }

    fn insert(&mut self, q: &Query) -> Result<(), String> {
        if self.rows.contains_key(&q.params) {
            return Err("duplicate key value violates unique constraint".to_string());
        }
        self.rows.insert(q.params.clone(), Settings { volume: 1.0 });
        Ok(())
    }

    fn update_volume(&mut self, q: &Query, volume: f64) {
        assert!(q.sql.contains("SET volume = $2"));
        if let Some(row) = self.rows.get_mut(&q.params) {
            row.volume = volume;
        }
    }
}

fn engine<T: CacheKeyTrait>() -> DatabaseHandler<T, Settings> {
    DatabaseHandler::new(SELECT, DELETE, CREATE, UPDATE)
}

fn read<T: CacheKeyTrait>(h: &mut DatabaseHandler<T, Settings>, table: &mut Table, key: T) -> Result<Arc<Settings>, DbError> {
    let mut step = h.get(key);
    loop {
        match step {
            GetStep::Ready(row) => return Ok(row),
            GetStep::Fetch(pending, q) => {
                assert_eq!(q.sql, SELECT);
                table.selects += 1;
                let reply = table.rows.get(&q.params).cloned();
                step = h.fetched(pending, reply)?;
            }
        }
    }
}

fn set_volume<T: CacheKeyTrait>(h: &mut DatabaseHandler<T, Settings>, table: &mut Table, key: T, volume: f64) {
    let q = h.set_one(key, "volume").unwrap();
    table.update_volume(&q, volume);
    h.invalidate(key);
}

fn delete<T: CacheKeyTrait>(h: &mut DatabaseHandler<T, Settings>, table: &mut Table, key: T) {
    let q = h.delete(key);
    assert_eq!(q.sql, DELETE);
    table.rows.remove(&q.params);
    h.invalidate(key);
}

#[test]
fn simple_key_binds_one_field() {
    assert_eq!(42u64.bind_params(), vec![42]);
    assert_eq!(u64::MAX.bind_params(), vec![-1]);
    assert_eq!(<u64 as CacheKeyTrait>::default_key(), 0);
    assert!(0u64.is_default());
    assert!(!7u64.is_default());
    assert_eq!(9u64.cache_id(), 9);
}

#[test]
fn composite_key_binds_two_fields_in_order() {
    assert_eq!([3u64, 5u64].bind_params(), vec![3, 5]);
    assert_eq!(<[u64; 2] as CacheKeyTrait>::default_key(), [0, 0]);
    assert!([0u64, 0u64].is_default());
    assert!(![0u64, 1u64].is_default());
    assert!(![1u64, 0u64].is_default());
    assert_eq!([1u64, 2u64].cache_id(), (1u128 << 64) + 2);
    assert_ne!([1u64, 2u64].cache_id(), [2u64, 1u64].cache_id());
}

#[test]
fn second_read_is_served_from_cache() {
    let mut table = Table::with_default(1.0);
    table.rows.insert(vec![42], Settings { volume: 3.0 });
    let mut h = engine::<u64>();
    assert_eq!(read(&mut h, &mut table, 42).unwrap().volume, 3.0);
    assert_eq!(table.selects, 1);
    assert!(matches!(h.get(42), GetStep::Ready(_)));
    assert_eq!(read(&mut h, &mut table, 42).unwrap().volume, 3.0);
    assert_eq!(table.selects, 1);
}

#[test]
fn write_then_read_sees_new_value() {
    let mut table = Table::with_default(1.0);
    table.rows.insert(vec![42], Settings { volume: 3.0 });
    let mut h = engine::<u64>();
    assert_eq!(read(&mut h, &mut table, 42).unwrap().volume, 3.0);
    set_volume(&mut h, &mut table, 42, 2.0);
    assert_eq!(read(&mut h, &mut table, 42).unwrap().volume, 2.0);
    assert_eq!(table.selects, 2);
}

#[test]
fn update_statement_gets_column_name() {
    let h = engine::<[u64; 2]>();
    let q = h.set_one([7, 8], "volume").unwrap();
    assert_eq!(q.sql, "UPDATE guilds SET volume = $2 WHERE guild_id = $1");
    assert_eq!(q.params, vec![7, 8]);
}

#[test]
fn bad_update_template_is_refused() {
    let h: DatabaseHandler<u64, Settings> = DatabaseHandler::new(SELECT, DELETE, CREATE, "UPDATE guilds SET {key = $2");
    assert!(matches!(h.set_one(1, "volume"), Err(DbError::BadTemplate)));
    let h: DatabaseHandler<u64, Settings> = DatabaseHandler::new(SELECT, DELETE, CREATE, "UPDATE guilds SET {column} = $2");
    assert!(matches!(h.set_one(1, "volume"), Err(DbError::BadTemplate)));
}

#[test]
fn update_query_from_filled_text() {
    let h = engine::<u64>();
    let q = h.update_query(4, Some("UPDATE t SET a = $2 WHERE id = $1".to_string())).unwrap();
    assert_eq!(q.sql, "UPDATE t SET a = $2 WHERE id = $1");
    assert_eq!(q.params, vec![4]);
    assert!(matches!(h.update_query(4, None), Err(DbError::BadTemplate)));
}

#[test]
fn missing_simple_row_reads_as_default() {
    let mut table = Table::with_default(1.5);
    let mut h = engine::<u64>();
    let row = read(&mut h, &mut table, 42).unwrap();
    assert_eq!(table.selects, 2);
    let mut other = engine::<u64>();
    assert_eq!(read(&mut other, &mut table, 0).unwrap(), row);
    assert_eq!(row.volume, 1.5);
}

#[test]
fn missing_composite_row_reads_as_default() {
    let mut table = Table::with_default(0.5);
    let mut h = engine::<[u64; 2]>();
    let row = read(&mut h, &mut table, [10, 20]).unwrap();
    assert_eq!(read(&mut h, &mut table, [0, 0]).unwrap(), row);
    assert_eq!(read(&mut h, &mut table, [0, 20]).unwrap().volume, 0.5);
    assert_eq!(read(&mut h, &mut table, [10, 0]).unwrap().volume, 0.5);
}

#[test]
fn fallback_asks_for_default_key() {
    let h = engine::<[u64; 2]>();
    let mut h = h;
    let GetStep::Fetch(pending, q) = h.get([4, 9]) else { panic!("empty cache answered") };
    assert_eq!(q.params, vec![4, 9]);
    let GetStep::Fetch(pending, q) = h.fetched(pending, None).unwrap() else { panic!("no fallback") };
    assert_eq!(q.sql, SELECT);
    assert_eq!(q.params, vec![0, 0]);
    assert_eq!(pending.key, [4, 9]);
    assert_eq!(pending.asked, [0, 0]);
}

#[test]
fn missing_default_row_is_an_error() {
    let mut table = Table { rows: HashMap::new(), selects: 0 };
    let mut h = engine::<u64>();
    assert_eq!(read(&mut h, &mut table, 42).unwrap_err(), DbError::DefaultRowMissing);
    assert_eq!(read(&mut h, &mut table, 0).unwrap_err(), DbError::DefaultRowMissing);
    assert_eq!(table.selects, 3);
}

#[test]
fn delete_then_read_falls_back() {
    let mut table = Table::with_default(1.0);
    table.rows.insert(vec![42], Settings { volume: 2.0 });
    let mut h = engine::<u64>();
    assert_eq!(read(&mut h, &mut table, 42).unwrap().volume, 2.0);
    delete(&mut h, &mut table, 42);
    assert_eq!(read(&mut h, &mut table, 42).unwrap().volume, 1.0);
}

#[test]
fn create_row_twice_without_read_conflicts() {
    let mut table = Table::with_default(1.0);
    let h = engine::<u64>();
    let first = h.create_row(42).unwrap();
    assert_eq!(first.sql, CREATE);
    assert_eq!(first.params, vec![42]);
    assert!(table.insert(&first).is_ok());
    let second = h.create_row(42).unwrap();
    assert!(table.insert(&second).is_err());
}

#[test]
fn create_row_after_read_does_nothing() {
    let mut table = Table::with_default(1.0);
    let mut h = engine::<u64>();
    let first = h.create_row(42).unwrap();
    assert!(table.insert(&first).is_ok());
    read(&mut h, &mut table, 42).unwrap();
    assert!(h.create_row(42).is_none());
}

#[test]
fn settings_round_trip_without_prior_read() {
    let mut table = Table::with_default(1.0);
    let mut h = engine::<u64>();
    let q = h.create_row(42).unwrap();
    table.insert(&q).unwrap();
    set_volume(&mut h, &mut table, 42, 2.0);
    assert_eq!(read(&mut h, &mut table, 42).unwrap().volume, 2.0);
    delete(&mut h, &mut table, 42);
    assert_eq!(read(&mut h, &mut table, 42).unwrap().volume, 1.0);
}

#[test]
fn create_row_after_fallback_read_is_skipped() {
    let mut table = Table::with_default(1.0);
    let mut h = engine::<u64>();
    assert_eq!(read(&mut h, &mut table, 42).unwrap().volume, 1.0);
    assert!(h.create_row(42).is_none());
    set_volume(&mut h, &mut table, 42, 2.0);
    assert!(!table.rows.contains_key(&vec![42]));
    assert_eq!(read(&mut h, &mut table, 42).unwrap().volume, 1.0);
    delete(&mut h, &mut table, 42);
    assert_eq!(read(&mut h, &mut table, 42).unwrap().volume, 1.0);
}
