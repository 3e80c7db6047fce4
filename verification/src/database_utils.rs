//! The durable store: a single-table key/value database with atomic row
//! replace, change timestamps, a filtered snapshot for save, and bulk
//! restore.
//!
//! Timestamps are written as whole milliseconds; a saved snapshot stamps
//! every row at the far future so that a restore forces every reader to
//! refresh. The database file is shared across processes, so nothing is
//! assumed about what a query returns: each operation's contract says what
//! the store does with every possible answer.

use vstd::prelude::*;

use crate::codec::{
    default_of, encode_value, read_value, spec_read_value, ScalarModel,
};
use crate::config::Config;
use crate::schema::Parameter;
use crate::sql::{
    db_copy_database, db_execute_batch, db_execute_raw_row, db_execute_row, db_open,
    db_select_keys, db_select_rows, db_select_scalar, now_millis, StoreFault,
};
use crate::value::{value_eq, ParameterValue};
use crate::EconfError;

verus! {

/// The outcome of a store write.
#[derive(Debug, Clone, Copy, PartialEq, Eq)]
pub enum Status<T> {
    StatusOkChanged(T),
    StatusOkNotChanged(T),
    StatusOkNotChecked(T),
    StatusOkOverflowFixed(T),
    StatusErrorNotAccepted(T),
    StatusErrorFailed,
}

/// Map a storage fault to the error the caller sees.
pub fn err_of_fault(f: StoreFault) -> (e: EconfError)
    ensures
        e == match f {
            StoreFault::FaultBusy => EconfError::ErrBusy,
            StoreFault::FaultIo => EconfError::ErrIo,
        },
{
    match f {
        StoreFault::FaultBusy => EconfError::ErrBusy,
        StoreFault::FaultIo => EconfError::ErrIo,
    }
}

/// A connection to one database file, created on demand for one
/// operation.
pub struct DbConnection {
    conn: rusqlite::Connection,
}

impl DbConnection {
    /// Open the database at `database_path`. When asked to create, the
    /// file and its table are made if missing, and the journalling
    /// pragmas are applied.
    pub fn new(database_path: &String, write_required: bool, create_required: bool) -> (r: Result<
        DbConnection,
        EconfError,
    >)
        ensures
            r matches Err(e) ==> (e == EconfError::ErrIo || e == EconfError::ErrBusy),
    {
        let conn = match db_open(database_path, write_required, create_required) {
            Ok(c) => c,
            Err(f) => {
                return Err(err_of_fault(f));
            },
        };
        if create_required {
            let outcome = db_execute_batch(
                &conn,
                "CREATE TABLE IF NOT EXISTS parameters (\
                 key TEXT PRIMARY KEY, value BLOB, timestamp REAL) WITHOUT ROWID;\
                 PRAGMA locking_mode=NORMAL; PRAGMA journal_mode=WAL; VACUUM;\
                 PRAGMA wal_autocheckpoint=1000; PRAGMA synchronous=NORMAL;\
                 PRAGMA busy_timeout=10000;",
            );
            if let Err(f) = outcome {
                return Err(err_of_fault(f));
            }
        }
        Ok(DbConnection { conn })
    }

    /// The open connection.
    pub fn conn(&self) -> &rusqlite::Connection {
        &self.conn
    }

    /// The open connection, mutably.
    pub fn conn_mut(&mut self) -> &mut rusqlite::Connection {
        &mut self.conn
    }
}

/// The first descriptor carrying `key`, if any.
pub open spec fn spec_lookup_name(table: Seq<Parameter>, key: Seq<char>) -> Option<int>
    decreases table.len(),
{
    if table.len() == 0 {
        Option::None
    } else if table[0].name_id@ == key {
        Option::Some(0)
    } else {
        match spec_lookup_name(table.skip(1), key) {
            Option::Some(i) => Option::Some(i + 1),
            Option::None => Option::None,
        }
    }
}

/// Find the id of the descriptor carrying `key`.
pub fn lookup_name(table: &Vec<Parameter>, key: &String) -> (r: Option<usize>)
    ensures
        match r {
            Option::Some(i) => spec_lookup_name(table@, key@) == Option::Some(i as int) && i
                < table@.len(),
            Option::None => spec_lookup_name(table@, key@) is None,
        },
{
    let n: usize = table.len();
    let mut i: usize = 0;
    proof {
        assert(table@.skip(0) =~= table@);
    }
    while i < n
        invariant
            n == table@.len(),
            i <= n,
            forall|j: int| 0 <= j < i ==> (#[trigger] table@[j]).name_id@ != key@,
            spec_lookup_name(table@, key@) == match spec_lookup_name(
                table@.skip(i as int),
                key@,
            ) {
                Option::Some(m) => Option::Some(m + i),
                Option::None => Option::None::<int>,
            },
        decreases n - i,
    {
        proof {
            assert(table@.skip(i as int)[0] == table@[i as int]);
            assert(table@.skip(i as int).skip(1) =~= table@.skip(i as int + 1));
        }
        if table[i].name_id == *key {
            return Option::Some(i);
        }
        i = i + 1;
    }
    proof {
        assert(table@.skip(n as int).len() == 0);
    }
    Option::None
}

/// The ids of the known keys among `keys`, in order; unknown keys are
/// passed over.
pub open spec fn spec_ids_of_keys(table: Seq<Parameter>, keys: Seq<Seq<char>>) -> Seq<int>
    decreases keys.len(),
{
    if keys.len() == 0 {
        Seq::empty()
    } else {
        let rest = spec_ids_of_keys(table, keys.skip(1));
        match spec_lookup_name(table, keys[0]) {
            Option::Some(i) => seq![i] + rest,
            Option::None => rest,
        }
    }
}

/// Translate scanned keys to parameter ids, passing over unknown keys.
pub fn ids_of_keys(table: &Vec<Parameter>, keys: &Vec<String>) -> (r: Vec<usize>)
    ensures
        r@.map_values(|u: usize| u as int) == spec_ids_of_keys(
            table@,
            keys@.map_values(|s: String| s@),
        ),
        forall|i: int| 0 <= i < r@.len() ==> (#[trigger] r@[i]) < table@.len(),
{
    let ghost kseq = keys@.map_values(|s: String| s@);
    let n: usize = keys.len();
    let mut out: Vec<usize> = Vec::new();
    let mut i: usize = n;
    proof {
        assert(kseq.skip(n as int) =~= Seq::<Seq<char>>::empty());
    }
    while i > 0
        invariant
            n == keys@.len(),
            kseq == keys@.map_values(|s: String| s@),
            i <= n,
            out@.map_values(|u: usize| u as int) == spec_ids_of_keys(table@, kseq.skip(i as int)),
            forall|j: int| 0 <= j < out@.len() ==> (#[trigger] out@[j]) < table@.len(),
        decreases i,
    {
        i = i - 1;
        let ghost pre = out@;
        proof {
            assert(kseq.skip(i as int)[0] == kseq[i as int]);
            assert(kseq.skip(i as int).skip(1) =~= kseq.skip(i as int + 1));
            assert(kseq[i as int] == keys@[i as int]@);
        }
        match lookup_name(table, &keys[i]) {
            Option::Some(id) => {
                out.insert(0, id);
                proof {
                    assert(out@.map_values(|u: usize| u as int) =~= seq![id as int]
                        + pre.map_values(|u: usize| u as int));
                }
            },
            Option::None => {},
        }
    }
    proof {
        assert(kseq.skip(0) =~= kseq);
    }
    out
}

/// Whether a saved snapshot keeps the row with `key`: exactly when some
/// parameter carries that name and is not a runtime parameter.
pub open spec fn spec_should_save(table: Seq<Parameter>, key: Seq<char>) -> bool {
    exists|i: int| 0 <= i < table.len() && (#[trigger] table[i]).name_id@ == key
        && !table[i].runtime
}

/// Decide whether a saved snapshot keeps the row with `key`.
pub fn should_save(table: &Vec<Parameter>, key: &String) -> (r: bool)
    ensures
        r == spec_should_save(table@, key@),
{
    let n: usize = table.len();
    let mut i: usize = 0;
    let mut keep = false;
    while i < n
        invariant
            n == table@.len(),
            i <= n,
            keep == exists|j: int|
                0 <= j < i && (#[trigger] table@[j]).name_id@ == key@ && !table@[j].runtime,
        decreases n - i,
    {
        if !table[i].runtime && table[i].name_id == *key {
            keep = true;
            proof {
                assert((table@[i as int]).name_id@ == key@ && !table@[i as int].runtime);
            }
        }
        i = i + 1;
    }
    keep
}

/// In a well-formed table, where no two descriptors share a name, the
/// snapshot filter keeps a parameter's row exactly when the parameter is
/// not a runtime parameter: what survives a save, reset and load is the
/// non-runtime state.
pub proof fn lemma_save_filter(table: Seq<Parameter>, id: int)
    requires
        0 <= id < table.len(),
        forall|i: int, j: int|
            0 <= i < j < table.len() ==> (#[trigger] table[i]).name_id@ != (
            #[trigger] table[j]).name_id@,
    ensures
        spec_should_save(table, table[id].name_id@) <==> !table[id].runtime,
{
    if spec_should_save(table, table[id].name_id@) {
        let w = choose|i: int|
            0 <= i < table.len() && (#[trigger] table[i]).name_id@ == table[id].name_id@
                && !table[i].runtime;
        if w < id {
            assert(table[w].name_id@ != table[id].name_id@);
        } else if id < w {
            assert(table[id].name_id@ != table[w].name_id@);
        }
    }
    if !table[id].runtime {
        assert(0 <= id < table.len() && table[id].name_id@ == table[id].name_id@
            && !table[id].runtime);
    }
}

/// Owns the two database paths, the registered blob defaults, and the
/// sweep position of the poll fallback.
pub struct DatabaseManager {
    pub database_path: String,
    pub saved_database_path: String,
    pub default_data: Vec<(String, Vec<u8>)>,
    pub last_update_timestamp: i64,
    /// Counts the row writes this store has performed.
    pub durable_writes: Ghost<nat>,
}

impl DatabaseManager {
    /// Open the store on the configured paths, loading from the saved
    /// snapshot when the live database does not open, then making sure
    /// the live database and its table exist. `default_data` registers
    /// the bytes behind each blob default path.
    pub fn new(config: &Config, default_data: Vec<(String, Vec<u8>)>) -> (r: Result<
        DatabaseManager,
        EconfError,
    >)
        ensures
            match r {
                Ok(m) => {
                    &&& m.database_path@ == config.database_path@
                    &&& m.saved_database_path@ == config.saved_database_path@
                    &&& m.default_data == default_data
                    &&& m.last_update_timestamp == 0
                    &&& m.durable_writes@ == 0
                },
                Err(e) => e == EconfError::ErrIo || e == EconfError::ErrBusy,
            },
    {
        let manager = DatabaseManager {
            database_path: config.database_path.clone(),
            saved_database_path: config.saved_database_path.clone(),
            default_data,
            last_update_timestamp: 0,
            durable_writes: Ghost(0),
        };
        // a failed open of the live database triggers a load from the
        // saved snapshot
        match DbConnection::new(&manager.database_path, false, false) {
            Ok(_) => {},
            Err(_) => {
                match manager.load_database() {
                    Ok(_) => {},
                    Err(e) => {
                        return Err(e);
                    },
                }
            },
        }
        match DbConnection::new(&manager.database_path, true, true) {
            Ok(_) => {},
            Err(e) => {
                return Err(e);
            },
        }
        Ok(manager)
    }

    /// Read the value stored for `p`, decoded by its declared type; a
    /// missing row, an undecodable stored class or a failed query reads
    /// as the materialised default. Only a failure to open the database
    /// is an error.
    pub fn read_or_create(&self, p: &Parameter) -> (r: Result<ParameterValue, EconfError>)
        ensures
            match r {
                Ok(v) => exists|stored: Option<ScalarModel>|
                    v@ == spec_read_value(p, stored, self.default_data@),
                Err(e) => e == EconfError::ErrIo || e == EconfError::ErrBusy,
            },
    {
        let db = match DbConnection::new(&self.database_path, false, false) {
            Ok(db) => db,
            Err(e) => {
                return Err(e);
            },
        };
        match db_select_scalar(
            db.conn(),
            "SELECT value FROM parameters WHERE key = ?",
            &p.name_id,
        ) {
            Ok(stored) => {
                let v = read_value(
                    p,
                    match &stored {
                        Option::Some(s) => Option::Some(s),
                        Option::None => Option::None,
                    },
                    &self.default_data,
                );
                proof {
                    let w = match stored {
                        Option::Some(s) => Option::Some(s@),
                        Option::None => Option::None::<ScalarModel>,
                    };
                    assert(v@ == spec_read_value(p, w, self.default_data@));
                }
                Ok(v)
            },
            Err(_) => {
                let v = default_of(p, &self.default_data);
                proof {
                    assert(v@ == spec_read_value(
                        p,
                        Option::None,
                        self.default_data@,
                    ));
                }
                Ok(v)
            },
        }
    }

    /// Write `value` for `p`. Without `force`, a value already stored
    /// (or read back equal, default included) is left untouched and
    /// reported unchanged; otherwise the row is replaced atomically with
    /// a fresh timestamp. Exactly the changed outcome performs a durable
    /// write.
    pub fn write(&mut self, p: &Parameter, value: ParameterValue, force: bool) -> (r: Result<
        Status<ParameterValue>,
        EconfError,
    >)
        ensures
            final(self).database_path == old(self).database_path,
            final(self).saved_database_path == old(self).saved_database_path,
            final(self).default_data == old(self).default_data,
            final(self).last_update_timestamp == old(self).last_update_timestamp,
            match r {
                Ok(st) => match st {
                    Status::StatusOkNotChanged(v) => {
                        &&& !force
                        &&& v@ == value@
                        &&& final(self).durable_writes@ == old(self).durable_writes@
                        &&& exists|stored: Option<ScalarModel>|
                            spec_read_value(p, stored, old(self).default_data@) == value@
                    },
                    Status::StatusOkChanged(v) => {
                        &&& v@ == value@
                        &&& final(self).durable_writes@ == old(self).durable_writes@ + 1
                    },
                    _ => false,
                },
                Err(e) => (e == EconfError::ErrIo || e == EconfError::ErrBusy)
                    && final(self).durable_writes@ == old(self).durable_writes@,
            },
    {
        if !force {
            match self.read_or_create(p) {
                Ok(current) => {
                    if value_eq(&current, &value) {
                        return Ok(Status::StatusOkNotChanged(value));
                    }
                },
                Err(_) => {
                    // an unreadable current value never blocks the write
                },
            }
        }
        let db = match DbConnection::new(&self.database_path, true, false) {
            Ok(db) => db,
            Err(e) => {
                return Err(e);
            },
        };
        let scalar = encode_value(&value);
        let stamp = now_millis();
        match db_execute_row(
            db.conn(),
            "INSERT OR REPLACE INTO parameters (key, value, timestamp) VALUES (?,?,?)",
            &p.name_id,
            &scalar,
            stamp,
        ) {
            Ok(_) => {},
            Err(f) => {
                return Err(err_of_fault(f));
            },
        }
        self.durable_writes = Ghost(self.durable_writes@ + 1);
        Ok(Status::StatusOkChanged(value))
    }

    /// Scan for rows stamped since the last sweep, advance the sweep
    /// position to the moment the scan started, and translate the keys
    /// found to parameter ids; a key no parameter carries is passed
    /// over. The sweep position is captured before the scan, so a write
    /// racing the scan may be reported twice — callers are idempotent
    /// under duplicate notifications.
    pub fn update(&mut self, table: &Vec<Parameter>) -> (r: Result<Vec<usize>, EconfError>)
        ensures
            final(self).database_path == old(self).database_path,
            final(self).saved_database_path == old(self).saved_database_path,
            final(self).default_data == old(self).default_data,
            final(self).durable_writes@ == old(self).durable_writes@,
            match r {
                Ok(ids) => {
                    &&& exists|keys: Seq<Seq<char>>|
                        ids@.map_values(|u: usize| u as int) == spec_ids_of_keys(table@, keys)
                    &&& forall|i: int| 0 <= i < ids@.len() ==> (#[trigger] ids@[i]) < table@.len()
                },
                Err(e) => e == EconfError::ErrIo || e == EconfError::ErrBusy,
            },
    {
        let check_start = now_millis();
        let db = match DbConnection::new(&self.database_path, false, false) {
            Ok(db) => db,
            Err(e) => {
                return Err(e);
            },
        };
        let keys = match db_select_keys(
            db.conn(),
            "SELECT key FROM parameters WHERE timestamp >= ?",
            self.last_update_timestamp,
        ) {
            Ok(keys) => keys,
            Err(f) => {
                return Err(err_of_fault(f));
            },
        };
        let ids = ids_of_keys(table, &keys);
        self.last_update_timestamp = check_start;
        proof {
            assert(ids@.map_values(|u: usize| u as int) == spec_ids_of_keys(
                table@,
                keys@.map_values(|s: String| s@),
            ));
        }
        Ok(ids)
    }

    /// Copy the non-runtime rows of the live database into a freshly
    /// emptied saved snapshot, stamping every copied row at the far
    /// future so that a later load forces every reader to refresh.
    pub fn save_database(&self, table: &Vec<Parameter>) -> (r: Result<(), EconfError>)
        ensures
            r matches Err(e) ==> (e == EconfError::ErrIo || e == EconfError::ErrBusy),
    {
        let src = match DbConnection::new(&self.database_path, false, false) {
            Ok(db) => db,
            Err(e) => {
                return Err(e);
            },
        };
        let rows = match db_select_rows(src.conn(), "SELECT key, value FROM parameters") {
            Ok(rows) => rows,
            Err(f) => {
                return Err(err_of_fault(f));
            },
        };
        let dst = match DbConnection::new(&self.saved_database_path, true, true) {
            Ok(db) => db,
            Err(e) => {
                return Err(e);
            },
        };
        if let Err(f) = db_execute_batch(
            dst.conn(),
            "DELETE FROM parameters;",
        ) {
            return Err(err_of_fault(f));
        }
        let n: usize = rows.len();
        let mut i: usize = 0;
        while i < n
            invariant
                n == rows@.len(),
                i <= n,
            decreases n - i,
        {
            if should_save(table, &rows[i].0) {
                let outcome = db_execute_raw_row(
                    dst.conn(),
                    "INSERT OR REPLACE INTO parameters (key, value, timestamp) VALUES (?,?,?)",
                    &rows[i].0,
                    &rows[i].1,
                    i64::MAX,
                );
                if let Err(f) = outcome {
                    return Err(err_of_fault(f));
                }
            }
            i = i + 1;
        }
        Ok(())
    }

    /// Replace the live database with the saved snapshot.
    pub fn load_database(&self) -> (r: Result<(), EconfError>)
        ensures
            r matches Err(e) ==> (e == EconfError::ErrIo || e == EconfError::ErrBusy),
    {
        // a live database that cannot be dropped is about to be
        // overwritten anyway
        match self.drop_database() {
            Ok(_) => {},
            Err(_) => {},
        }
        match db_copy_database(&self.saved_database_path, &self.database_path) {
            Ok(_) => Ok(()),
            Err(f) => Err(err_of_fault(f)),
        }
    }

    /// Drop the table and re-create it empty: the factory reset.
    pub fn drop_database(&self) -> (r: Result<(), EconfError>)
        ensures
            r matches Err(e) ==> (e == EconfError::ErrIo || e == EconfError::ErrBusy),
    {
        let result = {
            let db = match DbConnection::new(&self.database_path, true, false) {
                Ok(db) => db,
                Err(e) => {
                    return Err(e);
                },
            };
            db_execute_batch(db.conn(), "DROP TABLE parameters; VACUUM;")
        };
        match DbConnection::new(&self.database_path, true, true) {
            Ok(_) => {},
            Err(e) => {
                return Err(e);
            },
        }
        match result {
            Ok(_) => Ok(()),
            Err(f) => Err(err_of_fault(f)),
        }
    }

    /// Record the schema version in the store's version cell.
    pub fn set_sqlite_version(&self, version: u32) -> (r: Result<(), EconfError>)
        ensures
            r matches Err(e) ==> (e == EconfError::ErrIo || e == EconfError::ErrBusy),
    {
        let db = match DbConnection::new(&self.database_path, true, false) {
            Ok(db) => db,
            Err(e) => {
                return Err(e);
            },
        };
        let mut sql = String::from_str("PRAGMA user_version = ");
        let rendered = crate::text::u32_to_string(version);
        sql.append(rendered.as_str());
        sql.append(";");
        match db_execute_batch(db.conn(), sql.as_str()) {
            Ok(_) => Ok(()),
            Err(f) => Err(err_of_fault(f)),
        }
    }
}

} // verus!
