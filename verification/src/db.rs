//! Database schema migrations: the ordered list of steps and the choice of
//! which still have to run.  Executing them against the database happens
//! outside; this module owns the schema text and the selection rule.

use vstd::prelude::*;

verus! {

/// The schema-creating first migration.
pub const MIGRATION_BASE_SQL: &'static str = "
CREATE TABLE IF NOT EXISTS todos (
    id INTEGER PRIMARY KEY AUTOINCREMENT,
    title TEXT NOT NULL,
    completed BOOLEAN NOT NULL DEFAULT 0,
    created_at DATETIME DEFAULT CURRENT_TIMESTAMP
);

CREATE TABLE IF NOT EXISTS users (
    id INTEGER PRIMARY KEY AUTOINCREMENT,
    name TEXT NOT NULL,
    email TEXT NOT NULL UNIQUE,
    created_at DATETIME DEFAULT CURRENT_TIMESTAMP
);

CREATE TABLE IF NOT EXISTS schema_migrations (
    version INTEGER PRIMARY KEY,
    applied_at DATETIME DEFAULT CURRENT_TIMESTAMP
);
";

/// The second migration: indexes for searching and sorting.
pub const MIGRATION_INDEXES_SQL: &'static str = "
CREATE INDEX IF NOT EXISTS idx_users_name ON users(name);
CREATE INDEX IF NOT EXISTS idx_users_email ON users(email);
CREATE INDEX IF NOT EXISTS idx_todos_completed ON todos(completed);
CREATE INDEX IF NOT EXISTS idx_todos_id_desc ON todos(id DESC);
";

/// One migration step: its position in the order and its statement text.
#[derive(Clone, Copy, Debug)]
pub struct MigrationInfo {
    pub version: i64,
    pub sql: &'static str,
}

/// The migrations this schema consists of, in order.
pub fn migrations() -> (r: Vec<MigrationInfo>)
    ensures
        r@.len() == 2,
        r@[0].version == 1,
        r@[0].sql@ == MIGRATION_BASE_SQL@,
        r@[1].version == 2,
        r@[1].sql@ == MIGRATION_INDEXES_SQL@,
{
    let mut r: Vec<MigrationInfo> = Vec::new();
    r.push(MigrationInfo { version: 1, sql: MIGRATION_BASE_SQL });
    r.push(MigrationInfo { version: 2, sql: MIGRATION_INDEXES_SQL });
    r
}

/// The migrations of `all` that still have to run when `last_applied` is the
/// highest version already recorded: exactly those with a later version, in
/// their given order.
pub fn pending_migrations(all: &Vec<MigrationInfo>, last_applied: i64) -> (r: Vec<MigrationInfo>)
    ensures
        r@ == all@.filter(|m: MigrationInfo| m.version > last_applied),
{
    let mut r: Vec<MigrationInfo> = Vec::new();
    let mut i: usize = 0;
    proof {
        reveal(Seq::filter);
        assert(all@.take(0).filter(|m: MigrationInfo| m.version > last_applied) =~= r@);
    }
    while i < all.len()
        invariant
            0 <= i <= all@.len(),
            r@ == all@.take(i as int).filter(|m: MigrationInfo| m.version > last_applied),
        decreases all@.len() - i,
    {
        proof {
            reveal(Seq::filter);
            assert(all@.take(i + 1).drop_last() =~= all@.take(i as int));
            assert(all@.take(i + 1).last() == all@[i as int]);
        }
        if all[i].version > last_applied {
            r.push(all[i]);
        }
        i = i + 1;
    }
    proof {
        assert(all@.take(all@.len() as int) =~= all@);
    }
    r
}

} // verus!
