//! The store-facing core: configuration checks for the pool initializer,
//! the fixed statements the service issues, and a verified model of the
//! demo table with its id and read-back invariants.

use vstd::prelude::*;
use vstd::string::StrSliceExecFns;
use vstd::string::StringExecFns;

use crate::api::AppError;
use crate::api::ErrorKind;

verus! {

/// The pool's hard cap on concurrent connections.
pub const MAX_CONNECTIONS: u32 = 5;

/// How many records the demo read-back returns at most.
pub const READ_BACK_LIMIT: usize = 10;

/// The migration applied at startup; idempotent, so a second run is a no-op.
pub fn schema_sql() -> (r: &'static str)
    ensures
        r@ == "CREATE TABLE IF NOT EXISTS demo (id INTEGER PRIMARY KEY, name TEXT)"@,
{
    "CREATE TABLE IF NOT EXISTS demo (id INTEGER PRIMARY KEY, name TEXT)"
}

/// The liveness probe issued by the health handler.
pub fn ping_sql() -> (r: &'static str)
    ensures
        r@ == "SELECT 1"@,
{
    "SELECT 1"
}

/// The insert issued by the demo handler; the name is bound as a parameter.
pub fn insert_sql() -> (r: &'static str)
    ensures
        r@ == "INSERT INTO demo (name) VALUES (?)"@,
{
    "INSERT INTO demo (name) VALUES (?)"
}

/// The read-back issued by the demo handler: newest first, ten at most.
pub fn select_recent_sql() -> (r: &'static str)
    ensures
        r@ == "SELECT id, name FROM demo ORDER BY id DESC LIMIT 10"@,
{
    "SELECT id, name FROM demo ORDER BY id DESC LIMIT 10"
}

/// The placeholder name the demo handler inserts.
pub fn demo_entry_name() -> (r: &'static str)
    ensures
        r@ == "Demo Entry"@,
{
    "Demo Entry"
}

/// The storage file behind a connection string: what follows a
/// `sqlite://` prefix if one is present, else the whole string.
pub open spec fn spec_database_path(url: Seq<char>) -> Seq<char> {
    if url.len() >= 9 && url.subrange(0, 9) == "sqlite://"@ {
        url.subrange(9, url.len() as int)
    } else {
        url
    }
}

/// Checks the configured connection string and extracts the storage path.
///
/// An unset or empty value is a configuration error, exactly as stated in
/// the contract; any other value yields the path the pool opens.
pub fn resolve_database_path(url: Option<&str>) -> (r: Result<String, AppError>)
    ensures
        url is None ==> r is Err && r->Err_0.kind == ErrorKind::Configuration
            && r->Err_0.message@ == "DATABASE_URL environment variable is not set"@,
        url is Some && url->Some_0@.len() == 0 ==> r is Err && r->Err_0.kind
            == ErrorKind::Configuration && r->Err_0.message@ == "DATABASE_URL cannot be empty"@,
        url is Some && url->Some_0@.len() > 0 ==> r is Ok && r->Ok_0@ == spec_database_path(
            url->Some_0@,
        ),
{
    match url {
        None => Err(
            AppError::new(
                ErrorKind::Configuration,
                String::from_str("DATABASE_URL environment variable is not set"),
            ),
        ),
        Some(u) => {
            let n: usize = u.unicode_len();
            if n == 0 {
                return Err(
                    AppError::new(
                        ErrorKind::Configuration,
                        String::from_str("DATABASE_URL cannot be empty"),
                    ),
                );
            }
            proof { reveal_strlit("sqlite://"); }
            let prefix = "sqlite://";
            if n < 9 {
                return Ok(String::from_str(u));
            }
            let mut matched: bool = true;
            let mut i: usize = 0;
            while i < 9
                invariant
                    i <= 9,
                    n == u@.len(),
                    n >= 9,
                    prefix@ == "sqlite://"@,
                    prefix@.len() == 9,
                    matched ==> u@.subrange(0, i as int) =~= prefix@.subrange(0, i as int),
                    !matched ==> u@.subrange(0, 9) != prefix@,
                decreases 9 - i,
            {
                let a: char = u.get_char(i);
                let b: char = prefix.get_char(i);
                if a != b {
                    proof {
                        assert(u@.subrange(0, 9)[i as int] == u@[i as int]);
                    }
                    matched = false;
                } else {
                    proof {
                        if matched {
                            assert(u@.subrange(0, i as int + 1) =~= u@.subrange(
                                0,
                                i as int,
                            ).push(u@[i as int]));
                            assert(prefix@.subrange(0, i as int + 1) =~= prefix@.subrange(
                                0,
                                i as int,
                            ).push(prefix@[i as int]));
                        }
                    }
                }
                i = i + 1;
            }
            if matched {
                proof {
                    assert(prefix@.subrange(0, 9) =~= prefix@);
                    assert(u@.subrange(0, 9) == "sqlite://"@);
                }
                let path = u.substring_char(9, n);
                Ok(String::from_str(path))
            } else {
                Ok(String::from_str(u))
            }
        },
    }
}

/// One row of the demo table: a store-assigned id and a name.
pub struct DemoRecord {
    pub id: i64,
    pub name: String,
}

/// A model of the demo table: the rows in insertion order.
///
/// The store assigns ids itself, strictly increasing from one; nothing is
/// ever updated or deleted, so the row sequence only grows.
pub struct DemoStore {
    pub records: Vec<DemoRecord>,
}

/// The read-back the store produces: the newest `limit` rows, newest first.
pub open spec fn spec_recent(rows: Seq<DemoRecord>, limit: int) -> Seq<DemoRecord>
    recommends
        limit >= 0,
{
    let count = if rows.len() <= limit {
        rows.len() as int
    } else {
        limit
    };
    Seq::new(count as nat, |i: int| rows[rows.len() - 1 - i])
}

impl DemoStore {
    /// The table invariant: ids are strictly increasing along the insert
    /// history (hence unique), and each is at least one.
    pub open spec fn wf(self) -> bool {
        (forall|i: int, j: int|
            0 <= i < j < self.records@.len() ==> self.records@[i].id < self.records@[j].id)
            && (forall|i: int| 0 <= i < self.records@.len() ==> self.records@[i].id >= 1)
    }

    /// The id the store will assign next.
    pub open spec fn spec_next_id(self) -> int {
        if self.records@.len() == 0 {
            1
        } else {
            self.records@.last().id + 1
        }
    }

    /// An empty table.
    pub fn new() -> (r: DemoStore)
        ensures
            r.records@.len() == 0,
            r.wf(),
    {
        DemoStore { records: Vec::new() }
    }

    /// Inserts a row; the store assigns the id, strictly above every id
    /// handed out before.
    pub fn insert(&mut self, name: String) -> (id: i64)
        requires
            old(self).wf(),
            old(self).spec_next_id() <= i64::MAX as int,
        ensures
            id as int == old(self).spec_next_id(),
            final(self).records@ == old(self).records@.push(DemoRecord { id, name }),
            final(self).wf(),
            forall|i: int| 0 <= i < old(self).records@.len() ==> old(self).records@[i].id < id,
    {
        let n: usize = self.records.len();
        let id: i64 = if n == 0 {
            1
        } else {
            self.records[n - 1].id + 1
        };
        self.records.push(DemoRecord { id, name });
        proof {
            let pre = old(self).records@;
            assert forall|i: int| 0 <= i < pre.len() implies pre[i].id < id by {
                if i < pre.len() - 1 {
                    assert(pre[i].id < pre[pre.len() - 1].id);
                }
            };
            assert forall|i: int, j: int|
                0 <= i < j < self.records@.len() implies self.records@[i].id
                < self.records@[j].id by {
                if j < self.records@.len() - 1 {
                    assert(pre[i].id < pre[j].id);
                }
            };
        }
        id
    }

    /// The ten-at-most read-back: the newest rows, newest first.
    pub fn read_recent(&self, limit: usize) -> (r: Vec<DemoRecord>)
        ensures
            r@ == spec_recent(self.records@, limit as int),
    {
        let n: usize = self.records.len();
        let count: usize = if n <= limit {
            n
        } else {
            limit
        };
        let mut out: Vec<DemoRecord> = Vec::new();
        let mut i: usize = 0;
        while i < count
            invariant
                i <= count,
                n == self.records@.len(),
                count == spec_recent(self.records@, limit as int).len(),
                count <= n,
                out@ =~= spec_recent(self.records@, limit as int).subrange(0, i as int),
            decreases count - i,
        {
            let id_i: i64 = self.records[n - 1 - i].id;
            let name_i: String = self.records[n - 1 - i].name.clone();
            out.push(DemoRecord { id: id_i, name: name_i });
            proof {
                assert(spec_recent(self.records@, limit as int)[i as int] == self.records@[n - 1
                    - i as int]);
                assert(out@ =~= spec_recent(self.records@, limit as int).subrange(
                    0,
                    i as int + 1,
                ));
            }
            i = i + 1;
        }
        proof {
            assert(spec_recent(self.records@, limit as int).subrange(0, count as int)
                =~= spec_recent(self.records@, limit as int));
        }
        out
    }
}

/// The read-back shape: min(N, limit) rows, the most recent first, each the
/// mirror of the insert history read from its end.
pub proof fn lemma_read_back_shape(rows: Seq<DemoRecord>, limit: int)
    requires
        limit >= 0,
    ensures
        spec_recent(rows, limit).len() == if rows.len() <= limit {
            rows.len() as int
        } else {
            limit
        },
        forall|i: int|
            0 <= i < spec_recent(rows, limit).len() ==> spec_recent(rows, limit)[i] == rows[rows.len()
                - 1 - i],
        rows.len() > 0 && limit > 0 ==> spec_recent(rows, limit)[0] == rows.last(),
{
}

/// Under the table invariant the read-back ids strictly decrease: the list
/// is ordered newest first.
pub proof fn lemma_read_back_ordered(s: DemoStore, limit: int)
    requires
        s.wf(),
        limit >= 0,
    ensures
        forall|i: int, j: int|
            0 <= i < j < spec_recent(s.records@, limit).len() ==> spec_recent(s.records@, limit)[i].id
                > spec_recent(s.records@, limit)[j].id,
{
    assert forall|i: int, j: int|
        0 <= i < j < spec_recent(s.records@, limit).len() implies spec_recent(s.records@, limit)[i].id
        > spec_recent(s.records@, limit)[j].id by {
        let n = s.records@.len() as int;
        assert(s.records@[n - 1 - j].id < s.records@[n - 1 - i].id);
    };
}

/// Two inserts in sequence hand out distinct, strictly increasing ids.
pub proof fn lemma_demo_ids_increase(
    s0: DemoStore,
    s1: DemoStore,
    s2: DemoStore,
    r1: DemoRecord,
    r2: DemoRecord,
)
    requires
        s0.wf(),
        r1.id as int == s0.spec_next_id(),
        s1.records@ == s0.records@.push(r1),
        r2.id as int == s1.spec_next_id(),
        s2.records@ == s1.records@.push(r2),
    ensures
        r1.id < r2.id,
        r1.id != r2.id,
{
    assert(s1.records@.last() == r1);
}

} // verus!

