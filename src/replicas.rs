//! The replica registry: which local replica files are loaded, and the
//! sequence number each has applied.
use vstd::prelude::*;
use vstd::string::*;
use dashmap::DashMap;

verus! {

/// Options of a registry load.
#[derive(Debug, Clone)]
pub struct ReplicaOptions {
    /// Directory holding the replica files.
    pub directory: String,
    /// URL of the replication message bus.
    pub nats_url: String,
    /// Stream name on the bus.
    pub stream: String,
    /// Durable consumer name on the bus.
    pub durable: String,
}

/// One loaded replica: its file and the sequence number it has applied.
#[derive(Debug, Clone, PartialEq)]
pub struct ReplicaConnection {
    /// Path of the replica file.
    pub dsn: String,
    /// Highest sequence number applied to the file.
    pub txseq: i64,
}

impl ReplicaConnection {
    /// The sequence number the replica has applied.
    pub fn get_txseq(&self) -> (r: i64)
        ensures
            r == self.txseq,
    {
        self.txseq
    }
}

/// The dashmap crate's concurrent map, held opaque; what it holds is
/// `replica_table`.
#[verifier::external_type_specification]
#[verifier::external_body]
#[verifier::reject_recursive_types(K)]
#[verifier::reject_recursive_types(V)]
#[verifier::reject_recursive_types(S)]
pub struct ExDashMap<K, V, S>(DashMap<K, V, S>);

/// What a registry table holds: for each file name, the file's path and
/// applied sequence number.
pub uninterp spec fn replica_table(m: DashMap<String, ReplicaConnection>) -> Map<
    Seq<char>,
    (Seq<char>, i64),
>;

/// Relies on `DashMap::new`: the map starts empty.
#[verifier::external_body]
fn table_new() -> (r: DashMap<String, ReplicaConnection>)
    ensures
        replica_table(r) == empty_table(),
{
    DashMap::new()
}

/// The table without entries.
pub open spec fn empty_table() -> Map<Seq<char>, (Seq<char>, i64)> {
    Map::empty()
}

/// A finite table of `n` entries.
pub open spec fn has_entries(t: Map<Seq<char>, (Seq<char>, i64)>, n: nat) -> bool {
    t.dom().finite() && t.len() == n
}

/// Relies on `DashMap::len`: the number of entries.
#[verifier::external_body]
fn table_len(m: &DashMap<String, ReplicaConnection>) -> (r: usize)
    ensures
        has_entries(replica_table(*m), r as nat),
{
    m.len()
}

/// Relies on `DashMap::get`, copying the entry out so that no lock is held.
#[verifier::external_body]
fn table_get(m: &DashMap<String, ReplicaConnection>, k: &str) -> (r: Option<ReplicaConnection>)
    ensures
        match r {
            Some(v) => replica_table(*m).contains_key(k@) && replica_table(*m)[k@] == (
                v.dsn@,
                v.txseq,
            ),
            None => !replica_table(*m).contains_key(k@),
        },
{
    m.get(k).map(|e| e.value().clone())
}

/// Relies on `DashMap::insert`: the entry for `k` becomes `v`.
#[verifier::external_body]
fn table_insert(m: &mut DashMap<String, ReplicaConnection>, k: String, v: ReplicaConnection)
    ensures
        replica_table(*final(m)) == replica_table(*old(m)).insert(k@, (v.dsn@, v.txseq)),
{
    m.insert(k, v);
}

/// Relies on `DashMap::clear`: no entry is left.
#[verifier::external_body]
fn table_clear(m: &mut DashMap<String, ReplicaConnection>)
    ensures
        replica_table(*final(m)) == empty_table(),
{
    m.clear();
}

/// Relies on `DashMap::iter`: the file names of all entries, in no
/// particular order.
#[verifier::external_body]
fn table_keys(m: &DashMap<String, ReplicaConnection>) -> (r: Vec<String>)
    ensures
        r@.map_values(|s: String| s@).to_set() == replica_table(*m).dom(),
{
    m.iter().map(|e| e.key().clone()).collect()
}

/// The replica a name selects in a table: the entry of that name, or the
/// only entry when the name is empty and there is exactly one.
pub open spec fn lookup(t: Map<Seq<char>, (Seq<char>, i64)>, name: Seq<char>) -> Option<
    (Seq<char>, (Seq<char>, i64)),
> {
    if t.len() == 1 && name.len() == 0 {
        let k = choose|k: Seq<char>| t.contains_key(k);
        Some((k, t[k]))
    } else if t.contains_key(name) {
        Some((name, t[name]))
    } else {
        None
    }
}

/// Whether the replica a name selects has applied at least `required`.
pub open spec fn fresh(t: Map<Seq<char>, (Seq<char>, i64)>, name: Seq<char>, required: i64) -> bool {
    match lookup(t, name) {
        Some((_, (_, applied))) => applied >= required,
        None => false,
    }
}

/// A replica's applied sequence number after the refresh task reads
/// `observed` from its file: a failed read keeps it, and it never decreases.
pub open spec fn refreshed(current: i64, observed: Option<i64>) -> i64 {
    match observed {
        Some(v) => if v > current {
            v
        } else {
            current
        },
        None => current,
    }
}

/// The applied sequence number that the registry reports for a replica
/// never decreases from one refresh to the next.
pub proof fn lemma_applied_seq_monotone(current: i64, observed: Option<i64>)
    ensures
        refreshed(current, observed) >= current,
{
}

/// The file header that marks an SQLite 3 database: `SQLite format 3` and NUL.
pub open spec fn sqlite_magic() -> Seq<u8> {
    seq![
        0x53u8, 0x51, 0x4c, 0x69, 0x74, 0x65, 0x20, 0x66, 0x6f, 0x72, 0x6d, 0x61, 0x74, 0x20,
        0x33, 0x00,
    ]
}

/// The smallest size of an SQLite database file.
pub const MIN_DATABASE_SIZE: u64 = 100;

/// Whether a file with this first part and size is an SQLite database:
/// its first sixteen bytes are the magic and it holds at least 100 bytes.
pub fn is_sqlite_file(header: &[u8], size: u64) -> (r: bool)
    ensures
        r == (size >= 100 && header@.len() >= 16 && header@.subrange(0, 16) == sqlite_magic()),
{
    let magic: [u8; 16] = [
        0x53, 0x51, 0x4c, 0x69, 0x74, 0x65, 0x20, 0x66, 0x6f, 0x72, 0x6d, 0x61, 0x74, 0x20, 0x33,
        0x00,
    ];
    assert(magic@ =~= sqlite_magic());
    if size < MIN_DATABASE_SIZE || header.len() < 16 {
        return false;
    }
    let mut i: usize = 0;
    while i < 16
        invariant
            header@.len() >= 16,
            magic@ == sqlite_magic(),
            i <= 16,
            header@.subrange(0, i as int) == sqlite_magic().subrange(0, i as int),
        decreases 16 - i,
    {
        if header[i] != magic[i] {
            assert(header@.subrange(0, 16)[i as int] != sqlite_magic()[i as int]);
            return false;
        }
        assert(header@.subrange(0, i + 1) =~= header@.subrange(0, i as int).push(header@[i as int]));
        assert(sqlite_magic().subrange(0, i + 1) =~= sqlite_magic().subrange(0, i as int).push(
            sqlite_magic()[i as int],
        ));
        i = i + 1;
    }
    assert(sqlite_magic().subrange(0, 16) =~= sqlite_magic());
    true
}

/// The applied sequence number read from a replica's bookkeeping row:
/// zero when the row could not be read.
pub fn get_replica_txseq(row: Option<i64>) -> (r: i64)
    ensures
        r == match row {
            Some(v) => v,
            None => 0,
        },
{
    match row {
        Some(v) => v,
        None => 0,
    }
}

/// The registry of local replicas, keyed by file name.
pub struct EmbeddedReplicasManager {
    replicas: DashMap<String, ReplicaConnection>,
    running: bool,
}

impl EmbeddedReplicasManager {
    /// What the registry holds.
    pub closed spec fn table(&self) -> Map<Seq<char>, (Seq<char>, i64)> {
        replica_table(self.replicas)
    }

    /// Whether the refresh task is to run.
    pub closed spec fn spec_running(&self) -> bool {
        self.running
    }

    /// An empty registry, not running.
    pub fn new() -> (r: Self)
        ensures
            r.table() == Map::<Seq<char>, (Seq<char>, i64)>::empty(),
            !r.spec_running(),
    {
        EmbeddedReplicasManager { replicas: table_new(), running: false }
    }

    /// Whether a file of this name still has to be loaded.
    pub fn needs_load(&self, name: &str) -> (r: bool)
        ensures
            r == !self.table().contains_key(name@),
    {
        table_get(&self.replicas, name).is_none()
    }

    /// Adds a loaded replica; a name already present keeps its entry.
    pub fn add_replica(&mut self, name: String, dsn: String, txseq: i64)
        ensures
            old(self).table().contains_key(name@) ==> final(self).table() == old(self).table(),
            !old(self).table().contains_key(name@) ==> final(self).table() == old(self).table().insert(name@, (dsn@, txseq)),
            final(self).spec_running() == old(self).spec_running(),
    {
        if table_get(&self.replicas, name.as_str()).is_none() {
            table_insert(&mut self.replicas, name, ReplicaConnection { dsn, txseq });
        }
    }

    /// Marks the registry as running, once its files are loaded.
    pub fn start(&mut self)
        ensures
            final(self).spec_running(),
            final(self).table() == old(self).table(),
    {
        self.running = true;
    }

    /// Whether the refresh task is to run.
    pub fn is_running(&self) -> (r: bool)
        ensures
            r == self.spec_running(),
    {
        self.running
    }

    /// The names of all loaded replicas.
    pub fn replica_names(&self) -> (r: Vec<String>)
        ensures
            r@.map_values(|s: String| s@).to_set() == self.table().dom(),
    {
        table_keys(&self.replicas)
    }

    /// Records the sequence number read from a replica's file by the refresh
    /// task. A failed read (`None`) leaves it as it was, and it never moves
    /// backwards.
    pub fn refresh_replica(&mut self, name: &str, observed: Option<i64>)
        ensures
            final(self).table().dom() == old(self).table().dom(),
            forall|k: Seq<char>|
                #[trigger] old(self).table().contains_key(k) ==> final(self).table()[k].0 == old(self).table()[k].0 && final(self).table()[k].1 >= old(self).table()[k].1,
            forall|k: Seq<char>|
                #[trigger] old(self).table().contains_key(k) && k != name@ ==> final(self).table()[k] == old(self).table()[k],
            old(self).table().contains_key(name@) ==> final(self).table()[name@].1 == refreshed(
                old(self).table()[name@].1,
                observed,
            ),
            final(self).spec_running() == old(self).spec_running(),
    {
        match table_get(&self.replicas, name) {
            None => {},
            Some(rc) => match observed {
                None => {},
                Some(v) => {
                    if v > rc.txseq {
                        let ghost before = self.table();
                        table_insert(
                            &mut self.replicas,
                            String::from_str(name),
                            ReplicaConnection { dsn: rc.dsn, txseq: v },
                        );
                        assert(self.table().dom() =~= before.dom());
                    }
                },
            },
        }
    }

    /// The replica that `db_name` selects: the one of that name, or the only
    /// one when the name is empty and exactly one is loaded.
    pub fn get_replica(&self, db_name: &str) -> (r: Option<ReplicaConnection>)
        ensures
            match lookup(self.table(), db_name@) {
                Some((_, (dsn, seq))) => r matches Some(c) && c.dsn@ == dsn && c.txseq == seq,
                None => r is None,
            },
    {
        let n = table_len(&self.replicas);
        if n == 1 && db_name.unicode_len() == 0 {
            let keys = table_keys(&self.replicas);
            let ghost t = self.table();
            let ghost k = choose|k: Seq<char>| t.contains_key(k);
            proof {
                assert(t.dom().len() == 1);
                assert(t.contains_key(k)) by {
                    vstd::set_lib::lemma_set_empty_equivalency_len(t.dom());
                    let w = t.dom().choose();
                    assert(t.dom().contains(w));
                }
            }
            if keys.len() == 0 {
                assert(keys@.map_values(|s: String| s@) =~= Seq::<Seq<char>>::empty());
                assert(keys@.map_values(|s: String| s@).to_set() =~= Set::<Seq<char>>::empty());
                assert(false);
                return None;
            }
            let first = table_get(&self.replicas, keys[0].as_str());
            proof {
                let a = keys@[0]@;
                assert(keys@.map_values(|s: String| s@)[0] == a);
                assert(keys@.map_values(|s: String| s@).to_set().contains(a));
                assert(t.contains_key(a));
                if a != k {
                    assert(t.dom().contains(a) && t.dom().contains(k));
                    vstd::set_lib::lemma_set_subset_finite(t.dom(), set![a, k]);
                    assert(set![a, k].subset_of(t.dom()));
                    vstd::set_lib::lemma_len_subset(set![a, k], t.dom());
                    assert(set![a, k].len() == 2) by {
                        assert(set![a, k] == set![a].insert(k));
                    }
                }
            }
            first
        } else {
            table_get(&self.replicas, db_name)
        }
    }

    /// The path of the replica that `db_name` selects, for a fresh
    /// read-only view of it.
    pub fn create_connection(&self, db_name: &str) -> (r: Option<String>)
        ensures
            match lookup(self.table(), db_name@) {
                Some((_, (dsn, _))) => r matches Some(p) && p@ == dsn,
                None => r is None,
            },
    {
        match self.get_replica(db_name) {
            Some(c) => Some(c.dsn),
            None => None,
        }
    }

    /// Whether the replica that `db_name` selects has applied at least
    /// `txseq`; false when there is none.
    pub fn is_replica_updated(&self, db_name: &str, txseq: i64) -> (r: bool)
        ensures
            r == fresh(self.table(), db_name@, txseq),
    {
        match self.get_replica(db_name) {
            Some(c) => c.get_txseq() >= txseq,
            None => false,
        }
    }

    /// Stops the refresh task and drops every replica.
    pub fn close(&mut self)
        ensures
            !final(self).spec_running(),
            final(self).table() == Map::<Seq<char>, (Seq<char>, i64)>::empty(),
    {
        self.running = false;
        table_clear(&mut self.replicas);
    }
}

impl Default for EmbeddedReplicasManager {
    fn default() -> (r: Self)
        ensures
            r.table() == Map::<Seq<char>, (Seq<char>, i64)>::empty(),
            !r.spec_running(),
    {
        Self::new()
    }
}

} // verus!
