//! The routing connection: one session's state, the read-eligibility
//! classifier, and the choice between a local replica and the server.
use vstd::prelude::*;
use vstd::string::*;
use crate::client::{
    advanced, opt_text, query_outcome, params_carry, set_up_from, url_parts, ExecutionResult, HAClient, HAClientOptions, QueryRequest,
    QueryResponse, QueryType,
};
use crate::error::{Error, Result};
use crate::replicas::{fresh, lookup, EmbeddedReplicasManager};
use crate::value::{sqlite_to_value, value_of_sql, SqlValue, Value};

verus! {

/// Options of a connection.
#[derive(Debug, Clone, Default)]
pub struct HAConnectionOptions {
    /// The server URL.
    pub url: String,
    /// Authentication token.
    pub token: Option<String>,
    /// Whether to use TLS.
    pub enable_ssl: bool,
    /// Per-operation timeout in seconds.
    pub timeout: u64,
    /// Directory of the local replicas.
    pub embedded_replicas_dir: Option<String>,
    /// URL of the replication message bus.
    pub replication_url: Option<String>,
    /// Stream name on the bus.
    pub replication_stream: Option<String>,
    /// Durable consumer name on the bus.
    pub replication_durable: Option<String>,
}

/// Whether `c` is white space, as `char::is_whitespace` has it.
pub open spec fn is_space(c: char) -> bool {
    ||| c == ' '
    ||| ('\t' <= c <= '\r')
    ||| c == '\u{85}'
    ||| c == '\u{A0}'
    ||| c == '\u{1680}'
    ||| ('\u{2000}' <= c <= '\u{200A}')
    ||| c == '\u{2028}'
    ||| c == '\u{2029}'
    ||| c == '\u{202F}'
    ||| c == '\u{205F}'
    ||| c == '\u{3000}'
}

fn is_space_char(c: char) -> (r: bool)
    ensures
        r == is_space(c),
{
    c == ' ' || ('\t' <= c && c <= '\r') || c == '\u{85}' || c == '\u{A0}' || c == '\u{1680}' || (
    '\u{2000}' <= c && c <= '\u{200A}') || c == '\u{2028}' || c == '\u{2029}' || c == '\u{202F}'
        || c == '\u{205F}' || c == '\u{3000}'
}

/// The number of white-space characters that lead `s`.
pub open spec fn leading_spaces(s: Seq<char>) -> nat
    decreases s.len(),
{
    if s.len() > 0 && is_space(s[0]) {
        1 + leading_spaces(s.drop_first())
    } else {
        0
    }
}

/// Whether `c` is the upper-case ASCII letter `k` in either case.
pub open spec fn letter_matches(c: char, k: char) -> bool {
    c == k || c as u32 == k as u32 + 32
}

/// Whether `c` may continue a word: an ASCII letter, digit or `_`.
pub open spec fn is_word_char(c: char) -> bool {
    ('A' <= c <= 'Z') || ('a' <= c <= 'z') || ('0' <= c <= '9') || c == '_'
}

/// Whether `s` begins with the upper-case keyword `kw`, in any case, as a
/// whole word: what follows it, if anything, does not continue a word.
pub open spec fn begins_with_keyword(s: Seq<char>, kw: Seq<char>) -> bool {
    &&& kw.len() <= s.len()
    &&& forall|j: int| 0 <= j < kw.len() ==> letter_matches(s[j], kw[j])
    &&& (kw.len() == s.len() || !is_word_char(s[kw.len() as int]))
}

fn is_word_char_exec(c: char) -> (r: bool)
    ensures
        r == is_word_char(c),
{
    ('A' <= c && c <= 'Z') || ('a' <= c && c <= 'z') || ('0' <= c && c <= '9') || c == '_'
}

/// A statement may be served by a replica when its first keyword, after
/// leading white space, is `SELECT`, `PRAGMA`, `EXPLAIN` or `WITH`.
pub open spec fn read_eligible(sql: Seq<char>) -> bool {
    let t = sql.skip(leading_spaces(sql) as int);
    ||| begins_with_keyword(t, "SELECT"@)
    ||| begins_with_keyword(t, "PRAGMA"@)
    ||| begins_with_keyword(t, "EXPLAIN"@)
    ||| begins_with_keyword(t, "WITH"@)
}

/// Whether `kw` stands, in any case, at position `at` of `sql`.
fn keyword_at(sql: &str, n: usize, at: usize, kw: &str) -> (r: bool)
    requires
        n == sql@.len(),
        at <= n,
        forall|j: int| 0 <= j < kw@.len() ==> 'A' <= #[trigger] kw@[j] <= 'Z',
    ensures
        r == begins_with_keyword(sql@.skip(at as int), kw@),
{
    let m = kw.unicode_len();
    if m > n - at {
        return false;
    }
    let ghost t = sql@.skip(at as int);
    let mut j: usize = 0;
    while j < m
        invariant
            n == sql@.len(),
            at <= n,
            m == kw@.len(),
            m <= n - at,
            j <= m,
            t == sql@.skip(at as int),
            forall|i: int| 0 <= i < kw@.len() ==> 'A' <= #[trigger] kw@[i] <= 'Z',
            forall|i: int| 0 <= i < j ==> letter_matches(t[i], kw@[i]),
        decreases m - j,
    {
        let c = sql.get_char(at + j);
        let k = kw.get_char(j);
        assert(t[j as int] == c);
        if !(c == k || c as u32 == k as u32 + 32) {
            return false;
        }
        j = j + 1;
    }
    if m == n - at {
        return true;
    }
    let next = sql.get_char(at + m);
    assert(t[m as int] == next);
    !is_word_char_exec(next)
}

/// Whether a statement may be served by a replica.
pub fn is_select_query(sql: &str) -> (r: bool)
    ensures
        r == read_eligible(sql@),
{
    let n = sql.unicode_len();
    let mut i: usize = 0;
    assert(sql@.skip(0) =~= sql@);
    while i < n && is_space_char(sql.get_char(i))
        invariant
            n == sql@.len(),
            i <= n,
            leading_spaces(sql@) == i + leading_spaces(sql@.skip(i as int)),
        decreases n - i,
    {
        assert(sql@.skip(i as int).drop_first() =~= sql@.skip(i + 1));
        i = i + 1;
    }
    proof {
        if i < n {
            assert(sql@.skip(i as int)[0] == sql@[i as int]);
        }
        reveal_strlit("SELECT");
        reveal_strlit("PRAGMA");
        reveal_strlit("EXPLAIN");
        reveal_strlit("WITH");
    }
    keyword_at(sql, n, i, "SELECT") || keyword_at(sql, n, i, "PRAGMA") || keyword_at(
        sql,
        n,
        i,
        "EXPLAIN",
    ) || keyword_at(sql, n, i, "WITH")
}

/// Where a statement goes.
#[derive(Debug, Clone, PartialEq)]
pub enum Route {
    /// To a read-only view of the local replica file at this path.
    Replica(String),
    /// To the server, as this request.
    Remote(QueryRequest),
}

/// A statement of the session itself, sent to the server as an update.
#[derive(Debug, Clone, Copy, PartialEq, Eq)]
pub enum SessionOp {
    /// `BEGIN`: auto-commit goes off.
    Begin,
    /// `COMMIT`: auto-commit comes back on.
    Commit,
    /// `ROLLBACK`: auto-commit comes back on.
    Rollback,
    /// `COMMIT` or `BEGIN`, setting auto-commit to the value given.
    AutoCommit(bool),
    /// `PRAGMA query_only`, setting read-only to the value given.
    ReadOnly(bool),
}

/// The statement text of a session statement.
pub open spec fn op_sql(op: SessionOp) -> Seq<char> {
    match op {
        SessionOp::Begin => "BEGIN"@,
        SessionOp::Commit => "COMMIT"@,
        SessionOp::Rollback => "ROLLBACK"@,
        SessionOp::AutoCommit(on) => if on {
            "COMMIT"@
        } else {
            "BEGIN"@
        },
        SessionOp::ReadOnly(on) => if on {
            "PRAGMA query_only = 1"@
        } else {
            "PRAGMA query_only = 0"@
        },
    }
}

fn op_text(op: SessionOp) -> (r: &'static str)
    ensures
        r@ == op_sql(op),
{
    match op {
        SessionOp::Begin => "BEGIN",
        SessionOp::Commit => "COMMIT",
        SessionOp::Rollback => "ROLLBACK",
        SessionOp::AutoCommit(on) => if on {
            "COMMIT"
        } else {
            "BEGIN"
        },
        SessionOp::ReadOnly(on) => if on {
            "PRAGMA query_only = 1"
        } else {
            "PRAGMA query_only = 0"
        },
    }
}

/// Auto-commit after a session statement succeeds.
pub open spec fn op_auto_commit(op: SessionOp, before: bool) -> bool {
    match op {
        SessionOp::Begin => false,
        SessionOp::Commit | SessionOp::Rollback => true,
        SessionOp::AutoCommit(on) => on,
        SessionOp::ReadOnly(_) => before,
    }
}

/// Read-only mode after a session statement succeeds.
pub open spec fn op_read_only(op: SessionOp, before: bool) -> bool {
    match op {
        SessionOp::ReadOnly(on) => on,
        _ => before,
    }
}

/// A session: the client state, whether replicas serve reads, and the
/// session's flags.
pub struct HAConnection {
    client: HAClient,
    replicas_enabled: bool,
    closed: bool,
    auto_commit: bool,
    read_only: bool,
}

/// `req` carries `sql` and `params` as a `t` statement for the database
/// that `client` addresses.
pub open spec fn request_for(
    req: QueryRequest,
    client: HAClient,
    sql: Seq<char>,
    params: Seq<Value>,
    t: QueryType,
) -> bool {
    &&& req.replication_id@ == client.spec_replication_id()
    &&& req.sql@ == sql
    &&& req.query_type == t
    &&& params_carry(req.params@, params)
}

/// Whether a session sends a statement to a replica: replicas serve its
/// reads, a registry is at hand, the statement is read-eligible, and the
/// replica its database selects has applied the session's sequence number.
pub open spec fn uses_replica(
    c: HAConnection,
    sql: Seq<char>,
    registry: Option<&EmbeddedReplicasManager>,
) -> bool {
    &&& c.spec_replicas_enabled()
    &&& registry is Some
    &&& read_eligible(sql)
    &&& fresh(
        registry.unwrap().table(),
        c.spec_client().spec_replication_id(),
        c.spec_client().spec_txseq(),
    )
}

/// The outcome of routing `sql` for a session that is open.
pub open spec fn routed(
    r: Result<Route>,
    c: HAConnection,
    sql: Seq<char>,
    params: Seq<Value>,
    registry: Option<&EmbeddedReplicasManager>,
    t: QueryType,
) -> bool {
    if uses_replica(c, sql, registry) {
        r matches Ok(Route::Replica(p)) && lookup(
            registry.unwrap().table(),
            c.spec_client().spec_replication_id(),
        ) matches Some((_, (dsn, _))) && p@ == dsn
    } else {
        r matches Ok(Route::Remote(req)) && request_for(req, c.spec_client(), sql, params, t)
    }
}

impl HAConnection {
    pub closed spec fn spec_client(&self) -> HAClient {
        self.client
    }

    pub closed spec fn spec_replicas_enabled(&self) -> bool {
        self.replicas_enabled
    }

    pub closed spec fn spec_closed(&self) -> bool {
        self.closed
    }

    pub closed spec fn spec_auto_commit(&self) -> bool {
        self.auto_commit
    }

    pub closed spec fn spec_read_only(&self) -> bool {
        self.read_only
    }

    /// Opens a session: the client is set up from the options, replicas
    /// serve reads when both a replica directory and a replication URL are
    /// given; the session starts open, in auto-commit, not read-only.
    /// Fails with `UrlParse` when the URL does not parse.
    pub fn new(options: HAConnectionOptions) -> (r: Result<HAConnection>)
        ensures
            match url_parts(options.url@) {
                None => r matches Err(Error::UrlParse(_)),
                Some(_) => r matches Ok(c) && set_up_from(
                    c.spec_client(),
                    options.url@,
                    opt_text(options.token),
                    options.enable_ssl,
                    options.timeout,
                ) && c.spec_replicas_enabled() == (options.embedded_replicas_dir is Some
                    && options.replication_url is Some) && !c.spec_closed() && c.spec_auto_commit()
                    && !c.spec_read_only(),
            },
    {
        let replicas_enabled = options.embedded_replicas_dir.is_some()
            && options.replication_url.is_some();
        let client_options = HAClientOptions {
            url: options.url,
            token: options.token,
            enable_ssl: options.enable_ssl,
            timeout: options.timeout,
        };
        match HAClient::new(client_options) {
            Err(e) => Err(e),
            Ok(client) => Ok(
                HAConnection {
                    client,
                    replicas_enabled,
                    closed: false,
                    auto_commit: true,
                    read_only: false,
                },
            ),
        }
    }

    /// Routes a statement for which a replica may stand in: to the replica
    /// when `uses_replica` holds, else to the server as a request of type `t`.
    fn route(
        &self,
        sql: &str,
        params: &[Value],
        registry: Option<&EmbeddedReplicasManager>,
        t: QueryType,
    ) -> (r: Result<Route>)
        requires
            params@.len() < i64::MAX,
        ensures
            routed(r, *self, sql@, params@, registry, t),
    {
        if self.replicas_enabled && is_select_query(sql) {
            match registry {
                Some(reg) => {
                    let rid = self.client.replication_id();
                    if reg.is_replica_updated(rid.as_str(), self.client.txseq()) {
                        match reg.create_connection(rid.as_str()) {
                            Some(path) => {
                                return Ok(Route::Replica(path));
                            },
                            None => {},
                        }
                    }
                },
                None => {},
            }
        }
        Ok(Route::Remote(self.client.build_request(sql, params, t)))
    }

    /// Routes a query: a closed session fails with `ConnectionClosed`; a
    /// fresh replica serves a read-eligible statement; anything else goes to
    /// the server as a query.
    pub fn query(
        &self,
        sql: &str,
        params: &[Value],
        registry: Option<&EmbeddedReplicasManager>,
    ) -> (r: Result<Route>)
        requires
            params@.len() < i64::MAX,
        ensures
            self.spec_closed() ==> r matches Err(Error::ConnectionClosed),
            !self.spec_closed() ==> routed(r, *self, sql@, params@, registry, QueryType::ExecQuery),
    {
        if self.closed {
            return Err(Error::ConnectionClosed);
        }
        self.route(sql, params, registry, QueryType::ExecQuery)
    }

    /// Routes any statement, as `query` does, but to the server with an
    /// unspecified intent.
    pub fn run(
        &self,
        sql: &str,
        params: &[Value],
        registry: Option<&EmbeddedReplicasManager>,
    ) -> (r: Result<Route>)
        requires
            params@.len() < i64::MAX,
        ensures
            self.spec_closed() ==> r matches Err(Error::ConnectionClosed),
            !self.spec_closed() ==> routed(r, *self, sql@, params@, registry, QueryType::Unspecified),
    {
        if self.closed {
            return Err(Error::ConnectionClosed);
        }
        self.route(sql, params, registry, QueryType::Unspecified)
    }

    /// The request of an update; a replica never serves one.
    pub fn execute(&self, sql: &str, params: &[Value]) -> (r: Result<QueryRequest>)
        requires
            params@.len() < i64::MAX,
        ensures
            self.spec_closed() ==> r matches Err(Error::ConnectionClosed),
            !self.spec_closed() ==> (r matches Ok(req) && request_for(
                req,
                self.spec_client(),
                sql@,
                params@,
                QueryType::ExecUpdate,
            )),
    {
        if self.closed {
            return Err(Error::ConnectionClosed);
        }
        Ok(self.client.build_request(sql, params, QueryType::ExecUpdate))
    }

    /// Takes in the server's response to a query or a statement of `run`.
    pub fn complete_query(&mut self, response: QueryResponse) -> (r: Result<ExecutionResult>)
        ensures
            final(self).spec_client().spec_txseq() >= old(self).spec_client().spec_txseq(),
            final(self).spec_client().spec_replication_id() == old(self).spec_client().spec_replication_id(),
            final(self).spec_closed() == old(self).spec_closed(),
            final(self).spec_auto_commit() == old(self).spec_auto_commit(),
            final(self).spec_read_only() == old(self).spec_read_only(),
            final(self).spec_replicas_enabled() == old(self).spec_replicas_enabled(),
            query_outcome(r, response),
            response.error@.len() > 0 ==> final(self).spec_client().spec_txseq() == old(self).spec_client().spec_txseq(),
            response.error@.len() == 0 ==> final(self).spec_client().spec_txseq() == advanced(
                old(self).spec_client().spec_txseq(),
                response.txseq,
            ),
    {
        self.client.parse_response(response)
    }

    /// Takes in the server's response to an update.
    pub fn complete_update(&mut self, response: QueryResponse) -> (r: Result<i64>)
        ensures
            final(self).spec_client().spec_txseq() >= old(self).spec_client().spec_txseq(),
            final(self).spec_client().spec_replication_id() == old(self).spec_client().spec_replication_id(),
            final(self).spec_closed() == old(self).spec_closed(),
            final(self).spec_auto_commit() == old(self).spec_auto_commit(),
            final(self).spec_read_only() == old(self).spec_read_only(),
            final(self).spec_replicas_enabled() == old(self).spec_replicas_enabled(),
            response.error@.len() > 0 ==> (r matches Err(Error::Query(m)) && m@ == response.error@),
            response.error@.len() == 0 ==> final(self).spec_client().spec_txseq() == advanced(
                old(self).spec_client().spec_txseq(),
                response.txseq,
            ) && r == Ok::<i64, Error>(response.rows_affected),
    {
        self.client.parse_update(response)
    }

    /// The request of a session statement.
    fn op_request(&self, op: SessionOp) -> (r: QueryRequest)
        ensures
            request_for(r, self.spec_client(), op_sql(op), Seq::empty(), QueryType::ExecUpdate),
    {
        let none: Vec<Value> = Vec::new();
        let r = self.client.build_request(op_text(op), none.as_slice(), QueryType::ExecUpdate);
        assert(none@ =~= Seq::<Value>::empty());
        r
    }

    /// The request that begins a transaction: `BEGIN`.
    pub fn begin_transaction(&self) -> (r: Result<QueryRequest>)
        ensures
            self.spec_closed() ==> r matches Err(Error::ConnectionClosed),
            !self.spec_closed() ==> (r matches Ok(req) && request_for(
                req,
                self.spec_client(),
                op_sql(SessionOp::Begin),
                Seq::empty(),
                QueryType::ExecUpdate,
            )),
    {
        if self.closed {
            return Err(Error::ConnectionClosed);
        }
        Ok(self.op_request(SessionOp::Begin))
    }

    /// The request that commits the transaction: `COMMIT`.
    pub fn commit(&self) -> (r: Result<QueryRequest>)
        ensures
            self.spec_closed() ==> r matches Err(Error::ConnectionClosed),
            !self.spec_closed() ==> (r matches Ok(req) && request_for(
                req,
                self.spec_client(),
                op_sql(SessionOp::Commit),
                Seq::empty(),
                QueryType::ExecUpdate,
            )),
    {
        if self.closed {
            return Err(Error::ConnectionClosed);
        }
        Ok(self.op_request(SessionOp::Commit))
    }

    /// The request that rolls the transaction back: `ROLLBACK`.
    pub fn rollback(&self) -> (r: Result<QueryRequest>)
        ensures
            self.spec_closed() ==> r matches Err(Error::ConnectionClosed),
            !self.spec_closed() ==> (r matches Ok(req) && request_for(
                req,
                self.spec_client(),
                op_sql(SessionOp::Rollback),
                Seq::empty(),
                QueryType::ExecUpdate,
            )),
    {
        if self.closed {
            return Err(Error::ConnectionClosed);
        }
        Ok(self.op_request(SessionOp::Rollback))
    }

    /// The request that sets auto-commit: none when it is already so,
    /// `COMMIT` to turn it on, `BEGIN` to turn it off.
    pub fn set_auto_commit(&self, auto_commit: bool) -> (r: Result<Option<QueryRequest>>)
        ensures
            self.spec_closed() ==> r matches Err(Error::ConnectionClosed),
            !self.spec_closed() && auto_commit == self.spec_auto_commit() ==> r matches Ok(None),
            !self.spec_closed() && auto_commit != self.spec_auto_commit() ==> (r matches Ok(
                Some(req),
            ) && request_for(
                req,
                self.spec_client(),
                op_sql(SessionOp::AutoCommit(auto_commit)),
                Seq::empty(),
                QueryType::ExecUpdate,
            )),
    {
        if self.closed {
            return Err(Error::ConnectionClosed);
        }
        if auto_commit == self.auto_commit {
            return Ok(None);
        }
        Ok(Some(self.op_request(SessionOp::AutoCommit(auto_commit))))
    }

    /// The request that sets read-only mode: `PRAGMA query_only = 1` or `0`.
    pub fn set_read_only(&self, read_only: bool) -> (r: Result<QueryRequest>)
        ensures
            self.spec_closed() ==> r matches Err(Error::ConnectionClosed),
            !self.spec_closed() ==> (r matches Ok(req) && request_for(
                req,
                self.spec_client(),
                op_sql(SessionOp::ReadOnly(read_only)),
                Seq::empty(),
                QueryType::ExecUpdate,
            )),
    {
        if self.closed {
            return Err(Error::ConnectionClosed);
        }
        Ok(self.op_request(SessionOp::ReadOnly(read_only)))
    }

    /// The probe that tells whether the session is usable: none when it is
    /// closed (it is not), else `SELECT 1` as a query, whose success says so.
    pub fn is_valid(&self) -> (r: Option<QueryRequest>)
        ensures
            self.spec_closed() ==> r is None,
            !self.spec_closed() ==> (r matches Some(req) && request_for(
                req,
                self.spec_client(),
                "SELECT 1"@,
                Seq::empty(),
                QueryType::ExecQuery,
            )),
    {
        if self.closed {
            return None;
        }
        let none: Vec<Value> = Vec::new();
        let r = self.client.build_request("SELECT 1", none.as_slice(), QueryType::ExecQuery);
        assert(none@ =~= Seq::<Value>::empty());
        Some(r)
    }

    /// Takes in the server's response to a session statement. On success
    /// the flag it sets changes: `BEGIN` turns auto-commit off, `COMMIT` and
    /// `ROLLBACK` turn it on, and the setters record their value. A failed
    /// statement changes no flag.
    pub fn complete_op(&mut self, op: SessionOp, response: QueryResponse) -> (r: Result<()>)
        ensures
            final(self).spec_client().spec_txseq() >= old(self).spec_client().spec_txseq(),
            final(self).spec_client().spec_replication_id() == old(self).spec_client().spec_replication_id(),
            final(self).spec_closed() == old(self).spec_closed(),
            final(self).spec_replicas_enabled() == old(self).spec_replicas_enabled(),
            response.error@.len() > 0 ==> (r matches Err(Error::Query(m)) && m@ == response.error@)
                && final(self).spec_auto_commit() == old(self).spec_auto_commit()
                && final(self).spec_read_only() == old(self).spec_read_only(),
            response.error@.len() == 0 ==> r is Ok && final(self).spec_client().spec_txseq()
                == advanced(old(self).spec_client().spec_txseq(), response.txseq)
                && final(self).spec_auto_commit() == op_auto_commit(op, old(self).spec_auto_commit())
                && final(self).spec_read_only() == op_read_only(op, old(self).spec_read_only()),
    {
        match self.client.parse_update(response) {
            Err(e) => Err(e),
            Ok(_) => {
                match op {
                    SessionOp::Begin => self.auto_commit = false,
                    SessionOp::Commit | SessionOp::Rollback => self.auto_commit = true,
                    SessionOp::AutoCommit(on) => self.auto_commit = on,
                    SessionOp::ReadOnly(on) => self.read_only = on,
                }
                Ok(())
            },
        }
    }

    /// Whether the session is in auto-commit mode.
    pub fn auto_commit(&self) -> (r: bool)
        ensures
            r == self.spec_auto_commit(),
    {
        self.auto_commit
    }

    /// Whether the session is read-only.
    pub fn read_only(&self) -> (r: bool)
        ensures
            r == self.spec_read_only(),
    {
        self.read_only
    }

    /// The database the session addresses.
    pub fn catalog(&self) -> (r: String)
        ensures
            r@ == self.spec_client().spec_replication_id(),
    {
        self.client.replication_id()
    }

    /// Addresses another database. A closed session fails with
    /// `ConnectionClosed`, an empty name with `InvalidParameter`; either way
    /// nothing changes.
    pub fn set_catalog(&mut self, catalog: &str) -> (r: Result<()>)
        ensures
            old(self).spec_closed() ==> (r matches Err(Error::ConnectionClosed) && *final(self)
                == *old(self)),
            !old(self).spec_closed() && catalog@.len() == 0 ==> (r matches Err(Error::InvalidParameter(_)) && *final(self)
                == *old(self)),
            !old(self).spec_closed() && catalog@.len() > 0 ==> r is Ok && final(self).spec_client().spec_replication_id()
                == catalog@ && final(self).spec_client().spec_txseq() == old(self).spec_client().spec_txseq()
                && final(self).spec_closed() == old(self).spec_closed()
                && final(self).spec_auto_commit() == old(self).spec_auto_commit()
                && final(self).spec_read_only() == old(self).spec_read_only()
                && final(self).spec_replicas_enabled() == old(self).spec_replicas_enabled(),
    {
        if self.closed {
            return Err(Error::ConnectionClosed);
        }
        if catalog.unicode_len() == 0 {
            return Err(Error::InvalidParameter(String::from_str("Catalog cannot be empty")));
        }
        self.client.set_replication_id(catalog);
        Ok(())
    }

    /// The client state.
    pub fn client(&self) -> (r: &HAClient)
        ensures
            *r == self.spec_client(),
    {
        &self.client
    }

    /// Whether the session is closed.
    pub fn is_closed(&self) -> (r: bool)
        ensures
            r == self.spec_closed(),
    {
        self.closed
    }

    /// Closes the session for good; closing again changes nothing.
    pub fn close(&mut self) -> (r: Result<()>)
        ensures
            r is Ok,
            final(self).spec_closed(),
            final(self).spec_client() == old(self).spec_client(),
            final(self).spec_auto_commit() == old(self).spec_auto_commit(),
            final(self).spec_read_only() == old(self).spec_read_only(),
            final(self).spec_replicas_enabled() == old(self).spec_replicas_enabled(),
    {
        self.closed = true;
        Ok(())
    }
}

/// The row of values that a row of engine values reads as.
fn local_row(row: Vec<SqlValue>) -> (r: Vec<Value>)
    ensures
        r@.len() == row@.len(),
        forall|j: int| 0 <= j < r@.len() ==> #[trigger] r@[j] == value_of_sql(row@[j]),
{
    let mut out: Vec<Value> = Vec::new();
    let mut j: usize = 0;
    let n = row.len();
    let mut rest = row;
    let ghost all = rest@;
    while j < n
        invariant
            n == all.len(),
            j <= n,
            rest@ == all.skip(j as int),
            out@.len() == j,
            forall|k: int| 0 <= k < j ==> #[trigger] out@[k] == value_of_sql(all[k]),
        decreases n - j,
    {
        let v = rest.remove(0);
        out.push(sqlite_to_value(v));
        j = j + 1;
    }
    out
}

/// The result of a statement a replica served: its columns, its rows read
/// as values, and nothing affected.
pub fn local_result(columns: Vec<String>, rows: Vec<Vec<SqlValue>>) -> (r: ExecutionResult)
    ensures
        r.columns == columns,
        r.rows_affected == 0,
        r.rows@.len() == rows@.len(),
        forall|i: int|
            0 <= i < rows@.len() ==> (#[trigger] r.rows@[i])@.len() == rows@[i]@.len() && forall|
                j: int,
            |
                0 <= j < rows@[i]@.len() ==> #[trigger] r.rows@[i]@[j] == value_of_sql(
                    rows@[i]@[j],
                ),
{
    let mut out: Vec<Vec<Value>> = Vec::new();
    let n = rows.len();
    let mut rest = rows;
    let ghost all = rest@;
    let mut i: usize = 0;
    while i < n
        invariant
            n == all.len(),
            i <= n,
            rest@ == all.skip(i as int),
            out@.len() == i,
            forall|k: int|
                0 <= k < i ==> (#[trigger] out@[k])@.len() == all[k]@.len() && forall|j: int|
                    0 <= j < all[k]@.len() ==> #[trigger] out@[k]@[j] == value_of_sql(
                        all[k]@[j],
                    ),
        decreases n - i,
    {
        let row = rest.remove(0);
        out.push(local_row(row));
        i = i + 1;
    }
    ExecutionResult { columns, rows: out, rows_affected: 0 }
}

/// A read-eligible statement, in a session whose replicas serve reads,
/// with a registry whose replica has applied the session's sequence number,
/// never goes to the server.
pub proof fn lemma_fresh_read_stays_local(
    c: HAConnection,
    sql: Seq<char>,
    registry: Option<&EmbeddedReplicasManager>,
)
    requires
        c.spec_replicas_enabled(),
        registry is Some,
        read_eligible(sql),
        fresh(
            registry.unwrap().table(),
            c.spec_client().spec_replication_id(),
            c.spec_client().spec_txseq(),
        ),
    ensures
        forall|r: Result<Route>, params: Seq<Value>, t: QueryType|
            #[trigger] routed(r, c, sql, params, registry, t) ==> r matches Ok(Route::Replica(_)),
{
}

/// A statement that is not read-eligible goes to the server, whatever the
/// registry holds.
pub proof fn lemma_write_goes_remote(
    c: HAConnection,
    sql: Seq<char>,
    params: Seq<Value>,
    registry: Option<&EmbeddedReplicasManager>,
    t: QueryType,
    r: Result<Route>,
)
    requires
        !read_eligible(sql),
        routed(r, c, sql, params, registry, t),
    ensures
        r matches Ok(Route::Remote(req)) && request_for(req, c.spec_client(), sql, params, t),
{
}

} // verus!
