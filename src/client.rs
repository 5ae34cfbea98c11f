//! The remote executor facade: request building, response handling, and the
//! highest transaction sequence number observed from the server.
use vstd::prelude::*;
use vstd::string::*;
use crate::error::{Error, Result};
use crate::text::{has_prefix, strip_prefix_text, trim_leading, trim_start_char};
use crate::value::{decode_spec, encode_spec, Value, ValueView, WireEnvelope};

verus! {

/// Options of a client.
#[derive(Debug, Clone)]
pub struct HAClientOptions {
    /// The server URL, such as `litesql://localhost:8080/db`.
    pub url: String,
    /// Authentication token.
    pub token: Option<String>,
    /// Whether to use TLS.
    pub enable_ssl: bool,
    /// Per-operation timeout in seconds.
    pub timeout: u64,
}

impl Default for HAClientOptions {
    fn default() -> (r: Self)
        ensures
            r.url@.len() == 0,
            r.token is None,
            !r.enable_ssl,
            r.timeout == 30,
    {
        HAClientOptions { url: String::new(), token: None, enable_ssl: false, timeout: 30 }
    }
}

/// What the server is asked to do with a statement.
#[derive(Debug, Clone, Copy, PartialEq, Eq)]
pub enum QueryType {
    Unspecified,
    ExecQuery,
    ExecUpdate,
}

/// One parameter of a request.
#[derive(Debug, Clone, PartialEq)]
pub struct NamedValue {
    pub name: String,
    pub ordinal: i64,
    pub value: Option<WireEnvelope>,
}

/// A statement sent to the server.
#[derive(Debug, Clone, PartialEq)]
pub struct QueryRequest {
    pub replication_id: String,
    pub sql: String,
    pub query_type: QueryType,
    pub params: Vec<NamedValue>,
}

/// One row of a result set, as it comes over the wire.
#[derive(Debug, Clone, PartialEq)]
pub struct WireRow {
    pub values: Vec<WireEnvelope>,
}

/// A result set as it comes over the wire.
#[derive(Debug, Clone, PartialEq)]
pub struct WireResultSet {
    pub columns: Vec<String>,
    pub rows: Vec<WireRow>,
}

/// The server's answer to a statement.
#[derive(Debug, Clone, PartialEq)]
pub struct QueryResponse {
    pub error: String,
    pub rows_affected: i64,
    pub txseq: i64,
    pub result_set: Option<WireResultSet>,
}

/// Result of a statement.
#[derive(Debug, Clone, PartialEq)]
pub struct ExecutionResult {
    /// Column names.
    pub columns: Vec<String>,
    /// Rows, each as long as `columns`.
    pub rows: Vec<Vec<Value>>,
    /// Rows changed by an update.
    pub rows_affected: i64,
}

impl ExecutionResult {
    /// A result with no columns, no rows and nothing affected.
    pub fn empty() -> (r: Self)
        ensures
            r.columns@.len() == 0,
            r.rows@.len() == 0,
            r.rows_affected == 0,
    {
        ExecutionResult { columns: Vec::new(), rows: Vec::new(), rows_affected: 0 }
    }

    /// The number of rows.
    pub fn row_count(&self) -> (r: usize)
        ensures
            r == self.rows@.len(),
    {
        self.rows.len()
    }

    /// The number of columns.
    pub fn column_count(&self) -> (r: usize)
        ensures
            r == self.columns@.len(),
    {
        self.columns.len()
    }
}

/// The parts of a parsed URL that the client reads: path, host and port.
pub struct UrlParts {
    pub path: String,
    pub host: Option<String>,
    pub port: Option<u16>,
}

/// What `url::Url::parse` yields for a text, as path, host and explicit
/// port; `None` when it fails.
pub uninterp spec fn url_parts(s: Seq<char>) -> Option<(Seq<char>, Option<Seq<char>>, Option<u16>)>;

/// Relies on `url::Url::parse` and on `Url::path`, `Url::host_str` and
/// `Url::port` to read the parsed URL; the outcome depends on the text alone.
#[verifier::external_body]
fn parse_url(s: &str) -> (r: core::result::Result<UrlParts, url::ParseError>)
    ensures
        match r {
            Ok(p) => url_parts(s@) == Some(
                (p.path@, match p.host { Some(h) => Some(h@), None => None }, p.port),
            ),
            Err(_) => url_parts(s@) is None,
        },
{
    url::Url::parse(s).map(
        |u| UrlParts {
            path: u.path().to_string(),
            host: u.host_str().map(|h| h.to_string()),
            port: u.port(),
        },
    )
}

/// Whether a server URL asks for TLS by its scheme, `litesqls://`.
pub open spec fn tls_scheme(u: Seq<char>) -> bool {
    has_prefix(u, "litesqls://"@)
}

/// Whether a server URL starts with `litesqls://`.
fn is_tls_url(u: &str) -> (r: bool)
    ensures
        r == tls_scheme(u@),
{
    strip_prefix_text(u, "litesqls://").is_some()
}

/// The default port of the server.
pub const DEFAULT_PORT: u16 = 8080;

/// The client's state: where the server is, which database it addresses,
/// and the highest transaction sequence number seen in a response.
pub struct HAClient {
    replication_id: String,
    timeout: u64,
    token: Option<String>,
    host: String,
    port: u16,
    use_tls: bool,
    txseq: i64,
}

/// The larger of two sequence numbers.
pub open spec fn seq_max(a: i64, b: i64) -> i64 {
    if b > a {
        b
    } else {
        a
    }
}

/// The sequence number after a response carrying `seen`: the highest so far.
pub open spec fn advanced(current: i64, seen: i64) -> i64 {
    if seen > 0 {
        seq_max(current, seen)
    } else {
        current
    }
}

/// The view of an optional text.
pub open spec fn opt_text(t: Option<String>) -> Option<Seq<char>> {
    match t {
        Some(s) => Some(s@),
        None => None,
    }
}

/// `c` is the client that the options give, on a URL that parses: the
/// database is the path without leading slashes, the host defaults to
/// `localhost` and the port to 8080 (a port written in the URL is kept,
/// whatever its number), TLS is on when asked for or when the scheme is
/// `litesqls://`, and no sequence number is seen yet.
pub open spec fn set_up_from(
    c: HAClient,
    url: Seq<char>,
    token: Option<Seq<char>>,
    enable_ssl: bool,
    timeout: u64,
) -> bool {
    match url_parts(url) {
        None => false,
        Some((path, host, port)) => {
            &&& c.spec_replication_id() == trim_leading(path, '/')
            &&& c.spec_host() == match host {
                Some(h) => h,
                None => "localhost"@,
            }
            &&& c.spec_port() == match port {
                Some(p) => p,
                None => DEFAULT_PORT,
            }
            &&& c.spec_use_tls() == (enable_ssl || tls_scheme(url))
            &&& c.spec_timeout() == timeout
            &&& c.spec_txseq() == 0
            &&& c.spec_token() == token
        },
    }
}

/// The sequence number a client records never decreases: whatever a
/// response carries, the number after it is at least the one before.
pub proof fn lemma_txseq_monotone(current: i64, seen: i64)
    ensures
        advanced(current, seen) >= current,
        seen > 0 && seen > current ==> advanced(current, seen) == seen,
{
}

impl HAClient {
    pub closed spec fn spec_replication_id(&self) -> Seq<char> {
        self.replication_id@
    }

    pub closed spec fn spec_txseq(&self) -> i64 {
        self.txseq
    }

    pub closed spec fn spec_token(&self) -> Option<Seq<char>> {
        match self.token {
            Some(t) => Some(t@),
            None => None,
        }
    }

    pub closed spec fn spec_host(&self) -> Seq<char> {
        self.host@
    }

    pub closed spec fn spec_port(&self) -> u16 {
        self.port
    }

    pub closed spec fn spec_use_tls(&self) -> bool {
        self.use_tls
    }

    pub closed spec fn spec_timeout(&self) -> u64 {
        self.timeout
    }

    /// Sets the client up from its options: the URL's path without leading
    /// slashes names the database, its host (else `localhost`) and port
    /// (else 8080) the server; TLS is on when asked for or when the scheme
    /// is `litesqls://`. Fails with `UrlParse` when the URL does not parse.
    /// Connecting is left to the transport.
    pub fn new(options: HAClientOptions) -> (r: Result<HAClient>)
        ensures
            match url_parts(options.url@) {
                None => r matches Err(Error::UrlParse(_)),
                Some(_) => r matches Ok(c) && set_up_from(
                    c,
                    options.url@,
                    opt_text(options.token),
                    options.enable_ssl,
                    options.timeout,
                ),
            },
    {
        let use_tls = options.enable_ssl || is_tls_url(options.url.as_str());
        match parse_url(options.url.as_str()) {
            Err(e) => Err(Error::UrlParse(e)),
            Ok(parts) => Ok(
                HAClient::from_parts(parts, options.token, use_tls, options.timeout),
            ),
        }
    }

    /// The client for a parsed server URL: the path without leading slashes
    /// names the database, the host defaults to `localhost` and the port to
    /// 8080; no sequence number is seen yet.
    pub fn from_parts(parts: UrlParts, token: Option<String>, use_tls: bool, timeout: u64) -> (r:
        HAClient)
        ensures
            r.spec_replication_id() == trim_leading(parts.path@, '/'),
            r.spec_host() == match parts.host {
                Some(h) => h@,
                None => "localhost"@,
            },
            r.spec_port() == match parts.port {
                Some(p) => p,
                None => DEFAULT_PORT,
            },
            r.spec_use_tls() == use_tls,
            r.spec_timeout() == timeout,
            r.spec_txseq() == 0,
            r.spec_token() == opt_text(token),
    {
        let replication_id = trim_start_char(parts.path.as_str(), '/');
        let host = match parts.host {
            Some(h) => h,
            None => String::from_str("localhost"),
        };
        let port = match parts.port {
            Some(p) => p,
            None => DEFAULT_PORT,
        };
        HAClient { replication_id, timeout, token, host, port, use_tls, txseq: 0 }
    }

    /// The database the client addresses.
    pub fn replication_id(&self) -> (r: String)
        ensures
            r@ == self.spec_replication_id(),
    {
        String::from_str(self.replication_id.as_str())
    }

    /// Addresses another database.
    pub fn set_replication_id(&mut self, id: &str)
        ensures
            final(self).spec_replication_id() == id@,
            final(self).spec_txseq() == old(self).spec_txseq(),
            final(self).spec_token() == old(self).spec_token(),
    {
        self.replication_id = String::from_str(id);
    }

    /// The highest transaction sequence number seen in a response.
    pub fn txseq(&self) -> (r: i64)
        ensures
            r == self.spec_txseq(),
    {
        self.txseq
    }

    /// The server's host.
    pub fn host(&self) -> (r: &str)
        ensures
            r@ == self.spec_host(),
    {
        self.host.as_str()
    }

    /// The server's port.
    pub fn port(&self) -> (r: u16)
        ensures
            r == self.spec_port(),
    {
        self.port
    }

    /// Whether the transport uses TLS.
    pub fn use_tls(&self) -> (r: bool)
        ensures
            r == self.spec_use_tls(),
    {
        self.use_tls
    }

    /// The per-operation timeout in seconds.
    pub fn timeout(&self) -> (r: u64)
        ensures
            r == self.spec_timeout(),
    {
        self.timeout
    }

    /// The `authorization` header to send, when a token is configured:
    /// `Bearer ` followed by the token.
    pub fn authorization(&self) -> (r: Option<String>)
        ensures
            match self.spec_token() {
                Some(t) => r matches Some(h) && h@ == "Bearer "@ + t,
                None => r is None,
            },
    {
        match &self.token {
            Some(t) => Some(String::from_str("Bearer ").concat(t.as_str())),
            None => None,
        }
    }
}

/// `ps` carries `vs` in order: empty names, ordinals from one, and each
/// value's envelope.
pub open spec fn params_carry(ps: Seq<NamedValue>, vs: Seq<Value>) -> bool {
    &&& ps.len() == vs.len()
    &&& forall|i: int|
        0 <= i < ps.len() ==> {
            &&& (#[trigger] ps[i]).name@.len() == 0
            &&& ps[i].ordinal == i + 1
            &&& ps[i].value matches Some(e) && e@ == encode_spec(vs[i]@)
        }
}

/// Every value of every row decodes.
pub open spec fn rows_decodable(rows: Seq<WireRow>) -> bool {
    forall|i: int, j: int|
        0 <= i < rows.len() && 0 <= j < rows[i].values@.len() ==> (#[trigger] decode_spec(
            rows[i].values@[j].type_url@,
            rows[i].values@[j].value@,
        )) is Some
}

/// `out` holds the decoded values of `rows`, row by row.
pub open spec fn rows_decoded(out: Seq<Vec<Value>>, rows: Seq<WireRow>) -> bool {
    &&& out.len() == rows.len()
    &&& forall|i: int|
        0 <= i < rows.len() ==> {
            &&& (#[trigger] out[i])@.len() == rows[i].values@.len()
            &&& forall|j: int|
                0 <= j < out[i]@.len() ==> decode_spec(
                    rows[i].values@[j].type_url@,
                    rows[i].values@[j].value@,
                ) == Some((#[trigger] out[i]@[j])@)
        }
}

/// Views of a list of texts.
pub open spec fn texts(v: Seq<String>) -> Seq<Seq<char>> {
    v.map_values(|s: String| s@)
}

/// What a query's response yields: the server's error as `Query`, else the
/// decoded result set (`TypeConversion` when a value does not decode), or,
/// without a result set, only the rows affected.
pub open spec fn query_outcome(r: Result<ExecutionResult>, response: QueryResponse) -> bool {
    if response.error@.len() > 0 {
        r matches Err(Error::Query(m)) && m@ == response.error@
    } else {
        match response.result_set {
            None => (r matches Ok(res) && res.columns@.len() == 0 && res.rows@.len() == 0
                && res.rows_affected == response.rows_affected),
            Some(rs) => if rows_decodable(rs.rows@) {
                (r matches Ok(res) && texts(res.columns@) == texts(rs.columns@) && rows_decoded(
                    res.rows@,
                    rs.rows@,
                ) && res.rows_affected == response.rows_affected)
            } else {
                r matches Err(Error::TypeConversion(_))
            },
        }
    }
}

/// Decodes one wire row.
fn decode_row(row: &WireRow) -> (r: Result<Vec<Value>>)
    ensures
        match r {
            Ok(out) => out@.len() == row.values@.len() && forall|j: int|
                0 <= j < out@.len() ==> decode_spec(
                    row.values@[j].type_url@,
                    row.values@[j].value@,
                ) == Some((#[trigger] out@[j])@),
            Err(e) => e is TypeConversion && exists|j: int|
                0 <= j < row.values@.len() && (#[trigger] decode_spec(
                    row.values@[j].type_url@,
                    row.values@[j].value@,
                )) is None,
        },
{
    let mut out: Vec<Value> = Vec::new();
    let mut j: usize = 0;
    while j < row.values.len()
        invariant
            j <= row.values@.len(),
            out@.len() == j,
            forall|k: int|
                0 <= k < j ==> decode_spec(
                    row.values@[k].type_url@,
                    row.values@[k].value@,
                ) == Some((#[trigger] out@[k])@),
        decreases row.values@.len() - j,
    {
        match Value::from_any(&row.values[j]) {
            Ok(v) => out.push(v),
            Err(e) => return Err(e),
        }
        j = j + 1;
    }
    Ok(out)
}

/// Decodes a wire result set; `TypeConversion` when a value does not decode.
fn decode_result_set(rs: WireResultSet, rows_affected: i64) -> (r: Result<ExecutionResult>)
    ensures
        if rows_decodable(rs.rows@) {
            (r matches Ok(res) && texts(res.columns@) == texts(rs.columns@) && rows_decoded(
                res.rows@,
                rs.rows@,
            ) && res.rows_affected == rows_affected)
        } else {
            r matches Err(Error::TypeConversion(_))
        },
{
        let mut rows: Vec<Vec<Value>> = Vec::new();
        let mut i: usize = 0;
        while i < rs.rows.len()
            invariant
                i <= rs.rows@.len(),
                rows_decoded(rows@, rs.rows@.subrange(0, i as int)),
                rows_decodable(rs.rows@.subrange(0, i as int)),
            decreases rs.rows@.len() - i,
        {
            match decode_row(&rs.rows[i]) {
                Ok(row) => rows.push(row),
                Err(e) => {
                    assert(!rows_decodable(rs.rows@));
                    return Err(e);
                },
            }
            i = i + 1;
            assert(rs.rows@.subrange(0, i as int)[i - 1] == rs.rows@[i - 1]);
            assert forall|a: int, b: int|
                0 <= a < i && 0 <= b < rs.rows@.subrange(0, i as int)[a].values@.len()
                implies (#[trigger] decode_spec(
                rs.rows@.subrange(0, i as int)[a].values@[b].type_url@,
                rs.rows@.subrange(0, i as int)[a].values@[b].value@,
            )) is Some by {
                if a < i - 1 {
                    assert(rs.rows@.subrange(0, i as int)[a] == rs.rows@.subrange(
                        0,
                        i - 1,
                    )[a]);
                } else {
                    assert(rs.rows@.subrange(0, i as int)[a] == rs.rows@[a]);
                    let out_row = rows@[a];
                    assert(decode_spec(
                        rs.rows@[a].values@[b].type_url@,
                        rs.rows@[a].values@[b].value@,
                    ) == Some(out_row@[b]@));
                }
            }
        }
        assert(rs.rows@.subrange(0, i as int) =~= rs.rows@);
        Ok(
            ExecutionResult {
                columns: rs.columns,
                rows,
                rows_affected,
            },
        )
}

impl HAClient {
    /// The request that carries `sql` and `parameters` to the database the
    /// client addresses: parameter `i` gets ordinal `i + 1` and an empty name.
    pub fn build_request(&self, sql: &str, parameters: &[Value], query_type: QueryType) -> (r:
        QueryRequest)
        requires
            parameters@.len() < i64::MAX,
        ensures
            r.replication_id@ == self.spec_replication_id(),
            r.sql@ == sql@,
            r.query_type == query_type,
            params_carry(r.params@, parameters@),
    {
        let mut params: Vec<NamedValue> = Vec::new();
        let mut i: usize = 0;
        while i < parameters.len()
            invariant
                parameters@.len() < i64::MAX,
                i <= parameters@.len(),
                params_carry(params@, parameters@.subrange(0, i as int)),
            decreases parameters@.len() - i,
        {
            let nv = NamedValue {
                name: String::new(),
                ordinal: i as i64 + 1,
                value: Some(parameters[i].to_any()),
            };
            params.push(nv);
            i = i + 1;
            assert forall|k: int| 0 <= k < params@.len() implies {
                &&& (#[trigger] params@[k]).name@.len() == 0
                &&& params@[k].ordinal == k + 1
                &&& params@[k].value matches Some(e) && e@ == encode_spec(
                    parameters@.subrange(0, i as int)[k]@,
                )
            } by {
                if k < i - 1 {
                    assert(parameters@.subrange(0, i as int)[k] == parameters@.subrange(
                        0,
                        i - 1,
                    )[k]);
                } else {
                    assert(parameters@.subrange(0, i as int)[k] == parameters@[k]);
                    assert(params@[k] == nv);
                }
            }
        }
        assert(parameters@.subrange(0, i as int) =~= parameters@);
        QueryRequest {
            replication_id: String::from_str(self.replication_id.as_str()),
            sql: String::from_str(sql),
            query_type,
            params,
        }
    }

    /// Takes in a response: a server error fails with `Query`, carrying its
    /// text; otherwise the sequence number advances to the response's when
    /// that is higher, and the result set is decoded (`TypeConversion` when
    /// a value does not decode). Without a result set, the result carries
    /// only the rows affected.
    pub fn parse_response(&mut self, response: QueryResponse) -> (r: Result<ExecutionResult>)
        ensures
            query_outcome(r, response),
            final(self).spec_replication_id() == old(self).spec_replication_id(),
            final(self).spec_token() == old(self).spec_token(),
            final(self).spec_host() == old(self).spec_host(),
            final(self).spec_port() == old(self).spec_port(),
            final(self).spec_use_tls() == old(self).spec_use_tls(),
            final(self).spec_timeout() == old(self).spec_timeout(),
            response.error@.len() > 0 ==> final(self).spec_txseq() == old(self).spec_txseq()
                && (r matches Err(Error::Query(m)) && m@ == response.error@),
            response.error@.len() == 0 ==> final(self).spec_txseq() == advanced(
                old(self).spec_txseq(),
                response.txseq,
            ) && match response.result_set {
                None => (r matches Ok(res) && res.columns@.len() == 0 && res.rows@.len() == 0
                    && res.rows_affected == response.rows_affected),
                Some(rs) => if rows_decodable(rs.rows@) {
                    (r matches Ok(res) && texts(res.columns@) == texts(rs.columns@)
                        && rows_decoded(res.rows@, rs.rows@) && res.rows_affected
                        == response.rows_affected)
                } else {
                    r matches Err(Error::TypeConversion(_))
                },
            },
    {
        if response.error.as_str().unicode_len() > 0 {
            return Err(Error::Query(response.error));
        }
        self.observe_txseq(response.txseq);
        match response.result_set {
            None => Ok(
                ExecutionResult {
                    columns: Vec::new(),
                    rows: Vec::new(),
                    rows_affected: response.rows_affected,
                },
            ),
            Some(rs) => decode_result_set(rs, response.rows_affected),
        }
    }

    /// Takes in the response to an update: a server error fails with
    /// `Query`; otherwise the sequence number advances as for a query and
    /// the rows affected are returned.
    pub fn parse_update(&mut self, response: QueryResponse) -> (r: Result<i64>)
        ensures
            final(self).spec_replication_id() == old(self).spec_replication_id(),
            final(self).spec_token() == old(self).spec_token(),
            final(self).spec_host() == old(self).spec_host(),
            final(self).spec_port() == old(self).spec_port(),
            final(self).spec_use_tls() == old(self).spec_use_tls(),
            final(self).spec_timeout() == old(self).spec_timeout(),
            response.error@.len() > 0 ==> final(self).spec_txseq() == old(self).spec_txseq()
                && (r matches Err(Error::Query(m)) && m@ == response.error@),
            response.error@.len() == 0 ==> final(self).spec_txseq() == advanced(
                old(self).spec_txseq(),
                response.txseq,
            ) && r == Ok::<i64, Error>(response.rows_affected),
    {
        if response.error.as_str().unicode_len() > 0 {
            return Err(Error::Query(response.error));
        }
        self.observe_txseq(response.txseq);
        Ok(response.rows_affected)
    }

    /// Records a sequence number seen in a response; it never lowers the
    /// one recorded.
    pub fn observe_txseq(&mut self, seen: i64)
        ensures
            final(self).spec_txseq() == advanced(old(self).spec_txseq(), seen),
            final(self).spec_txseq() >= old(self).spec_txseq(),
            final(self).spec_replication_id() == old(self).spec_replication_id(),
            final(self).spec_token() == old(self).spec_token(),
            final(self).spec_host() == old(self).spec_host(),
            final(self).spec_port() == old(self).spec_port(),
            final(self).spec_use_tls() == old(self).spec_use_tls(),
            final(self).spec_timeout() == old(self).spec_timeout(),
    {
        if seen > 0 && seen > self.txseq {
            self.txseq = seen;
        }
    }
}

/// Whether a replica file must be fetched: when it is missing, or when
/// existing files are to be replaced.
pub fn needs_download(file_exists: bool, override_existing: bool) -> (r: bool)
    ensures
        r == (!file_exists || override_existing),
{
    !file_exists || override_existing
}

} // verus!
