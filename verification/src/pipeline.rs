//! The two operations, step by step.
//!
//! An operation is run by a driver that owns the connection. The driver
//! reports what happened last as an event, and is told the next step; it
//! starts with `Start` and stops at `Done`. The decisions are made here, on
//! the profile, the query and the event alone.

use crate::profile::{
    backend_kind_of, lemma_known_engines_are_told_apart, BackendKind, DatabaseConnection,
    ProfileView,
};
use crate::table::{
    column_views, describe, described, row_views, tabulate, tabulated, QueryResult, TableView,
};
use crate::wire::{ColumnDescriptor, ColumnView, RawRow, RawRowView};
use vstd::prelude::*;
use vstd::string::*;

verus! {

/// What the driver of a query reports.
#[derive(Clone, Debug)]
pub enum QueryEvent {
    /// Nothing has happened yet.
    Start,
    /// No TLS connector could be made; the text is the driver's error.
    TlsUnavailable(String),
    /// The connection could not be opened; the text is the driver's error.
    ConnectionFailed(String),
    /// The connection is open.
    Connected,
    /// The server rejected the statement; the text is the driver's error.
    QueryFailed(String),
    /// The statement ran and returned these rows.
    Rows(Vec<RawRow>),
    /// The statement could not be prepared; the text is the driver's error.
    PrepareFailed(String),
    /// The statement was prepared, and declares these columns.
    Prepared(Vec<ColumnDescriptor>),
}

/// A `QueryEvent` as contracts see it.
pub enum QueryEventView {
    Start,
    TlsUnavailable(Seq<char>),
    ConnectionFailed(Seq<char>),
    Connected,
    QueryFailed(Seq<char>),
    Rows(Seq<RawRowView>),
    PrepareFailed(Seq<char>),
    Prepared(Seq<ColumnView>),
}

impl View for QueryEvent {
    type V = QueryEventView;

    open spec fn view(&self) -> QueryEventView {
        match self {
            QueryEvent::Start => QueryEventView::Start,
            QueryEvent::TlsUnavailable(cause) => QueryEventView::TlsUnavailable(cause@),
            QueryEvent::ConnectionFailed(cause) => QueryEventView::ConnectionFailed(cause@),
            QueryEvent::Connected => QueryEventView::Connected,
            QueryEvent::QueryFailed(cause) => QueryEventView::QueryFailed(cause@),
            QueryEvent::Rows(rows) => QueryEventView::Rows(row_views(rows@)),
            QueryEvent::PrepareFailed(cause) => QueryEventView::PrepareFailed(cause@),
            QueryEvent::Prepared(columns) => QueryEventView::Prepared(column_views(columns@)),
        }
    }
}

/// What the driver of a query is to do next.
#[derive(Debug)]
pub enum QueryStep {
    /// Open an encrypted connection to this URI.
    Connect { uri: String },
    /// Run this statement as it stands, without parameters.
    Query { sql: String },
    /// Prepare this statement without running it, and report its columns.
    Prepare { sql: String },
    /// Stop: this is the outcome of the operation.
    Done(Result<QueryResult, String>),
}

/// A `QueryStep` as contracts see it.
pub enum QueryStepView {
    Connect { uri: Seq<char> },
    Query { sql: Seq<char> },
    Prepare { sql: Seq<char> },
    Done(Result<TableView, Seq<char>>),
}

impl View for QueryStep {
    type V = QueryStepView;

    open spec fn view(&self) -> QueryStepView {
        match self {
            QueryStep::Connect { uri } => QueryStepView::Connect { uri: uri@ },
            QueryStep::Query { sql } => QueryStepView::Query { sql: sql@ },
            QueryStep::Prepare { sql } => QueryStepView::Prepare { sql: sql@ },
            QueryStep::Done(Ok(table)) => QueryStepView::Done(Ok(table@)),
            QueryStep::Done(Err(message)) => QueryStepView::Done(Err(message@)),
        }
    }
}

/// What the driver of a connection test reports.
#[derive(Clone, Debug)]
pub enum ConnectionTestEvent {
    /// Nothing has happened yet.
    Start,
    /// No TLS connector could be made; the text is the driver's error.
    TlsUnavailable(String),
    /// The connection could not be opened; the text is the driver's error.
    ConnectionFailed(String),
    /// The connection is open.
    Connected,
    /// The server rejected the canary statement; the text is the driver's
    /// error.
    QueryFailed(String),
    /// The canary statement ran.
    QuerySucceeded,
}

/// A `ConnectionTestEvent` as contracts see it.
pub enum ConnectionTestEventView {
    Start,
    TlsUnavailable(Seq<char>),
    ConnectionFailed(Seq<char>),
    Connected,
    QueryFailed(Seq<char>),
    QuerySucceeded,
}

impl View for ConnectionTestEvent {
    type V = ConnectionTestEventView;

    open spec fn view(&self) -> ConnectionTestEventView {
        match self {
            ConnectionTestEvent::Start => ConnectionTestEventView::Start,
            ConnectionTestEvent::TlsUnavailable(cause) => ConnectionTestEventView::TlsUnavailable(
                cause@,
            ),
            ConnectionTestEvent::ConnectionFailed(cause) => {
                ConnectionTestEventView::ConnectionFailed(cause@)
            },
            ConnectionTestEvent::Connected => ConnectionTestEventView::Connected,
            ConnectionTestEvent::QueryFailed(cause) => ConnectionTestEventView::QueryFailed(cause@),
            ConnectionTestEvent::QuerySucceeded => ConnectionTestEventView::QuerySucceeded,
        }
    }
}

/// What the driver of a connection test is to do next.
#[derive(Debug)]
pub enum ConnectionTestStep {
    /// Open an encrypted connection to this URI.
    Connect { uri: String },
    /// Run this statement and discard what it returns.
    Query { sql: String },
    /// Stop: this is the outcome of the operation, a confirmation or a
    /// diagnostic. A connection test returns no data.
    Done(Result<String, String>),
}

/// A `ConnectionTestStep` as contracts see it.
pub enum ConnectionTestStepView {
    Connect { uri: Seq<char> },
    Query { sql: Seq<char> },
    Done(Result<Seq<char>, Seq<char>>),
}

impl View for ConnectionTestStep {
    type V = ConnectionTestStepView;

    open spec fn view(&self) -> ConnectionTestStepView {
        match self {
            ConnectionTestStep::Connect { uri } => ConnectionTestStepView::Connect { uri: uri@ },
            ConnectionTestStep::Query { sql } => ConnectionTestStepView::Query { sql: sql@ },
            ConnectionTestStep::Done(Ok(confirmation)) => ConnectionTestStepView::Done(
                Ok(confirmation@),
            ),
            ConnectionTestStep::Done(Err(message)) => ConnectionTestStepView::Done(Err(message@)),
        }
    }
}

/// The message for an engine that is known and cannot be reached yet: the
/// name of the engine, the operation that was asked for, and that it is not
/// implemented yet.
pub open spec fn not_implemented_yet(engine: Seq<char>, operation: Seq<char>) -> Seq<char> {
    engine + " "@ + operation + " not implemented yet"@
}

/// The next step of a query.
///
/// A profile of an engine that cannot be reached ends the operation at once,
/// whatever the event. For PostgreSQL the driver connects, runs the query as
/// given, and the rows become the table; where the statement returned no row,
/// it is prepared to learn its columns. Every failure that the driver reports
/// ends the operation with a message that holds the driver's error.
pub open spec fn query_step_of(
    profile: ProfileView,
    query: Seq<char>,
    event: QueryEventView,
) -> QueryStepView {
    match backend_kind_of(profile.database_type) {
        BackendKind::Unsupported => QueryStepView::Done(Err("Unsupported database type"@)),
        BackendKind::Mysql => QueryStepView::Done(
            Err(not_implemented_yet("MySQL"@, "query execution"@)),
        ),
        BackendKind::Sqlite => QueryStepView::Done(
            Err(not_implemented_yet("SQLite"@, "query execution"@)),
        ),
        BackendKind::Postgres => match event {
            QueryEventView::Start => QueryStepView::Connect { uri: profile.database_uri },
            QueryEventView::TlsUnavailable(cause) => QueryStepView::Done(
                Err("Failed to create TLS connector: "@ + cause),
            ),
            QueryEventView::ConnectionFailed(cause) => QueryStepView::Done(
                Err("Postgres connection failed: "@ + cause),
            ),
            QueryEventView::Connected => QueryStepView::Query { sql: query },
            QueryEventView::QueryFailed(cause) => QueryStepView::Done(
                Err("Postgres query failed: "@ + cause),
            ),
            QueryEventView::Rows(rows) => if rows.len() == 0 {
                QueryStepView::Prepare { sql: query }
            } else {
                QueryStepView::Done(Ok(tabulated(rows)))
            },
            QueryEventView::PrepareFailed(cause) => QueryStepView::Done(
                Err("Failed to prepare statement to get columns: "@ + cause),
            ),
            QueryEventView::Prepared(columns) => QueryStepView::Done(Ok(described(columns))),
        },
    }
}

/// The next step of a connection test.
///
/// A profile of an engine that cannot be reached ends the operation at once,
/// whatever the event. For PostgreSQL the driver connects and runs the canary
/// statement `SELECT 1`; the outcome is a fixed confirmation, or a message
/// that holds the driver's error.
pub open spec fn connection_test_step_of(
    profile: ProfileView,
    event: ConnectionTestEventView,
) -> ConnectionTestStepView {
    match backend_kind_of(profile.database_type) {
        BackendKind::Unsupported => ConnectionTestStepView::Done(
            Err("Unsupported database type"@),
        ),
        BackendKind::Mysql => ConnectionTestStepView::Done(
            Err(not_implemented_yet("MySQL"@, "connection test"@)),
        ),
        BackendKind::Sqlite => ConnectionTestStepView::Done(
            Err(not_implemented_yet("SQLite"@, "connection test"@)),
        ),
        BackendKind::Postgres => match event {
            ConnectionTestEventView::Start => ConnectionTestStepView::Connect {
                uri: profile.database_uri,
            },
            ConnectionTestEventView::TlsUnavailable(cause) => ConnectionTestStepView::Done(
                Err("Failed to create TLS connector: "@ + cause),
            ),
            ConnectionTestEventView::ConnectionFailed(cause) => ConnectionTestStepView::Done(
                Err("Postgres connection failed: "@ + cause),
            ),
            ConnectionTestEventView::Connected => ConnectionTestStepView::Query {
                sql: "SELECT 1"@,
            },
            ConnectionTestEventView::QueryFailed(cause) => ConnectionTestStepView::Done(
                Err("Postgres query failed: "@ + cause),
            ),
            ConnectionTestEventView::QuerySucceeded => ConnectionTestStepView::Done(
                Ok("Postgres connection successful!"@),
            ),
        },
    }
}

/// A profile that names no known engine is refused by both operations with
/// the same message, whatever the driver reports.
pub proof fn lemma_unknown_engine_is_refused(
    profile: ProfileView,
    query: Seq<char>,
    query_event: QueryEventView,
    test_event: ConnectionTestEventView,
)
    requires
        profile.database_type != "postgres"@,
        profile.database_type != "mysql"@,
        profile.database_type != "sqlite"@,
    ensures
        query_step_of(profile, query, query_event) == QueryStepView::Done(
            Err("Unsupported database type"@),
        ),
        connection_test_step_of(profile, test_event) == ConnectionTestStepView::Done(
            Err("Unsupported database type"@),
        ),
{
}

/// A profile for MySQL or SQLite is answered by both operations with a
/// message that names the engine and says that the operation is not
/// implemented yet, whatever the driver reports.
pub proof fn lemma_engine_without_adapter_is_named(
    profile: ProfileView,
    query: Seq<char>,
    query_event: QueryEventView,
    test_event: ConnectionTestEventView,
)
    requires
        profile.database_type == "mysql"@ || profile.database_type == "sqlite"@,
    ensures
        profile.database_type == "mysql"@ ==> query_step_of(profile, query, query_event)
            == QueryStepView::Done(Err(not_implemented_yet("MySQL"@, "query execution"@)))
            && connection_test_step_of(profile, test_event) == ConnectionTestStepView::Done(
            Err(not_implemented_yet("MySQL"@, "connection test"@)),
        ),
        profile.database_type == "sqlite"@ ==> query_step_of(profile, query, query_event)
            == QueryStepView::Done(Err(not_implemented_yet("SQLite"@, "query execution"@)))
            && connection_test_step_of(profile, test_event) == ConnectionTestStepView::Done(
            Err(not_implemented_yet("SQLite"@, "connection test"@)),
        ),
{
    lemma_known_engines_are_told_apart();
}

/// A connection test whose canary statement ran ends with the fixed
/// confirmation.
pub proof fn lemma_successful_test_is_confirmed(profile: ProfileView)
    requires
        profile.database_type == "postgres"@,
    ensures
        connection_test_step_of(profile, ConnectionTestEventView::QuerySucceeded)
            == ConnectionTestStepView::Done(Ok("Postgres connection successful!"@)),
{
}

/// A statement that returned no row is prepared to learn its columns, and
/// the table is then made of the names of the declared columns, in their
/// order, and no row.
pub proof fn lemma_empty_result_keeps_its_columns(
    profile: ProfileView,
    query: Seq<char>,
    columns: Seq<ColumnView>,
)
    requires
        profile.database_type == "postgres"@,
    ensures
        query_step_of(profile, query, QueryEventView::Rows(Seq::empty()))
            == (QueryStepView::Prepare { sql: query }),
        query_step_of(profile, query, QueryEventView::Prepared(columns))
            matches QueryStepView::Done(Ok(table)) && table.rows.len() == 0
            && table.columns.len() == columns.len() && (forall|i: int|
            0 <= i < columns.len() ==> table.columns[i] == columns[i].name),
{
}

/// Every table that a query ends with is rectangular: each of its rows has
/// one display string for each column.
pub proof fn lemma_every_table_is_rectangular(
    profile: ProfileView,
    query: Seq<char>,
    event: QueryEventView,
)
    ensures
        query_step_of(profile, query, event) matches QueryStepView::Done(Ok(table))
            ==> table.rectangular(),
{
}

/// A step depends on what the profile, the query and the event hold, and on
/// nothing else: the same query, run twice with the same reports from the
/// driver, takes the same steps and ends with the same table.
pub proof fn lemma_steps_are_repeatable(
    first_profile: DatabaseConnection,
    second_profile: DatabaseConnection,
    first_query: &str,
    second_query: &str,
    first_event: QueryEvent,
    second_event: QueryEvent,
)
    requires
        first_profile@ == second_profile@,
        first_query@ == second_query@,
        first_event@ == second_event@,
    ensures
        query_step_of(first_profile@, first_query@, first_event@) == query_step_of(
            second_profile@,
            second_query@,
            second_event@,
        ),
{
}

fn not_implemented(engine: &str, operation: &str) -> (message: String)
    ensures
        message@ == not_implemented_yet(engine@, operation@),
{
    let mut message = String::from_str(engine);
    message.append(" ");
    message.append(operation);
    message.append(" not implemented yet");
    message
}

fn failure(prefix: &str, cause: &str) -> (message: String)
    ensures
        message@ == prefix@ + cause@,
{
    let mut message = String::from_str(prefix);
    message.append(cause);
    message
}

/// Decides the next step of a query from what the driver reports.
pub fn query_step(profile: &DatabaseConnection, query: &str, event: QueryEvent) -> (step: QueryStep)
    ensures
        step@ == query_step_of(profile@, query@, event@),
        step matches QueryStep::Done(Ok(table)) ==> table@.rectangular(),
{
    match profile.backend_kind() {
        BackendKind::Unsupported => QueryStep::Done(
            Err(String::from_str("Unsupported database type")),
        ),
        BackendKind::Mysql => QueryStep::Done(Err(not_implemented("MySQL", "query execution"))),
        BackendKind::Sqlite => QueryStep::Done(Err(not_implemented("SQLite", "query execution"))),
        BackendKind::Postgres => match event {
            QueryEvent::Start => QueryStep::Connect { uri: profile.database_uri.clone() },
            QueryEvent::TlsUnavailable(cause) => QueryStep::Done(
                Err(failure("Failed to create TLS connector: ", cause.as_str())),
            ),
            QueryEvent::ConnectionFailed(cause) => QueryStep::Done(
                Err(failure("Postgres connection failed: ", cause.as_str())),
            ),
            QueryEvent::Connected => QueryStep::Query { sql: String::from_str(query) },
            QueryEvent::QueryFailed(cause) => QueryStep::Done(
                Err(failure("Postgres query failed: ", cause.as_str())),
            ),
            QueryEvent::Rows(rows) => if rows.len() == 0 {
                QueryStep::Prepare { sql: String::from_str(query) }
            } else {
                QueryStep::Done(Ok(tabulate(&rows)))
            },
            QueryEvent::PrepareFailed(cause) => QueryStep::Done(
                Err(failure("Failed to prepare statement to get columns: ", cause.as_str())),
            ),
            QueryEvent::Prepared(columns) => QueryStep::Done(Ok(describe(&columns))),
        },
    }
}

/// Decides the next step of a connection test from what the driver reports.
pub fn connection_test_step(profile: &DatabaseConnection, event: ConnectionTestEvent) -> (step:
    ConnectionTestStep)
    ensures
        step@ == connection_test_step_of(profile@, event@),
{
    match profile.backend_kind() {
        BackendKind::Unsupported => ConnectionTestStep::Done(
            Err(String::from_str("Unsupported database type")),
        ),
        BackendKind::Mysql => ConnectionTestStep::Done(
            Err(not_implemented("MySQL", "connection test")),
        ),
        BackendKind::Sqlite => ConnectionTestStep::Done(
            Err(not_implemented("SQLite", "connection test")),
        ),
        BackendKind::Postgres => match event {
            ConnectionTestEvent::Start => ConnectionTestStep::Connect {
                uri: profile.database_uri.clone(),
            },
            ConnectionTestEvent::TlsUnavailable(cause) => ConnectionTestStep::Done(
                Err(failure("Failed to create TLS connector: ", cause.as_str())),
            ),
            ConnectionTestEvent::ConnectionFailed(cause) => ConnectionTestStep::Done(
                Err(failure("Postgres connection failed: ", cause.as_str())),
            ),
            ConnectionTestEvent::Connected => ConnectionTestStep::Query {
                sql: String::from_str("SELECT 1"),
            },
            ConnectionTestEvent::QueryFailed(cause) => ConnectionTestStep::Done(
                Err(failure("Postgres query failed: ", cause.as_str())),
            ),
            ConnectionTestEvent::QuerySucceeded => ConnectionTestStep::Done(
                Ok(String::from_str("Postgres connection successful!")),
            ),
        },
    }
}

} // verus!
