//! The connection manager: immutable configuration and the validation
//! decision a pool applies to every connection it hands out.

use vstd::prelude::*;
use vstd::string::StringExecFns;
use crate::session::SessionState;
use crate::session::SessionView;

verus! {

/// The name of the database a server selects for a session when the
/// configuration names none.
pub open spec fn spec_default_database() -> Seq<char> {
    "master"@
}

/// Immutable connection configuration: everything needed to open a new
/// driver connection and to re-normalize a pooled one. Built once when the
/// pool is constructed and never mutated afterwards.
#[derive(Debug, Clone)]
pub struct ConnectionConfig {
    /// Server address, as `host:port`.
    pub server_name: String,
    /// Login name presented to the server.
    pub username: String,
    /// Password presented to the server.
    pub password: String,
    /// The database every pooled connection must have active; `None` leaves
    /// the server default in force.
    pub database: Option<String>,
}

/// The database a connection created from configuration `c` must have
/// active: the configured one, or the server default when none is named.
pub open spec fn spec_target_database(c: ConnectionConfig) -> Seq<char> {
    match c.database {
        Some(d) => d@,
        None => spec_default_database(),
    }
}

/// The text of the statement that switches a session's active database
/// to `db`.
pub open spec fn spec_use_statement(db: Seq<char>) -> Seq<char> {
    "use "@ + db
}

/// The session state after a manager whose target database is `target` has
/// validated a session in state `s`: the target database is active and the
/// liveness flag is untouched.
pub open spec fn spec_validated(target: Seq<char>, s: SessionView) -> SessionView {
    SessionView { active_database: target, connected: s.connected }
}

/// Whether validating a session in state `s` against target database
/// `target` issues a statement: only when some other database is active.
pub open spec fn spec_validate_issues(target: Seq<char>, s: SessionView) -> bool {
    s.active_database != target
}

/// Creates and validates driver connections on a pool's behalf.
///
/// The manager itself is stateless beyond its configuration, so a pool may
/// share it read-only across threads; every operation works on the handle
/// passed to it.
#[derive(Debug, Clone)]
pub struct FreetdsConnectionManager {
    config: ConnectionConfig,
}

impl FreetdsConnectionManager {
    /// The configuration this manager was built with.
    pub closed spec fn spec_config(&self) -> ConnectionConfig {
        self.config
    }

    /// The database this manager keeps active on every connection.
    pub open spec fn spec_target(&self) -> Seq<char> {
        spec_target_database(self.spec_config())
    }

    pub fn new(config: ConnectionConfig) -> (m: Self)
        ensures
            m.spec_config() == config,
    {
        Self { config }
    }

    /// The database every connection must have active, as a fresh `String`.
    pub fn target_database(&self) -> (r: String)
        ensures
            r@ == self.spec_target(),
    {
        match &self.config.database {
            Some(d) => d.clone(),
            None => "master".to_owned(),
        }
    }

    /// Whether a connection whose active database is `current_db` needs a
    /// `use` statement before it can be handed out.
    pub fn needs_switch(&self, current_db: &String) -> (r: bool)
        ensures
            r == (current_db@ != self.spec_target()),
    {
        let want = self.target_database();
        !(want == *current_db)
    }

    /// The session a successful connect establishes: the configured target
    /// database is active and the connection is live.
    pub fn create_session(&self) -> (s: SessionState)
        ensures
            s@.active_database == self.spec_target(),
            s@.connected == true,
    {
        SessionState { active_database: self.target_database(), connected: true }
    }

    /// Re-normalizes a pooled session before reuse: if a database other
    /// than the target is active, switches back to the target and returns
    /// the `use` statement the caller must execute on the live connection;
    /// otherwise touches nothing and returns `None`.
    pub fn validate(&self, session: &mut SessionState) -> (stmt: Option<String>)
        ensures
            final(session)@ == spec_validated(self.spec_target(), old(session)@),
            stmt is Some <==> spec_validate_issues(self.spec_target(), old(session)@),
            stmt matches Some(s) ==> s@ == spec_use_statement(self.spec_target()),
    {
        let current = session.current_database();
        if self.needs_switch(&current) {
            let want = self.target_database();
            let stmt = "use ".to_owned().concat(want.as_str());
            session.active_database = want;
            Some(stmt)
        } else {
            None
        }
    }

    /// Whether the pool must discard this handle: true exactly when the
    /// underlying network connection is no longer live.
    pub fn has_broken(&self, session: &SessionState) -> (r: bool)
        ensures
            r == !session@.connected,
    {
        !session.connected
    }
}

/// Validation is idempotent: a second validation with no intervening
/// external change finds the target database already active, issues no
/// statement, and leaves the session exactly as the first left it.
pub proof fn lemma_validate_idempotent(m: FreetdsConnectionManager, s: SessionView)
    ensures
        spec_validated(m.spec_target(), spec_validated(m.spec_target(), s))
            == spec_validated(m.spec_target(), s),
        !spec_validate_issues(m.spec_target(), spec_validated(m.spec_target(), s)),
{
}

/// Whatever database an earlier user of a pooled connection left active,
/// validation restores the configured target, and does not touch the
/// liveness flag.
pub proof fn lemma_validate_restores(m: FreetdsConnectionManager, s: SessionView)
    ensures
        spec_validated(m.spec_target(), s).active_database == m.spec_target(),
        spec_validated(m.spec_target(), s).connected == s.connected,
{
}

} // verus!
