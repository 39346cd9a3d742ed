//! A model of the per-connection session state the driver tracks: the
//! active database and the liveness flag. The embedding application mirrors
//! the outcome of each driver operation into this model; the validation
//! decision is verified against it.

use vstd::prelude::*;

verus! {

/// What a session looks like in specifications: its active database and
/// whether the underlying network connection is still up.
pub ghost struct SessionView {
    pub active_database: Seq<char>,
    pub connected: bool,
}

/// The session-level state of one connection handle, as the adapter cares
/// about it. Exactly one owner drives it between checkout and release.
pub struct SessionState {
    /// The database currently active on this connection.
    pub active_database: String,
    /// The driver's liveness flag: false once the network connection has
    /// been severed.
    pub connected: bool,
}

impl View for SessionState {
    type V = SessionView;

    open spec fn view(&self) -> SessionView {
        SessionView { active_database: self.active_database@, connected: self.connected }
    }
}

impl SessionState {
    /// Records that a statement executed on this connection switched the
    /// active database to `db` — the session-level mutation a prior user of
    /// a pooled connection may leave behind.
    pub fn record_database_switch(&mut self, db: &str)
        ensures
            final(self)@.active_database == db@,
            final(self)@.connected == old(self)@.connected,
    {
        self.active_database = db.to_owned();
    }

    /// Records that the underlying network connection has been severed.
    pub fn sever(&mut self)
        ensures
            final(self)@.active_database == old(self)@.active_database,
            final(self)@.connected == false,
    {
        self.connected = false;
    }

    /// The database currently active on this connection, as a fresh
    /// `String`.
    pub fn current_database(&self) -> (r: String)
        ensures
            r@ == self@.active_database,
    {
        self.active_database.clone()
    }
}

} // verus!
