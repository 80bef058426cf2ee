use vstd::prelude::*;

verus! {

/// The caller's authenticated session: bound to one account
/// identifier, and active until revoked.
pub struct Session {
    identifier: String,
    active: bool,
}

impl Session {
    /// The account the session is bound to.
    pub closed spec fn account_id(&self) -> Seq<char> {
        self.identifier@
    }

    /// Whether the session still authenticates its account.
    pub closed spec fn is_active(&self) -> bool {
        self.active
    }

    /// A fresh, active session for an account.
    pub fn new(identifier: String) -> (r: Session)
        ensures
            r.account_id() == identifier@,
            r.is_active(),
    {
        Session { identifier, active: true }
    }

    /// Whether the session still authenticates its account.
    pub fn active(&self) -> (r: bool)
        ensures
            r == self.is_active(),
    {
        self.active
    }

    /// Session invalidator: marks the session as no longer
    /// authenticated.  It exposes no failure mode; the workflow treats
    /// it as a best-effort, defence-in-depth step.
    pub fn revoke(&mut self)
        ensures
            !final(self).is_active(),
            final(self).account_id() == old(self).account_id(),
    {
        self.active = false;
    }
}

} // verus!
