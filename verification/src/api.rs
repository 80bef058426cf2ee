use vstd::prelude::*;

verus! {

/// Route table of the account service: the paths under which the
/// account operations are served.
pub struct Account {
    pub delete: &'static str,
    pub email_exists: &'static str,
    pub update_email: &'static str,
    pub username_exists: &'static str,
}

impl Account {
    pub fn new() -> (r: Account)
        ensures
            r.delete@ == "/api/v1/account/delete"@,
            r.email_exists@ == "/api/v1/account/email/exists"@,
            r.update_email@ == "/api/v1/account/email/update"@,
            r.username_exists@ == "/api/v1/account/username/exists"@,
    {
        let delete = "/api/v1/account/delete";
        let email_exists = "/api/v1/account/email/exists";
        let username_exists = "/api/v1/account/username/exists";
        let update_email = "/api/v1/account/email/update";
        Account { delete, email_exists, update_email, username_exists }
    }
}

/// Request body for the account-detail existence checks.
pub struct AccountCheckPayload {
    pub val: String,
}

/// Response body for the account-detail existence checks.
pub struct AccountCheckResp {
    pub exists: bool,
}

} // verus!
