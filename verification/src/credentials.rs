//! Choosing a credential for a transport request. The transport asks
//! with the kinds it accepts and perhaps a username; the library
//! answers with what to supply, and the host builds the actual
//! credential (the SSH key comes from the caller's key path, with no
//! passphrase).

use vstd::prelude::*;

verus! {

/// The answer to one credential request.
#[derive(Debug)]
pub enum CredentialChoice {
    /// Supply the caller's SSH private key for this username.
    SshKey { username: String },
    /// Supply the username alone.
    UsernameOnly { username: String },
    /// No usable credential kind was offered; the request fails.
    Declined,
}

/// The username a request is answered with: the one the transport
/// handed over, or `"git"` when it handed none.
pub open spec fn spec_username_or_default(username: Option<&str>) -> Seq<char> {
    match username {
        Some(u) => u@,
        None => "git"@,
    }
}

/// Decide one credential request. SSH key requests (from file or in
/// memory) win over username-only requests; anything else is declined.
pub fn choose_credential(
    username: Option<&str>,
    is_ssh_key: bool,
    is_ssh_memory: bool,
    is_username: bool,
) -> (c: CredentialChoice)
    ensures
        is_ssh_key || is_ssh_memory ==> (c matches CredentialChoice::SshKey { username: u } && u@
            == spec_username_or_default(username)),
        !(is_ssh_key || is_ssh_memory) && is_username ==> (c matches CredentialChoice::UsernameOnly {
            username: u,
        } && u@ == spec_username_or_default(username)),
        !(is_ssh_key || is_ssh_memory) && !is_username ==> (c matches CredentialChoice::Declined),
{
    let u: String = match username {
        Some(s) => s.to_owned(),
        None => "git".to_owned(),
    };
    if is_ssh_key || is_ssh_memory {
        CredentialChoice::SshKey { username: u }
    } else if is_username {
        CredentialChoice::UsernameOnly { username: u }
    } else {
        CredentialChoice::Declined
    }
}

} // verus!
