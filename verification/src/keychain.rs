//! Storage for the Pinboard API token in the macOS Keychain.
//!
//! The token used to sit in plaintext in `settings.json` inside the
//! workflow's data directory. The Keychain is encrypted at rest and
//! access-controlled by macOS, and a token stored there is not carried along
//! when the workflow is exported or synced. The Keychain is reached through
//! `security(1)`: this module builds its arguments and reads its replies.

use vstd::prelude::*;
use vstd::string::*;

use crate::command::{trimmed_output, utf8_lossy, CommandOutput};
use crate::error::AlfredError;
use crate::text::{lemma_trim_idempotent, trim};

verus! {

/// Account name for the Keychain item. The *service* is the workflow's
/// bundle id, so a token cannot be confused with another workflow's.
pub open spec fn account_text() -> Seq<char> {
    "pinboard-api-token"@
}

/// The texts of some arguments.
pub open spec fn arg_texts(args: Seq<String>) -> Seq<Seq<char>> {
    args.map_values(|a: String| a@)
}

/// The arguments of `security` that read the token of `service`.
pub open spec fn get_args_text(service: Seq<char>) -> Seq<Seq<char>> {
    seq!["find-generic-password"@, "-s"@, service, "-a"@, account_text(), "-w"@]
}

/// The arguments of `security` that store `token` for `service`, replacing
/// any item already there.
pub open spec fn set_args_text(service: Seq<char>, token: Seq<char>) -> Seq<Seq<char>> {
    seq![
        "add-generic-password"@,
        "-U"@,
        "-s"@,
        service,
        "-a"@,
        account_text(),
        "-D"@,
        "application password"@,
        "-j"@,
        "Pinboard API token used by the Alfred Pinboard workflow"@,
        "-w"@,
        token,
    ]
}

/// What `get` reads from the reply of `security` (`None` where it could not
/// be run): nothing where it failed or printed only whitespace, else what it
/// printed, trimmed.
pub open spec fn token_from_reply(output: Option<CommandOutput>) -> Option<Seq<char>> {
    match output {
        None => None,
        Some(out) => if !out.success {
            None
        } else if trim(utf8_lossy(out.stdout@)).len() == 0 {
            None
        } else {
            Some(trim(utf8_lossy(out.stdout@)))
        },
    }
}

/// The Keychain service of the workflow: its bundle id, which Alfred hands
/// over (`None` where it did not).
pub fn service(bundle_id: Option<String>) -> (r: Result<String, AlfredError>)
    ensures
        match bundle_id {
            Some(b) => r == Ok::<String, AlfredError>(b),
            None => r == Err::<String, AlfredError>(AlfredError::MissingBundleId),
        },
{
    match bundle_id {
        Some(b) => Ok(b),
        None => Err(AlfredError::MissingBundleId),
    }
}

/// The arguments of `security` that read the token of `service`.
pub fn get_args(service: &str) -> (r: Vec<String>)
    ensures
        arg_texts(r@) == get_args_text(service@),
{
    let r = vec![
        String::from_str("find-generic-password"),
        String::from_str("-s"),
        String::from_str(service),
        String::from_str("-a"),
        String::from_str("pinboard-api-token"),
        String::from_str("-w"),
    ];
    assert(arg_texts(r@) =~= get_args_text(service@));
    r
}

/// The arguments of `security` that store `token` for `service`. `-U`
/// updates an existing item in place instead of failing.
pub fn set_args(service: &str, token: &str) -> (r: Vec<String>)
    ensures
        arg_texts(r@) == set_args_text(service@, token@),
{
    let r = vec![
        String::from_str("add-generic-password"),
        String::from_str("-U"),
        String::from_str("-s"),
        String::from_str(service),
        String::from_str("-a"),
        String::from_str("pinboard-api-token"),
        String::from_str("-D"),
        String::from_str("application password"),
        String::from_str("-j"),
        String::from_str("Pinboard API token used by the Alfred Pinboard workflow"),
        String::from_str("-w"),
        String::from_str(token),
    ];
    assert(arg_texts(r@) =~= set_args_text(service@, token@));
    r
}

/// Read the token from the reply of `security` (`None` where there is no
/// service or the command could not be run). `None` means "no item
/// stored", which is not an error: it is simply the state before the user
/// has run `pa`.
pub fn get(output: Option<CommandOutput>) -> (r: Option<String>)
    ensures
        match r {
            Some(t) => token_from_reply(output) == Some(t@),
            None => token_from_reply(output) is None,
        },
{
    match output {
        None => None,
        Some(out) => {
            if !out.success {
                return None;
            }
            let token = trimmed_output(out.stdout.as_slice());
            if token.as_str().is_empty() {
                None
            } else {
                Some(token)
            }
        },
    }
}

/// The outcome of storing the token, from the reply of `security`, or the
/// message of the error that kept it from running.
pub fn set(output: Result<CommandOutput, String>) -> (r: Result<(), AlfredError>)
    ensures
        match output {
            Err(msg) => r == Err::<(), AlfredError>(AlfredError::KeychainError(msg)),
            Ok(out) => if out.success {
                r is Ok
            } else {
                r matches Err(AlfredError::KeychainError(m)) && m@ == trim(utf8_lossy(out.stderr@))
            },
        },
{
    match output {
        Err(msg) => Err(AlfredError::KeychainError(msg)),
        Ok(out) => if out.success {
            Ok(())
        } else {
            Err(AlfredError::KeychainError(trimmed_output(out.stderr.as_slice())))
        },
    }
}

/// A token read from the Keychain is never empty and carries no surrounding
/// whitespace.
pub proof fn law_token_is_trimmed(output: Option<CommandOutput>)
    ensures
        token_from_reply(output) matches Some(t) ==> t.len() > 0 && trim(t) == t,
{
    if let Some(out) = output {
        lemma_trim_idempotent(utf8_lossy(out.stdout@));
    }
}

} // verus!
