//! Data model of the engine session: startup configuration, the
//! asynchronous deployment result, and the session error taxonomy.

use vstd::prelude::*;

verus! {

/// Result of the engine's asynchronous deployment, resolved from its
/// notification channel and polled at startup.
#[derive(Clone, Copy, Debug, PartialEq, Eq, Structural)]
pub enum DeployResult {
    /// No deployment notification has arrived yet.
    Init,
    Success,
    Failure,
}

/// Engine startup configuration: where shared schema data and per-user
/// data live.
#[derive(Debug)]
pub struct Config {
    pub shared_data_dir: String,
    pub user_data_dir: String,
}

/// Errors of the engine session protocol.
#[derive(Clone, Copy, Debug, PartialEq, Eq, Structural)]
pub enum RimeError {
    /// The engine refused to process a key event.
    ProcessKey,
    /// The session could not be closed.
    CloseSession,
    /// No session exists to act on.
    SessionNotExists,
}

impl RimeError {
    /// A short diagnostic name for the error.
    pub fn message(&self) -> (m: String)
        ensures
            *self is ProcessKey ==> m@ == "ProcessKey"@,
            *self is CloseSession ==> m@ == "CloseSession"@,
            *self is SessionNotExists ==> m@ == "SessionNotExists"@,
    {
        match self {
            RimeError::ProcessKey => {
                let s: &str = "ProcessKey";
                s.to_owned()
            },
            RimeError::CloseSession => {
                let s: &str = "CloseSession";
                s.to_owned()
            },
            RimeError::SessionNotExists => {
                let s: &str = "SessionNotExists";
                s.to_owned()
            },
        }
    }
}

/// The deployment result after one notification message: a "deploy"
/// message whose value is "success" or "failure" settles it; every
/// other message leaves it as it was.
pub open spec fn spec_deploy_result_after(
    current: DeployResult,
    message_type: Seq<char>,
    message_value: Seq<char>,
) -> DeployResult {
    if message_type == "deploy"@ {
        if message_value == "success"@ {
            DeployResult::Success
        } else if message_value == "failure"@ {
            DeployResult::Failure
        } else {
            current
        }
    } else {
        current
    }
}

/// Applies one notification message to the deployment result.
pub fn deploy_result_after(
    current: DeployResult,
    message_type: &String,
    message_value: &String,
) -> (r: DeployResult)
    ensures
        r == spec_deploy_result_after(current, message_type@, message_value@),
{
    let deploy: String = {
        let s: &str = "deploy";
        s.to_owned()
    };
    let success: String = {
        let s: &str = "success";
        s.to_owned()
    };
    let failure: String = {
        let s: &str = "failure";
        s.to_owned()
    };
    if *message_type == deploy {
        if *message_value == success {
            DeployResult::Success
        } else if *message_value == failure {
            DeployResult::Failure
        } else {
            current
        }
    } else {
        current
    }
}

/// Whether the startup poll may stop waiting: the deployment result is
/// settled once it has left `Init`, and it is never polled again after.
pub fn deploy_settled(r: DeployResult) -> (b: bool)
    ensures
        b == !(r is Init),
{
    match r {
        DeployResult::Init => false,
        DeployResult::Success => true,
        DeployResult::Failure => true,
    }
}

/// Default directory that holds the engine's shared schema data on Linux.
pub fn get_shared_data_dir() -> (dir: String)
    ensures
        dir@ == "/usr/share/rime-data/"@,
{
    let s: &str = "/usr/share/rime-data/";
    s.to_owned()
}

/// The per-user engine data directory derived from a home directory:
/// the standard per-user path below it, or empty when no home is known.
pub open spec fn spec_user_data_dir(home: Option<String>) -> Seq<char> {
    match home {
        None => Seq::<char>::empty(),
        Some(h) => h@ + "/.local/share/fcitx5/rime"@,
    }
}

/// Builds the per-user engine data directory from a home directory.
pub fn user_data_dir_from(home: Option<String>) -> (dir: String)
    ensures
        dir@ == spec_user_data_dir(home),
{
    match home {
        None => String::new(),
        Some(h) => {
            let mut dir = h;
            dir.append("/.local/share/fcitx5/rime");
            dir
        },
    }
}

/// Relies on `home::home_dir`: the user's home directory as the
/// platform reports it, if one is known. The answer depends on the
/// process environment, so nothing more is promised of it.
#[verifier::external_body]
fn query_home_dir() -> (r: Option<String>) {
    home::home_dir().map(|p| p.to_string_lossy().to_string())
}

/// The per-user engine data directory of the user this process runs as:
/// the standard path under the home directory the platform reports, or
/// empty when it reports none.
pub fn get_user_data_dir() -> (dir: String)
    ensures
        exists|h: Option<String>| dir@ == spec_user_data_dir(h),
{
    let home = query_home_dir();
    let ghost h = home;
    let dir = user_data_dir_from(home);
    proof {
        assert(dir@ == spec_user_data_dir(h));
    }
    dir
}

} // verus!
