use vstd::prelude::*;
use vstd::string::StringExecFns;

verus! {

/// The JavaScript runtime that runs the backend, by platform.
pub open spec fn runtime_command_for(windows: bool) -> Seq<char> {
    if windows {
        "node.exe"@
    } else {
        "node"@
    }
}

/// Name of the runtime executable; `windows` selects the Windows name.
pub fn runtime_command(windows: bool) -> (r: String)
    ensures
        r@ == runtime_command_for(windows),
{
    if windows {
        String::from_str("node.exe")
    } else {
        String::from_str("node")
    }
}

/// Environment given to a launched backend: production mode, and the port
/// the liveness endpoint is probed on.
pub fn launch_environment() -> (r: Vec<(String, String)>)
    ensures
        r@.len() == 3,
        r@[0].0@ == "NODE_ENV"@ && r@[0].1@ == "production"@,
        r@[1].0@ == "PORT"@ && r@[1].1@ == "3001"@,
        r@[2].0@ == "FRONTEND_URL"@ && r@[2].1@ == "http://localhost:3001"@,
{
    let mut env: Vec<(String, String)> = Vec::new();
    env.push((String::from_str("NODE_ENV"), String::from_str("production")));
    env.push((String::from_str("PORT"), String::from_str("3001")));
    env.push((String::from_str("FRONTEND_URL"), String::from_str("http://localhost:3001")));
    env
}

} // verus!
