//! The checks on a command's arguments before any process is started, and
//! the texts that such commands answer with.

use vstd::prelude::*;
use crate::text::{trim_text, trimmed_of};

verus! {

/// `s` holds nothing but whitespace.
pub open spec fn blank(s: Seq<char>) -> bool {
    trimmed_of(s).len() == 0
}

/// Whether `s` holds nothing but whitespace.
pub fn is_blank(s: &str) -> (r: bool)
    ensures
        r == blank(s@),
{
    trim_text(s).unicode_len() == 0
}

/// Checks a scaffolding request: the command, then the workspace, must hold
/// more than whitespace.
pub fn check_generate_request(command: &str, workspace: &str) -> (r: Result<(), String>)
    ensures
        blank(command@) ==> (r matches Err(e) && e@ == "No command provided"@),
        !blank(command@) && blank(workspace@) ==> (r matches Err(e) && e@
            == "No workspace path provided"@),
        !blank(command@) && !blank(workspace@) ==> r is Ok,
{
    if is_blank(command) {
        Err("No command provided".to_string())
    } else if is_blank(workspace) {
        Err("No workspace path provided".to_string())
    } else {
        Ok(())
    }
}

/// Checks a clone request: both the repository and the target are needed.
pub fn check_clone_request(repo_url: &str, target_dir: &str) -> (r: Result<(), String>)
    ensures
        repo_url@.len() == 0 || target_dir@.len() == 0 ==> (r matches Err(e) && e@
            == "Repository URL and target directory are required"@),
        repo_url@.len() > 0 && target_dir@.len() > 0 ==> r is Ok,
{
    if repo_url.unicode_len() == 0 || target_dir.unicode_len() == 0 {
        Err("Repository URL and target directory are required".to_string())
    } else {
        Ok(())
    }
}

/// Checks the workspace of a version-control request; a missing or blank one is an error.
pub fn check_workspace(workspace: Option<&str>) -> (r: Result<(), String>)
    ensures
        match workspace {
            Some(w) => if blank(w@) {
                (r matches Err(e) && e@ == "Missing workspace path"@)
            } else {
                r is Ok
            },
            None => (r matches Err(e) && e@ == "Missing workspace path"@),
        },
{
    match workspace {
        Some(w) => if is_blank(w) {
            Err("Missing workspace path".to_string())
        } else {
            Ok(())
        },
        None => Err("Missing workspace path".to_string()),
    }
}

/// The answer to a scaffolding command that succeeded.
pub fn project_created_message(workspace: &str, command: &str) -> (r: String)
    ensures
        r@ == "Project created successfully in "@ + workspace@ + " using command: "@ + command@,
{
    let mut msg = "Project created successfully in ".to_string();
    msg.append(workspace);
    msg.append(" using command: ");
    msg.append(command);
    msg
}

} // verus!
