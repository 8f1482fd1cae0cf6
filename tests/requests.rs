use workspace_watch::requests::{
    check_clone_request, check_generate_request, check_workspace, is_blank,
    project_created_message,
};

#[test]
fn generate_request_needs_command_then_workspace() {
    assert_eq!(check_generate_request("  ", "/ws"), Err("No command provided".to_string()));
    assert_eq!(check_generate_request("", ""), Err("No command provided".to_string()));
    assert_eq!(check_generate_request("npm init", " \t"), Err("No workspace path provided".to_string()));
    assert_eq!(check_generate_request("npm init", "/ws"), Ok(()));
}

#[test]
fn clone_request_needs_both_fields() {
    let msg = "Repository URL and target directory are required".to_string();
    assert_eq!(check_clone_request("", "/d"), Err(msg.clone()));
    assert_eq!(check_clone_request("https://x/y.git", ""), Err(msg));
    assert_eq!(check_clone_request(" ", " "), Ok(()));
}

#[test]
fn workspace_must_not_be_blank() {
    assert_eq!(check_workspace(None), Err("Missing workspace path".to_string()));
    assert_eq!(check_workspace(Some("  ")), Err("Missing workspace path".to_string()));
    assert_eq!(check_workspace(Some("/ws")), Ok(()));
    assert!(is_blank(" \n\t"));
    assert!(!is_blank(" a "));
}

#[test]
fn created_message_names_workspace_and_command() {
    assert_eq!(
        project_created_message("/ws", "npx create-app"),
        "Project created successfully in /ws using command: npx create-app"
    );
}
