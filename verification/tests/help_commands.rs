use shopware_lsp_resolver::commands::run_help_command;
use shopware_lsp_resolver::errors::ExtensionError;

#[test]
fn restart_help_text() {
    let text = run_help_command("shopware-restart").unwrap();
    assert_eq!(
        text,
        "To restart the Shopware Language Server, reload Zed or disable and re-enable the Shopware LSP extension."
    );
    assert!(!text.is_empty());
}

#[test]
fn reindex_help_text() {
    let text = run_help_command("shopware-reindex").unwrap();
    assert_eq!(
        text,
        "Zed does not yet support LSP workspace/executeCommand. To force reindex, reload the Shopware LSP extension or restart Zed. The server will reindex automatically when you open files."
    );
    assert!(!text.is_empty());
}

#[test]
fn unknown_command_is_rejected() {
    let err = run_help_command("shopware-frobnicate").unwrap_err();
    match &err {
        ExtensionError::UnknownCommand { name } => assert_eq!(name, "shopware-frobnicate"),
        _ => panic!("expected an unknown-command error"),
    }
    assert_eq!(err.message(), "unknown command: shopware-frobnicate");
}

#[test]
fn empty_name_is_rejected() {
    let err = run_help_command("").unwrap_err();
    assert_eq!(err.message(), "unknown command: ");
}
