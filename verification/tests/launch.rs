use shopware_lsp_resolver::commands::build_launch_command;
use shopware_lsp_resolver::errors::ExtensionError;

#[test]
fn launch_command_wraps_resolved_path() {
    let cmd = build_launch_command(Ok("/bin/shopware-lsp".to_string())).unwrap();
    assert_eq!(cmd.command, "/bin/shopware-lsp");
    assert!(cmd.args.is_empty());
    assert!(cmd.env.is_empty());
}

#[test]
fn launch_command_propagates_errors_unchanged() {
    let err = build_launch_command(Err(ExtensionError::DownloadFailed {
        message: "boom".to_string(),
    }))
    .unwrap_err();
    match &err {
        ExtensionError::DownloadFailed { message } => assert_eq!(message, "boom"),
        _ => panic!("expected the download error back"),
    }
    assert_eq!(err.message(), "Failed to download: boom");
}
