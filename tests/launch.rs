use spectra_zed::{command_for, SERVER_BINARY, STDIO_FLAG};

#[test]
fn found_path_is_used_verbatim() {
    let c = command_for(Some("/usr/local/bin/spectra-lsp".to_string()));
    assert_eq!(c.command, "/usr/local/bin/spectra-lsp");
    assert_eq!(c.args, vec!["--stdio".to_string()]);
    assert!(c.env.is_empty());
}

#[test]
fn missing_binary_falls_back_to_bare_name() {
    let c = command_for(None);
    assert_eq!(c.command, "spectra-lsp");
    assert_eq!(c.args, vec!["--stdio".to_string()]);
    assert!(c.env.is_empty());
}

#[test]
fn relative_path_is_kept() {
    let c = command_for(Some("./venv/bin/spectra-lsp".to_string()));
    assert_eq!(c.command, "./venv/bin/spectra-lsp");
    assert_eq!(c.args.len(), 1);
    assert_eq!(c.args[0], STDIO_FLAG);
    assert_eq!(c.env.len(), 0);
}

#[test]
fn empty_path_is_kept() {
    let c = command_for(Some(String::new()));
    assert_eq!(c.command, "");
    assert_eq!(c.args, vec!["--stdio".to_string()]);
}

#[test]
fn constants_name_the_server_and_transport() {
    assert_eq!(SERVER_BINARY, "spectra-lsp");
    assert_eq!(STDIO_FLAG, "--stdio");
}
