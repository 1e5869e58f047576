use stickyvar::nu;
use stickyvar::sh;
use stickyvar::shells::{init_nushell, init_posix, render, ShellFamily};

const PATH: &str = "/opt/tools/bin/stickyvar";

#[test]
fn posix_script_invokes_binary_path() {
    let code = init_posix(PATH);
    assert!(code.starts_with("sv() {\n"));
    assert!(code.ends_with("}\n"));
    assert_eq!(code.matches(PATH).count(), 6);
    assert!(code.contains("        /opt/tools/bin/stickyvar set \"$2\" \"$3\"\n"));
    assert!(code.contains("`/opt/tools/bin/stickyvar get-all`\nEOF\n"));
    assert!(code.contains("/opt/tools/bin/stickyvar delete \"$2\" && unset \"$2\""));
    assert!(code.contains("    elif [ \"$1\" = \"delete\" ]\n"));
    assert!(!code.contains(" del "));
    assert!(!code.contains("{{"));
}

#[test]
fn nushell_script_invokes_binary_path() {
    let code = init_nushell(PATH);
    assert!(code.starts_with("export module sv {\n"));
    assert!(code.ends_with("}\n"));
    assert_eq!(code.matches(PATH).count(), 6);
    assert!(code.contains("for var in (/opt/tools/bin/stickyvar get-all | lines) {"));
    assert!(code.contains("        /opt/tools/bin/stickyvar delete $name\n        hide-env $name\n"));
    assert!(code.contains("    export def --env delete [ name: string ] {\n"));
    assert!(code.contains("open (/opt/tools/bin/stickyvar db-path)"));
}

#[test]
fn render_selects_family() {
    assert_eq!(render(ShellFamily::Sh, PATH), init_posix(PATH));
    assert_eq!(render(ShellFamily::Nu, PATH), init_nushell(PATH));
}

#[test]
fn empty_path_leaves_only_the_template() {
    let code = init_posix("");
    assert!(code.contains("\n         set \"$2\" \"$3\"\n"));
}

#[test]
fn sh_init_reads_from_here_document() {
    let code = sh::init(PATH);
    assert!(code.starts_with("sv() {\n"));
    assert_eq!(code.matches(PATH).count(), 5);
    assert!(code.contains("done << EOF\n`/opt/tools/bin/stickyvar get-all`\nEOF\n"));
    assert!(!code.contains("<("));
    assert!(!code.contains(" del "));
}

#[test]
fn nu_init_has_no_delete() {
    let code = nu::init(PATH);
    assert!(code.starts_with("export module sv {\n"));
    assert_eq!(code.matches(PATH).count(), 5);
    assert!(code.contains("let value = /opt/tools/bin/stickyvar decode-value $parts.1"));
    assert!(!code.contains("hide-env"));
}
