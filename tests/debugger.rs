use honggfuzz::{debugger_command, is_lldb};

#[test]
fn lldb_syntax() {
    let c = debugger_command("bin", "hfuzz_target", "x86_64-unknown-linux-gnu", "rust-lldb");
    assert_eq!(c.program, "rust-lldb");
    assert_eq!(
        c.args,
        vec![
            "-o",
            "b rust_panic",
            "-o",
            "r",
            "-o",
            "bt",
            "-f",
            "hfuzz_target/x86_64-unknown-linux-gnu/debug/bin",
            "--"
        ]
    );
    assert!(c.env.is_empty());
}

#[test]
fn lldb_by_path() {
    let c = debugger_command("bin", "t", "x", "/usr/bin/lldb-7");
    assert_eq!(c.args[0], "-o");
}

#[test]
fn gdb_syntax() {
    let c = debugger_command("bin", "t", "x", "rust-gdb");
    assert_eq!(
        c.args,
        vec!["-ex", "b rust_panic", "-ex", "r", "-ex", "bt", "--args", "t/x/debug/bin"]
    );
}

#[test]
fn lldb_only_in_file_name() {
    let c = debugger_command("bin", "t", "x", "/opt/lldb/bin/gdb");
    assert_eq!(c.args[0], "-ex");
}

#[test]
fn lldb_names() {
    assert!(is_lldb(&Some("lldb-7".to_string())));
    assert!(!is_lldb(&Some("gdb".to_string())));
    assert!(!is_lldb(&None));
}
