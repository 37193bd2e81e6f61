use snaprun::logging::{log_file_name, log_line, sanitize_filename, LogLevel, LogSource};
use snaprun::paths::FileSystemKit;
use snaprun::process::{signed_decimal_text, ProcessKit, ProcessResult};
use snaprun::protocol::RequestKind;

#[test]
fn level_names_and_symbols() {
    assert_eq!(LogLevel::Info.as_str(), "INFO");
    assert_eq!(LogLevel::Trace.as_str(), "TRACE");
    assert_eq!(LogLevel::Error.emoji(), "❌");
    assert_eq!(LogLevel::Warn.emoji(), "⚠️");
}

#[test]
fn source_prefixes_and_lines() {
    assert_eq!(LogSource::Rust("engine".to_string()).prefix(), "🦀 engine");
    assert_eq!(LogSource::System.prefix(), "⚙️ System");
    let line = log_line("2024-01-02 03:04:05.006", &LogLevel::Info, &LogSource::Rhai("demo".to_string()), "hi");
    assert_eq!(line, "[2024-01-02 03:04:05.006] ℹ️ INFO 📜 demo - hi");
}

#[test]
fn log_files_by_source() {
    assert_eq!(sanitize_filename("my script!.v2"), "my_script__v2");
    assert_eq!(log_file_name(&LogSource::Rhai("a b".to_string()), &None), "script_a_b.log");
    assert_eq!(log_file_name(&LogSource::Rust("m".to_string()), &Some("s/x".to_string())), "script_s_x.log");
    assert_eq!(log_file_name(&LogSource::Rust("ui::kit".to_string()), &None), "rust_ui__kit.log");
    assert_eq!(log_file_name(&LogSource::Frontend("App".to_string()), &None), "frontend_App.log");
    assert_eq!(log_file_name(&LogSource::System, &None), "system.log");
}

#[test]
fn command_reports() {
    let ok = ProcessResult { stdout: "out".to_string(), stderr: String::new(), exit_code: 0, success: true };
    assert_eq!(ProcessKit::command_output(&Ok(ok), false), "out");
    let failed = ProcessResult { stdout: "o".to_string(), stderr: "e".to_string(), exit_code: -2, success: false };
    assert_eq!(ProcessKit::command_output(&Ok(failed.clone()), false), "Command failed (exit code: -2)\nSTDOUT: o\nSTDERR: e");
    assert_eq!(ProcessKit::command_output(&Ok(failed), true), "Shell command failed (exit code: -2)\nSTDOUT: o\nSTDERR: e");
    assert_eq!(ProcessKit::command_output(&Err("nope".to_string()), true), "Failed to execute shell command: nope");
    assert_eq!(ProcessKit::command_output(&Err("nope".to_string()), false), "Failed to execute command: nope");
    assert_eq!(ProcessKit::which_text(None), "Command not found");
    assert_eq!(ProcessKit::which_text(Some("/bin/ls".to_string())), "/bin/ls");
}

#[test]
fn decimal_text_of_extremes() {
    assert_eq!(signed_decimal_text(0), "0");
    assert_eq!(signed_decimal_text(127), "127");
    assert_eq!(signed_decimal_text(i32::MIN), "-2147483648");
    assert_eq!(signed_decimal_text(i32::MAX), "2147483647");
}

#[test]
fn path_helpers() {
    assert_eq!(FileSystemKit::path_join("/a", "b.txt"), "/a/b.txt");
    assert_eq!(FileSystemKit::path_join("/a", "/c"), "/c");
    assert_eq!(FileSystemKit::path_parent("/a/b.txt"), "/a");
    assert_eq!(FileSystemKit::path_parent("/"), "");
    assert_eq!(FileSystemKit::path_filename("/a/b.txt"), "b.txt");
    assert_eq!(FileSystemKit::path_filename("/a/.."), "");
    assert_eq!(FileSystemKit::path_extension("/a/b.tar.gz"), "gz");
    assert_eq!(FileSystemKit::path_extension("/a/.hidden"), "");
}

#[test]
fn request_kind_names() {
    assert_eq!(RequestKind::Input.as_str(), "input");
    assert_eq!(RequestKind::Select.as_str(), "select");
    assert_eq!(RequestKind::Html.as_str(), "html");
    assert_eq!(RequestKind::Editor.as_str(), "editor");
    assert_eq!(RequestKind::Complete.as_str(), "complete");
}
