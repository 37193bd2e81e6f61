use snaprun::catalog::{ScriptInfo, ScriptManager, ScriptType};

fn info(id: &str, category: &str, script_type: ScriptType) -> ScriptInfo {
    ScriptInfo {
        id: id.to_string(),
        name: id.to_string(),
        description: String::new(),
        file_path: format!("/scripts/{}.rhai", id),
        category: category.to_string(),
        script_type,
    }
}

#[test]
fn test_script_name_formatting() {
    let manager = ScriptManager::new(String::new());

    assert_eq!(manager.format_script_name("hello_world"), "Hello World");
    assert_eq!(manager.format_script_name("my-awesome-script"), "My Awesome Script");
    assert_eq!(manager.format_script_name("simple"), "Simple");
}

#[test]
fn test_script_id_generation() {
    let content = "// @name: Test Script\n// @description: A test script\nprint(\"Hello, World!\");\n";
    let manager = ScriptManager::new(String::new());
    let script_info = manager.create_script_info(
        "/tmp/test_script.rhai",
        "test_script",
        "Built-in",
        ScriptType::Rhai,
        content,
    );

    assert_eq!(script_info.id, "rhai_built-in_test_script");
    assert_eq!(script_info.name, "Test Script");
    assert_eq!(script_info.description, "A test script");
}

#[test]
fn name_formatting_collapses_separators() {
    let manager = ScriptManager::new(String::new());
    assert_eq!(manager.format_script_name("__a--b  c_"), "A B C");
    assert_eq!(manager.format_script_name(""), "");
    assert_eq!(manager.format_script_name("___"), "");
    assert_eq!(manager.format_script_name("éclair_time"), "Éclair Time");
}

#[test]
fn script_info_falls_back_to_file_stem() {
    let manager = ScriptManager::new(String::new());
    let info = manager.create_script_info("/x/my tool.rhai", "my tool", "My Stuff", ScriptType::Rhai, "let x = 1;");
    assert_eq!(info.id, "rhai_my_stuff_my_tool");
    assert_eq!(info.name, "My Tool");
    assert_eq!(info.description, "Rhai script: my tool");
    assert_eq!(info.file_path, "/x/my tool.rhai");
    assert_eq!(info.category, "My Stuff");
}

#[test]
fn metadata_stops_at_first_code_line() {
    let manager = ScriptManager::new(String::new());
    let (name, description) =
        manager.extract_script_metadata("  // @name:  First  \n\nlet a = 1;\n// @description: late\n");
    assert_eq!(name.as_deref(), Some("First"));
    assert_eq!(description, None);
}

#[test]
fn metadata_later_tag_wins_and_only_ten_lines_count() {
    let manager = ScriptManager::new(String::new());
    let (name, _) = manager.extract_script_metadata("// @name: A\r\n// @name: B\r\n");
    assert_eq!(name.as_deref(), Some("B"));
    let mut text = String::new();
    for _ in 0..10 {
        text.push_str("// filler\n");
    }
    text.push_str("// @name: Too Late\n");
    let (name, description) = manager.extract_script_metadata(&text);
    assert_eq!(name, None);
    assert_eq!(description, None);
}

#[test]
fn lookups_by_id_type_and_category() {
    let mut manager = ScriptManager::new("/project".to_string());
    manager.scripts.push(info("a", "Custom", ScriptType::Rhai));
    manager.scripts.push(info("b", "Built-in", ScriptType::Rust));
    manager.scripts.push(info("c", "Custom", ScriptType::Rhai));
    manager.scripts.push(info("a", "Legacy", ScriptType::Rhai));

    let found = manager.get_script_by_id("a").unwrap();
    assert_eq!(found.category, "Custom");
    assert!(manager.get_script_by_id("zzz").is_none());

    let rhai: Vec<&str> = manager.get_scripts_by_type(ScriptType::Rhai).iter().map(|s| s.category.as_str()).collect();
    assert_eq!(rhai, vec!["Custom", "Custom", "Legacy"]);
    let rust: Vec<&str> = manager.get_scripts_by_type(ScriptType::Rust).iter().map(|s| s.id.as_str()).collect();
    assert_eq!(rust, vec!["b"]);

    let custom: Vec<&str> = manager.get_scripts_by_category("Custom").iter().map(|s| s.id.as_str()).collect();
    assert_eq!(custom, vec!["a", "c"]);
    assert!(manager.get_scripts_by_category("Nothing").is_empty());
    assert_eq!(manager.project_root, "/project");
}
