use cargo_vsc::AUTOGEN_JSON;
use cargo_vsc::GenError;
use cargo_vsc::LaunchEntry;
use cargo_vsc::Package;
use cargo_vsc::Target;
use cargo_vsc::Task;
use cargo_vsc::Workspace;
use cargo_vsc::create_vscode_extensions_json;
use cargo_vsc::create_vscode_launch_json;
use cargo_vsc::create_vscode_settings_json;
use cargo_vsc::create_vscode_tasks_json;
use cargo_vsc::filter_synthetic_members;
use cargo_vsc::launch_entries;
use cargo_vsc::open_decision;
use cargo_vsc::replace_dashes;
use cargo_vsc::task_definitions;

fn target(name: &str, kinds: &[&str]) -> Target {
    Target {
        name: name.to_string(),
        kinds: kinds.iter().map(|k| k.to_string()).collect(),
    }
}

fn package(id: &str, name: &str, targets: Vec<Target>) -> Package {
    Package {
        id: id.to_string(),
        name: name.to_string(),
        version: "0.1.0".to_string(),
        repository: None,
        documentation: None,
        homepage: None,
        targets,
    }
}

fn workspace(packages: Vec<Package>, members: &[&str]) -> Workspace {
    Workspace {
        root: "/ws".to_string(),
        packages,
        members: members.iter().map(|m| m.to_string()).collect(),
        local_install: false,
        simple: None,
    }
}

fn find_task<'a>(tasks: &'a [Task], label: &str) -> Option<&'a Task> {
    tasks.iter().find(|t| t.label == label)
}

#[test]
fn generation_is_idempotent_per_workspace() {
    let ws = workspace(
        vec![package("foo 1.0", "foo", vec![target("foo", &["bin"])])],
        &["foo 1.0"],
    );
    assert_eq!(
        create_vscode_extensions_json(&ws),
        create_vscode_extensions_json(&ws)
    );
    assert_eq!(create_vscode_settings_json(), create_vscode_settings_json());
    assert_eq!(create_vscode_tasks_json(&ws), create_vscode_tasks_json(&ws));
    assert_eq!(create_vscode_launch_json(&ws), create_vscode_launch_json(&ws));
}

#[test]
fn generated_documents_pass_their_own_guard() {
    let ws = workspace(
        vec![package("foo 1.0", "foo", vec![target("foo", &["bin"])])],
        &["foo 1.0"],
    );
    for doc in [
        create_vscode_extensions_json(&ws),
        create_vscode_settings_json(),
        create_vscode_tasks_json(&ws),
        create_vscode_launch_json(&ws),
    ] {
        let first_line = doc.lines().next().unwrap().to_string();
        assert_eq!(first_line, AUTOGEN_JSON);
        assert!(open_decision(Some(&first_line)).is_ok());
    }
}

#[test]
fn guard_refuses_foreign_first_line() {
    let line = "{ \"my\": \"own settings\" }".to_string();
    let r = open_decision(Some(&line));
    assert!(matches!(r, Err(GenError::UserFileConflict)));
}

#[test]
fn guard_accepts_sentinel_and_absent_file() {
    assert!(open_decision(None).is_ok());
    assert!(open_decision(Some(&AUTOGEN_JSON.to_string())).is_ok());
    // The first line is trimmed before the comparison.
    let padded = format!("  {}  ", AUTOGEN_JSON);
    assert!(open_decision(Some(&padded)).is_ok());
}

#[test]
fn nonmember_package_yields_nothing() {
    let dep = package("dep 2.0", "dep", vec![target("dep", &["bin", "example"])]);
    let ws = workspace(vec![dep], &["something-else 1.0"]);
    let entries: Vec<LaunchEntry> = launch_entries(&ws);
    assert!(entries.is_empty());
    let tasks = task_definitions(&ws);
    // Simple mode without a local-install step: exactly the two header tasks.
    assert_eq!(tasks.len(), 2);
    assert!(tasks.iter().all(|t| !t.label.contains("dep")));
}

#[test]
fn lib_kind_yields_no_tasks_but_counts_for_extensions() {
    let lib_only = workspace(
        vec![package("foo 1.0", "foo", vec![target("foo", &["lib"])])],
        &["foo 1.0"],
    );
    assert!(launch_entries(&lib_only).is_empty());
    let tasks = task_definitions(&lib_only);
    assert!(!tasks.iter().any(|t| t.label.starts_with("cargo build")));
    let ext = create_vscode_extensions_json(&lib_only);
    assert!(ext.contains("rust-lang.rust-analyzer"));
    assert!(!ext.contains("ms-vscode.cpptools"));

    // A lib target's presence elsewhere does not stop a bin target from
    // satisfying the debugger-extension check.
    let mixed = workspace(
        vec![
            package("foo 1.0", "foo", vec![target("foo", &["lib"])]),
            package("dep 2.0", "dep", vec![target("dep", &["bin"])]),
        ],
        &["foo 1.0"],
    );
    let ext = create_vscode_extensions_json(&mixed);
    assert!(ext.contains("ms-vscode.cpptools"));
}

#[test]
fn single_member_launch_names_are_fully_elided() {
    let ws = workspace(
        vec![package("foo 1.0", "foo", vec![target("foo", &["bin"])])],
        &["foo 1.0"],
    );
    let entries = launch_entries(&ws);
    assert_eq!(entries.len(), 2);
    assert_eq!(entries[0].name, "foo \u{2022} debug");
    assert_eq!(entries[1].name, "foo \u{2022} release");
    assert_eq!(
        entries[0].pre_launch_task,
        "cargo build --package foo --bin foo"
    );
    assert_eq!(
        entries[1].pre_launch_task,
        "cargo build --package foo --bin foo --release"
    );
    assert_eq!(entries[0].program, "${workspaceFolder}/target/debug/foo");
    assert_eq!(
        entries[1].windows_program,
        "${workspaceFolder}/target/release/foo.exe"
    );
    assert!(entries[0].enable_debug_heap);
    assert!(!entries[1].enable_debug_heap);
}

#[test]
fn multi_member_example_names_carry_all_segments() {
    let ws = workspace(
        vec![
            package("foo 1.0", "foo", vec![target("demo", &["example"])]),
            package("bar 1.0", "bar", vec![]),
        ],
        &["foo 1.0", "bar 1.0"],
    );
    let entries = launch_entries(&ws);
    assert_eq!(entries.len(), 2);
    assert_eq!(entries[0].name, "foo \u{2022} example \u{2022} demo \u{2022} debug");
    assert_eq!(
        entries[0].program,
        "${workspaceFolder}/target/debug/examples/demo"
    );
    assert_eq!(
        entries[0].pre_launch_task,
        "cargo build --package foo --example demo"
    );
}

#[test]
fn local_install_step_threads_through_simple_tasks() {
    let mut ws = workspace(
        vec![package("foo 1.0", "foo", vec![target("foo", &["lib"])])],
        &["foo 1.0"],
    );
    ws.local_install = true;
    let tasks = task_definitions(&ws);
    let install = find_task(&tasks, "cargo local-install").expect("install task");
    assert_eq!(install.command.as_deref(), Some("cargo local-install"));
    let build = find_task(&tasks, "build").expect("build task");
    assert!(build.group_default_build);
    assert!(build.depends_on.iter().any(|d| d == "cargo local-install"));
    let help = find_task(&tasks, "help").expect("help task");
    assert!(help.depends_on.iter().any(|d| d == "cargo local-install"));
}

#[test]
fn no_local_install_step_omits_install_tasks() {
    let ws = workspace(
        vec![package("foo 1.0", "foo", vec![target("foo", &["lib"])])],
        &["foo 1.0"],
    );
    let tasks = task_definitions(&ws);
    assert!(find_task(&tasks, "cargo local-install").is_none());
    let build = find_task(&tasks, "build").expect("build task");
    assert!(build.depends_on.is_empty());
}

#[test]
fn advanced_mode_emits_sequenced_pipeline() {
    let mut ws = workspace(
        vec![package("foo 1.0", "foo", vec![target("foo", &["lib"])])],
        &["foo 1.0"],
    );
    ws.simple = Some(false);
    let tasks = task_definitions(&ws);
    let agg = find_task(&tasks, "default-build").expect("aggregate task");
    assert!(agg.depends_order_sequence);
    assert_eq!(
        agg.depends_on,
        vec!["fetch", "check", "test", "build", "doc"]
    );
    assert!(agg.group_default_build);
    for stage in ["check", "test", "build", "doc"] {
        let t = find_task(&tasks, stage).expect("stage task");
        assert_eq!(t.problem_matcher_owner.as_deref(), Some(stage));
    }
    let fetch = find_task(&tasks, "fetch").expect("fetch task");
    assert_eq!(fetch.depends_on, vec!["cargo fetch"]);
}

#[test]
fn advanced_mode_install_step_precedes_fetch() {
    let mut ws = workspace(
        vec![package("foo 1.0", "foo", vec![target("foo", &["lib"])])],
        &["foo 1.0"],
    );
    ws.simple = Some(false);
    ws.local_install = true;
    let tasks = task_definitions(&ws);
    let fetch = find_task(&tasks, "fetch").expect("fetch task");
    assert_eq!(fetch.depends_on, vec!["cargo fetch", "cargo local-install"]);
    let install = find_task(&tasks, "cargo local-install").expect("install task");
    assert_eq!(
        install.command.as_deref(),
        Some("cargo install cargo-local-install && cargo local-install")
    );
}

#[test]
fn doc_link_uses_underscored_name_build_tasks_keep_hyphens() {
    let mut ws = workspace(
        vec![package("my-lib 1.0", "my-lib", vec![target("my-lib", &["bin"])])],
        &["my-lib 1.0"],
    );
    ws.simple = Some(false);
    let tasks = task_definitions(&ws);
    let doc_open = find_task(&tasks, "build & open local documentation (my-lib)")
        .expect("doc-open task");
    let windows = doc_open.windows_command.as_deref().expect("windows command");
    assert_eq!(
        windows,
        "start \"\"    \"${workspaceFolder}\\target\\doc\\my_lib\\index.html\""
    );
    let linux = doc_open.linux_command.as_deref().expect("linux command");
    assert!(linux.starts_with("xdg-open"));
    assert!(linux.contains("my_lib"));
    assert_eq!(doc_open.depends_on, vec!["doc"]);
    let debug_build = find_task(&tasks, "cargo build --package my-lib --bin my-lib")
        .expect("debug build task");
    assert_eq!(
        debug_build.command.as_deref(),
        Some("cargo build --package my-lib --bin my-lib")
    );
    assert!(find_task(&tasks, "cargo build --package my-lib --bin my-lib --release").is_some());
}

#[test]
fn project_url_tasks_follow_their_metadata_fields() {
    let mut p = package("foo 1.0", "foo", vec![]);
    p.repository = Some("https://example.org/repo".to_string());
    p.homepage = Some("https://example.org".to_string());
    let ws = workspace(vec![p], &["foo 1.0"]);
    let tasks = task_definitions(&ws);
    let repo = find_task(&tasks, "open repository (foo)").expect("repository task");
    assert_eq!(
        repo.linux_command.as_deref(),
        Some("xdg-open      \"https://example.org/repo\"")
    );
    assert_eq!(
        repo.osx_command.as_deref(),
        Some("open          \"https://example.org/repo\"")
    );
    assert!(repo.depends_on.is_empty());
    assert!(find_task(&tasks, "open documentation (foo)").is_none());
    assert!(find_task(&tasks, "open homepage (foo)").is_some());
}

#[test]
fn replace_dashes_substitutes_every_hyphen() {
    assert_eq!(replace_dashes("my-lib"), "my_lib");
    assert_eq!(replace_dashes("a-b-c"), "a_b_c");
    assert_eq!(replace_dashes("plain"), "plain");
    assert_eq!(replace_dashes(""), "");
}

#[test]
fn synthetic_members_are_filtered_out() {
    let members = vec![
        "xtask helper 1.0".to_string(),
        "foo 1.0".to_string(),
        "xtask other 0.1".to_string(),
    ];
    let kept = filter_synthetic_members(&members);
    assert_eq!(kept, vec!["foo 1.0".to_string()]);
}

#[test]
fn extensions_document_text_is_exact() {
    let ws = workspace(vec![package("foo 1.0", "foo", vec![target("foo", &["lib"])])], &[]);
    let expected = format!(
        "{}\n{{\n    \"recommendations\": [\n        \"rust-lang.rust-analyzer\",\n    ]\n}}\n",
        AUTOGEN_JSON
    );
    assert_eq!(create_vscode_extensions_json(&ws), expected);
}

#[test]
fn settings_document_text_is_exact() {
    let expected = format!(
        "{}\n{{\n    \"files.exclude\": {{\n        \"target/*/*/*\": true,\n    }}\n}}\n",
        AUTOGEN_JSON
    );
    assert_eq!(create_vscode_settings_json(), expected);
}

#[test]
fn launch_document_quotes_entry_fields() {
    let ws = workspace(
        vec![package("foo 1.0", "foo", vec![target("foo", &["bin"])])],
        &["foo 1.0"],
    );
    let doc = create_vscode_launch_json(&ws);
    assert!(doc.starts_with(AUTOGEN_JSON));
    assert!(doc.contains("\"version\": \"0.2.0\""));
    assert!(doc.contains("\"name\":                     \"foo \u{2022} debug\""));
    assert!(doc.contains("\"preLaunchTask\":            \"cargo build --package foo --bin foo\""));
    assert!(doc.contains("\"program\":                  \"${workspaceFolder}/target/debug/foo\""));
    assert!(doc.contains("\"enableDebugHeap\":      true"));
    assert!(doc.contains("\"enableDebugHeap\":      false"));
    assert!(doc.contains("\"searchMicrosoftSymbolServer\": true"));
}

#[test]
fn tasks_document_quotes_task_fields() {
    let mut ws = workspace(
        vec![package("foo 1.0", "foo", vec![target("foo", &["bin"])])],
        &["foo 1.0"],
    );
    ws.local_install = true;
    let doc = create_vscode_tasks_json(&ws);
    assert!(doc.starts_with(AUTOGEN_JSON));
    assert!(doc.contains("\"version\": \"2.0.0\""));
    assert!(doc.contains("\"problemMatcher\": \"$rustc\""));
    assert!(doc.contains("\"label\": \"cargo build --package foo --bin foo\""));
    assert!(doc.contains("\"dependsOn\": [ \"cargo local-install\", ]"));
    assert!(doc.contains("\"group\": { \"kind\": \"build\", \"isDefault\": true }"));
}
