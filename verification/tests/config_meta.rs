//! Workspace configuration logic: project selection, dev command assembly,
//! configuration generation and manifest-name parsing.

use meta::config::{
    dev_commands, generate_config, get_projects_to_run, rust_binary_name, Config,
    DetectedProject, ProjectConfig, ProjectType, TaskConfig, ToolConfig, WorkspaceConfig,
};

fn tool(command: &str) -> ToolConfig {
    ToolConfig {
        enabled: true,
        command: command.to_string(),
        for_languages: Vec::new(),
        for_tasks: Vec::new(),
    }
}

fn project(path: &str, dev_tool: Option<&str>) -> ProjectConfig {
    let mut tasks = Vec::new();
    if let Some(t) = dev_tool {
        tasks.push((
            "dev".to_string(),
            TaskConfig { tool: t.to_string(), command: "run-long".to_string() },
        ));
    }
    ProjectConfig { project_type: "rust".to_string(), path: path.to_string(), tasks }
}

fn sample_config() -> Config {
    Config {
        workspace: WorkspaceConfig { name: "ws".to_string(), root: ".".to_string() },
        tools: vec![("bacon".to_string(), tool("bacon")), ("turborepo".to_string(), tool("turbo"))],
        projects: vec![
            ("api".to_string(), project("apps/api", Some("bacon"))),
            ("web".to_string(), project("apps/web", Some("turborepo"))),
            ("docs".to_string(), project("apps/docs", None)),
        ],
    }
}

#[test]
fn selects_all_projects_by_default() {
    let config = sample_config();
    let sel = get_projects_to_run(&config, None).unwrap();
    assert_eq!(sel.len(), 3);
    assert_eq!(sel[0].0, "api");
    assert_eq!(sel[2].0, "docs");
}

#[test]
fn selects_named_projects_in_order() {
    let config = sample_config();
    let sel = get_projects_to_run(&config, Some(vec!["web".to_string(), "api".to_string()]))
        .unwrap();
    assert_eq!(sel.len(), 2);
    assert_eq!(sel[0].0, "web");
    assert_eq!(sel[0].1.path, "apps/web");
    assert_eq!(sel[1].0, "api");
}

#[test]
fn unknown_project_fails_the_selection() {
    let config = sample_config();
    let err = get_projects_to_run(&config, Some(vec!["api".to_string(), "ghost".to_string()]))
        .unwrap_err();
    assert_eq!(err, "Project not found: ghost");
}

#[test]
fn dev_commands_run_from_project_dirs_except_turbo() {
    let config = sample_config();
    let sel = get_projects_to_run(&config, None).unwrap();
    let cmds = dev_commands(&config, &sel).unwrap();
    // docs has no dev task and contributes nothing
    assert_eq!(cmds.len(), 2);
    assert_eq!(cmds[0].0, "api");
    assert_eq!(cmds[0].1, "cd apps/api && bacon run-long");
    // turborepo runs from the workspace root
    assert_eq!(cmds[1].0, "web");
    assert_eq!(cmds[1].1, "turbo run-long");
}

#[test]
fn dev_commands_fail_fast_on_unknown_tool() {
    let mut config = sample_config();
    config.tools.clear();
    let sel = get_projects_to_run(&config, None).unwrap();
    let err = dev_commands(&config, &sel).unwrap_err();
    assert_eq!(err, "Tool not found: bacon");
}

#[test]
fn generated_config_declares_tools_and_workspace() {
    let text = generate_config(&Vec::new());
    assert!(text.contains("[workspace]"));
    assert!(text.contains("[tools.turborepo]"));
    assert!(text.contains("[tools.bacon]"));
    assert!(text.contains("[tools.cargo]"));
    assert!(text.contains("# Project definitions"));
}

#[test]
fn generated_config_describes_a_rust_project() {
    let projects = vec![DetectedProject {
        name: "api".to_string(),
        path: "apps/api".to_string(),
        project_type: ProjectType::Rust,
        package_name: None,
    }];
    let text = generate_config(&projects);
    assert!(text.contains("[projects.api]"));
    assert!(text.contains("type = \"rust\"\npath = \"apps/api\""));
    assert!(text.contains("dev = { tool = \"bacon\", command = \"run-long\" }"));
    assert!(text.contains("build = { tool = \"cargo\", command = \"build --release\" }"));
}

#[test]
fn generated_config_filters_named_packages() {
    let projects = vec![DetectedProject {
        name: "web".to_string(),
        path: "apps/web".to_string(),
        project_type: ProjectType::Next,
        package_name: Some("@test/web".to_string()),
    }];
    let text = generate_config(&projects);
    assert!(text.contains("[projects.web]"));
    assert!(text.contains("type = \"next\""));
    assert!(text.contains("dev = { tool = \"turborepo\", command = \"dev --filter=@test/web\" }"));
}

#[test]
fn generated_config_without_package_name_uses_plain_tasks() {
    let projects = vec![DetectedProject {
        name: "svc".to_string(),
        path: "apps/svc".to_string(),
        project_type: ProjectType::Node,
        package_name: None,
    }];
    let text = generate_config(&projects);
    assert!(text.contains("type = \"node\""));
    assert!(text.contains("dev = { tool = \"turborepo\", command = \"dev\" }"));
}

#[test]
fn binary_name_comes_from_the_manifest() {
    let manifest = "[package]\nname = \"api\"\nversion = \"1.0.0\"\n";
    assert_eq!(rust_binary_name(manifest).as_deref(), Some("api"));
}

#[test]
fn binary_name_strips_quotes_and_spaces() {
    assert_eq!(rust_binary_name("  name   =   'svc'  ").as_deref(), Some("svc"));
}

#[test]
fn binary_name_skips_unrelated_lines() {
    let manifest = "[package]\nversion = \"1.0.0\"\nedition = \"2021\"\n";
    assert_eq!(rust_binary_name(manifest), None);
    // an empty name is passed over in favour of a later line
    let manifest2 = "name = \"\"\nname = \"real\"\n";
    assert_eq!(rust_binary_name(manifest2).as_deref(), Some("real"));
}
