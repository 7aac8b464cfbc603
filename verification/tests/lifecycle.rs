use staten::config::ConfigDoc;
use staten::config::ServerEntry;
use staten::lifecycle::{get_app_env, get_app_statuses, install, is_installed, save_app_env, uninstall};
use staten::registry::{AppConfig, AppDefinition, Registry};
use staten::scalar::Scalar;
use staten::strmap::StrMap;

fn fixture_registry() -> Registry {
    Registry {
        apps: vec![
            AppDefinition {
                name: "Browser".to_string(),
                description: "Web browser".to_string(),
                config: AppConfig {
                    mcp_key: "puppeteer".to_string(),
                    runtime: "npx".to_string(),
                    args: vec![
                        "-y".to_string(),
                        "@modelcontextprotocol/server-puppeteer".to_string(),
                        "--debug".to_string(),
                    ],
                },
            },
            AppDefinition {
                name: "Time".to_string(),
                description: "Time server".to_string(),
                config: AppConfig {
                    mcp_key: "time".to_string(),
                    runtime: "npx".to_string(),
                    args: vec!["-y".to_string(), "mcp-server-time".to_string()],
                },
            },
        ],
    }
}

fn env_text(env: &StrMap<Scalar>, key: &str) -> Option<String> {
    env.get(key).map(|v| v.to_text())
}

#[test]
fn test_install_and_uninstall() {
    let registry = fixture_registry();
    let mut doc = ConfigDoc::new();

    let install_result = install(&registry, "Browser", None, &mut doc);
    assert!(install_result.is_ok(), "Install failed: {:?}", install_result);

    let installed = is_installed(&registry, "Browser", &doc).unwrap();
    assert!(installed, "Browser should be installed");

    let uninstall_result = uninstall(&registry, "Browser", &mut doc);
    assert!(uninstall_result.is_ok(), "Uninstall failed: {:?}", uninstall_result);

    let installed = is_installed(&registry, "Browser", &doc).unwrap();
    assert!(!installed, "Browser should not be installed");
}

#[test]
fn test_app_env_operations() {
    let registry = fixture_registry();
    let mut doc = ConfigDoc::new();

    install(&registry, "Browser", None, &mut doc).unwrap();

    let mut env_values: StrMap<Scalar> = StrMap::new();
    env_values.insert("TEST_KEY".to_string(), Scalar::Text("test_value".to_string()));
    env_values.insert("ANOTHER_KEY".to_string(), Scalar::Text("another_value".to_string()));

    let save_result = save_app_env(&registry, "Browser", env_values, &mut doc);
    assert!(save_result.is_ok(), "Failed to save env values: {:?}", save_result);

    let get_result = get_app_env(&registry, "Browser", &doc).unwrap();
    assert_eq!(get_result.len(), 2, "Retrieved env values don't match saved values");
    assert_eq!(
        env_text(&get_result, "TEST_KEY").as_deref(),
        Some("test_value"),
        "Retrieved env values don't match saved values"
    );
    assert_eq!(
        env_text(&get_result, "ANOTHER_KEY").as_deref(),
        Some("another_value"),
        "Retrieved env values don't match saved values"
    );
}

#[test]
fn test_app_statuses() {
    let registry = fixture_registry();
    let mut doc = ConfigDoc::new();

    let initial_statuses = get_app_statuses(&registry, &doc);
    assert_eq!(initial_statuses.installed.len(), 2);
    assert_eq!(initial_statuses.configured.len(), 2);
    assert_eq!(initial_statuses.installed.get("Browser").copied(), Some(false));

    install(&registry, "Browser", None, &mut doc).unwrap();

    let updated_statuses = get_app_statuses(&registry, &doc);
    assert_eq!(
        updated_statuses.installed.get("Browser").copied(),
        Some(true),
        "Browser should be marked as installed"
    );
    assert_eq!(updated_statuses.installed.get("Time").copied(), Some(false));
}

#[test]
fn test_app_registry() {
    let registry = fixture_registry();
    assert!(!registry.apps.is_empty(), "Registry should not be empty");

    let browser_app = registry.find_app("Browser");
    assert!(browser_app.is_some(), "Browser app should exist in registry");

    let browser_app = browser_app.unwrap();
    assert_eq!(
        browser_app.config.mcp_key.as_str(),
        "puppeteer",
        "Browser app should have correct mcpKey"
    );
}

#[test]
fn test_install_with_env_vars() {
    let registry = fixture_registry();
    let mut doc = ConfigDoc::new();

    let mut env_vars: StrMap<Scalar> = StrMap::new();
    env_vars.insert("TEST_ENV".to_string(), Scalar::Text("test_value".to_string()));
    env_vars.insert("DEBUG".to_string(), Scalar::Text("true".to_string()));

    let install_result = install(&registry, "Browser", Some(&env_vars), &mut doc);
    assert!(install_result.is_ok(), "Install with env vars failed: {:?}", install_result);

    let saved_env = get_app_env(&registry, "Browser", &doc).unwrap();
    assert_eq!(saved_env.len(), 2, "Saved env vars don't match provided values");
    assert_eq!(
        env_text(&saved_env, "TEST_ENV").as_deref(),
        Some("test_value"),
        "Saved env vars don't match provided values"
    );
    assert_eq!(
        env_text(&saved_env, "DEBUG").as_deref(),
        Some("true"),
        "Saved env vars don't match provided values"
    );
}

#[test]
fn test_multiple_apps() {
    let registry = fixture_registry();
    let mut doc = ConfigDoc::new();

    install(&registry, "Browser", None, &mut doc).unwrap();
    install(&registry, "Time", None, &mut doc).unwrap();

    assert!(
        is_installed(&registry, "Browser", &doc).unwrap(),
        "Browser should be installed"
    );
    assert!(is_installed(&registry, "Time", &doc).unwrap(), "Time should be installed");

    let statuses = get_app_statuses(&registry, &doc);
    assert_eq!(statuses.installed.get("Browser").copied(), Some(true));
    assert_eq!(statuses.installed.get("Time").copied(), Some(true));

    uninstall(&registry, "Browser", &mut doc).unwrap();
    assert!(
        !is_installed(&registry, "Browser", &doc).unwrap(),
        "Browser should be uninstalled"
    );
    assert!(
        is_installed(&registry, "Time", &doc).unwrap(),
        "Time should still be installed"
    );
}

#[test]
fn test_env_var_replacement_during_install() {
    let registry = Registry {
        apps: vec![AppDefinition {
            name: "EnvTest".to_string(),
            description: "Environment Variable Test".to_string(),
            config: AppConfig {
                mcp_key: "envtest".to_string(),
                runtime: "npx".to_string(),
                args: vec![
                    "-y".to_string(),
                    "mcp-server-test".to_string(),
                    "--prefix".to_string(),
                    "${PREFIX}".to_string(),
                    "--value".to_string(),
                    "${ENV_VAR}".to_string(),
                    "--suffix".to_string(),
                    "${SUFFIX}".to_string(),
                ],
            },
        }],
    };

    let mut doc = ConfigDoc::new();
    let mut preset_env: StrMap<Scalar> = StrMap::new();
    preset_env.insert("PREFIX".to_string(), Scalar::Text("prefix_value".to_string()));
    preset_env.insert("ENV_VAR".to_string(), Scalar::Text("test_value".to_string()));
    preset_env.insert("SUFFIX".to_string(), Scalar::Text("suffix_value".to_string()));
    doc.servers.insert(
        "envtest".to_string(),
        ServerEntry { runtime: String::new(), args: Vec::new(), env: preset_env },
    );

    install(&registry, "EnvTest", None, &mut doc).unwrap();

    let entry = doc.servers.get("envtest").unwrap();
    let args = &entry.args;
    assert_eq!(args[0], "-y", "First arg should be -y");
    assert_eq!(args[1], "mcp-server-test", "Second arg should be mcp-server-test");
    assert_eq!(args[2], "--prefix", "Third arg should be --prefix");
    assert_eq!(args[3], "prefix_value", "PREFIX should be replaced with prefix_value");
    assert_eq!(args[4], "--value", "Fifth arg should be --value");
    assert_eq!(args[5], "test_value", "ENV_VAR should be replaced with test_value");
    assert_eq!(args[6], "--suffix", "Seventh arg should be --suffix");
    assert_eq!(args[7], "suffix_value", "SUFFIX should be replaced with suffix_value");
}

#[test]
fn test_complex_env_var_replacements() {
    let registry = Registry {
        apps: vec![AppDefinition {
            name: "ComplexEnvTest".to_string(),
            description: "Complex Environment Variable Test".to_string(),
            config: AppConfig {
                mcp_key: "complextest".to_string(),
                runtime: "npx".to_string(),
                args: vec![
                    "-y".to_string(),
                    "complex-test".to_string(),
                    "--simple=${SIMPLE}".to_string(),
                    "--combined=${PREFIX}${MIDDLE}${SUFFIX}".to_string(),
                    "--embedded=prefix_${EMBEDDED}_suffix".to_string(),
                    "--numeric=${NUMBER}".to_string(),
                    "--flag=${FLAG}".to_string(),
                    "--path=${PATH_VAR}/subdir".to_string(),
                    "--missing=${DOES_NOT_EXIST}".to_string(),
                ],
            },
        }],
    };

    let mut doc = ConfigDoc::new();
    let mut preset_env: StrMap<Scalar> = StrMap::new();
    preset_env.insert("SIMPLE".to_string(), Scalar::Text("simple_value".to_string()));
    preset_env.insert("PREFIX".to_string(), Scalar::Text("prefix_".to_string()));
    preset_env.insert("MIDDLE".to_string(), Scalar::Text("middle".to_string()));
    preset_env.insert("SUFFIX".to_string(), Scalar::Text("_suffix".to_string()));
    preset_env.insert("EMBEDDED".to_string(), Scalar::Text("embedded_value".to_string()));
    preset_env.insert("NUMBER".to_string(), Scalar::Int(42));
    preset_env.insert("FLAG".to_string(), Scalar::Bool(true));
    preset_env.insert("PATH_VAR".to_string(), Scalar::Text("/tmp/test".to_string()));
    doc.servers.insert(
        "complextest".to_string(),
        ServerEntry { runtime: String::new(), args: Vec::new(), env: preset_env },
    );

    install(&registry, "ComplexEnvTest", None, &mut doc).unwrap();

    let entry = doc.servers.get("complextest").unwrap();
    let args = &entry.args;
    assert_eq!(args[0], "-y", "First arg should be -y");
    assert_eq!(args[1], "complex-test", "Second arg should be complex-test");
    assert_eq!(args[2], "--simple=simple_value", "Simple variable should be replaced");
    assert_eq!(
        args[3], "--combined=prefix_middle_suffix",
        "Multiple variables should be replaced"
    );
    assert_eq!(
        args[4], "--embedded=prefix_embedded_value_suffix",
        "Embedded variable should be replaced"
    );
    assert_eq!(args[5], "--numeric=42", "Numeric variable should be replaced");
    assert_eq!(args[6], "--flag=true", "Boolean variable should be replaced");
    assert_eq!(args[7], "--path=/tmp/test/subdir", "Path variable should be replaced");
    assert_eq!(
        args[8], "--missing=${DOES_NOT_EXIST}",
        "Missing variable should remain unchanged"
    );
}

#[test]
fn test_install_unknown_app_fails() {
    let registry = fixture_registry();
    let mut doc = ConfigDoc::new();
    let r = install(&registry, "Nowhere", None, &mut doc);
    assert!(matches!(r, Err(staten::errors::Error::AppNotFound)));
    assert!(!doc.servers.contains_key("Nowhere"));
}

#[test]
fn test_save_app_env_before_install_fails() {
    let registry = fixture_registry();
    let mut doc = ConfigDoc::new();
    let env: StrMap<Scalar> = StrMap::new();
    let r = save_app_env(&registry, "Browser", env, &mut doc);
    assert!(matches!(r, Err(staten::errors::Error::NotInstalled)));
}

#[test]
fn test_reinstall_upserts_env() {
    let registry = fixture_registry();
    let mut doc = ConfigDoc::new();

    let mut first: StrMap<Scalar> = StrMap::new();
    first.insert("MODE".to_string(), Scalar::Text("fast".to_string()));
    first.insert("KEEP".to_string(), Scalar::Text("yes".to_string()));
    install(&registry, "Browser", Some(&first), &mut doc).unwrap();

    let mut second: StrMap<Scalar> = StrMap::new();
    second.insert("MODE".to_string(), Scalar::Text("slow".to_string()));
    install(&registry, "Browser", Some(&second), &mut doc).unwrap();

    let env = get_app_env(&registry, "Browser", &doc).unwrap();
    assert_eq!(env_text(&env, "MODE").as_deref(), Some("slow"));
    assert_eq!(env_text(&env, "KEEP").as_deref(), Some("yes"));
}

#[test]
fn test_save_app_env_keeps_runtime_and_args() {
    let registry = fixture_registry();
    let mut doc = ConfigDoc::new();
    install(&registry, "Time", None, &mut doc).unwrap();

    let mut env: StrMap<Scalar> = StrMap::new();
    env.insert("TZ".to_string(), Scalar::Text("UTC".to_string()));
    save_app_env(&registry, "Time", env, &mut doc).unwrap();

    let entry = doc.servers.get("time").unwrap();
    assert_eq!(entry.runtime, "npx");
    assert_eq!(entry.args, vec!["-y".to_string(), "mcp-server-time".to_string()]);
    assert_eq!(env_text(&entry.env, "TZ").as_deref(), Some("UTC"));
}

#[test]
fn test_statuses_configured_requires_env() {
    let registry = fixture_registry();
    let mut doc = ConfigDoc::new();

    install(&registry, "Browser", None, &mut doc).unwrap();
    let statuses = get_app_statuses(&registry, &doc);
    assert_eq!(statuses.installed.get("Browser").copied(), Some(true));
    assert_eq!(statuses.configured.get("Browser").copied(), Some(false));

    let mut env: StrMap<Scalar> = StrMap::new();
    env.insert("ENDPOINT".to_string(), Scalar::Text("localhost:9222".to_string()));
    save_app_env(&registry, "Browser", env, &mut doc).unwrap();

    let statuses = get_app_statuses(&registry, &doc);
    assert_eq!(statuses.configured.get("Browser").copied(), Some(true));
}
