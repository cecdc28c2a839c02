use deepomni::plugin::{
    FoundPlugin, PluginInterface, PluginLoadOutcome, PluginManager, PluginManifest,
    ResolvedPluginPaths,
};

fn manifest() -> PluginManifest {
    PluginManifest {
        id: "deepomni.test".into(),
        name: "Test Plugin".into(),
        version: Some("0.1.0".into()),
        description: Some("A test plugin".into()),
        skills: Some("./skills".into()),
        tools: None,
        mcp_servers: None,
        hooks: None,
        commands: None,
        permissions: vec!["filesystem.read".into()],
        runtime: None,
        interface: Some(PluginInterface {
            display_name: Some("Test".into()),
            capabilities: Some(vec!["testing".into()]),
        }),
    }
}

fn setup() -> Vec<FoundPlugin> {
    vec![FoundPlugin {
        manifest_path: "/plugins/test-plugin/plugin.json".into(),
        root: "/plugins/test-plugin".into(),
        manifest: Ok((
            manifest(),
            ResolvedPluginPaths {
                skills: Some("/plugins/test-plugin/./skills".into()),
                tools: None,
                mcp_servers: None,
                hooks: None,
                commands: None,
            },
        )),
    }]
}

#[test]
fn test_discover_plugin() {
    let mut manager = PluginManager::new(vec!["/plugins".into()]);
    let outcomes = manager.discover(&setup());
    assert_eq!(outcomes.len(), 1);

    let plugin = manager.get("deepomni.test").unwrap();
    assert_eq!(plugin.manifest.name, "Test Plugin");
    assert!(plugin.enabled);
    assert!(plugin.resolved_paths.skills.is_some());
}

#[test]
fn lib_test_enable_disable() {
    let mut manager = PluginManager::new(vec!["/plugins".into()]);
    manager.discover(&setup());

    assert!(manager.disable("deepomni.test"));
    assert!(!manager.get("deepomni.test").unwrap().enabled);
    assert!(manager.active_skill_paths().is_empty());

    assert!(manager.enable("deepomni.test"));
    assert!(manager.get("deepomni.test").unwrap().enabled);
    assert_eq!(
        manager.active_skill_paths(),
        vec!["/plugins/test-plugin/./skills".to_string()]
    );

    assert!(!manager.enable("nonexistent"));
    assert!(manager.active_mcp_paths().is_empty());
}

#[test]
fn test_capability_summary() {
    let mut manager = PluginManager::new(vec!["/plugins".into()]);
    manager.discover(&setup());

    let summaries = manager.list();
    assert_eq!(summaries.len(), 1);
    assert_eq!(summaries[0].id, "deepomni.test");
    assert!(summaries[0].has_skills);
    assert!(!summaries[0].has_mcp_servers);
    assert_eq!(summaries[0].capabilities, vec!["testing".to_string()]);
}

#[test]
fn test_manifest_validation() {
    let mut manager = PluginManager::new(vec!["/plugins".into()]);
    let outcomes = manager.discover(&vec![FoundPlugin {
        manifest_path: "/plugins/bad/plugin.json".into(),
        root: "/plugins/bad".into(),
        manifest: Err("expected ident at line 1 column 2".into()),
    }]);
    assert_eq!(outcomes.len(), 1);
    assert!(matches!(outcomes[0], PluginLoadOutcome::InvalidManifest { .. }));
    assert!(manager.is_empty());
}

#[test]
fn a_switch_changes_one_plugin() {
    let mut found = setup();
    let mut other = manifest();
    other.id = "deepomni.other".into();
    found.push(FoundPlugin {
        manifest_path: "/plugins/other/plugin.json".into(),
        root: "/plugins/other".into(),
        manifest: Ok((
            other,
            ResolvedPluginPaths {
                skills: Some("/plugins/other/skills".into()),
                tools: None,
                mcp_servers: None,
                hooks: None,
                commands: None,
            },
        )),
    });
    let mut manager = PluginManager::new(vec!["/plugins".into()]);
    manager.discover(&found);
    assert!(manager.disable("deepomni.test"));
    assert!(manager.get("deepomni.other").unwrap().enabled);
    assert_eq!(manager.active_skill_paths(), vec!["/plugins/other/skills".to_string()]);
    assert!(manager.enable("deepomni.test"));
    assert_eq!(manager.active_skill_paths().len(), 2);
}
