use rigos::config::ToolConfig;
use rigos::registry::{build_tool_registry, ActiveToolRegistry, ToolArtifact, ToolRegistry};

#[test]
fn red_team_missing_wasm_path_aborts_daemon_startup() {
    let tools = vec![ToolConfig {
        name: "ghost_tool".to_string(),
        wasm_path: "/tmp/non_existent_tool.wasm".to_string(),
    }];
    let loaded = vec![Err("No such file or directory (os error 2)".to_string())];

    let result = build_tool_registry(&tools, loaded);
    assert!(result.is_err(), "Daemon must abort on unlocatable WASM mappings");
    let message = match result {
        Err(e) => e.message,
        Ok(_) => String::new(),
    };
    assert!(message.contains("Failed loading configured WASM tool"));
    assert_eq!(
        message,
        "Failed loading configured WASM tool 'ghost_tool' from '/tmp/non_existent_tool.wasm': No such file or directory (os error 2)"
    );
}

#[test]
fn configured_tools_are_registered_and_resolvable() {
    let tools = vec![
        ToolConfig { name: "a".to_string(), wasm_path: "/a.wasm".to_string() },
        ToolConfig { name: "b".to_string(), wasm_path: "/b.wasm".to_string() },
    ];
    let registry = build_tool_registry(&tools, vec![Ok(vec![1, 2, 3]), Ok(vec![4])]).unwrap();
    let a = registry.resolve_tool("a").unwrap().unwrap();
    assert_eq!(a.wasm_bytes, vec![1, 2, 3]);
    let b = registry.resolve_tool("b").unwrap().unwrap();
    assert_eq!(b.wasm_bytes, vec![4]);
    assert!(registry.resolve_tool("c").unwrap().is_none());
}

#[test]
fn later_registration_under_a_name_wins() {
    let mut registry = ActiveToolRegistry::new();
    registry.register(ToolArtifact::new("t", vec![1]));
    registry.register(ToolArtifact::new("u", vec![2]));
    registry.register(ToolArtifact::new("t", vec![3]));
    assert_eq!(registry.find("t").unwrap().wasm_bytes, vec![3]);
    assert_eq!(registry.find("u").unwrap().wasm_bytes, vec![2]);
}

#[test]
fn artifact_is_sealed_with_sha256_of_its_bytes() {
    let artifact = ToolArtifact::new("empty", Vec::new());
    assert_eq!(
        artifact.sha256,
        "e3b0c44298fc1c149afbf4c8996fb92427ae41e4649b934ca495991b7852b855"
    );
    let abc = ToolArtifact::new("abc", b"abc".to_vec());
    assert_eq!(
        abc.sha256,
        "ba7816bf8f01cfea414140de5dae2223b00361a396177a9cb410ff61f20015ad"
    );
    assert_eq!(abc.name, "abc");
    assert_eq!(abc.wasm_bytes, b"abc".to_vec());
}

#[test]
fn first_failure_aborts_even_after_successes() {
    let tools = vec![
        ToolConfig { name: "ok".to_string(), wasm_path: "/ok.wasm".to_string() },
        ToolConfig { name: "bad".to_string(), wasm_path: "/bad.wasm".to_string() },
        ToolConfig { name: "worse".to_string(), wasm_path: "/worse.wasm".to_string() },
    ];
    let loaded = vec![Ok(vec![0]), Err("denied".to_string()), Err("gone".to_string())];
    let message = match build_tool_registry(&tools, loaded) {
        Err(e) => e.message,
        Ok(_) => String::new(),
    };
    assert_eq!(message, "Failed loading configured WASM tool 'bad' from '/bad.wasm': denied");
}
