use selfci::config::{
    get_config_path, read_local_config, read_merged_mq_config, try_resolve_base_branch_from_config,
    CommandConfig, ConfigFile, JobConfig, LocalConfig, MQConfig, MQHooksConfig, MergeStyle,
    MergedMQConfig,
};
use selfci::{constants, init_config, read_config, CloneMode, InitResult, MainError, SelfCIConfig};

fn no_hooks() -> MQHooksConfig {
    MQHooksConfig {
        pre_start: None,
        post_start: None,
        pre_clone: None,
        post_clone: None,
        pre_merge: None,
        post_merge: None,
    }
}

fn hook(command: &str) -> Option<CommandConfig> {
    Some(CommandConfig {
        command: Some(command.to_string()),
        command_prefix: vec!["bash".to_string(), "-c".to_string()],
    })
}

fn command_of(hook: &Option<CommandConfig>) -> Option<&str> {
    hook.as_ref().and_then(|h| h.command.as_deref())
}

fn config(mq: Option<MQConfig>) -> SelfCIConfig {
    SelfCIConfig {
        job: JobConfig {
            command: "echo test".to_string(),
            command_prefix: vec!["sh".to_string(), "-c".to_string()],
            clone_mode: CloneMode::Partial,
        },
        mq,
    }
}

#[test]
fn test_init_config() {
    let plan = init_config("/project", false, false, false);
    assert_eq!(plan.directory, "/project/.config/selfci");
    assert_eq!(plan.result, InitResult::Created);
    let content = |name: &str| {
        let path = get_config_path("/project", name);
        let file = plan.files.iter().find(|(p, _)| *p == path);
        file.map(|(_, content)| content.clone()).unwrap_or_else(|| panic!("{} should exist", name))
    };

    let ci = content(constants::CONFIG_FILENAME);
    assert!(ci.contains("command:"), "Config should contain 'command:' field");
    assert!(ci.contains("SelfCI Configuration"), "Config should contain header comment");

    let local = content(constants::LOCAL_CONFIG_FILENAME);
    assert!(local.contains("SelfCI Local Configuration"));
    for name in
        ["pre-start:", "post-start:", "pre-clone:", "post-clone:", "pre-merge:", "post-merge:"]
    {
        assert!(local.contains(name), "Local config should contain {} hook example", name);
    }

    let gitignore = content(constants::GITIGNORE_FILENAME);
    assert!(gitignore.contains("local.yaml"), ".gitignore should ignore local.yaml");

    // What is written is a configuration.
    let parsed: serde_yaml::Value = serde_yaml::from_str(&ci).unwrap();
    assert!(parsed.get("job").and_then(|job| job.get("command")).is_some());
    let parsed: serde_yaml::Value = serde_yaml::from_str(&local).unwrap();
    assert!(parsed.get("mq").is_some());
}

#[test]
fn test_init_config_preserves_existing() {
    let plan = init_config("/project", true, true, true);
    assert!(plan.files.is_empty(), "{:?}", plan.files);
    assert_eq!(plan.result, InitResult::AlreadyExists);

    let plan = init_config("/project", true, true, false);
    assert_eq!(plan.files.len(), 1);
    assert_eq!(plan.files[0].0, "/project/.config/selfci/.gitignore");
}

#[test]
fn test_read_config_missing() {
    let result = read_config(ConfigFile::Missing);
    assert!(result.is_err(), "Should fail when config doesn't exist");
    assert!(matches!(result, Err(MainError::NotInitialized)));
}

#[test]
fn configurations_that_cannot_be_read_or_parsed_are_errors() {
    match read_config(ConfigFile::Unreadable("denied".to_string())) {
        Err(MainError::ReadFailed(e)) => assert_eq!(e, "denied"),
        other => panic!("{:?}", other),
    }
    match read_config(ConfigFile::Unparsable("unknown field".to_string())) {
        Err(MainError::ParseFailed(e)) => assert_eq!(e, "unknown field"),
        other => panic!("{:?}", other),
    }
    let parsed = read_config(ConfigFile::Parsed(config(None))).unwrap();
    assert_eq!(parsed.job.command, "echo test");
    assert_eq!(parsed.job.command_prefix, vec!["sh", "-c"]);

    assert!(read_local_config(ConfigFile::Missing).unwrap().is_none());
    match read_local_config(ConfigFile::Unparsable("bad".to_string())) {
        Err(MainError::ParseFailed(e)) => assert_eq!(e, "bad"),
        other => panic!("{:?}", other),
    }
}

#[test]
fn local_hooks_replace_those_of_the_project() {
    let mut project = no_hooks();
    project.pre_start = hook("project start");
    project.pre_merge = hook("project merge");
    let mut local = no_hooks();
    local.pre_merge = hook("local merge");
    local.post_merge = hook("local after");
    let main = config(Some(MQConfig {
        base_branch: Some("main".to_string()),
        merge_mode: MergeStyle::Merge,
        hooks: project,
    }));

    let merged = read_merged_mq_config(
        ConfigFile::Parsed(main),
        ConfigFile::Parsed(LocalConfig { mq: Some(local) }),
    )
    .unwrap();
    assert_eq!(merged.base_branch.as_deref(), Some("main"));
    assert_eq!(merged.merge_mode, MergeStyle::Merge);
    assert_eq!(command_of(&merged.hooks.pre_start), Some("project start"));
    assert_eq!(command_of(&merged.hooks.pre_merge), Some("local merge"));
    assert_eq!(command_of(&merged.hooks.post_merge), Some("local after"));
    assert_eq!(command_of(&merged.hooks.post_start), None);
}

#[test]
fn without_a_queue_section_the_defaults_hold() {
    let merged = MergedMQConfig::from_configs(None, None);
    assert_eq!(merged.base_branch, None);
    assert_eq!(merged.merge_mode, MergeStyle::Rebase);
    assert!(merged.hooks.pre_start.is_none());
}

#[test]
fn errors_of_either_file_fail_the_merged_configuration() {
    let broken = || ConfigFile::Unparsable("line 1".to_string());
    assert!(matches!(
        read_merged_mq_config(broken(), ConfigFile::Missing),
        Err(MainError::ParseFailed(_))
    ));
    assert!(matches!(
        read_merged_mq_config(
            ConfigFile::Parsed(config(None)),
            ConfigFile::Unparsable("line 1".to_string())
        ),
        Err(MainError::ParseFailed(_))
    ));
}

#[test]
fn overriding_twice_is_overriding_once() {
    let mut hooks = no_hooks();
    hooks.pre_start = hook("first");
    let mut other = no_hooks();
    other.pre_start = hook("second");
    hooks.override_with(&other);
    hooks.override_with(&other);
    assert_eq!(command_of(&hooks.pre_start), Some("second"));
    hooks.override_with(&no_hooks());
    assert_eq!(command_of(&hooks.pre_start), Some("second"));
}

#[test]
fn commands_follow_their_prefix() {
    let set = hook("make check").unwrap();
    assert!(set.is_set());
    assert_eq!(set.full_command(), vec!["bash", "-c", "make check"]);
    let unset = CommandConfig { command: None, command_prefix: vec!["bash".to_string()] };
    assert!(!unset.is_set());
}

#[test]
fn base_branches_come_from_readable_configurations_only() {
    let mq = MQConfig {
        base_branch: Some("trunk".to_string()),
        merge_mode: MergeStyle::Rebase,
        hooks: no_hooks(),
    };
    let with = ConfigFile::Parsed(config(Some(mq)));
    assert_eq!(try_resolve_base_branch_from_config(with), Some("trunk".to_string()));
    assert_eq!(try_resolve_base_branch_from_config(ConfigFile::Parsed(config(None))), None);
    assert_eq!(try_resolve_base_branch_from_config(ConfigFile::Missing), None);
    let broken = ConfigFile::Unparsable("x".to_string());
    assert_eq!(try_resolve_base_branch_from_config(broken), None);
}
