use multiaddr::Multiaddr;
use zombienet_configuration::parachain::{ParachainConfigBuilder, RegistrationStrategy};
use zombienet_configuration::types::{Arg, AssetLocation};

#[test]
fn parachain_config_builder_should_succeeds_and_returns_a_new_parachain_config() {
    let parachain_config = ParachainConfigBuilder::new()
        .with_id(1000)
        .with_chain("mychainname")
        .with_registration_strategy(RegistrationStrategy::UsingExtrinsic)
        .with_initial_balance(100_000_042)
        .with_default_image("myrepo:myimage")
        .with_default_command("default_command")
        .with_default_resources(|resources| {
            resources
                .with_limit_cpu("500M")
                .with_limit_memory("1G")
                .with_request_cpu("250M")
        })
        .with_default_db_snapshot("https://www.urltomysnapshot.com/file.tgz")
        .with_default_args(vec![Arg::option("--arg1", "value1"), Arg::flag("--option2")])
        .with_genesis_wasm_path("https://www.backupsite.com/my/wasm/file.tgz")
        .with_genesis_wasm_generator("generator_wasm")
        .with_genesis_state_path("./path/to/genesis/state")
        .with_genesis_state_generator("generator_state")
        .with_chain_spec_path("./path/to/chain/spec.json")
        .cumulus_based(false)
        .with_bootnodes_addresses(vec![
            "/ip4/10.41.122.55/tcp/45421",
            "/ip4/51.144.222.10/tcp/2333",
        ])
        .with_collator(|collator| {
            collator
                .with_name("collator1")
                .with_command("command1")
                .bootnode(true)
        })
        .with_collator(|collator| {
            collator
                .with_name("collator2")
                .with_command("command2")
                .validator(true)
        })
        .build()
        .unwrap();

    assert_eq!(parachain_config.id(), 1000);
    assert_eq!(parachain_config.collators().len(), 2);
    let &collator1 = parachain_config.collators().first().unwrap();
    assert_eq!(collator1.name(), "collator1");
    assert_eq!(collator1.command().unwrap().as_str(), "command1");
    assert!(collator1.is_bootnode());
    let &collator2 = parachain_config.collators().last().unwrap();
    assert_eq!(collator2.name(), "collator2");
    assert_eq!(collator2.command().unwrap().as_str(), "command2");
    assert!(collator2.is_validator());
    assert_eq!(parachain_config.chain().unwrap().as_str(), "mychainname");
    assert_eq!(
        parachain_config.registration_strategy().unwrap(),
        &RegistrationStrategy::UsingExtrinsic
    );
    assert_eq!(parachain_config.initial_balance(), 100_000_042);
    assert_eq!(
        parachain_config.default_command().unwrap().as_str(),
        "default_command"
    );
    assert_eq!(
        parachain_config.default_image().unwrap().as_str(),
        "myrepo:myimage"
    );
    let default_resources = parachain_config.default_resources().unwrap();
    assert_eq!(default_resources.limit_cpu().unwrap().as_str(), "500M");
    assert_eq!(default_resources.limit_memory().unwrap().as_str(), "1G");
    assert_eq!(default_resources.request_cpu().unwrap().as_str(), "250M");
    assert!(matches!(
        parachain_config.default_db_snapshot().unwrap(),
        AssetLocation::Url(value) if value.as_str() == "https://www.urltomysnapshot.com/file.tgz",
    ));
    assert!(matches!(
        parachain_config.chain_spec_path().unwrap(),
        AssetLocation::FilePath(value) if value.as_str() == "./path/to/chain/spec.json"
    ));
    let args: Vec<Arg> = vec![Arg::option("--arg1", "value1"), Arg::flag("--option2")];
    assert_eq!(
        parachain_config.default_args(),
        args.iter().collect::<Vec<_>>()
    );
    assert!(matches!(
        parachain_config.genesis_wasm_path().unwrap(),
        AssetLocation::Url(value) if value.as_str() == "https://www.backupsite.com/my/wasm/file.tgz"
    ));
    assert_eq!(
        parachain_config.genesis_wasm_generator().unwrap().as_str(),
        "generator_wasm"
    );
    assert!(matches!(
        parachain_config.genesis_state_path().unwrap(),
        AssetLocation::FilePath(value) if value.as_str() == "./path/to/genesis/state"
    ));
    assert_eq!(
        parachain_config.genesis_state_generator().unwrap().as_str(),
        "generator_state"
    );
    assert!(matches!(
        parachain_config.chain_spec_path().unwrap(),
        AssetLocation::FilePath(value) if value.as_str() == "./path/to/chain/spec.json"
    ));
    assert!(!parachain_config.is_cumulus_based());
    let bootnodes_addresses: Vec<String> = vec![
        "/ip4/10.41.122.55/tcp/45421".parse::<Multiaddr>().unwrap().to_string(),
        "/ip4/51.144.222.10/tcp/2333".parse::<Multiaddr>().unwrap().to_string(),
    ];
    assert_eq!(
        parachain_config.bootnodes_addresses(),
        bootnodes_addresses.iter().collect::<Vec<_>>()
    );
}

#[test]
fn parachain_config_builder_should_fails_and_returns_an_error_if_chain_is_invalid() {
    let errors = ParachainConfigBuilder::new()
        .with_id(1000)
        .with_chain("invalid chain")
        .with_collator(|collator| {
            collator
                .with_name("collator")
                .with_command("command")
                .validator(true)
        })
        .build()
        .unwrap_err();

    assert_eq!(errors.len(), 1);
    assert_eq!(
        errors.get(0).unwrap().to_string(),
        "parachain[1000].chain: 'invalid chain' shouldn't contains whitespace"
    );
}

#[test]
fn parachain_config_builder_should_fails_and_returns_an_error_if_default_command_is_invalid() {
    let errors = ParachainConfigBuilder::new()
        .with_id(1000)
        .with_chain("chain")
        .with_default_command("invalid command")
        .with_collator(|collator| {
            collator
                .with_name("node")
                .with_command("command")
                .validator(true)
        })
        .build()
        .unwrap_err();

    assert_eq!(errors.len(), 1);
    assert_eq!(
        errors.get(0).unwrap().to_string(),
        "parachain[1000].default_command: 'invalid command' shouldn't contains whitespace"
    );
}

#[test]
fn parachain_config_builder_should_fails_and_returns_an_error_if_default_image_is_invalid() {
    let errors = ParachainConfigBuilder::new()
        .with_id(1000)
        .with_chain("chain")
        .with_default_image("invalid image")
        .with_collator(|collator| {
            collator
                .with_name("node")
                .with_command("command")
                .validator(true)
        })
        .build()
        .unwrap_err();

    assert_eq!(errors.len(), 1);
    assert_eq!(
        errors.get(0).unwrap().to_string(),
        r"parachain[1000].default_image: 'invalid image' doesn't match regex '^([ip]|[hostname]/)?[tag_name]:[tag_version]?$'"
    );
}

#[test]
fn parachain_config_builder_should_fails_and_returns_an_error_if_default_resources_are_invalid()
{
    let errors = ParachainConfigBuilder::new()
        .with_id(1000)
        .with_chain("chain")
        .with_default_resources(|default_resources| {
            default_resources
                .with_limit_memory("100m")
                .with_request_cpu("invalid")
        })
        .with_collator(|collator| {
            collator
                .with_name("node")
                .with_command("command")
                .validator(true)
        })
        .build()
        .unwrap_err();

    assert_eq!(errors.len(), 1);
    assert_eq!(
        errors.get(0).unwrap().to_string(),
        r"parachain[1000].default_resources.request_cpu: 'invalid' doesn't match regex '^\d+(.\d+)?(m|K|M|G|T|P|E|Ki|Mi|Gi|Ti|Pi|Ei)?$'"
    );
}

#[test]
fn parachain_config_builder_should_fails_and_returns_an_error_if_genesis_wasm_generator_is_invalid(
) {
    let errors = ParachainConfigBuilder::new()
        .with_id(2000)
        .with_chain("myparachain")
        .with_genesis_wasm_generator("invalid command")
        .with_collator(|collator| {
            collator
                .with_name("collator")
                .with_command("command")
                .validator(true)
        })
        .build()
        .unwrap_err();

    assert_eq!(errors.len(), 1);
    assert_eq!(
        errors.get(0).unwrap().to_string(),
        "parachain[2000].genesis_wasm_generator: 'invalid command' shouldn't contains whitespace"
    );
}

#[test]
fn parachain_config_builder_should_fails_and_returns_an_error_if_genesis_state_generator_is_invalid(
) {
    let errors = ParachainConfigBuilder::new()
        .with_id(1000)
        .with_chain("myparachain")
        .with_genesis_state_generator("invalid command")
        .with_collator(|collator| {
            collator
                .with_name("collator")
                .with_command("command")
                .validator(true)
        })
        .build()
        .unwrap_err();

    assert_eq!(errors.len(), 1);
    assert_eq!(
        errors.get(0).unwrap().to_string(),
        "parachain[1000].genesis_state_generator: 'invalid command' shouldn't contains whitespace"
    );
}

#[test]
fn parachain_config_builder_should_fails_and_returns_an_error_if_bootnodes_addresses_are_invalid(
) {
    let errors = ParachainConfigBuilder::new()
        .with_id(2000)
        .with_chain("myparachain")
        .with_bootnodes_addresses(vec!["/ip4//tcp/45421", "//10.42.153.10/tcp/43111"])
        .with_collator(|collator| {
            collator
                .with_name("collator")
                .with_command("command")
                .validator(true)
        })
        .build()
        .unwrap_err();

    assert_eq!(errors.len(), 2);
    assert_eq!(
        errors.get(0).unwrap().to_string(),
        "parachain[2000].bootnodes_addresses[0]: '/ip4//tcp/45421' failed to parse: invalid IPv4 address syntax"
    );
    assert_eq!(
        errors.get(1).unwrap().to_string(),
        "parachain[2000].bootnodes_addresses[1]: '//10.42.153.10/tcp/43111' unknown protocol string: "
    );
}

#[test]
fn parachain_config_builder_should_fails_and_returns_an_error_if_first_collator_is_invalid() {
    let errors = ParachainConfigBuilder::new()
        .with_id(1000)
        .with_chain("myparachain")
        .with_collator(|collator| {
            collator
                .with_name("collator")
                .with_command("invalid command")
        })
        .build()
        .unwrap_err();

    assert_eq!(errors.len(), 1);
    assert_eq!(
        errors.get(0).unwrap().to_string(),
        "parachain[1000].collators['collator'].command: 'invalid command' shouldn't contains whitespace"
    );
}

#[test]
fn parachain_config_builder_with_at_least_one_collator_should_fails_and_returns_an_error_if_second_collator_is_invalid(
) {
    let errors = ParachainConfigBuilder::new()
        .with_id(2000)
        .with_chain("myparachain")
        .with_collator(|collator| {
            collator
                .with_name("collator1")
                .with_command("command1")
                .invulnerable(true)
                .bootnode(true)
        })
        .with_collator(|collator| {
            collator
                .with_name("collator2")
                .with_command("invalid command")
                .with_initial_balance(20000000)
        })
        .build()
        .unwrap_err();

    assert_eq!(errors.len(), 1);
    assert_eq!(
        errors.get(0).unwrap().to_string(),
        "parachain[2000].collators['collator2'].command: 'invalid command' shouldn't contains whitespace"
    );
}

#[test]
fn parachain_config_builder_should_fails_and_returns_multiple_errors_if_multiple_fields_are_invalid(
) {
    let errors = ParachainConfigBuilder::new()
        .with_id(2000)
        .with_chain("myparachain")
        .with_bootnodes_addresses(vec!["/ip4//tcp/45421", "//10.42.153.10/tcp/43111"])
        .with_collator(|collator| {
            collator
                .with_name("collator1")
                .with_command("invalid command")
                .invulnerable(true)
                .bootnode(true)
                .with_resources(|resources| {
                    resources
                        .with_limit_cpu("invalid")
                        .with_request_memory("1G")
                })
        })
        .with_collator(|collator| {
            collator
                .with_name("collator2")
                .with_command("command2")
                .with_image("invalid.image")
                .with_initial_balance(20000000)
        })
        .build()
        .unwrap_err();

    assert_eq!(errors.len(), 5);
    assert_eq!(
        errors.get(0).unwrap().to_string(),
        "parachain[2000].bootnodes_addresses[0]: '/ip4//tcp/45421' failed to parse: invalid IPv4 address syntax"
    );
    assert_eq!(
        errors.get(1).unwrap().to_string(),
        "parachain[2000].bootnodes_addresses[1]: '//10.42.153.10/tcp/43111' unknown protocol string: "
    );
    assert_eq!(
        errors.get(2).unwrap().to_string(),
        "parachain[2000].collators['collator1'].command: 'invalid command' shouldn't contains whitespace"
    );
    assert_eq!(
        errors.get(3).unwrap().to_string(),
        r"parachain[2000].collators['collator1'].resources.limit_cpu: 'invalid' doesn't match regex '^\d+(.\d+)?(m|K|M|G|T|P|E|Ki|Mi|Gi|Ti|Pi|Ei)?$'",
    );
    assert_eq!(
        errors.get(4).unwrap().to_string(),
        "parachain[2000].collators['collator2'].image: 'invalid.image' doesn't match regex '^([ip]|[hostname]/)?[tag_name]:[tag_version]?$'"
    );
}
