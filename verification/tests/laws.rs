use zombienet_configuration::parachain::{ParachainConfigBuilder, RegistrationStrategy};

#[test]
fn an_early_refusal_still_fails_the_build() {
    let errors = ParachainConfigBuilder::new()
        .with_id(7)
        .with_chain("bad chain")
        .with_chain("goodchain")
        .with_default_command("cmd")
        .with_collator(|c| c.with_name("a").with_command("run"))
        .build()
        .unwrap_err();
    assert_eq!(errors.len(), 1);
    assert_eq!(
        errors[0].to_string(),
        "parachain[7].chain: 'bad chain' shouldn't contains whitespace"
    );
}

#[test]
fn every_error_is_reported_in_order_with_the_id() {
    let errors = ParachainConfigBuilder::new()
        .with_id(4294967295)
        .with_default_command("a b")
        .with_chain("")
        .with_genesis_state_generator("x\ty")
        .with_collator(|c| c.with_name("n").with_image("Bad"))
        .build()
        .unwrap_err();
    let texts: Vec<String> = errors.iter().map(|e| e.to_string()).collect();
    assert_eq!(
        texts,
        vec![
            "parachain[4294967295].default_command: 'a b' shouldn't contains whitespace",
            "parachain[4294967295].chain: can't be empty",
            "parachain[4294967295].genesis_state_generator: 'x\ty' shouldn't contains whitespace",
            "parachain[4294967295].collators['n'].image: 'Bad' doesn't match regex '^([ip]|[hostname]/)?[tag_name]:[tag_version]?$'",
        ]
    );
}

#[test]
fn a_taken_value_is_read_back() {
    let config = ParachainConfigBuilder::new()
        .with_id(0)
        .with_chain("rococo-local")
        .with_default_command("polkadot-parachain")
        .with_genesis_wasm_generator("export-wasm")
        .with_genesis_state_generator("export-state")
        .with_collator(|c| c.with_name("alice"))
        .build()
        .unwrap();
    assert_eq!(config.id(), 0);
    assert_eq!(config.chain().unwrap().as_str(), "rococo-local");
    assert_eq!(config.default_command().unwrap().as_str(), "polkadot-parachain");
    assert_eq!(config.genesis_wasm_generator().unwrap().as_str(), "export-wasm");
    assert_eq!(config.genesis_state_generator().unwrap().as_str(), "export-state");
}

#[test]
fn the_last_value_wins() {
    let config = ParachainConfigBuilder::new()
        .with_id(1)
        .with_initial_balance(5)
        .with_initial_balance(9)
        .with_registration_strategy(RegistrationStrategy::UsingExtrinsic)
        .with_registration_strategy(RegistrationStrategy::InGenesis)
        .with_chain("first")
        .with_chain("second")
        .with_collator(|c| c.with_name("alice"))
        .build()
        .unwrap();
    assert_eq!(config.initial_balance(), 9);
    assert_eq!(config.registration_strategy(), Some(&RegistrationStrategy::InGenesis));
    assert_eq!(config.chain().unwrap().as_str(), "second");
}

#[test]
fn every_address_is_taken_or_reported() {
    let mut addrs: Vec<&str> = vec!["/ip4/127.0.0.1/tcp/30333"; 11];
    addrs.push("ip4/127.0.0.1");
    addrs.push("/dns/example.com/tcp/1");
    let errors = ParachainConfigBuilder::new()
        .with_id(3)
        .with_bootnodes_addresses(addrs)
        .with_collator(|c| c.with_name("alice"))
        .build()
        .unwrap_err();
    assert_eq!(errors.len(), 1);
    assert_eq!(
        errors[0].to_string(),
        "parachain[3].bootnodes_addresses[11]: 'ip4/127.0.0.1' invalid multiaddr"
    );

    let config = ParachainConfigBuilder::new()
        .with_id(3)
        .with_bootnodes_addresses(vec!["/ip4/127.0.0.1/tcp/0080", "/dns/example.com/tcp/1"])
        .with_collator(|c| c.with_name("alice"))
        .build()
        .unwrap();
    assert_eq!(
        config.bootnodes_addresses(),
        vec!["/ip4/127.0.0.1/tcp/80", "/dns/example.com/tcp/1"]
    );
}

#[test]
fn later_bootnodes_replace_earlier_ones() {
    let config = ParachainConfigBuilder::new()
        .with_id(3)
        .with_bootnodes_addresses(vec!["/ip4/127.0.0.1/tcp/1"])
        .with_bootnodes_addresses(vec!["/ip4/127.0.0.2/tcp/2"])
        .with_collator(|c| c.with_name("alice"))
        .build()
        .unwrap();
    assert_eq!(config.bootnodes_addresses(), vec!["/ip4/127.0.0.2/tcp/2"]);
}

#[test]
fn defaults_reach_the_first_collator_only() {
    let config = ParachainConfigBuilder::new()
        .with_id(5)
        .with_default_command("polkadot-parachain")
        .with_default_image("parity:latest")
        .with_default_resources(|r| r.with_request_cpu("1"))
        .with_default_db_snapshot("./snap.tgz")
        .with_collator(|c| c.with_name("first"))
        .with_collator(|c| c.with_name("second"))
        .build()
        .unwrap();
    let collators = config.collators();
    assert_eq!(collators[0].command().unwrap().as_str(), "polkadot-parachain");
    assert_eq!(collators[0].image().unwrap().as_str(), "parity:latest");
    assert_eq!(
        collators[0].resources().unwrap().request_cpu().unwrap().as_str(),
        "1"
    );
    assert!(collators[0].db_snapshot().is_some());
    assert!(collators[1].command().is_none());
    assert!(collators[1].image().is_none());
    assert!(collators[1].resources().is_none());
    assert!(collators[1].db_snapshot().is_none());
}

#[test]
fn a_failed_first_collator_leaves_no_collator() {
    let errors = ParachainConfigBuilder::new()
        .with_id(6)
        .with_collator(|c| {
            c.with_name("bad")
                .with_command("a b")
                .with_resources(|r| r.with_limit_memory("1X").with_limit_cpu("2y"))
        })
        .with_collator(|c| c.with_name("good"))
        .build()
        .unwrap_err();
    let texts: Vec<String> = errors.iter().map(|e| e.to_string()).collect();
    assert_eq!(
        texts,
        vec![
            "parachain[6].collators['bad'].command: 'a b' shouldn't contains whitespace",
            r"parachain[6].collators['bad'].resources.limit_memory: '1X' doesn't match regex '^\d+(.\d+)?(m|K|M|G|T|P|E|Ki|Mi|Gi|Ti|Pi|Ei)?$'",
            r"parachain[6].collators['bad'].resources.limit_cpu: '2y' doesn't match regex '^\d+(.\d+)?(m|K|M|G|T|P|E|Ki|Mi|Gi|Ti|Pi|Ei)?$'",
        ]
    );
}
