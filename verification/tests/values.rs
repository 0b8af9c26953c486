use zombienet_configuration::errors::ConversionError;
use zombienet_configuration::node::{ChainDefaultContext, NodeConfigBuilder};
use zombienet_configuration::parachain::{bootnode_outcomes, ParachainConfigBuilder, RegistrationStrategy};
use zombienet_configuration::resources::ResourcesBuilder;
use zombienet_configuration::types::{Arg, AssetLocation, Chain, Command, Image, ResourceQuantity};

#[test]
fn a_new_builder_holds_the_defaults() {
    let config = ParachainConfigBuilder::new()
        .with_id(100)
        .with_collator(|c| c.with_name("alice"))
        .build()
        .unwrap();
    assert_eq!(config.id(), 100);
    assert!(config.chain().is_none());
    assert_eq!(config.registration_strategy(), Some(&RegistrationStrategy::InGenesis));
    assert_eq!(config.initial_balance(), 2_000_000_000_000);
    assert!(config.is_cumulus_based());
    assert!(config.default_args().is_empty());
    assert!(config.bootnodes_addresses().is_empty());
    let alice = config.collators()[0];
    assert!(alice.is_validator());
    assert!(alice.is_invulnerable());
    assert!(!alice.is_bootnode());
    assert_eq!(alice.initial_balance(), 2_000_000_000_000);
}

#[test]
fn chain_names_refuse_whitespace_and_emptiness() {
    assert_eq!(Chain::try_from("rococo").unwrap().as_str(), "rococo");
    assert!(matches!(Chain::try_from(""), Err(ConversionError::CantBeEmpty)));
    assert_eq!(
        Chain::try_from("a\u{3000}b").unwrap_err().to_string(),
        "'a\u{3000}b' shouldn't contains whitespace"
    );
    assert!(Chain::try_from("a\u{200b}b").is_ok());
}

#[test]
fn commands_refuse_whitespace_only() {
    assert!(Command::try_from("").is_ok());
    assert!(Command::try_from("./target/release/polkadot").is_ok());
    assert!(Command::try_from("polkadot\n").is_err());
    assert!(Command::try_from("a\u{a0}b").is_err());
}

#[test]
fn images_follow_their_pattern() {
    for ok in [
        "myimage",
        "myrepo:myimage",
        "myrepo/myimage",
        "myrepo/myimage:v1.2_3",
        "docker.io/polkadot:latest",
        "127.0.0.1/polkadot",
        "Registry-1.Example.com/my--image:_x",
        "10.0.0.255polkadot",
        "1.2.3.45",
    ] {
        assert!(Image::try_from(ok).is_ok(), "{ok}");
    }
    for bad in [
        "",
        "invalid image",
        "invalid.image",
        "MyImage",
        "image-",
        "image:",
        "image:-v",
        "a:b:c",
        "host/",
        "-host/image",
        "host./image",
        "a/b/c",
        "256.0.0.1x",
        "01.0.0.1x",
    ] {
        assert!(Image::try_from(bad).is_err(), "{bad}");
    }
}

#[test]
fn quantities_follow_their_pattern() {
    for ok in ["1", "500M", "1G", "250m", "1.5Gi", "100m", "12Ei", "3x4", "0K"] {
        assert!(ResourceQuantity::try_from(ok).is_ok(), "{ok}");
    }
    for bad in ["", "invalid", "1.", ".5", "5Mb", "1\n5", "m", "1mi", "1.5.5", "Ki", "1 G"] {
        assert!(ResourceQuantity::try_from(bad).is_err(), "{bad}");
    }
    assert_eq!(
        ResourceQuantity::try_from("1X").unwrap_err().to_string(),
        r"'1X' doesn't match regex '^\d+(.\d+)?(m|K|M|G|T|P|E|Ki|Mi|Gi|Ti|Pi|Ei)?$'"
    );
}

#[test]
fn resources_collect_every_refusal() {
    let resources = ResourcesBuilder::new()
        .with_request_memory("1Gi")
        .with_request_cpu("500m")
        .with_limit_memory("2Gi")
        .with_limit_cpu("1")
        .build()
        .unwrap();
    assert_eq!(resources.request_memory().unwrap().as_str(), "1Gi");
    assert_eq!(resources.request_cpu().unwrap().as_str(), "500m");
    assert_eq!(resources.limit_memory().unwrap().as_str(), "2Gi");
    assert_eq!(resources.limit_cpu().unwrap().as_str(), "1");

    let errors = ResourcesBuilder::new()
        .with_request_memory("x")
        .with_limit_cpu("y")
        .build()
        .unwrap_err();
    let texts: Vec<String> = errors.iter().map(|e| e.to_string()).collect();
    assert_eq!(
        texts,
        vec![
            r"request_memory: 'x' doesn't match regex '^\d+(.\d+)?(m|K|M|G|T|P|E|Ki|Mi|Gi|Ti|Pi|Ei)?$'",
            r"limit_cpu: 'y' doesn't match regex '^\d+(.\d+)?(m|K|M|G|T|P|E|Ki|Mi|Gi|Ti|Pi|Ei)?$'",
        ]
    );
}

#[test]
fn locations_are_urls_where_they_parse_as_urls() {
    assert!(matches!(
        AssetLocation::from_str("HTTPS://Example.COM"),
        AssetLocation::Url(u) if u == "https://example.com/"
    ));
    assert!(matches!(
        AssetLocation::from_str("/tmp/chain-spec.json"),
        AssetLocation::FilePath(p) if p == "/tmp/chain-spec.json"
    ));
}

#[test]
fn a_node_builder_reports_its_name_with_its_errors() {
    let node = NodeConfigBuilder::new(ChainDefaultContext::default())
        .with_name("bob")
        .with_command("polkadot")
        .with_image("parity:v1")
        .validator(false)
        .invulnerable(false)
        .bootnode(true)
        .with_initial_balance(7)
        .with_db_snapshot("https://example.com/db.tgz")
        .build()
        .unwrap();
    assert_eq!(node.name(), "bob");
    assert_eq!(node.command().unwrap().as_str(), "polkadot");
    assert_eq!(node.image().unwrap().as_str(), "parity:v1");
    assert!(!node.is_validator());
    assert!(!node.is_invulnerable());
    assert!(node.is_bootnode());
    assert_eq!(node.initial_balance(), 7);
    assert!(matches!(node.db_snapshot(), Some(AssetLocation::Url(_))));

    let (name, errors) = NodeConfigBuilder::new(ChainDefaultContext::default())
        .with_name("carol")
        .with_image("bad image")
        .build()
        .unwrap_err();
    assert_eq!(name, "carol");
    assert_eq!(errors.len(), 1);
    assert_eq!(
        errors[0].to_string(),
        "image: 'bad image' doesn't match regex '^([ip]|[hostname]/)?[tag_name]:[tag_version]?$'"
    );
}

#[test]
fn arguments_are_handed_down_and_kept() {
    let config = ParachainConfigBuilder::new()
        .with_id(9)
        .with_default_args(vec![Arg::flag("--dev"), Arg::option("--port", "30333")])
        .with_collator(|c| c.with_name("alice"))
        .with_collator(|c| c.with_name("bob").with_args(vec![Arg::flag("--alice")]))
        .build()
        .unwrap();
    let expected = vec![Arg::flag("--dev"), Arg::option("--port", "30333")];
    assert_eq!(config.default_args(), expected.iter().collect::<Vec<_>>());
    assert_eq!(config.collators()[0].args(), expected.iter().collect::<Vec<_>>());
    assert_eq!(config.collators()[1].args(), vec![&Arg::flag("--alice")]);
    assert_eq!(config.clone(), config);
}

#[test]
fn bootnode_outcomes_keep_accepted_and_report_refused() {
    let addrs = vec!["/ip4/1.2.3.4/tcp/1", "bad", "/dns/x/tcp/2"];
    let outcomes = vec![
        Ok(String::from("/ip4/1.2.3.4/tcp/1")),
        Err(String::from("invalid multiaddr")),
        Ok(String::from("/dns/x/tcp/2")),
    ];
    let (taken, errors) = bootnode_outcomes(&addrs, outcomes);
    assert_eq!(taken, vec!["/ip4/1.2.3.4/tcp/1", "/dns/x/tcp/2"]);
    assert_eq!(errors.len(), 1);
    assert_eq!(
        errors[0].to_string(),
        "bootnodes_addresses[1]: 'bad' invalid multiaddr"
    );
}

#[test]
fn a_location_follows_the_url_outcome() {
    assert!(matches!(
        AssetLocation::from_outcome("x", Some(String::from("https://x/"))),
        AssetLocation::Url(u) if u == "https://x/"
    ));
    assert!(matches!(
        AssetLocation::from_outcome("./x", None),
        AssetLocation::FilePath(p) if p == "./x"
    ));
}

#[test]
fn quantities_take_decimal_digits_of_any_script() {
    for ok in ["\u{663}G", "\u{ff11}\u{ff10}Mi", "1.\u{966}5", "\u{1e4f1}"] {
        assert!(ResourceQuantity::try_from(ok).is_ok(), "{ok}");
    }
    for bad in ["\u{b2}G", "\u{2167}", "1.\u{bd}"] {
        assert!(ResourceQuantity::try_from(bad).is_err(), "{bad}");
    }
}

#[test]
fn a_location_without_a_colon_is_a_path() {
    assert!(matches!(
        AssetLocation::from_str("./path/to/chain/spec.json"),
        AssetLocation::FilePath(p) if p == "./path/to/chain/spec.json"
    ));
    assert!(matches!(
        AssetLocation::from_str("relative/file"),
        AssetLocation::FilePath(p) if p == "relative/file"
    ));
}
