//! Parachains: their configuration and the builder that checks it.
use std::marker::PhantomData;
use vstd::prelude::*;
use crate::errors::{
    ConfigError, ConfigErrorView, FieldError, FieldErrorView, ParachainError, ParachainErrorView,
    ResourceError, ResourceErrorView,
};
use crate::net::{multiaddr_parse, parse_multiaddr, texts_of};
use crate::node::{
    self, ref_of, refs_of, ChainDefaultContext, ChainDefaultContextView,
    NodeBuilderView, NodeConfig, NodeConfigBuilder, NodeConfigView,
};
use crate::resources::{Resources, ResourcesBuilder, ResourcesBuilderView, ResourcesView};
use crate::types::{
    append_mapped, chain_rule, clone_args, command_rule, image_rule, lemma_views_of_push, location_rule, opt_view,
    views_of, Arg, ArgView, AssetLocation, AssetLocationView, Chain, Command, Image,
};

verus! {

/// How a parachain is registered on its relay chain.
#[derive(Debug, Clone, Copy, PartialEq, Eq, Structural)]
pub enum RegistrationStrategy {
    /// In the genesis of the relay chain.
    InGenesis,
    /// By an extrinsic once the network runs.
    UsingExtrinsic,
}

impl View for RegistrationStrategy {
    type V = RegistrationStrategy;

    open spec fn view(&self) -> RegistrationStrategy {
        *self
    }
}

/// A parachain configuration, composed of collators and fine-grained
/// configuration options.
#[derive(Debug, Clone, PartialEq)]
pub struct ParachainConfig {
    id: u32,
    chain: Option<Chain>,
    registration_strategy: Option<RegistrationStrategy>,
    initial_balance: u128,
    default_command: Option<Command>,
    default_image: Option<Image>,
    default_resources: Option<Resources>,
    default_db_snapshot: Option<AssetLocation>,
    default_args: Vec<Arg>,
    genesis_wasm_path: Option<AssetLocation>,
    genesis_wasm_generator: Option<Command>,
    genesis_state_path: Option<AssetLocation>,
    genesis_state_generator: Option<Command>,
    chain_spec_path: Option<AssetLocation>,
    is_cumulus_based: bool,
    bootnodes_addresses: Vec<String>,
    collators: Vec<NodeConfig>,
}

pub struct ParachainConfigView {
    pub id: u32,
    pub chain: Option<Seq<char>>,
    pub registration_strategy: Option<RegistrationStrategy>,
    pub initial_balance: u128,
    pub default_command: Option<Seq<char>>,
    pub default_image: Option<Seq<char>>,
    pub default_resources: Option<ResourcesView>,
    pub default_db_snapshot: Option<AssetLocationView>,
    pub default_args: Seq<ArgView>,
    pub genesis_wasm_path: Option<AssetLocationView>,
    pub genesis_wasm_generator: Option<Seq<char>>,
    pub genesis_state_path: Option<AssetLocationView>,
    pub genesis_state_generator: Option<Seq<char>>,
    pub chain_spec_path: Option<AssetLocationView>,
    pub is_cumulus_based: bool,
    /// The canonical text of each address.
    pub bootnodes_addresses: Seq<Seq<char>>,
    pub collators: Seq<NodeConfigView>,
}

impl View for ParachainConfig {
    type V = ParachainConfigView;

    closed spec fn view(&self) -> ParachainConfigView {
        ParachainConfigView {
            id: self.id,
            chain: opt_view(self.chain),
            registration_strategy: self.registration_strategy,
            initial_balance: self.initial_balance,
            default_command: opt_view(self.default_command),
            default_image: opt_view(self.default_image),
            default_resources: opt_view(self.default_resources),
            default_db_snapshot: opt_view(self.default_db_snapshot),
            default_args: views_of(self.default_args@),
            genesis_wasm_path: opt_view(self.genesis_wasm_path),
            genesis_wasm_generator: opt_view(self.genesis_wasm_generator),
            genesis_state_path: opt_view(self.genesis_state_path),
            genesis_state_generator: opt_view(self.genesis_state_generator),
            chain_spec_path: opt_view(self.chain_spec_path),
            is_cumulus_based: self.is_cumulus_based,
            bootnodes_addresses: views_of(self.bootnodes_addresses@),
            collators: views_of(self.collators@),
        }
    }
}

impl ParachainConfig {
    pub fn id(&self) -> (r: u32)
        ensures
            r == self@.id,
    {
        self.id
    }

    pub fn chain(&self) -> (r: Option<&Chain>)
        ensures
            opt_view(r) == self@.chain,
    {
        ref_of(&self.chain)
    }

    pub fn registration_strategy(&self) -> (r: Option<&RegistrationStrategy>)
        ensures
            opt_view(r) == self@.registration_strategy,
    {
        ref_of(&self.registration_strategy)
    }

    pub fn initial_balance(&self) -> (r: u128)
        ensures
            r == self@.initial_balance,
    {
        self.initial_balance
    }

    pub fn default_command(&self) -> (r: Option<&Command>)
        ensures
            opt_view(r) == self@.default_command,
    {
        ref_of(&self.default_command)
    }

    pub fn default_image(&self) -> (r: Option<&Image>)
        ensures
            opt_view(r) == self@.default_image,
    {
        ref_of(&self.default_image)
    }

    pub fn default_resources(&self) -> (r: Option<&Resources>)
        ensures
            opt_view(r) == self@.default_resources,
    {
        ref_of(&self.default_resources)
    }

    pub fn default_db_snapshot(&self) -> (r: Option<&AssetLocation>)
        ensures
            opt_view(r) == self@.default_db_snapshot,
    {
        ref_of(&self.default_db_snapshot)
    }

    pub fn default_args(&self) -> (r: Vec<&Arg>)
        ensures
            views_of(r@) == self@.default_args,
    {
        refs_of(&self.default_args)
    }

    pub fn genesis_wasm_path(&self) -> (r: Option<&AssetLocation>)
        ensures
            opt_view(r) == self@.genesis_wasm_path,
    {
        ref_of(&self.genesis_wasm_path)
    }

    pub fn genesis_wasm_generator(&self) -> (r: Option<&Command>)
        ensures
            opt_view(r) == self@.genesis_wasm_generator,
    {
        ref_of(&self.genesis_wasm_generator)
    }

    pub fn genesis_state_path(&self) -> (r: Option<&AssetLocation>)
        ensures
            opt_view(r) == self@.genesis_state_path,
    {
        ref_of(&self.genesis_state_path)
    }

    pub fn genesis_state_generator(&self) -> (r: Option<&Command>)
        ensures
            opt_view(r) == self@.genesis_state_generator,
    {
        ref_of(&self.genesis_state_generator)
    }

    pub fn chain_spec_path(&self) -> (r: Option<&AssetLocation>)
        ensures
            opt_view(r) == self@.chain_spec_path,
    {
        ref_of(&self.chain_spec_path)
    }

    pub fn is_cumulus_based(&self) -> (r: bool)
        ensures
            r == self@.is_cumulus_based,
    {
        self.is_cumulus_based
    }

    /// The canonical text of each bootnode address.
    pub fn bootnodes_addresses(&self) -> (r: Vec<&String>)
        ensures
            views_of(r@) == self@.bootnodes_addresses,
    {
        refs_of(&self.bootnodes_addresses)
    }

    pub fn collators(&self) -> (r: Vec<&NodeConfig>)
        ensures
            views_of(r@) == self@.collators,
    {
        refs_of(&self.collators)
    }
}

/// What the address parser makes of each address of `addrs`, in order.
pub open spec fn address_outcomes(addrs: Seq<Seq<char>>) -> Seq<Result<Seq<char>, Seq<char>>> {
    addrs.map_values(|a: Seq<char>| multiaddr_parse(a))
}

/// The text of each outcome of `outcomes`.
pub open spec fn outcome_texts(outcomes: Seq<Result<String, String>>) -> Seq<
    Result<Seq<char>, Seq<char>>,
> {
    outcomes.map_values(|o: Result<String, String>| texts_of(o))
}

/// The canonical text of each outcome that is an address, in order.
pub open spec fn parsed_addresses(outcomes: Seq<Result<Seq<char>, Seq<char>>>) -> Seq<Seq<char>>
    decreases outcomes.len(),
{
    if outcomes.len() == 0 {
        Seq::empty()
    } else {
        let prev = parsed_addresses(outcomes.drop_last());
        match outcomes.last() {
            Ok(a) => prev.push(a),
            Err(_) => prev,
        }
    }
}

/// An error for each outcome that is a refusal, in order, with its
/// position, the address of `addrs` at that position, and the parser's
/// message.
pub open spec fn address_errors(
    addrs: Seq<Seq<char>>,
    outcomes: Seq<Result<Seq<char>, Seq<char>>>,
) -> Seq<FieldErrorView>
    decreases outcomes.len(),
{
    if outcomes.len() == 0 {
        Seq::empty()
    } else {
        let prev = address_errors(addrs, outcomes.drop_last());
        let i = outcomes.len() - 1;
        match outcomes.last() {
            Ok(_) => prev,
            Err(m) => prev.push(FieldErrorView::BootnodesAddress(i as nat, addrs[i], m)),
        }
    }
}

/// Each field error as an error of the parachain.
pub open spec fn as_parachain_errors(es: Seq<FieldErrorView>) -> Seq<ParachainErrorView> {
    es.map_values(|e: FieldErrorView| ParachainErrorView::Field(e))
}

/// Each field error as an error of the collator `name`.
pub open spec fn as_collator_errors(name: Seq<char>, es: Seq<FieldErrorView>) -> Seq<
    ParachainErrorView,
> {
    es.map_values(|e: FieldErrorView| ParachainErrorView::Collator(name, e))
}

/// A state of a parachain builder; `needs_collator` holds of the states
/// reached by giving a collator.
pub trait BuildState {
    spec fn needs_collator() -> bool;
}

/// The state of a parachain builder before the parachain has an id.
#[derive(Debug)]
pub struct Initial;

impl BuildState for Initial {
    open spec fn needs_collator() -> bool {
        false
    }
}

impl BuildState for WithId {
    open spec fn needs_collator() -> bool {
        false
    }
}

impl BuildState for WithAtLeastOneCollator {
    open spec fn needs_collator() -> bool {
        true
    }
}

/// The state of a parachain builder once the parachain has an id.
#[derive(Debug)]
pub struct WithId;

/// The state of a parachain builder once it has been given a collator.
#[derive(Debug)]
pub struct WithAtLeastOneCollator;

/// The value of a parachain builder: the configuration so far, and the
/// errors of what it refused, in the order of the calls.
pub struct ParachainBuilderView {
    pub config: ParachainConfigView,
    pub errors: Seq<ParachainErrorView>,
}

/// The id that a parachain has until it is given one.
pub open spec fn default_parachain_id() -> u32 {
    100
}

/// The balance that a parachain starts with where none is given.
pub open spec fn default_parachain_balance() -> u128 {
    2_000_000_000_000
}

impl ParachainBuilderView {
    /// A builder that has taken nothing yet: id 100, registered in genesis,
    /// the default balance, based on cumulus, nothing else set.
    pub open spec fn initial() -> ParachainBuilderView {
        ParachainBuilderView {
            config: ParachainConfigView {
                id: default_parachain_id(),
                chain: None,
                registration_strategy: Some(RegistrationStrategy::InGenesis),
                initial_balance: default_parachain_balance(),
                default_command: None,
                default_image: None,
                default_resources: None,
                default_db_snapshot: None,
                default_args: Seq::empty(),
                genesis_wasm_path: None,
                genesis_wasm_generator: None,
                genesis_state_path: None,
                genesis_state_generator: None,
                chain_spec_path: None,
                is_cumulus_based: true,
                bootnodes_addresses: Seq::empty(),
                collators: Seq::empty(),
            },
            errors: Seq::empty(),
        }
    }

    /// What the parachain hands down to its first collator.
    pub open spec fn default_context(self) -> ChainDefaultContextView {
        ChainDefaultContextView {
            default_command: self.config.default_command,
            default_image: self.config.default_image,
            default_resources: self.config.default_resources,
            default_db_snapshot: self.config.default_db_snapshot,
            default_args: self.config.default_args,
        }
    }

    pub open spec fn with_id(self, id: u32) -> ParachainBuilderView {
        ParachainBuilderView { config: ParachainConfigView { id, ..self.config }, ..self }
    }

    pub open spec fn with_chain(self, v: Seq<char>) -> ParachainBuilderView {
        match chain_rule(v) {
            Ok(c) => ParachainBuilderView {
                config: ParachainConfigView { chain: Some(c), ..self.config },
                ..self
            },
            Err(e) => ParachainBuilderView {
                errors: self.errors.push(ParachainErrorView::Field(FieldErrorView::Chain(e))),
                ..self
            },
        }
    }

    pub open spec fn with_registration_strategy(self, s: RegistrationStrategy) -> ParachainBuilderView {
        ParachainBuilderView {
            config: ParachainConfigView { registration_strategy: Some(s), ..self.config },
            ..self
        }
    }

    pub open spec fn with_initial_balance(self, balance: u128) -> ParachainBuilderView {
        ParachainBuilderView {
            config: ParachainConfigView { initial_balance: balance, ..self.config },
            ..self
        }
    }

    pub open spec fn with_default_command(self, v: Seq<char>) -> ParachainBuilderView {
        match command_rule(v) {
            Ok(c) => ParachainBuilderView {
                config: ParachainConfigView { default_command: Some(c), ..self.config },
                ..self
            },
            Err(e) => ParachainBuilderView {
                errors: self.errors.push(
                    ParachainErrorView::Field(FieldErrorView::DefaultCommand(e)),
                ),
                ..self
            },
        }
    }

    pub open spec fn with_default_image(self, v: Seq<char>) -> ParachainBuilderView {
        match image_rule(v) {
            Ok(i) => ParachainBuilderView {
                config: ParachainConfigView { default_image: Some(i), ..self.config },
                ..self
            },
            Err(e) => ParachainBuilderView {
                errors: self.errors.push(
                    ParachainErrorView::Field(FieldErrorView::DefaultImage(e)),
                ),
                ..self
            },
        }
    }

    /// Takes the resources that `built` gives as the default resources, or
    /// records each of its errors as one of the default resources.
    pub open spec fn with_default_resources(self, built: ResourcesBuilderView) -> ParachainBuilderView {
        match built.build() {
            Ok(r) => ParachainBuilderView {
                config: ParachainConfigView { default_resources: Some(r), ..self.config },
                ..self
            },
            Err(es) => ParachainBuilderView {
                errors: self.errors + as_parachain_errors(
                    es.map_values(|e: ResourceErrorView| FieldErrorView::DefaultResources(e)),
                ),
                ..self
            },
        }
    }

    pub open spec fn with_default_db_snapshot(self, v: Seq<char>) -> ParachainBuilderView {
        ParachainBuilderView {
            config: ParachainConfigView {
                default_db_snapshot: Some(location_rule(v)),
                ..self.config
            },
            ..self
        }
    }

    pub open spec fn with_default_args(self, args: Seq<ArgView>) -> ParachainBuilderView {
        ParachainBuilderView {
            config: ParachainConfigView { default_args: args, ..self.config },
            ..self
        }
    }

    pub open spec fn with_genesis_wasm_path(self, v: Seq<char>) -> ParachainBuilderView {
        ParachainBuilderView {
            config: ParachainConfigView { genesis_wasm_path: Some(location_rule(v)), ..self.config },
            ..self
        }
    }

    pub open spec fn with_genesis_wasm_generator(self, v: Seq<char>) -> ParachainBuilderView {
        match command_rule(v) {
            Ok(c) => ParachainBuilderView {
                config: ParachainConfigView { genesis_wasm_generator: Some(c), ..self.config },
                ..self
            },
            Err(e) => ParachainBuilderView {
                errors: self.errors.push(
                    ParachainErrorView::Field(FieldErrorView::GenesisWasmGenerator(e)),
                ),
                ..self
            },
        }
    }

    pub open spec fn with_genesis_state_path(self, v: Seq<char>) -> ParachainBuilderView {
        ParachainBuilderView {
            config: ParachainConfigView { genesis_state_path: Some(location_rule(v)), ..self.config },
            ..self
        }
    }

    pub open spec fn with_genesis_state_generator(self, v: Seq<char>) -> ParachainBuilderView {
        match command_rule(v) {
            Ok(c) => ParachainBuilderView {
                config: ParachainConfigView { genesis_state_generator: Some(c), ..self.config },
                ..self
            },
            Err(e) => ParachainBuilderView {
                errors: self.errors.push(
                    ParachainErrorView::Field(FieldErrorView::GenesisStateGenerator(e)),
                ),
                ..self
            },
        }
    }

    pub open spec fn with_chain_spec_path(self, v: Seq<char>) -> ParachainBuilderView {
        ParachainBuilderView {
            config: ParachainConfigView { chain_spec_path: Some(location_rule(v)), ..self.config },
            ..self
        }
    }

    pub open spec fn cumulus_based(self, choice: bool) -> ParachainBuilderView {
        ParachainBuilderView {
            config: ParachainConfigView { is_cumulus_based: choice, ..self.config },
            ..self
        }
    }

    /// Replaces the bootnodes by the addresses of `addrs` that parse, and
    /// records an error for each one that does not.
    pub open spec fn with_bootnodes_addresses(self, addrs: Seq<Seq<char>>) -> ParachainBuilderView {
        ParachainBuilderView {
            config: ParachainConfigView {
                bootnodes_addresses: parsed_addresses(address_outcomes(addrs)),
                ..self.config
            },
            errors: self.errors + as_parachain_errors(
                address_errors(addrs, address_outcomes(addrs)),
            ),
        }
    }

    /// Makes the node that `built` gives the only collator, or records each
    /// of its errors as one of the collator.
    pub open spec fn with_first_collator(self, built: NodeBuilderView) -> ParachainBuilderView {
        match built.build() {
            Ok(n) => ParachainBuilderView {
                config: ParachainConfigView { collators: seq![n], ..self.config },
                ..self
            },
            Err((name, es)) => ParachainBuilderView {
                errors: self.errors + as_collator_errors(name, es),
                ..self
            },
        }
    }

    /// Adds the node that `built` gives as the last collator, or records
    /// each of its errors as one of the collator.
    pub open spec fn with_collator(self, built: NodeBuilderView) -> ParachainBuilderView {
        match built.build() {
            Ok(n) => ParachainBuilderView {
                config: ParachainConfigView { collators: self.config.collators.push(n), ..self.config },
                ..self
            },
            Err((name, es)) => ParachainBuilderView {
                errors: self.errors + as_collator_errors(name, es),
                ..self
            },
        }
    }

    /// The configuration, if nothing was refused; else every error, in
    /// order, each marked with the id of the parachain.
    pub open spec fn build(self) -> Result<ParachainConfigView, Seq<ConfigErrorView>> {
        if self.errors.len() == 0 {
            Ok(self.config)
        } else {
            Err(
                self.errors.map_values(
                    |e: ParachainErrorView| ConfigErrorView::Parachain(self.config.id as nat, e),
                ),
            )
        }
    }
}

/// Builds a [`ParachainConfig`], checking each value and collecting every
/// error; `S` is the state of the building, which decides the calls that
/// may follow.
#[derive(Debug)]
pub struct ParachainConfigBuilder<S: BuildState> {
    config: ParachainConfig,
    errors: Vec<ParachainError>,
    _state: PhantomData<S>,
}

impl<S: BuildState> ParachainConfigBuilder<S> {
    /// Once a collator has been given, the builder holds a collator or has
    /// recorded an error.
    #[verifier::type_invariant]
    spec fn collator_or_error(self) -> bool {
        S::needs_collator() ==> self.config.collators.len() >= 1 || self.errors.len() >= 1
    }
}

impl<S: BuildState> View for ParachainConfigBuilder<S> {
    type V = ParachainBuilderView;

    closed spec fn view(&self) -> ParachainBuilderView {
        ParachainBuilderView { config: self.config@, errors: views_of(self.errors@) }
    }
}

/// The value of the outcome of building a parachain.
pub open spec fn parachain_build_view(r: Result<ParachainConfig, Vec<ConfigError>>) -> Result<
    ParachainConfigView,
    Seq<ConfigErrorView>,
> {
    match r {
        Ok(c) => Ok(c@),
        Err(es) => Err(views_of(es@)),
    }
}

impl Default for ParachainConfigBuilder<Initial> {
    fn default() -> (b: Self)
        ensures
            b@ == ParachainBuilderView::initial(),
    {
        let b = ParachainConfigBuilder {
            config: ParachainConfig {
                id: 100,
                chain: None,
                registration_strategy: Some(RegistrationStrategy::InGenesis),
                initial_balance: 2_000_000_000_000,
                default_command: None,
                default_image: None,
                default_resources: None,
                default_db_snapshot: None,
                default_args: Vec::new(),
                genesis_wasm_path: None,
                genesis_wasm_generator: None,
                genesis_state_path: None,
                genesis_state_generator: None,
                chain_spec_path: None,
                is_cumulus_based: true,
                bootnodes_addresses: Vec::new(),
                collators: Vec::new(),
            },
            errors: Vec::new(),
            _state: PhantomData,
        };
        assert(b@.errors =~= Seq::<ParachainErrorView>::empty());
        assert(b@.config.default_args =~= Seq::<ArgView>::empty());
        assert(b@.config.bootnodes_addresses =~= Seq::<Seq<char>>::empty());
        assert(b@.config.collators =~= Seq::<NodeConfigView>::empty());
        b
    }
}

impl<A: BuildState> ParachainConfigBuilder<A> {
    fn transition<B: BuildState>(config: ParachainConfig, errors: Vec<ParachainError>) -> (b: ParachainConfigBuilder<B>)
        requires
            B::needs_collator() ==> config.collators.len() >= 1 || errors.len() >= 1,
        ensures
            b@ == (ParachainBuilderView { config: config@, errors: views_of(errors@) }),
    {
        ParachainConfigBuilder { config, errors, _state: PhantomData }
    }

    fn default_context(&self) -> (c: ChainDefaultContext)
        ensures
            c@ == self@.default_context(),
    {
        let default_command = match &self.config.default_command {
            Some(c) => Some(c.clone()),
            None => None,
        };
        let default_image = match &self.config.default_image {
            Some(i) => Some(i.clone()),
            None => None,
        };
        let default_resources = match &self.config.default_resources {
            Some(r) => Some(r.clone()),
            None => None,
        };
        let default_db_snapshot = match &self.config.default_db_snapshot {
            Some(l) => Some(l.clone()),
            None => None,
        };
        ChainDefaultContext {
            default_command,
            default_image,
            default_resources,
            default_db_snapshot,
            default_args: clone_args(&self.config.default_args),
        }
    }
}

/// Appends `e` to `errors`.
fn record(errors: Vec<ParachainError>, e: ParachainError) -> (r: Vec<ParachainError>)
    ensures
        views_of(r@) == views_of(errors@).push(e@),
{
    let mut errors = errors;
    proof {
        lemma_views_of_push(errors@, e);
    }
    errors.push(e);
    errors
}

impl ParachainConfigBuilder<Initial> {
    /// A builder that has taken nothing yet.
    pub fn new() -> (b: ParachainConfigBuilder<Initial>)
        ensures
            b@ == ParachainBuilderView::initial(),
    {
        Self::default()
    }

    pub fn with_id(self, id: u32) -> (b: ParachainConfigBuilder<WithId>)
        ensures
            b@ == self@.with_id(id),
    {
        Self::transition(ParachainConfig { id, ..self.config }, self.errors)
    }
}

impl ParachainConfigBuilder<WithId> {
    pub fn with_chain(self, chain: &str) -> (b: Self)
        ensures
            b@ == self@.with_chain(chain@),
    {
        match Chain::try_from(chain) {
            Ok(chain) => Self::transition(
                ParachainConfig { chain: Some(chain), ..self.config },
                self.errors,
            ),
            Err(error) => Self::transition(
                self.config,
                record(self.errors, ParachainError::Field(FieldError::Chain(error))),
            ),
        }
    }

    pub fn with_registration_strategy(self, strategy: RegistrationStrategy) -> (b: Self)
        ensures
            b@ == self@.with_registration_strategy(strategy),
    {
        Self::transition(
            ParachainConfig { registration_strategy: Some(strategy), ..self.config },
            self.errors,
        )
    }

    pub fn with_initial_balance(self, initial_balance: u128) -> (b: Self)
        ensures
            b@ == self@.with_initial_balance(initial_balance),
    {
        Self::transition(ParachainConfig { initial_balance, ..self.config }, self.errors)
    }

    pub fn with_default_command(self, command: &str) -> (b: Self)
        ensures
            b@ == self@.with_default_command(command@),
    {
        match Command::try_from(command) {
            Ok(command) => Self::transition(
                ParachainConfig { default_command: Some(command), ..self.config },
                self.errors,
            ),
            Err(error) => Self::transition(
                self.config,
                record(self.errors, ParachainError::Field(FieldError::DefaultCommand(error))),
            ),
        }
    }

    pub fn with_default_image(self, image: &str) -> (b: Self)
        ensures
            b@ == self@.with_default_image(image@),
    {
        match Image::try_from(image) {
            Ok(image) => Self::transition(
                ParachainConfig { default_image: Some(image), ..self.config },
                self.errors,
            ),
            Err(error) => Self::transition(
                self.config,
                record(self.errors, ParachainError::Field(FieldError::DefaultImage(error))),
            ),
        }
    }

    pub fn with_default_db_snapshot(self, location: &str) -> (b: Self)
        ensures
            b@ == self@.with_default_db_snapshot(location@),
    {
        Self::transition(
            ParachainConfig {
                default_db_snapshot: Some(AssetLocation::from_str(location)),
                ..self.config
            },
            self.errors,
        )
    }

    pub fn with_default_args(self, args: Vec<Arg>) -> (b: Self)
        ensures
            b@ == self@.with_default_args(views_of(args@)),
    {
        Self::transition(ParachainConfig { default_args: args, ..self.config }, self.errors)
    }

    pub fn with_genesis_wasm_path(self, location: &str) -> (b: Self)
        ensures
            b@ == self@.with_genesis_wasm_path(location@),
    {
        Self::transition(
            ParachainConfig {
                genesis_wasm_path: Some(AssetLocation::from_str(location)),
                ..self.config
            },
            self.errors,
        )
    }

    pub fn with_genesis_wasm_generator(self, command: &str) -> (b: Self)
        ensures
            b@ == self@.with_genesis_wasm_generator(command@),
    {
        match Command::try_from(command) {
            Ok(command) => Self::transition(
                ParachainConfig { genesis_wasm_generator: Some(command), ..self.config },
                self.errors,
            ),
            Err(error) => Self::transition(
                self.config,
                record(self.errors, ParachainError::Field(FieldError::GenesisWasmGenerator(error))),
            ),
        }
    }

    pub fn with_genesis_state_path(self, location: &str) -> (b: Self)
        ensures
            b@ == self@.with_genesis_state_path(location@),
    {
        Self::transition(
            ParachainConfig {
                genesis_state_path: Some(AssetLocation::from_str(location)),
                ..self.config
            },
            self.errors,
        )
    }

    pub fn with_genesis_state_generator(self, command: &str) -> (b: Self)
        ensures
            b@ == self@.with_genesis_state_generator(command@),
    {
        match Command::try_from(command) {
            Ok(command) => Self::transition(
                ParachainConfig { genesis_state_generator: Some(command), ..self.config },
                self.errors,
            ),
            Err(error) => Self::transition(
                self.config,
                record(
                    self.errors,
                    ParachainError::Field(FieldError::GenesisStateGenerator(error)),
                ),
            ),
        }
    }

    pub fn with_chain_spec_path(self, location: &str) -> (b: Self)
        ensures
            b@ == self@.with_chain_spec_path(location@),
    {
        Self::transition(
            ParachainConfig {
                chain_spec_path: Some(AssetLocation::from_str(location)),
                ..self.config
            },
            self.errors,
        )
    }

    pub fn cumulus_based(self, choice: bool) -> (b: Self)
        ensures
            b@ == self@.cumulus_based(choice),
    {
        Self::transition(ParachainConfig { is_cumulus_based: choice, ..self.config }, self.errors)
    }
}

/// `e` as an error of the default resources of the parachain.
fn as_default_resources_error(e: ResourceError) -> (r: ParachainError)
    ensures
        r@ == ParachainErrorView::Field(FieldErrorView::DefaultResources(e@)),
{
    ParachainError::Field(FieldError::DefaultResources(e))
}

/// `errors` followed by each of `es` as an error of the default resources.
fn record_default_resource_errors(errors: Vec<ParachainError>, es: Vec<ResourceError>) -> (r: Vec<
    ParachainError,
>)
    ensures
        views_of(r@) == views_of(errors@) + as_parachain_errors(
            views_of(es@).map_values(|e: ResourceErrorView| FieldErrorView::DefaultResources(e)),
        ),
{
    let mut errors = errors;
    let ghost ev = es@;
    append_mapped(
        &mut errors,
        es,
        as_default_resources_error,
        Ghost(|e: ResourceError| ParachainErrorView::Field(FieldErrorView::DefaultResources(e@))),
    );
    assert(ev.map_values(
        |e: ResourceError| ParachainErrorView::Field(FieldErrorView::DefaultResources(e@)),
    ) =~= as_parachain_errors(
        views_of(ev).map_values(|e: ResourceErrorView| FieldErrorView::DefaultResources(e)),
    ));
    errors
}

/// `errors` followed by each of `es` as an error of the collator `name`.
fn record_collator_errors(errors: Vec<ParachainError>, name: String, es: Vec<FieldError>) -> (r: Vec<
    ParachainError,
>)
    ensures
        views_of(r@) == views_of(errors@) + as_collator_errors(name@, views_of(es@)),
{
    let mut errors = errors;
    let ghost ev = es@;
    let ghost n = name@;
    append_mapped(
        &mut errors,
        es,
        (|e: FieldError| -> (r: ParachainError)
            ensures
                r@ == ParachainErrorView::Collator(n, e@),
            { ParachainError::Collator(name.clone(), e) }),
        Ghost(|e: FieldError| ParachainErrorView::Collator(n, e@)),
    );
    assert(ev.map_values(|e: FieldError| ParachainErrorView::Collator(n, e@)) =~= as_collator_errors(
        n,
        views_of(ev),
    ));
    errors
}

/// The addresses that parsed, and an error for each address that did not,
/// given what the address parser made of each of `addrs`, in order.
pub fn bootnode_outcomes(addrs: &Vec<&str>, outcomes: Vec<Result<String, String>>) -> (r: (
    Vec<String>,
    Vec<ParachainError>,
))
    requires
        outcomes.len() == addrs.len(),
    ensures
        views_of(r.0@) == parsed_addresses(outcome_texts(outcomes@)),
        views_of(r.1@) == as_parachain_errors(
            address_errors(views_of(addrs@), outcome_texts(outcomes@)),
        ),
{
    let ghost av = views_of(addrs@);
    let ghost texts = outcome_texts(outcomes@);
    let mut taken: Vec<String> = Vec::new();
    let mut errors: Vec<ParachainError> = Vec::new();
    let mut index: usize = 0;
    for outcome in it: outcomes.into_iter()
        invariant
            it.seq().len() == addrs.len(),
            outcome_texts(it.seq()) == texts,
            texts.len() == addrs.len(),
            av == views_of(addrs@),
            index == it.index(),
            views_of(taken@) == parsed_addresses(texts.take(index as int)),
            views_of(errors@) == as_parachain_errors(address_errors(av, texts.take(index as int))),
    {
        let ghost prefix = texts.take(index + 1);
        proof {
            assert(prefix.drop_last() =~= texts.take(index as int));
            assert(prefix.last() == texts[index as int]);
            assert(texts[index as int] == texts_of(outcome));
            assert(av[index as int] == addrs@[index as int]@);
        }
        match outcome {
            Ok(a) => {
                proof {
                    lemma_views_of_push(taken@, a);
                }
                taken.push(a);
            },
            Err(message) => {
                let e = ParachainError::Field(
                    FieldError::BootnodesAddress(index, String::from_str(addrs[index]), message),
                );
                proof {
                    lemma_views_of_push(errors@, e);
                    assert(as_parachain_errors(address_errors(av, prefix)) =~= as_parachain_errors(
                        address_errors(av, texts.take(index as int)),
                    ).push(e@));
                }
                errors.push(e);
            },
        }
        index = index + 1;
    }
    assert(texts.take(index as int) =~= texts);
    (taken, errors)
}

impl ParachainConfigBuilder<WithId> {
    /// Takes the resources that `f` builds from an empty resources builder
    /// as the default resources, or records each of their errors.
    pub fn with_default_resources<F: Fn(ResourcesBuilder) -> ResourcesBuilder>(self, f: F) -> (b: Self)
        requires
            forall|r: ResourcesBuilder| f.requires((r,)),
        ensures
            exists|given: ResourcesBuilder, built: ResourcesBuilder|
                given@ == ResourcesBuilderView::empty() && #[trigger] f.ensures((given,), built)
                    && b@ == self@.with_default_resources(built@),
    {
        let given = ResourcesBuilder::new();
        let ghost g = given;
        let built = f(given);
        let ghost bc = built;
        let b = match built.build() {
            Ok(default_resources) => Self::transition(
                ParachainConfig { default_resources: Some(default_resources), ..self.config },
                self.errors,
            ),
            Err(errors) => Self::transition(
                self.config,
                record_default_resource_errors(self.errors, errors),
            ),
        };
        assert(g@ == ResourcesBuilderView::empty() && f.ensures((g,), bc)
            && b@ == self@.with_default_resources(bc@));
        b
    }

    /// Replaces the bootnodes by the addresses of `bootnodes_addresses` that
    /// parse, and records an error for each one that does not.
    pub fn with_bootnodes_addresses(self, bootnodes_addresses: Vec<&str>) -> (b: Self)
        ensures
            b@ == self@.with_bootnodes_addresses(views_of(bootnodes_addresses@)),
    {
        let ghost all = views_of(bootnodes_addresses@);
        let mut outcomes: Vec<Result<String, String>> = Vec::new();
        let mut index: usize = 0;
        while index < bootnodes_addresses.len()
            invariant
                index <= bootnodes_addresses.len(),
                all == views_of(bootnodes_addresses@),
                outcome_texts(outcomes@) == address_outcomes(all).take(index as int),
            decreases bootnodes_addresses.len() - index,
        {
            let outcome = parse_multiaddr(bootnodes_addresses[index]);
            proof {
                assert(all[index as int] == bootnodes_addresses@[index as int]@);
                assert(address_outcomes(all)[index as int] == texts_of(outcome));
                assert(all.len() == bootnodes_addresses@.len());
                assert(outcomes@.len() == outcome_texts(outcomes@).len());
                assert forall|k: int| 0 <= k < index implies outcome_texts(outcomes@.push(outcome))[k]
                    == address_outcomes(all)[k] by {
                    assert(outcome_texts(outcomes@)[k] == address_outcomes(all).take(index as int)[k]);
                    assert(outcomes@.push(outcome)[k] == outcomes@[k]);
                }
                assert(outcome_texts(outcomes@.push(outcome)) =~= address_outcomes(all).take(
                    index + 1,
                ));
            }
            outcomes.push(outcome);
            index = index + 1;
        }
        assert(address_outcomes(all).take(index as int) =~= address_outcomes(all));
        let (addrs, mut errors) = bootnode_outcomes(&bootnodes_addresses, outcomes);
        let mut all_errors = self.errors;
        let ghost before = views_of(all_errors@);
        let ghost new_errors = errors@;
        all_errors.append(&mut errors);
        assert(views_of(all_errors@) =~= before + views_of(new_errors));
        Self::transition(ParachainConfig { bootnodes_addresses: addrs, ..self.config }, all_errors)
    }

    /// Makes the collator that `f` builds, from a node builder given what
    /// the parachain hands down, the first collator; or records each of its
    /// errors under the collator's name.
    pub fn with_collator<F: Fn(NodeConfigBuilder<node::Initial>) -> NodeConfigBuilder<node::Buildable>>(
        self,
        f: F,
    ) -> (b: ParachainConfigBuilder<WithAtLeastOneCollator>)
        requires
            forall|n: NodeConfigBuilder<node::Initial>| f.requires((n,)),
        ensures
            exists|given: NodeConfigBuilder<node::Initial>, built: NodeConfigBuilder<node::Buildable>|
                given@ == NodeBuilderView::initial(self@.default_context()) && #[trigger] f.ensures(
                    (given,),
                    built,
                ) && b@ == self@.with_first_collator(built@),
            b@.config.collators.len() >= 1 || b@.errors.len() >= 1,
    {
        let given = NodeConfigBuilder::new(self.default_context());
        let ghost g = given;
        let built = f(given);
        let ghost bc = built;
        let b = match built.build() {
            Ok(collator) => {
                let mut collators: Vec<NodeConfig> = Vec::new();
                collators.push(collator);
                assert(views_of(collators@) =~= seq![collator@]);
                Self::transition(ParachainConfig { collators, ..self.config }, self.errors)
            },
            Err((name, errors)) => {
                assert(views_of(errors@).len() > 0);
                let recorded = record_collator_errors(self.errors, name, errors);
                assert(views_of(recorded@).len() > 0);
                Self::transition(self.config, recorded)
            },
        };
        assert(g@ == NodeBuilderView::initial(self@.default_context()) && f.ensures((g,), bc)
            && b@ == self@.with_first_collator(bc@));
        b
    }
}

impl ParachainConfigBuilder<WithAtLeastOneCollator> {
    /// Adds the collator that `f` builds, from a node builder given nothing
    /// by the parachain, as the last collator; or records each of its errors
    /// under the collator's name.
    pub fn with_collator<F: Fn(NodeConfigBuilder<node::Initial>) -> NodeConfigBuilder<node::Buildable>>(
        self,
        f: F,
    ) -> (b: Self)
        requires
            forall|n: NodeConfigBuilder<node::Initial>| f.requires((n,)),
        ensures
            exists|given: NodeConfigBuilder<node::Initial>, built: NodeConfigBuilder<node::Buildable>|
                given@ == NodeBuilderView::initial(ChainDefaultContextView::empty())
                    && #[trigger] f.ensures((given,), built) && b@ == self@.with_collator(built@),
            b@.config.collators.len() >= 1 || b@.errors.len() >= 1,
    {
        proof {
            use_type_invariant(&self);
        }
        let given = NodeConfigBuilder::new(ChainDefaultContext::default());
        let ghost g = given;
        let built = f(given);
        let ghost bc = built;
        let b = match built.build() {
            Ok(collator) => {
                let mut collators = self.config.collators;
                proof {
                    lemma_views_of_push(collators@, collator);
                }
                collators.push(collator);
                Self::transition(ParachainConfig { collators, ..self.config }, self.errors)
            },
            Err((name, errors)) => {
                assert(views_of(errors@).len() > 0);
                let recorded = record_collator_errors(self.errors, name, errors);
                assert(views_of(recorded@).len() > 0);
                Self::transition(self.config, recorded)
            },
        };
        assert(g@ == NodeBuilderView::initial(ChainDefaultContextView::empty()) && f.ensures(
            (g,),
            bc,
        ) && b@ == self@.with_collator(bc@));
        b
    }

    /// The configuration, if nothing was refused; else every error, in the
    /// order of the calls, each marked with the id of the parachain.
    pub fn build(self) -> (r: Result<ParachainConfig, Vec<ConfigError>>)
        ensures
            parachain_build_view(r) == self@.build(),
            r is Ok ==> r->Ok_0@.collators.len() >= 1,
    {
        proof {
            use_type_invariant(&self);
        }
        if self.errors.len() == 0 {
            return Ok(self.config);
        }
        let id: u32 = self.config.id;
        let ghost ev = self.errors@;
        let mut out: Vec<ConfigError> = Vec::new();
        append_mapped(
            &mut out,
            self.errors,
            (|e: ParachainError| -> (r: ConfigError)
                ensures
                    r@ == ConfigErrorView::Parachain(id as nat, e@),
                { ConfigError::Parachain(id, e) }),
            Ghost(|e: ParachainError| ConfigErrorView::Parachain(id as nat, e@)),
        );
        assert(views_of(out@) =~= views_of(ev).map_values(
            |e: ParachainErrorView| ConfigErrorView::Parachain(id as nat, e),
        ));
        Err(out)
    }
}

} // verus!
