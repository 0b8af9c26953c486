//! Properties of the builders that hold across their calls.
use vstd::prelude::*;
use crate::errors::{config_error_text, parachain_error_text, ConfigErrorView, FieldErrorView, ParachainErrorView};
use crate::net::multiaddr_parse;
use crate::node::{ChainDefaultContextView, NodeBuilderView, NodeConfigView};
use crate::parachain::{
    address_errors, address_outcomes, parsed_addresses, ParachainBuilderView, RegistrationStrategy,
};
use crate::resources::ResourcesBuilderView;
use crate::text::{decimal, has_space};
use crate::types::{chain_rule, command_rule, image_rule, ArgView};

verus! {

/// `a` is a prefix of `b`.
pub open spec fn is_prefix_of<T>(a: Seq<T>, b: Seq<T>) -> bool {
    a.len() <= b.len() && b.subrange(0, a.len() as int) == a
}

/// No call of a parachain builder forgets an error: the errors after any
/// call begin with the errors before it.  So once a value has been refused,
/// the build fails whatever follows.
pub proof fn law_errors_are_kept(
    b: ParachainBuilderView,
    v: Seq<char>,
    balance: u128,
    strategy: RegistrationStrategy,
    choice: bool,
    args: Seq<ArgView>,
    addrs: Seq<Seq<char>>,
    resources: ResourcesBuilderView,
    collator: NodeBuilderView,
)
    ensures
        is_prefix_of(b.errors, b.with_chain(v).errors),
        is_prefix_of(b.errors, b.with_registration_strategy(strategy).errors),
        is_prefix_of(b.errors, b.with_initial_balance(balance).errors),
        is_prefix_of(b.errors, b.with_default_command(v).errors),
        is_prefix_of(b.errors, b.with_default_image(v).errors),
        is_prefix_of(b.errors, b.with_default_resources(resources).errors),
        is_prefix_of(b.errors, b.with_default_db_snapshot(v).errors),
        is_prefix_of(b.errors, b.with_default_args(args).errors),
        is_prefix_of(b.errors, b.with_genesis_wasm_path(v).errors),
        is_prefix_of(b.errors, b.with_genesis_wasm_generator(v).errors),
        is_prefix_of(b.errors, b.with_genesis_state_path(v).errors),
        is_prefix_of(b.errors, b.with_genesis_state_generator(v).errors),
        is_prefix_of(b.errors, b.with_chain_spec_path(v).errors),
        is_prefix_of(b.errors, b.cumulus_based(choice).errors),
        is_prefix_of(b.errors, b.with_bootnodes_addresses(addrs).errors),
        is_prefix_of(b.errors, b.with_first_collator(collator).errors),
        is_prefix_of(b.errors, b.with_collator(collator).errors),
        b.errors.len() > 0 ==> b.with_collator(collator).build() is Err,
{
    assert(b.errors.subrange(0, b.errors.len() as int) =~= b.errors);
    assert(b.with_chain(v).errors.subrange(0, b.errors.len() as int) =~= b.errors);
    assert(b.with_default_command(v).errors.subrange(0, b.errors.len() as int) =~= b.errors);
    assert(b.with_default_image(v).errors.subrange(0, b.errors.len() as int) =~= b.errors);
    assert(b.with_default_resources(resources).errors.subrange(0, b.errors.len() as int)
        =~= b.errors);
    assert(b.with_genesis_wasm_generator(v).errors.subrange(0, b.errors.len() as int)
        =~= b.errors);
    assert(b.with_genesis_state_generator(v).errors.subrange(0, b.errors.len() as int)
        =~= b.errors);
    assert(b.with_bootnodes_addresses(addrs).errors.subrange(0, b.errors.len() as int)
        =~= b.errors);
    assert(b.with_first_collator(collator).errors.subrange(0, b.errors.len() as int)
        =~= b.errors);
    assert(b.with_collator(collator).errors.subrange(0, b.errors.len() as int) =~= b.errors);
}

/// The build succeeds exactly when nothing was refused; when it fails it
/// gives back every recorded error, in order, each marked with the id of the
/// parachain, and the text of each begins with `parachain[<id>].`.
pub proof fn law_build_reports_every_error(b: ParachainBuilderView)
    ensures
        b.build() is Ok <==> b.errors.len() == 0,
        b.build() is Ok ==> b.build()->Ok_0 == b.config,
        b.build() is Err ==> b.build()->Err_0.len() == b.errors.len(),
        forall|i: int|
            #![trigger b.errors[i]]
            0 <= i < b.errors.len() ==> b.build()->Err_0[i] == ConfigErrorView::Parachain(
                b.config.id as nat,
                b.errors[i],
            ) && config_error_text(b.build()->Err_0[i]) == "parachain["@ + decimal(
                b.config.id as nat,
            ) + "]."@ + parachain_error_text(b.errors[i]),
{
}

/// A chain name is taken exactly when it holds no whitespace and is not
/// empty; a taken name is what the configuration then holds, and a refused
/// one leaves the configuration as it was and adds exactly one error, the
/// last, which names the chain.
pub proof fn law_chain_is_read_back_or_refused(b: ParachainBuilderView, v: Seq<char>)
    ensures
        !has_space(v) && v.len() > 0 ==> b.with_chain(v).config.chain == Some(v)
            && b.with_chain(v).errors == b.errors,
        has_space(v) || v.len() == 0 ==> b.with_chain(v).config == b.config
            && b.with_chain(v).errors == b.errors.push(
            ParachainErrorView::Field(FieldErrorView::Chain(chain_rule(v)->Err_0)),
        ),
{
}

/// A command (the default command, or a generator of the genesis) is taken
/// exactly when it holds no whitespace; a taken command is what the
/// configuration then holds, and a refused one leaves the configuration as
/// it was and adds exactly one error, the last, which names the field.
pub proof fn law_commands_are_read_back_or_refused(b: ParachainBuilderView, v: Seq<char>)
    ensures
        !has_space(v) ==> b.with_default_command(v).config.default_command == Some(v)
            && b.with_genesis_wasm_generator(v).config.genesis_wasm_generator == Some(v)
            && b.with_genesis_state_generator(v).config.genesis_state_generator == Some(v)
            && b.with_default_command(v).errors == b.errors
            && b.with_genesis_wasm_generator(v).errors == b.errors
            && b.with_genesis_state_generator(v).errors == b.errors,
        has_space(v) ==> b.with_default_command(v).config == b.config
            && b.with_genesis_wasm_generator(v).config == b.config
            && b.with_genesis_state_generator(v).config == b.config
            && b.with_default_command(v).errors == b.errors.push(
            ParachainErrorView::Field(FieldErrorView::DefaultCommand(command_rule(v)->Err_0)),
        ) && b.with_genesis_wasm_generator(v).errors == b.errors.push(
            ParachainErrorView::Field(FieldErrorView::GenesisWasmGenerator(command_rule(v)->Err_0)),
        ) && b.with_genesis_state_generator(v).errors == b.errors.push(
            ParachainErrorView::Field(
                FieldErrorView::GenesisStateGenerator(command_rule(v)->Err_0),
            ),
        ),
{
}

/// Setting a value twice keeps only the second: of two calls that set the
/// same field, the configuration is the one that the second call alone
/// would give, where the second value is taken.
pub proof fn law_last_value_wins(
    b: ParachainBuilderView,
    first: Seq<char>,
    second: Seq<char>,
    x: u128,
    y: u128,
    s: RegistrationStrategy,
    t: RegistrationStrategy,
)
    ensures
        b.with_initial_balance(x).with_initial_balance(y) == b.with_initial_balance(y),
        b.with_registration_strategy(s).with_registration_strategy(t)
            == b.with_registration_strategy(t),
        b.with_default_db_snapshot(first).with_default_db_snapshot(second)
            == b.with_default_db_snapshot(second),
        chain_rule(second) is Ok ==> b.with_chain(first).with_chain(second).config == b.with_chain(
            second,
        ).config,
        command_rule(second) is Ok ==> b.with_default_command(first).with_default_command(
            second,
        ).config == b.with_default_command(second).config,
{
}

/// Every bootnode address is either taken or reported: as many addresses
/// are taken as the parser accepts, and each report gives the position and
/// text of an address that the parser refused, with its message, in the
/// order of the list.  This holds of any outcomes of the parser, and so of
/// the ones that the builder obtains.
pub proof fn law_every_address_is_taken_or_reported(
    addrs: Seq<Seq<char>>,
    outcomes: Seq<Result<Seq<char>, Seq<char>>>,
)
    requires
        outcomes.len() == addrs.len(),
    ensures
        parsed_addresses(outcomes).len() + address_errors(addrs, outcomes).len() == addrs.len(),
        forall|k: int|
            0 <= k < address_errors(addrs, outcomes).len() ==> {
                let e = #[trigger] address_errors(addrs, outcomes)[k];
                &&& e matches FieldErrorView::BootnodesAddress(i, a, m)
                &&& i < addrs.len()
                &&& a == addrs[i as int]
                &&& outcomes[i as int] is Err && outcomes[i as int]->Err_0 == m
            },
        forall|k: int, l: int|
            0 <= k < l < address_errors(addrs, outcomes).len() ==> (#[trigger] address_errors(
                addrs,
                outcomes,
            )[k])->BootnodesAddress_0 < (#[trigger] address_errors(
                addrs,
                outcomes,
            )[l])->BootnodesAddress_0,
    decreases outcomes.len(),
{
    if outcomes.len() > 0 {
        let prev = outcomes.drop_last();
        let pa = addrs.drop_last();
        lemma_address_errors_prefix(addrs, prev);
        law_every_address_is_taken_or_reported(pa, prev);
        let pe = address_errors(addrs, prev);
        assert forall|k: int| 0 <= k < pe.len() implies (#[trigger] pe[k])->BootnodesAddress_0
            < addrs.len() - 1 && pe[k]->BootnodesAddress_1 == addrs[pe[k]->BootnodesAddress_0 as int]
            && prev[pe[k]->BootnodesAddress_0 as int] == outcomes[pe[k]->BootnodesAddress_0 as int] by {
            assert(pa[pe[k]->BootnodesAddress_0 as int] == addrs[pe[k]->BootnodesAddress_0 as int]);
        }
    }
}

/// The errors of a prefix of the outcomes depend only on the addresses at
/// their positions.
proof fn lemma_address_errors_prefix(
    addrs: Seq<Seq<char>>,
    outcomes: Seq<Result<Seq<char>, Seq<char>>>,
)
    requires
        outcomes.len() < addrs.len(),
    ensures
        address_errors(addrs, outcomes) == address_errors(addrs.drop_last(), outcomes),
    decreases outcomes.len(),
{
    if outcomes.len() > 0 {
        lemma_address_errors_prefix(addrs, outcomes.drop_last());
    }
}

/// The defaults of a parachain reach its first collator only: the node
/// builder handed to the first collator starts from the parachain's default
/// command, image, resources, database snapshot and arguments, while the one
/// handed to each later collator starts from none of them.
pub proof fn law_defaults_reach_first_collator_only(b: ParachainBuilderView, command: Seq<char>)
    ensures
        ({
            let first = NodeBuilderView::initial(b.default_context()).config;
            &&& first.command == b.config.default_command
            &&& first.image == b.config.default_image
            &&& first.resources == b.config.default_resources
            &&& first.db_snapshot == b.config.default_db_snapshot
            &&& first.args == b.config.default_args
        }),
        command_rule(command) is Ok ==> NodeBuilderView::initial(
            b.with_default_command(command).default_context(),
        ).config.command == Some(command),
        ({
            let later = NodeBuilderView::initial(ChainDefaultContextView::empty()).config;
            &&& later.command is None
            &&& later.image is None
            &&& later.resources is None
            &&& later.db_snapshot is None
            &&& later.args.len() == 0
        }),
{
}

/// A call that a parachain builder takes between its id and its first
/// collator, with its argument by value.
pub enum Setting {
    Chain(Seq<char>),
    RegistrationStrategy(RegistrationStrategy),
    InitialBalance(u128),
    DefaultCommand(Seq<char>),
    DefaultImage(Seq<char>),
    DefaultResources(ResourcesBuilderView),
    DefaultDbSnapshot(Seq<char>),
    DefaultArgs(Seq<ArgView>),
    GenesisWasmPath(Seq<char>),
    GenesisWasmGenerator(Seq<char>),
    GenesisStatePath(Seq<char>),
    GenesisStateGenerator(Seq<char>),
    ChainSpecPath(Seq<char>),
    CumulusBased(bool),
    BootnodesAddresses(Seq<Seq<char>>),
}

/// The builder after the call `c`.
pub open spec fn apply_setting(b: ParachainBuilderView, c: Setting) -> ParachainBuilderView {
    match c {
        Setting::Chain(v) => b.with_chain(v),
        Setting::RegistrationStrategy(s) => b.with_registration_strategy(s),
        Setting::InitialBalance(x) => b.with_initial_balance(x),
        Setting::DefaultCommand(v) => b.with_default_command(v),
        Setting::DefaultImage(v) => b.with_default_image(v),
        Setting::DefaultResources(r) => b.with_default_resources(r),
        Setting::DefaultDbSnapshot(v) => b.with_default_db_snapshot(v),
        Setting::DefaultArgs(a) => b.with_default_args(a),
        Setting::GenesisWasmPath(v) => b.with_genesis_wasm_path(v),
        Setting::GenesisWasmGenerator(v) => b.with_genesis_wasm_generator(v),
        Setting::GenesisStatePath(v) => b.with_genesis_state_path(v),
        Setting::GenesisStateGenerator(v) => b.with_genesis_state_generator(v),
        Setting::ChainSpecPath(v) => b.with_chain_spec_path(v),
        Setting::CumulusBased(x) => b.cumulus_based(x),
        Setting::BootnodesAddresses(a) => b.with_bootnodes_addresses(a),
    }
}

/// The call `c` refuses something it is given: a value that breaks its
/// rule, resources that do not build, or an address that does not parse.
pub open spec fn refuses(c: Setting) -> bool {
    match c {
        Setting::Chain(v) => chain_rule(v) is Err,
        Setting::DefaultCommand(v) => command_rule(v) is Err,
        Setting::DefaultImage(v) => image_rule(v) is Err,
        Setting::DefaultResources(r) => r.build() is Err,
        Setting::GenesisWasmGenerator(v) => command_rule(v) is Err,
        Setting::GenesisStateGenerator(v) => command_rule(v) is Err,
        Setting::BootnodesAddresses(a) => exists|i: int|
            0 <= i < a.len() && #[trigger] multiaddr_parse(a[i]) is Err,
        _ => false,
    }
}

/// The builder after the calls `cs`, in order.
pub open spec fn apply_settings(b: ParachainBuilderView, cs: Seq<Setting>) -> ParachainBuilderView
    decreases cs.len(),
{
    if cs.len() == 0 {
        b
    } else {
        apply_setting(apply_settings(b, cs.drop_last()), cs.last())
    }
}

/// The builder after adding the collators that `nodes` give, in order.
pub open spec fn apply_collators(b: ParachainBuilderView, nodes: Seq<NodeBuilderView>) -> ParachainBuilderView
    decreases nodes.len(),
{
    if nodes.len() == 0 {
        b
    } else {
        apply_collators(b, nodes.drop_last()).with_collator(nodes.last())
    }
}

/// The node that `n` builds.
pub open spec fn built_node(n: NodeBuilderView) -> NodeConfigView {
    n.build()->Ok_0
}

proof fn lemma_address_errors_none(addrs: Seq<Seq<char>>, outcomes: Seq<Result<Seq<char>, Seq<char>>>)
    ensures
        address_errors(addrs, outcomes).len() == 0 <==> forall|i: int|
            0 <= i < outcomes.len() ==> #[trigger] outcomes[i] is Ok,
    decreases outcomes.len(),
{
    if outcomes.len() > 0 {
        let prev = outcomes.drop_last();
        lemma_address_errors_none(addrs, prev);
        if address_errors(addrs, outcomes).len() == 0 {
            assert forall|i: int| 0 <= i < outcomes.len() implies #[trigger] outcomes[i] is Ok by {
                if i < outcomes.len() - 1 {
                    assert(prev[i] == outcomes[i]);
                }
            }
        } else {
            if outcomes.last() is Ok {
                assert(!(forall|i: int| 0 <= i < prev.len() ==> #[trigger] prev[i] is Ok));
                let i = choose|i: int| 0 <= i < prev.len() && !(#[trigger] prev[i] is Ok);
                assert(prev[i] == outcomes[i]);
            }
        }
    }
}

/// A call adds errors exactly when it refuses something, and never removes
/// any.
proof fn lemma_setting_errors(b: ParachainBuilderView, c: Setting)
    ensures
        is_prefix_of(b.errors, apply_setting(b, c).errors),
        refuses(c) <==> apply_setting(b, c).errors.len() > b.errors.len(),
        apply_setting(b, c).config.collators == b.config.collators,
{
    assert(b.errors.subrange(0, b.errors.len() as int) =~= b.errors);
    let r = apply_setting(b, c);
    assert(r.errors.subrange(0, b.errors.len() as int) =~= b.errors);
    if let Setting::BootnodesAddresses(a) = c {
        let o = address_outcomes(a);
        lemma_address_errors_none(a, o);
        if refuses(c) {
            let i = choose|i: int| 0 <= i < a.len() && #[trigger] multiaddr_parse(a[i]) is Err;
            assert(!(o[i] is Ok));
        } else {
            assert forall|i: int| 0 <= i < o.len() implies #[trigger] o[i] is Ok by {
                assert(!(multiaddr_parse(a[i]) is Err));
            }
        }
    }
}

proof fn lemma_settings_errors(b: ParachainBuilderView, cs: Seq<Setting>)
    ensures
        is_prefix_of(b.errors, apply_settings(b, cs).errors),
        apply_settings(b, cs).errors.len() == b.errors.len() <==> forall|i: int|
            0 <= i < cs.len() ==> !refuses(#[trigger] cs[i]),
        apply_settings(b, cs).config.collators == b.config.collators,
    decreases cs.len(),
{
    assert(b.errors.subrange(0, b.errors.len() as int) =~= b.errors);
    if cs.len() > 0 {
        let prev = cs.drop_last();
        let mid = apply_settings(b, prev);
        lemma_settings_errors(b, prev);
        lemma_setting_errors(mid, cs.last());
        let end = apply_settings(b, cs);
        assert forall|k: int| 0 <= k < b.errors.len() implies end.errors[k] == b.errors[k] by {
            assert(end.errors.subrange(0, mid.errors.len() as int)[k] == end.errors[k]);
            assert(mid.errors.subrange(0, b.errors.len() as int)[k] == mid.errors[k]);
        }
        assert(end.errors.subrange(0, b.errors.len() as int) =~= b.errors);
        if end.errors.len() == b.errors.len() {
            assert forall|i: int| 0 <= i < cs.len() implies !refuses(#[trigger] cs[i]) by {
                if i < cs.len() - 1 {
                    assert(prev[i] == cs[i]);
                }
            }
        } else if !refuses(cs.last()) {
            assert(!(forall|i: int| 0 <= i < prev.len() ==> !refuses(#[trigger] prev[i])));
            let i = choose|i: int| 0 <= i < prev.len() && refuses(#[trigger] prev[i]);
            assert(prev[i] == cs[i]);
        }
    }
}

proof fn lemma_collators(b: ParachainBuilderView, nodes: Seq<NodeBuilderView>)
    ensures
        apply_collators(b, nodes).errors.len() >= b.errors.len(),
        apply_collators(b, nodes).errors.len() == b.errors.len() <==> forall|j: int|
            0 <= j < nodes.len() ==> (#[trigger] nodes[j]).build() is Ok,
        apply_collators(b, nodes).errors.len() == b.errors.len() ==> apply_collators(
            b,
            nodes,
        ).config.collators == b.config.collators + nodes.map_values(
            |n: NodeBuilderView| built_node(n),
        ),
    decreases nodes.len(),
{
    if nodes.len() == 0 {
        assert(b.config.collators + nodes.map_values(|n: NodeBuilderView| built_node(n))
            =~= b.config.collators);
    } else {
        let prev = nodes.drop_last();
        lemma_collators(b, prev);
        let end = apply_collators(b, nodes);
        if end.errors.len() == b.errors.len() {
            assert forall|j: int| 0 <= j < nodes.len() implies (#[trigger] nodes[j]).build() is Ok by {
                if j < nodes.len() - 1 {
                    assert(prev[j] == nodes[j]);
                }
            }
            assert(b.config.collators + nodes.map_values(|n: NodeBuilderView| built_node(n))
                =~= (b.config.collators + prev.map_values(|n: NodeBuilderView| built_node(n))).push(
                built_node(nodes.last()),
            ));
        } else if nodes.last().build() is Ok {
            assert(!(forall|j: int| 0 <= j < prev.len() ==> (#[trigger] prev[j]).build() is Ok));
            let j = choose|j: int| 0 <= j < prev.len() && !((#[trigger] prev[j]).build() is Ok);
            assert(prev[j] == nodes[j]);
        }
    }
}

/// Over any run of a parachain builder (an id, then any calls that set its
/// values, then a first collator, then any further collators) the build
/// succeeds exactly when no call refused anything and every collator
/// built; a successful build holds at least one collator, namely the ones
/// that the collator calls built, in the order of the calls.
pub proof fn law_build_over_any_run(
    id: u32,
    settings: Seq<Setting>,
    first: NodeBuilderView,
    more: Seq<NodeBuilderView>,
)
    ensures
        ({
            let b = apply_collators(
                apply_settings(ParachainBuilderView::initial().with_id(id), settings).with_first_collator(
                    first,
                ),
                more,
            );
            &&& b.build() is Ok <==> {
                &&& forall|i: int| 0 <= i < settings.len() ==> !refuses(#[trigger] settings[i])
                &&& first.build() is Ok
                &&& forall|j: int| 0 <= j < more.len() ==> (#[trigger] more[j]).build() is Ok
            }
            &&& b.build() is Ok ==> b.build()->Ok_0.collators == seq![built_node(first)]
                + more.map_values(|n: NodeBuilderView| built_node(n))
            &&& b.build() is Ok ==> b.build()->Ok_0.collators.len() >= 1
        }),
{
    let start = ParachainBuilderView::initial().with_id(id);
    let set = apply_settings(start, settings);
    let one = set.with_first_collator(first);
    lemma_settings_errors(start, settings);
    lemma_collators(one, more);
    let b = apply_collators(one, more);
    if b.build() is Ok {
        assert(b.errors.len() == 0);
    }
}

proof fn lemma_all_parsed(outcomes: Seq<Result<Seq<char>, Seq<char>>>)
    requires
        forall|i: int| 0 <= i < outcomes.len() ==> #[trigger] outcomes[i] is Ok,
    ensures
        parsed_addresses(outcomes) == outcomes.map_values(
            |o: Result<Seq<char>, Seq<char>>| o->Ok_0,
        ),
    decreases outcomes.len(),
{
    if outcomes.len() > 0 {
        let prev = outcomes.drop_last();
        assert forall|i: int| 0 <= i < prev.len() implies #[trigger] prev[i] is Ok by {
            assert(prev[i] == outcomes[i]);
        }
        lemma_all_parsed(prev);
        assert(outcomes.last() is Ok);
        assert(outcomes.map_values(|o: Result<Seq<char>, Seq<char>>| o->Ok_0) =~= prev.map_values(
            |o: Result<Seq<char>, Seq<char>>| o->Ok_0,
        ).push(outcomes.last()->Ok_0));
    }
}

/// What a builder's bootnode call keeps and reports, in terms of the
/// parser's outcome on each address.
pub(crate) proof fn lemma_bootnodes(b: ParachainBuilderView, addrs: Seq<Seq<char>>)
    ensures
        (forall|i: int| 0 <= i < addrs.len() ==> #[trigger] multiaddr_parse(addrs[i]) is Ok)
            ==> b.with_bootnodes_addresses(addrs).config.bootnodes_addresses == addrs.map_values(
            |a: Seq<char>| multiaddr_parse(a)->Ok_0,
        ) && b.with_bootnodes_addresses(addrs).errors == b.errors,
        b.with_bootnodes_addresses(addrs).config.bootnodes_addresses.len() + b.with_bootnodes_addresses(
            addrs,
        ).errors.len() == b.errors.len() + addrs.len(),
        b.with_bootnodes_addresses(addrs).errors.subrange(0, b.errors.len() as int) == b.errors,
        forall|k: int|
            b.errors.len() <= k < b.with_bootnodes_addresses(addrs).errors.len() ==> {
                let e = #[trigger] b.with_bootnodes_addresses(addrs).errors[k];
                &&& e matches ParachainErrorView::Field(FieldErrorView::BootnodesAddress(i, a, m))
                &&& i < addrs.len()
                &&& a == addrs[i as int]
                &&& multiaddr_parse(a) is Err && multiaddr_parse(a)->Err_0 == m
            },
{
    let o = address_outcomes(addrs);
    let r = b.with_bootnodes_addresses(addrs);
    let es = address_errors(addrs, o);
    law_every_address_is_taken_or_reported(addrs, o);
    assert(r.errors.subrange(0, b.errors.len() as int) =~= b.errors);
    assert forall|k: int| b.errors.len() <= k < r.errors.len() implies {
        let e = #[trigger] r.errors[k];
        &&& e matches ParachainErrorView::Field(FieldErrorView::BootnodesAddress(i, a, m))
        &&& i < addrs.len()
        &&& a == addrs[i as int]
        &&& multiaddr_parse(a) is Err && multiaddr_parse(a)->Err_0 == m
    } by {
        let j = k - b.errors.len();
        assert(r.errors[k] == ParachainErrorView::Field(es[j]));
        let e = es[j];
        assert(o[e->BootnodesAddress_0 as int] == multiaddr_parse(addrs[e->BootnodesAddress_0 as int]));
    }
    if forall|i: int| 0 <= i < addrs.len() ==> #[trigger] multiaddr_parse(addrs[i]) is Ok {
        assert forall|i: int| 0 <= i < o.len() implies #[trigger] o[i] is Ok by {
            assert(multiaddr_parse(addrs[i]) is Ok);
        }
        lemma_all_parsed(o);
        lemma_address_errors_none(addrs, o);
        assert(o.map_values(|x: Result<Seq<char>, Seq<char>>| x->Ok_0) =~= addrs.map_values(
            |a: Seq<char>| multiaddr_parse(a)->Ok_0,
        ));
        assert(r.errors =~= b.errors);
    }
}

} // verus!
