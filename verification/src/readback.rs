//! What each setter of a builder does to the value it is given: a taken
//! value is read back from its field, every other field and the errors stay
//! as they were, and a refused value leaves the configuration as it was and
//! adds one error that names the field.
use vstd::prelude::*;
use crate::errors::{ConversionErrorView, FieldErrorView, ParachainErrorView, ResourceErrorView};
use crate::image::{image_regex, is_image};
use crate::net::{multiaddr_parse, url_parse};
use crate::node::{ChainDefaultContextView, NodeBuilderView, NodeConfigView};
use crate::parachain::{ParachainBuilderView, ParachainConfigView, RegistrationStrategy};
use crate::quantity::{is_quantity, quantity_regex};
use crate::resources::{ResourcesBuilderView, ResourcesView};
use crate::text::has_space;
use crate::types::{ArgView, AssetLocationView};

verus! {

/// `loc` is what the text `v` names: the URL that the URL parser makes of
/// it, or else the file path `v`; a text without a colon is always a path.
pub open spec fn names_location(loc: Option<AssetLocationView>, v: Seq<char>) -> bool {
    &&& url_parse(v) matches Some(u) ==> loc == Some(AssetLocationView::Url(u))
    &&& url_parse(v) is None ==> loc == Some(AssetLocationView::FilePath(v))
}

/// The plain values of a parachain are read back, and each setter changes
/// nothing else: putting the old value back into the new configuration
/// gives the old configuration, and no error is added.
pub proof fn law_parachain_plain_values(
    b: ParachainBuilderView,
    id: u32,
    balance: u128,
    strategy: RegistrationStrategy,
    choice: bool,
    args: Seq<ArgView>,
)
    ensures
        b.with_id(id).config.id == id,
        (ParachainConfigView { id: b.config.id, ..b.with_id(id).config }) == b.config,
        b.with_id(id).errors == b.errors,
        b.with_initial_balance(balance).config.initial_balance == balance,
        (ParachainConfigView {
            initial_balance: b.config.initial_balance,
            ..b.with_initial_balance(balance).config
        }) == b.config,
        b.with_initial_balance(balance).errors == b.errors,
        b.with_registration_strategy(strategy).config.registration_strategy == Some(strategy),
        (ParachainConfigView {
            registration_strategy: b.config.registration_strategy,
            ..b.with_registration_strategy(strategy).config
        }) == b.config,
        b.with_registration_strategy(strategy).errors == b.errors,
        b.cumulus_based(choice).config.is_cumulus_based == choice,
        (ParachainConfigView {
            is_cumulus_based: b.config.is_cumulus_based,
            ..b.cumulus_based(choice).config
        }) == b.config,
        b.cumulus_based(choice).errors == b.errors,
        b.with_default_args(args).config.default_args == args,
        (ParachainConfigView {
            default_args: b.config.default_args,
            ..b.with_default_args(args).config
        }) == b.config,
        b.with_default_args(args).errors == b.errors,
{
}

/// Each location of a parachain holds what its text names, and each
/// location setter changes nothing else and adds no error.
pub proof fn law_parachain_locations(b: ParachainBuilderView, v: Seq<char>)
    ensures
        names_location(b.with_default_db_snapshot(v).config.default_db_snapshot, v),
        (ParachainConfigView {
            default_db_snapshot: b.config.default_db_snapshot,
            ..b.with_default_db_snapshot(v).config
        }) == b.config,
        b.with_default_db_snapshot(v).errors == b.errors,
        names_location(b.with_genesis_wasm_path(v).config.genesis_wasm_path, v),
        (ParachainConfigView {
            genesis_wasm_path: b.config.genesis_wasm_path,
            ..b.with_genesis_wasm_path(v).config
        }) == b.config,
        b.with_genesis_wasm_path(v).errors == b.errors,
        names_location(b.with_genesis_state_path(v).config.genesis_state_path, v),
        (ParachainConfigView {
            genesis_state_path: b.config.genesis_state_path,
            ..b.with_genesis_state_path(v).config
        }) == b.config,
        b.with_genesis_state_path(v).errors == b.errors,
        names_location(b.with_chain_spec_path(v).config.chain_spec_path, v),
        (ParachainConfigView {
            chain_spec_path: b.config.chain_spec_path,
            ..b.with_chain_spec_path(v).config
        }) == b.config,
        b.with_chain_spec_path(v).errors == b.errors,
{
}

/// A default image is taken exactly when it is an image reference; a taken
/// image is read back and nothing else changes, and a refused one leaves
/// the configuration as it was and adds one error naming the default image.
pub proof fn law_parachain_default_image(b: ParachainBuilderView, v: Seq<char>)
    ensures
        is_image(v) ==> b.with_default_image(v).config.default_image == Some(v),
        is_image(v) ==> (ParachainConfigView {
            default_image: b.config.default_image,
            ..b.with_default_image(v).config
        }) == b.config,
        is_image(v) ==> b.with_default_image(v).errors == b.errors,
        !is_image(v) ==> b.with_default_image(v).config == b.config,
        !is_image(v) ==> b.with_default_image(v).errors == b.errors.push(
            ParachainErrorView::Field(
                FieldErrorView::DefaultImage(
                    ConversionErrorView::DoesntMatchRegex { value: v, regex: image_regex() },
                ),
            ),
        ),
{
}

/// The commands and the chain of a parachain: a taken value is read back
/// and nothing else changes.
pub proof fn law_parachain_checked_texts_change_one_field(b: ParachainBuilderView, v: Seq<char>)
    ensures
        !has_space(v) ==> (ParachainConfigView {
            default_command: b.config.default_command,
            ..b.with_default_command(v).config
        }) == b.config,
        !has_space(v) ==> (ParachainConfigView {
            genesis_wasm_generator: b.config.genesis_wasm_generator,
            ..b.with_genesis_wasm_generator(v).config
        }) == b.config,
        !has_space(v) ==> (ParachainConfigView {
            genesis_state_generator: b.config.genesis_state_generator,
            ..b.with_genesis_state_generator(v).config
        }) == b.config,
        !has_space(v) && v.len() > 0 ==> (ParachainConfigView {
            chain: b.config.chain,
            ..b.with_chain(v).config
        }) == b.config,
{
}

/// Default resources that build are read back and nothing else changes;
/// resources that do not build leave the configuration as it was and add
/// each of their errors, in order, as an error of the default resources.
pub proof fn law_parachain_default_resources(b: ParachainBuilderView, r: ResourcesBuilderView)
    ensures
        r.errors.len() == 0 ==> b.with_default_resources(r).config.default_resources == Some(
            r.resources,
        ),
        r.errors.len() == 0 ==> (ParachainConfigView {
            default_resources: b.config.default_resources,
            ..b.with_default_resources(r).config
        }) == b.config,
        r.errors.len() == 0 ==> b.with_default_resources(r).errors == b.errors,
        r.errors.len() > 0 ==> b.with_default_resources(r).config == b.config,
        r.errors.len() > 0 ==> b.with_default_resources(r).errors.len() == b.errors.len()
            + r.errors.len(),
        r.errors.len() > 0 ==> b.with_default_resources(r).errors.subrange(
            0,
            b.errors.len() as int,
        ) == b.errors,
        forall|k: int|
            0 <= k < r.errors.len() ==> b.with_default_resources(r).errors[b.errors.len() + k]
                == ParachainErrorView::Field(FieldErrorView::DefaultResources(#[trigger] r.errors[k])),
{
    let n = b.with_default_resources(r);
    if r.errors.len() > 0 {
        assert(n.errors.subrange(0, b.errors.len() as int) =~= b.errors);
    }
}

/// The bootnodes after the call are the addresses that parse, as the
/// parser writes them: where every address parses, one per address in the
/// order given, with no error; in any case as many bootnodes are kept and
/// errors added as there were addresses, each error naming the position
/// and text of an address that does not parse, with the parser's message.
/// Nothing else changes.
pub proof fn law_parachain_bootnodes(b: ParachainBuilderView, addrs: Seq<Seq<char>>)
    ensures
        (forall|i: int| 0 <= i < addrs.len() ==> #[trigger] multiaddr_parse(addrs[i]) is Ok)
            ==> b.with_bootnodes_addresses(addrs).config.bootnodes_addresses == addrs.map_values(
            |a: Seq<char>| multiaddr_parse(a)->Ok_0,
        ) && b.with_bootnodes_addresses(addrs).errors == b.errors,
        b.with_bootnodes_addresses(addrs).config.bootnodes_addresses.len() + b.with_bootnodes_addresses(
            addrs,
        ).errors.len() == b.errors.len() + addrs.len(),
        b.with_bootnodes_addresses(addrs).errors.subrange(0, b.errors.len() as int) == b.errors,
        forall|k: int|
            b.errors.len() <= k < b.with_bootnodes_addresses(addrs).errors.len() ==> {
                let e = #[trigger] b.with_bootnodes_addresses(addrs).errors[k];
                &&& e matches ParachainErrorView::Field(FieldErrorView::BootnodesAddress(i, a, m))
                &&& i < addrs.len()
                &&& a == addrs[i as int]
                &&& multiaddr_parse(a) is Err && multiaddr_parse(a)->Err_0 == m
            },
        (ParachainConfigView {
            bootnodes_addresses: b.config.bootnodes_addresses,
            ..b.with_bootnodes_addresses(addrs).config
        }) == b.config,
{
    crate::laws::lemma_bootnodes(b, addrs);
}

/// A collator that builds is added with every value of its builder: as the
/// only collator for the first, after the others for a later one; one that
/// does not build adds no collator and adds each of its errors, in order,
/// under its name.  Nothing else changes.
pub proof fn law_collators_are_kept(b: ParachainBuilderView, n: NodeBuilderView)
    ensures
        n.errors.len() == 0 ==> b.with_first_collator(n).config.collators == seq![n.config],
        n.errors.len() == 0 ==> b.with_collator(n).config.collators == b.config.collators.push(
            n.config,
        ),
        n.errors.len() == 0 ==> b.with_first_collator(n).errors == b.errors
            && b.with_collator(n).errors == b.errors,
        (ParachainConfigView {
            collators: b.config.collators,
            ..b.with_first_collator(n).config
        }) == b.config,
        (ParachainConfigView { collators: b.config.collators, ..b.with_collator(n).config })
            == b.config,
        n.errors.len() > 0 ==> b.with_first_collator(n).config == b.config && b.with_collator(
            n,
        ).config == b.config,
        n.errors.len() > 0 ==> b.with_collator(n).errors.len() == b.errors.len() + n.errors.len()
            && b.with_first_collator(n).errors == b.with_collator(n).errors,
        forall|k: int|
            0 <= k < n.errors.len() ==> b.with_collator(n).errors[b.errors.len() + k]
                == ParachainErrorView::Collator(n.config.name, #[trigger] n.errors[k]),
{
}

/// The values of a node are read back, and each setter changes nothing
/// else and adds no error.
pub proof fn law_node_plain_values(
    n: NodeBuilderView,
    name: Seq<char>,
    choice: bool,
    balance: u128,
    args: Seq<ArgView>,
    v: Seq<char>,
)
    ensures
        n.with_name(name).config.name == name,
        (NodeConfigView { name: n.config.name, ..n.with_name(name).config }) == n.config,
        n.with_name(name).errors == n.errors,
        n.validator(choice).config.is_validator == choice,
        (NodeConfigView { is_validator: n.config.is_validator, ..n.validator(choice).config })
            == n.config,
        n.validator(choice).errors == n.errors,
        n.invulnerable(choice).config.is_invulnerable == choice,
        (NodeConfigView {
            is_invulnerable: n.config.is_invulnerable,
            ..n.invulnerable(choice).config
        }) == n.config,
        n.invulnerable(choice).errors == n.errors,
        n.bootnode(choice).config.is_bootnode == choice,
        (NodeConfigView { is_bootnode: n.config.is_bootnode, ..n.bootnode(choice).config })
            == n.config,
        n.bootnode(choice).errors == n.errors,
        n.with_initial_balance(balance).config.initial_balance == balance,
        (NodeConfigView {
            initial_balance: n.config.initial_balance,
            ..n.with_initial_balance(balance).config
        }) == n.config,
        n.with_initial_balance(balance).errors == n.errors,
        n.with_args(args).config.args == args,
        (NodeConfigView { args: n.config.args, ..n.with_args(args).config }) == n.config,
        n.with_args(args).errors == n.errors,
        names_location(n.with_db_snapshot(v).config.db_snapshot, v),
        (NodeConfigView { db_snapshot: n.config.db_snapshot, ..n.with_db_snapshot(v).config })
            == n.config,
        n.with_db_snapshot(v).errors == n.errors,
{
}

/// A node's command and image are taken exactly when they obey their rules;
/// a taken value is read back and nothing else changes, a refused one
/// leaves the node as it was and adds one error naming the field.  So are
/// its resources, when they build.
pub proof fn law_node_checked_values(n: NodeBuilderView, v: Seq<char>, r: ResourcesBuilderView)
    ensures
        !has_space(v) ==> n.with_command(v).config.command == Some(v) && (NodeConfigView {
            command: n.config.command,
            ..n.with_command(v).config
        }) == n.config && n.with_command(v).errors == n.errors,
        has_space(v) ==> n.with_command(v).config == n.config && n.with_command(v).errors
            == n.errors.push(FieldErrorView::Command(ConversionErrorView::ContainsWhitespaces(v))),
        is_image(v) ==> n.with_image(v).config.image == Some(v) && (NodeConfigView {
            image: n.config.image,
            ..n.with_image(v).config
        }) == n.config && n.with_image(v).errors == n.errors,
        !is_image(v) ==> n.with_image(v).config == n.config && n.with_image(v).errors
            == n.errors.push(
            FieldErrorView::Image(
                ConversionErrorView::DoesntMatchRegex { value: v, regex: image_regex() },
            ),
        ),
        r.errors.len() == 0 ==> n.with_resources(r).config.resources == Some(r.resources) && (
        NodeConfigView { resources: n.config.resources, ..n.with_resources(r).config })
            == n.config && n.with_resources(r).errors == n.errors,
        r.errors.len() > 0 ==> n.with_resources(r).config == n.config && n.with_resources(
            r,
        ).errors.len() == n.errors.len() + r.errors.len(),
        forall|k: int|
            0 <= k < r.errors.len() ==> n.with_resources(r).errors[n.errors.len() + k]
                == FieldErrorView::Resources(#[trigger] r.errors[k]),
{
}

/// A node builds exactly when nothing was refused, giving every value it
/// was given; else it gives its name and every error.
pub proof fn law_node_build(n: NodeBuilderView)
    ensures
        n.errors.len() == 0 ==> n.build() == Ok::<NodeConfigView, (Seq<char>, Seq<FieldErrorView>)>(
            n.config,
        ),
        n.errors.len() > 0 ==> n.build() == Err::<NodeConfigView, (Seq<char>, Seq<FieldErrorView>)>(
            (n.config.name, n.errors),
        ),
{
}

/// Each quantity of a resources builder is taken exactly when it is a
/// quantity; a taken one is read back and nothing else changes, a refused
/// one leaves the resources as they were and adds one error naming it.  The
/// resources build exactly when nothing was refused.
pub proof fn law_resources(r: ResourcesBuilderView, v: Seq<char>)
    ensures
        is_quantity(v) ==> r.with_request_memory(v).resources.request_memory == Some(v) && (
        ResourcesView {
            request_memory: r.resources.request_memory,
            ..r.with_request_memory(v).resources
        }) == r.resources && r.with_request_memory(v).errors == r.errors,
        is_quantity(v) ==> r.with_request_cpu(v).resources.request_cpu == Some(v) && (ResourcesView {
            request_cpu: r.resources.request_cpu,
            ..r.with_request_cpu(v).resources
        }) == r.resources && r.with_request_cpu(v).errors == r.errors,
        is_quantity(v) ==> r.with_limit_memory(v).resources.limit_memory == Some(v) && (
        ResourcesView {
            limit_memory: r.resources.limit_memory,
            ..r.with_limit_memory(v).resources
        }) == r.resources && r.with_limit_memory(v).errors == r.errors,
        is_quantity(v) ==> r.with_limit_cpu(v).resources.limit_cpu == Some(v) && (ResourcesView {
            limit_cpu: r.resources.limit_cpu,
            ..r.with_limit_cpu(v).resources
        }) == r.resources && r.with_limit_cpu(v).errors == r.errors,
        !is_quantity(v) ==> r.with_request_memory(v).resources == r.resources
            && r.with_request_memory(v).errors == r.errors.push(
            ResourceErrorView::RequestMemory(
                ConversionErrorView::DoesntMatchRegex { value: v, regex: quantity_regex() },
            ),
        ),
        !is_quantity(v) ==> r.with_request_cpu(v).resources == r.resources
            && r.with_request_cpu(v).errors == r.errors.push(
            ResourceErrorView::RequestCpu(
                ConversionErrorView::DoesntMatchRegex { value: v, regex: quantity_regex() },
            ),
        ),
        !is_quantity(v) ==> r.with_limit_memory(v).resources == r.resources
            && r.with_limit_memory(v).errors == r.errors.push(
            ResourceErrorView::LimitMemory(
                ConversionErrorView::DoesntMatchRegex { value: v, regex: quantity_regex() },
            ),
        ),
        !is_quantity(v) ==> r.with_limit_cpu(v).resources == r.resources
            && r.with_limit_cpu(v).errors == r.errors.push(
            ResourceErrorView::LimitCpu(
                ConversionErrorView::DoesntMatchRegex { value: v, regex: quantity_regex() },
            ),
        ),
        r.errors.len() == 0 ==> r.build() == Ok::<ResourcesView, Seq<ResourceErrorView>>(
            r.resources,
        ),
        r.errors.len() > 0 ==> r.build() == Err::<ResourcesView, Seq<ResourceErrorView>>(r.errors),
{
}

/// A new parachain builder has id 100, is registered in genesis, starts
/// with a balance of 2 000 000 000 000, is based on cumulus, and holds
/// nothing else: no chain, defaults, locations, bootnodes, collators or
/// errors.  A new node builder takes what it is handed down, is a validator
/// and invulnerable but no bootnode, has no name and the same balance.
pub proof fn law_new_builders(ctx: ChainDefaultContextView)
    ensures
        ({
            let b = ParachainBuilderView::initial();
            &&& b.config.id == 100
            &&& b.config.registration_strategy == Some(RegistrationStrategy::InGenesis)
            &&& b.config.initial_balance == 2_000_000_000_000
            &&& b.config.is_cumulus_based
            &&& b.config.chain is None
            &&& b.config.default_command is None && b.config.default_image is None
            &&& b.config.default_resources is None && b.config.default_db_snapshot is None
            &&& b.config.default_args.len() == 0
            &&& b.config.genesis_wasm_path is None && b.config.genesis_wasm_generator is None
            &&& b.config.genesis_state_path is None && b.config.genesis_state_generator is None
            &&& b.config.chain_spec_path is None
            &&& b.config.bootnodes_addresses.len() == 0 && b.config.collators.len() == 0
            &&& b.errors.len() == 0
        }),
        ({
            let n = NodeBuilderView::initial(ctx);
            &&& n.config.name.len() == 0
            &&& n.config.is_validator && n.config.is_invulnerable && !n.config.is_bootnode
            &&& n.config.initial_balance == 2_000_000_000_000
            &&& n.config.command == ctx.default_command && n.config.image == ctx.default_image
            &&& n.config.resources == ctx.default_resources
            &&& n.config.db_snapshot == ctx.default_db_snapshot
            &&& n.config.args == ctx.default_args
            &&& n.errors.len() == 0
        }),
        ResourcesBuilderView::empty().errors.len() == 0,
        ResourcesBuilderView::empty().resources == (ResourcesView {
            request_memory: None,
            request_cpu: None,
            limit_memory: None,
            limit_cpu: None,
        }),
{
}

} // verus!
