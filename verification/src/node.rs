//! Nodes of a chain, such as the collators of a parachain, and the builder
//! that checks their values.
use std::marker::PhantomData;
use vstd::prelude::*;
use crate::errors::{FieldError, FieldErrorView, ResourceError, ResourceErrorView};
use crate::resources::{Resources, ResourcesBuilder, ResourcesBuilderView, ResourcesView};
use crate::types::{
    append_mapped, command_rule, image_rule, lemma_views_of_push, location_rule,
    opt_view, views_of, Arg, ArgView, AssetLocation, AssetLocationView, Command, Image,
};

verus! {

/// The values that a chain hands down to its nodes where they set none of
/// their own.
#[derive(Debug)]
pub struct ChainDefaultContext {
    pub default_command: Option<Command>,
    pub default_image: Option<Image>,
    pub default_resources: Option<Resources>,
    pub default_db_snapshot: Option<AssetLocation>,
    pub default_args: Vec<Arg>,
}

pub struct ChainDefaultContextView {
    pub default_command: Option<Seq<char>>,
    pub default_image: Option<Seq<char>>,
    pub default_resources: Option<ResourcesView>,
    pub default_db_snapshot: Option<AssetLocationView>,
    pub default_args: Seq<ArgView>,
}

impl View for ChainDefaultContext {
    type V = ChainDefaultContextView;

    open spec fn view(&self) -> ChainDefaultContextView {
        ChainDefaultContextView {
            default_command: opt_view(self.default_command),
            default_image: opt_view(self.default_image),
            default_resources: opt_view(self.default_resources),
            default_db_snapshot: opt_view(self.default_db_snapshot),
            default_args: views_of(self.default_args@),
        }
    }
}

impl ChainDefaultContextView {
    /// The context that hands down nothing.
    pub open spec fn empty() -> ChainDefaultContextView {
        ChainDefaultContextView {
            default_command: None,
            default_image: None,
            default_resources: None,
            default_db_snapshot: None,
            default_args: Seq::empty(),
        }
    }
}

impl Default for ChainDefaultContext {
    fn default() -> (c: Self)
        ensures
            c@ == ChainDefaultContextView::empty(),
    {
        let c = ChainDefaultContext {
            default_command: None,
            default_image: None,
            default_resources: None,
            default_db_snapshot: None,
            default_args: Vec::new(),
        };
        assert(c@.default_args =~= Seq::<ArgView>::empty());
        c
    }
}

/// The configuration of one node.
#[derive(Debug, Clone, PartialEq)]
pub struct NodeConfig {
    name: String,
    image: Option<Image>,
    command: Option<Command>,
    args: Vec<Arg>,
    is_validator: bool,
    is_invulnerable: bool,
    is_bootnode: bool,
    initial_balance: u128,
    resources: Option<Resources>,
    db_snapshot: Option<AssetLocation>,
}

pub struct NodeConfigView {
    pub name: Seq<char>,
    pub image: Option<Seq<char>>,
    pub command: Option<Seq<char>>,
    pub args: Seq<ArgView>,
    pub is_validator: bool,
    pub is_invulnerable: bool,
    pub is_bootnode: bool,
    pub initial_balance: u128,
    pub resources: Option<ResourcesView>,
    pub db_snapshot: Option<AssetLocationView>,
}

impl View for NodeConfig {
    type V = NodeConfigView;

    closed spec fn view(&self) -> NodeConfigView {
        NodeConfigView {
            name: self.name@,
            image: opt_view(self.image),
            command: opt_view(self.command),
            args: views_of(self.args@),
            is_validator: self.is_validator,
            is_invulnerable: self.is_invulnerable,
            is_bootnode: self.is_bootnode,
            initial_balance: self.initial_balance,
            resources: opt_view(self.resources),
            db_snapshot: opt_view(self.db_snapshot),
        }
    }
}

/// References to the items of `v`.
pub fn refs_of<T: View>(v: &Vec<T>) -> (r: Vec<&T>)
    ensures
        views_of(r@) == views_of(v@),
{
    let mut r: Vec<&T> = Vec::new();
    let mut i: usize = 0;
    while i < v.len()
        invariant
            i <= v.len(),
            r.len() == i,
            forall|k: int| 0 <= k < i ==> (#[trigger] r@[k])@ == v@[k]@,
        decreases v.len() - i,
    {
        r.push(&v[i]);
        i = i + 1;
    }
    assert(views_of(r@) =~= views_of(v@));
    r
}

/// A reference to the item of `o`, if any.
pub fn ref_of<T: View>(o: &Option<T>) -> (r: Option<&T>)
    ensures
        opt_view(r) == opt_view(*o),
{
    match o {
        Some(t) => Some(t),
        None => None,
    }
}

impl NodeConfig {
    pub fn name(&self) -> (r: &str)
        ensures
            r@ == self@.name,
    {
        self.name.as_str()
    }

    pub fn image(&self) -> (r: Option<&Image>)
        ensures
            opt_view(r) == self@.image,
    {
        ref_of(&self.image)
    }

    pub fn command(&self) -> (r: Option<&Command>)
        ensures
            opt_view(r) == self@.command,
    {
        ref_of(&self.command)
    }

    pub fn args(&self) -> (r: Vec<&Arg>)
        ensures
            views_of(r@) == self@.args,
    {
        refs_of(&self.args)
    }

    pub fn is_validator(&self) -> (r: bool)
        ensures
            r == self@.is_validator,
    {
        self.is_validator
    }

    pub fn is_invulnerable(&self) -> (r: bool)
        ensures
            r == self@.is_invulnerable,
    {
        self.is_invulnerable
    }

    pub fn is_bootnode(&self) -> (r: bool)
        ensures
            r == self@.is_bootnode,
    {
        self.is_bootnode
    }

    pub fn initial_balance(&self) -> (r: u128)
        ensures
            r == self@.initial_balance,
    {
        self.initial_balance
    }

    pub fn resources(&self) -> (r: Option<&Resources>)
        ensures
            opt_view(r) == self@.resources,
    {
        ref_of(&self.resources)
    }

    pub fn db_snapshot(&self) -> (r: Option<&AssetLocation>)
        ensures
            opt_view(r) == self@.db_snapshot,
    {
        ref_of(&self.db_snapshot)
    }
}

/// The state of a node builder before the node has a name.
#[derive(Debug)]
pub struct Initial;

/// The state of a node builder once the node has a name.
#[derive(Debug)]
pub struct Buildable;

/// The value of a node builder: the node so far, and the errors of what it
/// refused, in the order of the calls.
pub struct NodeBuilderView {
    pub config: NodeConfigView,
    pub errors: Seq<FieldErrorView>,
}

/// The balance that a node starts with where none is given.
pub open spec fn default_node_balance() -> u128 {
    2_000_000_000_000
}

impl NodeBuilderView {
    /// A builder for a node that takes what `ctx` hands down: a validator
    /// and invulnerable, no bootnode, with the default balance.
    pub open spec fn initial(ctx: ChainDefaultContextView) -> NodeBuilderView {
        NodeBuilderView {
            config: NodeConfigView {
                name: Seq::empty(),
                image: ctx.default_image,
                command: ctx.default_command,
                args: ctx.default_args,
                is_validator: true,
                is_invulnerable: true,
                is_bootnode: false,
                initial_balance: default_node_balance(),
                resources: ctx.default_resources,
                db_snapshot: ctx.default_db_snapshot,
            },
            errors: Seq::empty(),
        }
    }

    pub open spec fn with_name(self, name: Seq<char>) -> NodeBuilderView {
        NodeBuilderView { config: NodeConfigView { name, ..self.config }, ..self }
    }

    pub open spec fn with_command(self, v: Seq<char>) -> NodeBuilderView {
        match command_rule(v) {
            Ok(c) => NodeBuilderView { config: NodeConfigView { command: Some(c), ..self.config }, ..self },
            Err(e) => NodeBuilderView { errors: self.errors.push(FieldErrorView::Command(e)), ..self },
        }
    }

    pub open spec fn with_image(self, v: Seq<char>) -> NodeBuilderView {
        match image_rule(v) {
            Ok(i) => NodeBuilderView { config: NodeConfigView { image: Some(i), ..self.config }, ..self },
            Err(e) => NodeBuilderView { errors: self.errors.push(FieldErrorView::Image(e)), ..self },
        }
    }

    pub open spec fn with_args(self, args: Seq<ArgView>) -> NodeBuilderView {
        NodeBuilderView { config: NodeConfigView { args, ..self.config }, ..self }
    }

    pub open spec fn validator(self, choice: bool) -> NodeBuilderView {
        NodeBuilderView { config: NodeConfigView { is_validator: choice, ..self.config }, ..self }
    }

    pub open spec fn invulnerable(self, choice: bool) -> NodeBuilderView {
        NodeBuilderView { config: NodeConfigView { is_invulnerable: choice, ..self.config }, ..self }
    }

    pub open spec fn bootnode(self, choice: bool) -> NodeBuilderView {
        NodeBuilderView { config: NodeConfigView { is_bootnode: choice, ..self.config }, ..self }
    }

    pub open spec fn with_initial_balance(self, balance: u128) -> NodeBuilderView {
        NodeBuilderView {
            config: NodeConfigView { initial_balance: balance, ..self.config },
            ..self
        }
    }

    /// Takes the resources that `built` gives, or records each of its errors
    /// as one of the node's resources.
    pub open spec fn with_resources(self, built: ResourcesBuilderView) -> NodeBuilderView {
        match built.build() {
            Ok(r) => NodeBuilderView {
                config: NodeConfigView { resources: Some(r), ..self.config },
                ..self
            },
            Err(es) => NodeBuilderView {
                errors: self.errors + es.map_values(|e: ResourceErrorView| FieldErrorView::Resources(e)),
                ..self
            },
        }
    }

    pub open spec fn with_db_snapshot(self, v: Seq<char>) -> NodeBuilderView {
        NodeBuilderView {
            config: NodeConfigView { db_snapshot: Some(location_rule(v)), ..self.config },
            ..self
        }
    }

    /// The node, if nothing was refused; else its name and every error, in
    /// order.
    pub open spec fn build(self) -> Result<NodeConfigView, (Seq<char>, Seq<FieldErrorView>)> {
        if self.errors.len() == 0 {
            Ok(self.config)
        } else {
            Err((self.config.name, self.errors))
        }
    }
}

/// Builds a [`NodeConfig`], checking each value and collecting every error.
#[derive(Debug)]
pub struct NodeConfigBuilder<S> {
    config: NodeConfig,
    errors: Vec<FieldError>,
    _state: PhantomData<S>,
}

impl<S> View for NodeConfigBuilder<S> {
    type V = NodeBuilderView;

    closed spec fn view(&self) -> NodeBuilderView {
        NodeBuilderView { config: self.config@, errors: views_of(self.errors@) }
    }
}

/// The value of the outcome of building a node.
pub open spec fn node_build_view(r: Result<NodeConfig, (String, Vec<FieldError>)>) -> Result<
    NodeConfigView,
    (Seq<char>, Seq<FieldErrorView>),
> {
    match r {
        Ok(n) => Ok(n@),
        Err((name, es)) => Err((name@, views_of(es@))),
    }
}

/// `e` as an error of the resources of a node.
fn as_resources_error(e: ResourceError) -> (r: FieldError)
    ensures
        r@ == FieldErrorView::Resources(e@),
{
    FieldError::Resources(e)
}

impl NodeConfigBuilder<Initial> {
    /// A builder for a node that takes what `ctx` hands down.
    pub fn new(ctx: ChainDefaultContext) -> (b: NodeConfigBuilder<Initial>)
        ensures
            b@ == NodeBuilderView::initial(ctx@),
    {
        let b = NodeConfigBuilder {
            config: NodeConfig {
                name: String::new(),
                image: ctx.default_image,
                command: ctx.default_command,
                args: ctx.default_args,
                is_validator: true,
                is_invulnerable: true,
                is_bootnode: false,
                initial_balance: 2_000_000_000_000,
                resources: ctx.default_resources,
                db_snapshot: ctx.default_db_snapshot,
            },
            errors: Vec::new(),
            _state: PhantomData,
        };
        assert(b@.errors =~= Seq::<FieldErrorView>::empty());
        b
    }

    /// Names the node.
    pub fn with_name(self, name: &str) -> (b: NodeConfigBuilder<Buildable>)
        ensures
            b@ == self@.with_name(name@),
    {
        NodeConfigBuilder {
            config: NodeConfig { name: String::from_str(name), ..self.config },
            errors: self.errors,
            _state: PhantomData,
        }
    }
}

impl NodeConfigBuilder<Buildable> {
    pub fn with_command(self, command: &str) -> (b: Self)
        ensures
            b@ == self@.with_command(command@),
    {
        let mut b = self;
        match Command::try_from(command) {
            Ok(c) => {
                b.config.command = Some(c);
            },
            Err(e) => {
                proof {
                    lemma_views_of_push(b.errors@, FieldError::Command(e));
                }
                b.errors.push(FieldError::Command(e));
            },
        }
        b
    }

    pub fn with_image(self, image: &str) -> (b: Self)
        ensures
            b@ == self@.with_image(image@),
    {
        let mut b = self;
        match Image::try_from(image) {
            Ok(i) => {
                b.config.image = Some(i);
            },
            Err(e) => {
                proof {
                    lemma_views_of_push(b.errors@, FieldError::Image(e));
                }
                b.errors.push(FieldError::Image(e));
            },
        }
        b
    }

    pub fn with_args(self, args: Vec<Arg>) -> (b: Self)
        ensures
            b@ == self@.with_args(views_of(args@)),
    {
        let mut b = self;
        b.config.args = args;
        b
    }

    pub fn validator(self, choice: bool) -> (b: Self)
        ensures
            b@ == self@.validator(choice),
    {
        let mut b = self;
        b.config.is_validator = choice;
        b
    }

    pub fn invulnerable(self, choice: bool) -> (b: Self)
        ensures
            b@ == self@.invulnerable(choice),
    {
        let mut b = self;
        b.config.is_invulnerable = choice;
        b
    }

    pub fn bootnode(self, choice: bool) -> (b: Self)
        ensures
            b@ == self@.bootnode(choice),
    {
        let mut b = self;
        b.config.is_bootnode = choice;
        b
    }

    pub fn with_initial_balance(self, balance: u128) -> (b: Self)
        ensures
            b@ == self@.with_initial_balance(balance),
    {
        let mut b = self;
        b.config.initial_balance = balance;
        b
    }

    /// Takes the resources that `f` builds from an empty resources builder,
    /// or records each of their errors.
    pub fn with_resources<F: Fn(ResourcesBuilder) -> ResourcesBuilder>(self, f: F) -> (b: Self)
        requires
            forall|r: ResourcesBuilder| f.requires((r,)),
        ensures
            exists|given: ResourcesBuilder, built: ResourcesBuilder|
                given@ == ResourcesBuilderView::empty() && #[trigger] f.ensures((given,), built)
                    && b@ == self@.with_resources(built@),
    {
        let given = ResourcesBuilder::new();
        let ghost g = given;
        let built = f(given);
        let ghost bc = built;
        let mut b = self;
        match built.build() {
            Ok(r) => {
                b.config.resources = Some(r);
            },
            Err(es) => {
                let ghost ev = es@;
                append_mapped(
                    &mut b.errors,
                    es,
                    as_resources_error,
                    Ghost(|e: ResourceError| FieldErrorView::Resources(e@)),
                );
                assert(ev.map_values(|e: ResourceError| FieldErrorView::Resources(e@)) =~= views_of(
                    ev,
                ).map_values(|e: ResourceErrorView| FieldErrorView::Resources(e)));
            },
        }
        assert(g@ == ResourcesBuilderView::empty() && f.ensures((g,), bc) && b@ == self@.with_resources(
            bc@,
        ));
        b
    }

    pub fn with_db_snapshot(self, location: &str) -> (b: Self)
        ensures
            b@ == self@.with_db_snapshot(location@),
    {
        let mut b = self;
        b.config.db_snapshot = Some(AssetLocation::from_str(location));
        b
    }

    /// The node, if nothing was refused; else its name and every error, in
    /// the order of the calls.
    pub fn build(self) -> (r: Result<NodeConfig, (String, Vec<FieldError>)>)
        ensures
            node_build_view(r) == self@.build(),
    {
        if self.errors.len() == 0 {
            Ok(self.config)
        } else {
            Err((self.config.name, self.errors))
        }
    }
}

} // verus!
