//! The typed values of a configuration, each built from text by a rule.
use vstd::prelude::*;
use crate::errors::{ConversionError, ConversionErrorView};
use crate::image::{image_matches, image_regex, is_image};
use crate::net::{parse_url, text_of, url_parse};
use crate::quantity::{chars_of, is_quantity, quantity_matches, quantity_regex};
use crate::text::{contains_space, has_space};

verus! {

/// The mathematical value of a conversion's outcome.
pub open spec fn conversion_view<T: View>(r: Result<T, ConversionError>) -> Result<
    T::V,
    ConversionErrorView,
> {
    match r {
        Ok(t) => Ok(t@),
        Err(e) => Err(e@),
    }
}

/// Each item of `s` by its value.
pub open spec fn views_of<T: View>(s: Seq<T>) -> Seq<T::V> {
    s.map_values(|x: T| x@)
}

/// The value of an optional item.
pub open spec fn opt_view<T: View>(o: Option<T>) -> Option<T::V> {
    match o {
        Some(t) => Some(t@),
        None => None,
    }
}

/// Appending an item appends its value.
pub proof fn lemma_views_of_push<T: View>(s: Seq<T>, x: T)
    ensures
        views_of(s.push(x)) == views_of(s).push(x@),
{
    assert(views_of(s.push(x)) =~= views_of(s).push(x@));
}

/// Appends `f(a)` to `dst` for each item `a` of `src`, in order; `g` says
/// what `f` gives, by value.
pub(crate) fn append_mapped<A, B: View, F: Fn(A) -> B>(
    dst: &mut Vec<B>,
    src: Vec<A>,
    f: F,
    Ghost(g): Ghost<spec_fn(A) -> B::V>,
)
    requires
        forall|a: A| f.requires((a,)),
        forall|a: A, b: B| f.ensures((a,), b) ==> b@ == g(a),
    ensures
        views_of(final(dst)@) == views_of(old(dst)@) + src@.map_values(g),
{
    let ghost start = views_of(dst@);
    let ghost items = src@;
    for a in it: src.into_iter()
        invariant
            it.seq() == items,
            forall|a: A| f.requires((a,)),
            forall|a: A, b: B| f.ensures((a,), b) ==> b@ == g(a),
            views_of(dst@) == start + items.take(it.index() as int).map_values(g),
    {
        let ghost before = dst@;
        let b = f(a);
        dst.push(b);
        proof {
            lemma_views_of_push(before, b);
            assert(items.take(it.index() + 1).map_values(g) =~= items.take(
                it.index() as int,
            ).map_values(g).push(g(a)));
        }
    }
    assert(items.take(items.len() as int) =~= items);
}

/// The outcome of taking `v` as a chain name: refused if it holds whitespace
/// or is empty.
pub open spec fn chain_rule(v: Seq<char>) -> Result<Seq<char>, ConversionErrorView> {
    if has_space(v) {
        Err(ConversionErrorView::ContainsWhitespaces(v))
    } else if v.len() == 0 {
        Err(ConversionErrorView::CantBeEmpty)
    } else {
        Ok(v)
    }
}

/// The outcome of taking `v` as a command: refused if it holds whitespace.
pub open spec fn command_rule(v: Seq<char>) -> Result<Seq<char>, ConversionErrorView> {
    if has_space(v) {
        Err(ConversionErrorView::ContainsWhitespaces(v))
    } else {
        Ok(v)
    }
}

/// The outcome of taking `v` as an image: refused unless it is an image
/// reference.
pub open spec fn image_rule(v: Seq<char>) -> Result<Seq<char>, ConversionErrorView> {
    if is_image(v) {
        Ok(v)
    } else {
        Err(ConversionErrorView::DoesntMatchRegex { value: v, regex: image_regex() })
    }
}

/// The outcome of taking `v` as a resource quantity: refused unless it is a
/// quantity.
pub open spec fn quantity_rule(v: Seq<char>) -> Result<Seq<char>, ConversionErrorView> {
    if is_quantity(v) {
        Ok(v)
    } else {
        Err(ConversionErrorView::DoesntMatchRegex { value: v, regex: quantity_regex() })
    }
}

/// The name of a chain.
#[derive(Debug, PartialEq, Eq)]
pub struct Chain(String);

/// A command to run a node.
#[derive(Debug, PartialEq, Eq)]
pub struct Command(String);

/// A container image.
#[derive(Debug, PartialEq, Eq)]
pub struct Image(String);

/// An amount of memory or of CPU.
#[derive(Debug, PartialEq, Eq)]
pub struct ResourceQuantity(String);

impl View for Chain {
    type V = Seq<char>;

    closed spec fn view(&self) -> Seq<char> {
        self.0@
    }
}

impl View for Command {
    type V = Seq<char>;

    closed spec fn view(&self) -> Seq<char> {
        self.0@
    }
}

impl View for Image {
    type V = Seq<char>;

    closed spec fn view(&self) -> Seq<char> {
        self.0@
    }
}

impl View for ResourceQuantity {
    type V = Seq<char>;

    closed spec fn view(&self) -> Seq<char> {
        self.0@
    }
}

impl Chain {
    /// The chain named `value`; refused if `value` holds whitespace or is
    /// empty.
    pub fn try_from(value: &str) -> (r: Result<Chain, ConversionError>)
        ensures
            conversion_view(r) == chain_rule(value@),
    {
        if contains_space(value) {
            Err(ConversionError::ContainsWhitespaces(String::from_str(value)))
        } else if value.unicode_len() == 0 {
            Err(ConversionError::CantBeEmpty)
        } else {
            Ok(Chain(String::from_str(value)))
        }
    }

    pub fn as_str(&self) -> (s: &str)
        ensures
            s@ == self@,
    {
        self.0.as_str()
    }
}

impl Clone for Chain {
    fn clone(&self) -> (c: Self)
        ensures
            c@ == self@,
    {
        Chain(self.0.clone())
    }
}

impl Command {
    /// The command `value`; refused if `value` holds whitespace.
    pub fn try_from(value: &str) -> (r: Result<Command, ConversionError>)
        ensures
            conversion_view(r) == command_rule(value@),
    {
        if contains_space(value) {
            Err(ConversionError::ContainsWhitespaces(String::from_str(value)))
        } else {
            Ok(Command(String::from_str(value)))
        }
    }

    pub fn as_str(&self) -> (s: &str)
        ensures
            s@ == self@,
    {
        self.0.as_str()
    }
}

impl Clone for Command {
    fn clone(&self) -> (c: Self)
        ensures
            c@ == self@,
    {
        Command(self.0.clone())
    }
}

impl Image {
    /// The image `value`; refused unless `value` is an image reference.
    pub fn try_from(value: &str) -> (r: Result<Image, ConversionError>)
        ensures
            conversion_view(r) == image_rule(value@),
    {
        let chars = chars_of(value);
        if image_matches(&chars) {
            Ok(Image(String::from_str(value)))
        } else {
            Err(
                ConversionError::DoesntMatchRegex {
                    value: String::from_str(value),
                    regex: String::from_str("^([ip]|[hostname]/)?[tag_name]:[tag_version]?$"),
                },
            )
        }
    }

    pub fn as_str(&self) -> (s: &str)
        ensures
            s@ == self@,
    {
        self.0.as_str()
    }
}

impl Clone for Image {
    fn clone(&self) -> (c: Self)
        ensures
            c@ == self@,
    {
        Image(self.0.clone())
    }
}

impl ResourceQuantity {
    /// The quantity `value`; refused unless `value` is a quantity.
    pub fn try_from(value: &str) -> (r: Result<ResourceQuantity, ConversionError>)
        ensures
            conversion_view(r) == quantity_rule(value@),
    {
        let chars = chars_of(value);
        if quantity_matches(&chars) {
            Ok(ResourceQuantity(String::from_str(value)))
        } else {
            Err(
                ConversionError::DoesntMatchRegex {
                    value: String::from_str(value),
                    regex: String::from_str("^\\d+(.\\d+)?(m|K|M|G|T|P|E|Ki|Mi|Gi|Ti|Pi|Ei)?$"),
                },
            )
        }
    }

    pub fn as_str(&self) -> (s: &str)
        ensures
            s@ == self@,
    {
        self.0.as_str()
    }
}

impl Clone for ResourceQuantity {
    fn clone(&self) -> (c: Self)
        ensures
            c@ == self@,
    {
        ResourceQuantity(self.0.clone())
    }
}

/// A command-line argument of a node: a flag, or an option with its value.
#[derive(Debug, PartialEq, Eq)]
pub enum Arg {
    Flag(String),
    Option(String, String),
}

pub enum ArgView {
    Flag(Seq<char>),
    Option(Seq<char>, Seq<char>),
}

impl View for Arg {
    type V = ArgView;

    open spec fn view(&self) -> ArgView {
        match self {
            Arg::Flag(f) => ArgView::Flag(f@),
            Arg::Option(o, v) => ArgView::Option(o@, v@),
        }
    }
}

impl Arg {
    /// The flag `name`.
    pub fn flag(name: &str) -> (a: Arg)
        ensures
            a@ == ArgView::Flag(name@),
    {
        Arg::Flag(String::from_str(name))
    }

    /// The option `name` with `value`.
    pub fn option(name: &str, value: &str) -> (a: Arg)
        ensures
            a@ == ArgView::Option(name@, value@),
    {
        Arg::Option(String::from_str(name), String::from_str(value))
    }
}

impl Clone for Arg {
    fn clone(&self) -> (a: Self)
        ensures
            a@ == self@,
    {
        match self {
            Arg::Flag(f) => Arg::Flag(f.clone()),
            Arg::Option(o, v) => Arg::Option(o.clone(), v.clone()),
        }
    }
}

/// The arguments `args`, each by its value.
pub open spec fn args_view(args: Seq<Arg>) -> Seq<ArgView> {
    args.map_values(|a: Arg| a@)
}

/// Copies of `args`.
pub fn clone_args(args: &Vec<Arg>) -> (r: Vec<Arg>)
    ensures
        args_view(r@) == args_view(args@),
{
    let mut r: Vec<Arg> = Vec::new();
    let mut i: usize = 0;
    while i < args.len()
        invariant
            i <= args.len(),
            r.len() == i,
            forall|k: int| 0 <= k < i ==> (#[trigger] r@[k])@ == args@[k]@,
        decreases args.len() - i,
    {
        let a = args[i].clone();
        r.push(a);
        i = i + 1;
    }
    assert(args_view(r@) =~= args_view(args@));
    r
}

/// Where a file can be had: at a URL, or at a path on this machine.
#[derive(Debug, PartialEq, Eq)]
pub enum AssetLocation {
    Url(String),
    FilePath(String),
}

pub enum AssetLocationView {
    Url(Seq<char>),
    FilePath(Seq<char>),
}

impl View for AssetLocation {
    type V = AssetLocationView;

    open spec fn view(&self) -> AssetLocationView {
        match self {
            AssetLocation::Url(u) => AssetLocationView::Url(u@),
            AssetLocation::FilePath(p) => AssetLocationView::FilePath(p@),
        }
    }
}

/// The location that `v` names, given what the URL parser made of it: the
/// URL, or else the path `v`.
pub open spec fn location_from(v: Seq<char>, parsed: Option<Seq<char>>) -> AssetLocationView {
    match parsed {
        Some(u) => AssetLocationView::Url(u),
        None => AssetLocationView::FilePath(v),
    }
}

/// The location that `v` names: the URL that `v` parses to, or else the path
/// `v`.
pub open spec fn location_rule(v: Seq<char>) -> AssetLocationView {
    location_from(v, url_parse(v))
}

impl AssetLocation {
    /// The location that `value` names: a URL where `value` parses as one,
    /// else a file path.
    pub fn from_str(value: &str) -> (l: AssetLocation)
        ensures
            l@ == location_rule(value@),
            !value@.contains(':') ==> l@ == AssetLocationView::FilePath(value@),
    {
        let parsed = parse_url(value);
        proof {
            if !value@.contains(':') {
                assert(url_parse(value@) is None);
            }
        }
        Self::from_outcome(value, parsed)
    }

    /// The location that `value` names, given what the URL parser made of
    /// it: the URL `parsed` if there is one, else the file path `value`.
    pub fn from_outcome(value: &str, parsed: Option<String>) -> (l: AssetLocation)
        ensures
            l@ == location_from(value@, text_of(parsed)),
    {
        match parsed {
            Some(u) => AssetLocation::Url(u),
            None => AssetLocation::FilePath(String::from_str(value)),
        }
    }
}

impl Clone for AssetLocation {
    fn clone(&self) -> (l: Self)
        ensures
            l@ == self@,
    {
        match self {
            AssetLocation::Url(u) => AssetLocation::Url(u.clone()),
            AssetLocation::FilePath(p) => AssetLocation::FilePath(p.clone()),
        }
    }
}

} // verus!
