//! The errors that the builders record, and the text that describes each.
use vstd::prelude::*;
use crate::text::{decimal, push_decimal};

verus! {

/// Why a text value was refused as a typed value.
#[derive(Debug)]
pub enum ConversionError {
    /// The value holds a whitespace character.
    ContainsWhitespaces(String),
    /// The value does not have the shape that `regex` describes.
    DoesntMatchRegex { value: String, regex: String },
    /// The value is empty.
    CantBeEmpty,
}

/// The mathematical value of a [`ConversionError`].
pub enum ConversionErrorView {
    ContainsWhitespaces(Seq<char>),
    DoesntMatchRegex { value: Seq<char>, regex: Seq<char> },
    CantBeEmpty,
}

impl View for ConversionError {
    type V = ConversionErrorView;

    open spec fn view(&self) -> ConversionErrorView {
        match self {
            ConversionError::ContainsWhitespaces(v) => ConversionErrorView::ContainsWhitespaces(v@),
            ConversionError::DoesntMatchRegex { value, regex } => ConversionErrorView::DoesntMatchRegex {
                value: value@,
                regex: regex@,
            },
            ConversionError::CantBeEmpty => ConversionErrorView::CantBeEmpty,
        }
    }
}

/// A refused resource quantity, with the quantity it was given for.
#[derive(Debug)]
pub enum ResourceError {
    RequestMemory(ConversionError),
    RequestCpu(ConversionError),
    LimitMemory(ConversionError),
    LimitCpu(ConversionError),
}

pub enum ResourceErrorView {
    RequestMemory(ConversionErrorView),
    RequestCpu(ConversionErrorView),
    LimitMemory(ConversionErrorView),
    LimitCpu(ConversionErrorView),
}

impl View for ResourceError {
    type V = ResourceErrorView;

    open spec fn view(&self) -> ResourceErrorView {
        match self {
            ResourceError::RequestMemory(e) => ResourceErrorView::RequestMemory(e@),
            ResourceError::RequestCpu(e) => ResourceErrorView::RequestCpu(e@),
            ResourceError::LimitMemory(e) => ResourceErrorView::LimitMemory(e@),
            ResourceError::LimitCpu(e) => ResourceErrorView::LimitCpu(e@),
        }
    }
}

/// A refused value, with the field it was given for.
#[derive(Debug)]
pub enum FieldError {
    Chain(ConversionError),
    Image(ConversionError),
    DefaultImage(ConversionError),
    Command(ConversionError),
    DefaultCommand(ConversionError),
    /// The position of the address in the list, the address, and why the
    /// address parser refused it.
    BootnodesAddress(usize, String, String),
    GenesisWasmGenerator(ConversionError),
    GenesisStateGenerator(ConversionError),
    DefaultResources(ResourceError),
    Resources(ResourceError),
}

pub enum FieldErrorView {
    Chain(ConversionErrorView),
    Image(ConversionErrorView),
    DefaultImage(ConversionErrorView),
    Command(ConversionErrorView),
    DefaultCommand(ConversionErrorView),
    BootnodesAddress(nat, Seq<char>, Seq<char>),
    GenesisWasmGenerator(ConversionErrorView),
    GenesisStateGenerator(ConversionErrorView),
    DefaultResources(ResourceErrorView),
    Resources(ResourceErrorView),
}

impl View for FieldError {
    type V = FieldErrorView;

    open spec fn view(&self) -> FieldErrorView {
        match self {
            FieldError::Chain(e) => FieldErrorView::Chain(e@),
            FieldError::Image(e) => FieldErrorView::Image(e@),
            FieldError::DefaultImage(e) => FieldErrorView::DefaultImage(e@),
            FieldError::Command(e) => FieldErrorView::Command(e@),
            FieldError::DefaultCommand(e) => FieldErrorView::DefaultCommand(e@),
            FieldError::BootnodesAddress(i, a, m) => FieldErrorView::BootnodesAddress(
                *i as nat,
                a@,
                m@,
            ),
            FieldError::GenesisWasmGenerator(e) => FieldErrorView::GenesisWasmGenerator(e@),
            FieldError::GenesisStateGenerator(e) => FieldErrorView::GenesisStateGenerator(e@),
            FieldError::DefaultResources(e) => FieldErrorView::DefaultResources(e@),
            FieldError::Resources(e) => FieldErrorView::Resources(e@),
        }
    }
}

/// An error that a parachain builder records: one of a field of the
/// parachain, or one of a field of a named collator.
#[derive(Debug)]
pub enum ParachainError {
    Field(FieldError),
    Collator(String, FieldError),
}

pub enum ParachainErrorView {
    Field(FieldErrorView),
    Collator(Seq<char>, FieldErrorView),
}

impl View for ParachainError {
    type V = ParachainErrorView;

    open spec fn view(&self) -> ParachainErrorView {
        match self {
            ParachainError::Field(e) => ParachainErrorView::Field(e@),
            ParachainError::Collator(n, e) => ParachainErrorView::Collator(n@, e@),
        }
    }
}

/// An error of a network configuration, with the parachain (by its id) in
/// which it was found.
#[derive(Debug)]
pub enum ConfigError {
    Parachain(u32, ParachainError),
}

pub enum ConfigErrorView {
    Parachain(nat, ParachainErrorView),
}

impl View for ConfigError {
    type V = ConfigErrorView;

    open spec fn view(&self) -> ConfigErrorView {
        match self {
            ConfigError::Parachain(id, e) => ConfigErrorView::Parachain(*id as nat, e@),
        }
    }
}

/// `'` + `v` + `'`
pub open spec fn quoted(v: Seq<char>) -> Seq<char> {
    "'"@ + v + "'"@
}

/// The text of a conversion error.
pub open spec fn conversion_text(e: ConversionErrorView) -> Seq<char> {
    match e {
        ConversionErrorView::ContainsWhitespaces(v) => quoted(v) + " shouldn't contains whitespace"@,
        ConversionErrorView::DoesntMatchRegex { value, regex } => quoted(value)
            + " doesn't match regex "@ + quoted(regex),
        ConversionErrorView::CantBeEmpty => "can't be empty"@,
    }
}

/// The text of a resource error: the quantity's name, then the reason.
pub open spec fn resource_text(e: ResourceErrorView) -> Seq<char> {
    match e {
        ResourceErrorView::RequestMemory(c) => "request_memory: "@ + conversion_text(c),
        ResourceErrorView::RequestCpu(c) => "request_cpu: "@ + conversion_text(c),
        ResourceErrorView::LimitMemory(c) => "limit_memory: "@ + conversion_text(c),
        ResourceErrorView::LimitCpu(c) => "limit_cpu: "@ + conversion_text(c),
    }
}

/// The text of a field error: the field's name, then the reason.
pub open spec fn field_text(e: FieldErrorView) -> Seq<char> {
    match e {
        FieldErrorView::Chain(c) => "chain: "@ + conversion_text(c),
        FieldErrorView::Image(c) => "image: "@ + conversion_text(c),
        FieldErrorView::DefaultImage(c) => "default_image: "@ + conversion_text(c),
        FieldErrorView::Command(c) => "command: "@ + conversion_text(c),
        FieldErrorView::DefaultCommand(c) => "default_command: "@ + conversion_text(c),
        FieldErrorView::BootnodesAddress(i, a, m) => "bootnodes_addresses["@ + decimal(i) + "]: "@
            + quoted(a) + " "@ + m,
        FieldErrorView::GenesisWasmGenerator(c) => "genesis_wasm_generator: "@ + conversion_text(c),
        FieldErrorView::GenesisStateGenerator(c) => "genesis_state_generator: "@ + conversion_text(
            c,
        ),
        FieldErrorView::DefaultResources(r) => "default_resources."@ + resource_text(r),
        FieldErrorView::Resources(r) => "resources."@ + resource_text(r),
    }
}

/// The text of a parachain error.
pub open spec fn parachain_error_text(e: ParachainErrorView) -> Seq<char> {
    match e {
        ParachainErrorView::Field(f) => field_text(f),
        ParachainErrorView::Collator(n, f) => "collators["@ + quoted(n) + "]."@ + field_text(f),
    }
}

/// The text of a configuration error.
pub open spec fn config_error_text(e: ConfigErrorView) -> Seq<char> {
    match e {
        ConfigErrorView::Parachain(id, p) => "parachain["@ + decimal(id) + "]."@
            + parachain_error_text(p),
    }
}

fn push_quoted(out: &mut String, v: &str)
    ensures
        final(out)@ == old(out)@ + quoted(v@),
{
    out.append("'");
    out.append(v);
    out.append("'");
    assert(final(out)@ =~= old(out)@ + quoted(v@));
}

impl ConversionError {
    /// Appends the text of this error to `out`.
    pub fn write_to(&self, out: &mut String)
        ensures
            final(out)@ == old(out)@ + conversion_text(self@),
    {
        match self {
            ConversionError::ContainsWhitespaces(v) => {
                push_quoted(out, v.as_str());
                out.append(" shouldn't contains whitespace");
            },
            ConversionError::DoesntMatchRegex { value, regex } => {
                push_quoted(out, value.as_str());
                out.append(" doesn't match regex ");
                push_quoted(out, regex.as_str());
            },
            ConversionError::CantBeEmpty => {
                out.append("can't be empty");
            },
        }
        assert(final(out)@ =~= old(out)@ + conversion_text(self@));
    }

    /// The text of this error.
    pub fn to_string(&self) -> (s: String)
        ensures
            s@ == conversion_text(self@),
    {
        let mut s = String::new();
        self.write_to(&mut s);
        assert(s@ =~= conversion_text(self@));
        s
    }
}

impl ResourceError {
    /// Appends the text of this error to `out`.
    pub fn write_to(&self, out: &mut String)
        ensures
            final(out)@ == old(out)@ + resource_text(self@),
    {
        match self {
            ResourceError::RequestMemory(c) => {
                out.append("request_memory: ");
                c.write_to(out);
            },
            ResourceError::RequestCpu(c) => {
                out.append("request_cpu: ");
                c.write_to(out);
            },
            ResourceError::LimitMemory(c) => {
                out.append("limit_memory: ");
                c.write_to(out);
            },
            ResourceError::LimitCpu(c) => {
                out.append("limit_cpu: ");
                c.write_to(out);
            },
        }
        assert(final(out)@ =~= old(out)@ + resource_text(self@));
    }

    /// The text of this error.
    pub fn to_string(&self) -> (s: String)
        ensures
            s@ == resource_text(self@),
    {
        let mut s = String::new();
        self.write_to(&mut s);
        assert(s@ =~= resource_text(self@));
        s
    }
}

impl FieldError {
    /// Appends the text of this error to `out`.
    pub fn write_to(&self, out: &mut String)
        ensures
            final(out)@ == old(out)@ + field_text(self@),
    {
        match self {
            FieldError::Chain(c) => {
                out.append("chain: ");
                c.write_to(out);
            },
            FieldError::Image(c) => {
                out.append("image: ");
                c.write_to(out);
            },
            FieldError::DefaultImage(c) => {
                out.append("default_image: ");
                c.write_to(out);
            },
            FieldError::Command(c) => {
                out.append("command: ");
                c.write_to(out);
            },
            FieldError::DefaultCommand(c) => {
                out.append("default_command: ");
                c.write_to(out);
            },
            FieldError::BootnodesAddress(i, a, m) => {
                out.append("bootnodes_addresses[");
                push_decimal(out, *i as u64);
                out.append("]: ");
                push_quoted(out, a.as_str());
                out.append(" ");
                out.append(m.as_str());
            },
            FieldError::GenesisWasmGenerator(c) => {
                out.append("genesis_wasm_generator: ");
                c.write_to(out);
            },
            FieldError::GenesisStateGenerator(c) => {
                out.append("genesis_state_generator: ");
                c.write_to(out);
            },
            FieldError::DefaultResources(r) => {
                out.append("default_resources.");
                r.write_to(out);
            },
            FieldError::Resources(r) => {
                out.append("resources.");
                r.write_to(out);
            },
        }
        assert(final(out)@ =~= old(out)@ + field_text(self@));
    }

    /// The text of this error.
    pub fn to_string(&self) -> (s: String)
        ensures
            s@ == field_text(self@),
    {
        let mut s = String::new();
        self.write_to(&mut s);
        assert(s@ =~= field_text(self@));
        s
    }
}

impl ParachainError {
    /// Appends the text of this error to `out`.
    pub fn write_to(&self, out: &mut String)
        ensures
            final(out)@ == old(out)@ + parachain_error_text(self@),
    {
        match self {
            ParachainError::Field(f) => {
                f.write_to(out);
            },
            ParachainError::Collator(n, f) => {
                out.append("collators[");
                push_quoted(out, n.as_str());
                out.append("].");
                f.write_to(out);
            },
        }
        assert(final(out)@ =~= old(out)@ + parachain_error_text(self@));
    }

    /// The text of this error.
    pub fn to_string(&self) -> (s: String)
        ensures
            s@ == parachain_error_text(self@),
    {
        let mut s = String::new();
        self.write_to(&mut s);
        assert(s@ =~= parachain_error_text(self@));
        s
    }
}

impl ConfigError {
    /// The text of this error: where it was found, then what was refused.
    pub fn to_string(&self) -> (s: String)
        ensures
            s@ == config_error_text(self@),
    {
        let mut s = String::new();
        match self {
            ConfigError::Parachain(id, e) => {
                s.append("parachain[");
                push_decimal(&mut s, *id as u64);
                s.append("].");
                e.write_to(&mut s);
            },
        }
        assert(s@ =~= config_error_text(self@));
        s
    }
}

} // verus!
