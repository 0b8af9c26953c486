//! The memory and CPU that a node asks for and may use at most.
use vstd::prelude::*;
use crate::errors::{ResourceError, ResourceErrorView};
use crate::types::{
    lemma_views_of_push, opt_view, quantity_rule, views_of, ResourceQuantity,
};

verus! {

/// Requests and limits of memory and CPU, each optional.
#[derive(Debug, PartialEq, Eq)]
pub struct Resources {
    request_memory: Option<ResourceQuantity>,
    request_cpu: Option<ResourceQuantity>,
    limit_memory: Option<ResourceQuantity>,
    limit_cpu: Option<ResourceQuantity>,
}

pub struct ResourcesView {
    pub request_memory: Option<Seq<char>>,
    pub request_cpu: Option<Seq<char>>,
    pub limit_memory: Option<Seq<char>>,
    pub limit_cpu: Option<Seq<char>>,
}

impl View for Resources {
    type V = ResourcesView;

    closed spec fn view(&self) -> ResourcesView {
        ResourcesView {
            request_memory: opt_view(self.request_memory),
            request_cpu: opt_view(self.request_cpu),
            limit_memory: opt_view(self.limit_memory),
            limit_cpu: opt_view(self.limit_cpu),
        }
    }
}

fn clone_quantity(q: &Option<ResourceQuantity>) -> (r: Option<ResourceQuantity>)
    ensures
        opt_view(r) == opt_view(*q),
{
    match q {
        Some(q) => Some(q.clone()),
        None => None,
    }
}

fn quantity_ref(q: &Option<ResourceQuantity>) -> (r: Option<&ResourceQuantity>)
    ensures
        opt_view(r) == opt_view(*q),
{
    match q {
        Some(q) => Some(q),
        None => None,
    }
}

impl Resources {
    pub fn request_memory(&self) -> (r: Option<&ResourceQuantity>)
        ensures
            opt_view(r) == self@.request_memory,
    {
        quantity_ref(&self.request_memory)
    }

    pub fn request_cpu(&self) -> (r: Option<&ResourceQuantity>)
        ensures
            opt_view(r) == self@.request_cpu,
    {
        quantity_ref(&self.request_cpu)
    }

    pub fn limit_memory(&self) -> (r: Option<&ResourceQuantity>)
        ensures
            opt_view(r) == self@.limit_memory,
    {
        quantity_ref(&self.limit_memory)
    }

    pub fn limit_cpu(&self) -> (r: Option<&ResourceQuantity>)
        ensures
            opt_view(r) == self@.limit_cpu,
    {
        quantity_ref(&self.limit_cpu)
    }
}

impl Clone for Resources {
    fn clone(&self) -> (r: Self)
        ensures
            r@ == self@,
    {
        Resources {
            request_memory: clone_quantity(&self.request_memory),
            request_cpu: clone_quantity(&self.request_cpu),
            limit_memory: clone_quantity(&self.limit_memory),
            limit_cpu: clone_quantity(&self.limit_cpu),
        }
    }
}

/// The value of a resources builder: what it has taken so far, and the
/// errors of what it refused, in the order of the calls.
pub struct ResourcesBuilderView {
    pub resources: ResourcesView,
    pub errors: Seq<ResourceErrorView>,
}

impl ResourcesBuilderView {
    pub open spec fn empty() -> ResourcesBuilderView {
        ResourcesBuilderView {
            resources: ResourcesView {
                request_memory: None,
                request_cpu: None,
                limit_memory: None,
                limit_cpu: None,
            },
            errors: Seq::empty(),
        }
    }

    pub open spec fn with_request_memory(self, v: Seq<char>) -> ResourcesBuilderView {
        match quantity_rule(v) {
            Ok(q) => ResourcesBuilderView {
                resources: ResourcesView { request_memory: Some(q), ..self.resources },
                ..self
            },
            Err(e) => ResourcesBuilderView {
                errors: self.errors.push(ResourceErrorView::RequestMemory(e)),
                ..self
            },
        }
    }

    pub open spec fn with_request_cpu(self, v: Seq<char>) -> ResourcesBuilderView {
        match quantity_rule(v) {
            Ok(q) => ResourcesBuilderView {
                resources: ResourcesView { request_cpu: Some(q), ..self.resources },
                ..self
            },
            Err(e) => ResourcesBuilderView {
                errors: self.errors.push(ResourceErrorView::RequestCpu(e)),
                ..self
            },
        }
    }

    pub open spec fn with_limit_memory(self, v: Seq<char>) -> ResourcesBuilderView {
        match quantity_rule(v) {
            Ok(q) => ResourcesBuilderView {
                resources: ResourcesView { limit_memory: Some(q), ..self.resources },
                ..self
            },
            Err(e) => ResourcesBuilderView {
                errors: self.errors.push(ResourceErrorView::LimitMemory(e)),
                ..self
            },
        }
    }

    pub open spec fn with_limit_cpu(self, v: Seq<char>) -> ResourcesBuilderView {
        match quantity_rule(v) {
            Ok(q) => ResourcesBuilderView {
                resources: ResourcesView { limit_cpu: Some(q), ..self.resources },
                ..self
            },
            Err(e) => ResourcesBuilderView {
                errors: self.errors.push(ResourceErrorView::LimitCpu(e)),
                ..self
            },
        }
    }

    /// The resources, if nothing was refused; else every error, in order.
    pub open spec fn build(self) -> Result<ResourcesView, Seq<ResourceErrorView>> {
        if self.errors.len() == 0 {
            Ok(self.resources)
        } else {
            Err(self.errors)
        }
    }
}

/// Builds [`Resources`] from text, checking each quantity.
#[derive(Debug)]
pub struct ResourcesBuilder {
    config: Resources,
    errors: Vec<ResourceError>,
}

impl View for ResourcesBuilder {
    type V = ResourcesBuilderView;

    closed spec fn view(&self) -> ResourcesBuilderView {
        ResourcesBuilderView { resources: self.config@, errors: views_of(self.errors@) }
    }
}

/// The value of the outcome of building resources.
pub open spec fn resources_build_view(r: Result<Resources, Vec<ResourceError>>) -> Result<
    ResourcesView,
    Seq<ResourceErrorView>,
> {
    match r {
        Ok(res) => Ok(res@),
        Err(es) => Err(views_of(es@)),
    }
}

impl ResourcesBuilder {
    /// A builder that has taken nothing yet.
    pub fn new() -> (b: ResourcesBuilder)
        ensures
            b@ == ResourcesBuilderView::empty(),
    {
        let b = ResourcesBuilder {
            config: Resources {
                request_memory: None,
                request_cpu: None,
                limit_memory: None,
                limit_cpu: None,
            },
            errors: Vec::new(),
        };
        assert(b@.errors =~= Seq::<ResourceErrorView>::empty());
        b
    }

    pub fn with_request_memory(self, quantity: &str) -> (b: ResourcesBuilder)
        ensures
            b@ == self@.with_request_memory(quantity@),
    {
        let mut b = self;
        match ResourceQuantity::try_from(quantity) {
            Ok(q) => {
                b.config.request_memory = Some(q);
            },
            Err(e) => {
                proof {
                    lemma_views_of_push(b.errors@, ResourceError::RequestMemory(e));
                }
                b.errors.push(ResourceError::RequestMemory(e));
            },
        }
        b
    }

    pub fn with_request_cpu(self, quantity: &str) -> (b: ResourcesBuilder)
        ensures
            b@ == self@.with_request_cpu(quantity@),
    {
        let mut b = self;
        match ResourceQuantity::try_from(quantity) {
            Ok(q) => {
                b.config.request_cpu = Some(q);
            },
            Err(e) => {
                proof {
                    lemma_views_of_push(b.errors@, ResourceError::RequestCpu(e));
                }
                b.errors.push(ResourceError::RequestCpu(e));
            },
        }
        b
    }

    pub fn with_limit_memory(self, quantity: &str) -> (b: ResourcesBuilder)
        ensures
            b@ == self@.with_limit_memory(quantity@),
    {
        let mut b = self;
        match ResourceQuantity::try_from(quantity) {
            Ok(q) => {
                b.config.limit_memory = Some(q);
            },
            Err(e) => {
                proof {
                    lemma_views_of_push(b.errors@, ResourceError::LimitMemory(e));
                }
                b.errors.push(ResourceError::LimitMemory(e));
            },
        }
        b
    }

    pub fn with_limit_cpu(self, quantity: &str) -> (b: ResourcesBuilder)
        ensures
            b@ == self@.with_limit_cpu(quantity@),
    {
        let mut b = self;
        match ResourceQuantity::try_from(quantity) {
            Ok(q) => {
                b.config.limit_cpu = Some(q);
            },
            Err(e) => {
                proof {
                    lemma_views_of_push(b.errors@, ResourceError::LimitCpu(e));
                }
                b.errors.push(ResourceError::LimitCpu(e));
            },
        }
        b
    }

    /// The resources, if every quantity was taken; else every error, in the
    /// order of the calls.
    pub fn build(self) -> (r: Result<Resources, Vec<ResourceError>>)
        ensures
            resources_build_view(r) == self@.build(),
    {
        if self.errors.len() == 0 {
            Ok(self.config)
        } else {
            Err(self.errors)
        }
    }
}

} // verus!
