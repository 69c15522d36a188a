//! The definition of one service of the orchestrator.

use crate::recipes::m2::php_container::{container_name, container_name_of};
use vstd::prelude::*;
use vstd::string::*;

verus! {

/// One service: what it is called, which image it runs, and what is set
/// on it.
#[derive(Debug, Clone, PartialEq, Eq)]
pub struct DcService {
    pub name: String,
    pub container_name: String,
    pub image: String,
    pub ports: Vec<String>,
    pub labels: Vec<String>,
}

/// The mathematical value of a service.
pub struct DcServiceView {
    pub name: Seq<char>,
    pub container_name: Seq<char>,
    pub image: Seq<char>,
    pub ports: Seq<Seq<char>>,
    pub labels: Seq<Seq<char>>,
}

impl DeepView for DcService {
    type V = DcServiceView;

    open spec fn deep_view(&self) -> DcServiceView {
        DcServiceView {
            name: self.name@,
            container_name: self.container_name@,
            image: self.image@,
            ports: self.ports.deep_view(),
            labels: self.labels.deep_view(),
        }
    }
}

/// The service `name` of project `project`, running `image`, with
/// nothing set on it.
pub open spec fn bare_service(project: Seq<char>, name: Seq<char>, image: Seq<char>) -> DcServiceView {
    DcServiceView {
        name,
        container_name: container_name(project, name),
        image,
        ports: Seq::empty(),
        labels: Seq::empty(),
    }
}

impl DcService {
    /// The service `name` of project `project`, running `image`.
    pub fn new(project: &str, name: &str, image: &str) -> (service: DcService)
        ensures
            service.deep_view() == bare_service(project@, name@, image@),
    {
        let service = DcService {
            name: name.to_owned(),
            container_name: container_name_of(project, name),
            image: image.to_owned(),
            ports: Vec::new(),
            labels: Vec::new(),
        };
        proof {
            assert(service.ports.deep_view() =~= Seq::<Seq<char>>::empty());
        }
        service
    }

    /// The service with `ports` as its ports.
    pub fn set_ports(self, ports: Vec<String>) -> (service: DcService)
        ensures
            service.deep_view() == (DcServiceView { ports: ports.deep_view(), ..self.deep_view() }),
    {
        DcService { ports, ..self }
    }

    /// The service with `labels` as its labels.
    pub fn set_labels(self, labels: Vec<String>) -> (service: DcService)
        ensures
            service.deep_view() == (DcServiceView {
                labels: labels.deep_view(),
                ..self.deep_view()
            }),
    {
        DcService { labels, ..self }
    }
}

} // verus!
