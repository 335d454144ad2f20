use crate::domain::entities::package::{clone_opt_string, opt_text};
use vstd::prelude::*;

verus! {

/// The state of a background service as Homebrew reports it.
#[derive(Debug, Clone, Copy, PartialEq, Eq, Structural)]
pub enum ServiceStatus {
    Started,
    Stopped,
    Error,
    Unknown,
}

impl ServiceStatus {
    pub open spec fn is_running_spec(&self) -> bool {
        *self == ServiceStatus::Started
    }

    #[verifier::when_used_as_spec(is_running_spec)]
    pub fn is_running(&self) -> (running: bool)
        ensures
            running == (*self == ServiceStatus::Started),
    {
        match self {
            ServiceStatus::Started => true,
            _ => false,
        }
    }
}

/// One background service.
#[derive(Debug)]
pub struct Service {
    pub name: String,
    pub status: ServiceStatus,
    pub user: Option<String>,
    pub file: Option<String>,
}

/// A service with its texts as sequences of characters.
pub struct ServiceView {
    pub name: Seq<char>,
    pub status: ServiceStatus,
    pub user: Option<Seq<char>>,
    pub file: Option<Seq<char>>,
}

impl View for Service {
    type V = ServiceView;

    open spec fn view(&self) -> ServiceView {
        ServiceView {
            name: self.name@,
            status: self.status,
            user: opt_text(self.user),
            file: opt_text(self.file),
        }
    }
}

/// The views of a list of services.
pub open spec fn service_views(list: Seq<Service>) -> Seq<ServiceView> {
    Seq::new(list.len(), |i: int| list[i]@)
}

impl Clone for Service {
    fn clone(&self) -> (res: Self)
        ensures
            res == *self,
    {
        Service {
            name: self.name.clone(),
            status: self.status,
            user: clone_opt_string(&self.user),
            file: clone_opt_string(&self.file),
        }
    }
}

impl Service {
    pub fn new(name: String, status: ServiceStatus) -> (service: Self)
        ensures
            service == (Service { name, status, user: None, file: None }),
    {
        Service { name, status, user: None, file: None }
    }

    pub fn with_user(self, user: String) -> (service: Self)
        ensures
            service == (Service { user: Some(user), ..self }),
    {
        let mut service = self;
        service.user = Some(user);
        service
    }

    pub fn with_file(self, file: String) -> (service: Self)
        ensures
            service == (Service { file: Some(file), ..self }),
    {
        let mut service = self;
        service.file = Some(file);
        service
    }
}

} // verus!
