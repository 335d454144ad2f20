use crate::domain::entities::service::Service;
use crate::seqs::{first_where, lemma_first_where_is, lemma_first_where_none};
use crate::text::same_text;
use vstd::prelude::*;

verus! {

/// Whether a service goes by a name.
pub open spec fn service_named(name: Seq<char>) -> spec_fn(Service) -> bool {
    |service: Service| service.name@ == name
}

/// A list in which `service` has taken the place of the first service of
/// its name; the list as it is where none goes by that name.
pub open spec fn service_replaced(list: Seq<Service>, service: Service) -> Seq<Service> {
    match first_where(list, service_named(service.name@)) {
        Some(at) => list.update(at, service),
        None => list,
    }
}

/// The background services, as the window lists them.
pub struct ServiceList {
    services: Vec<Service>,
    selected_service: Option<String>,
}

impl ServiceList {
    /// The services, in the order listed.
    pub closed spec fn listed(&self) -> Seq<Service> {
        self.services@
    }

    /// The name of the service that is highlighted.
    pub closed spec fn highlighted(&self) -> Option<String> {
        self.selected_service
    }

    /// An empty list.
    pub fn new() -> (list: Self)
        ensures
            list.listed() == Seq::<Service>::empty(),
            list.highlighted() is None,
    {
        ServiceList { services: Vec::new(), selected_service: None }
    }

    /// Replaces the services.
    pub fn update_services(&mut self, services: Vec<Service>)
        ensures
            final(self).listed() == services@,
            final(self).highlighted() == old(self).highlighted(),
    {
        self.services = services;
    }

    /// Puts `service` in the place of the first service of its name; a
    /// service that is not listed is not added.
    pub fn update_service(&mut self, service: Service)
        ensures
            final(self).listed() == service_replaced(old(self).listed(), service),
            final(self).highlighted() == old(self).highlighted(),
    {
        let mut i: usize = 0;
        while i < self.services.len()
            invariant
                i <= self.services@.len(),
                self.services == old(self).services,
                self.selected_service == old(self).selected_service,
                forall|j: int|
                    0 <= j < i ==> !service_named(service.name@)(#[trigger] self.services@[j]),
            decreases self.services@.len() - i,
        {
            if same_text(self.services[i].name.as_str(), service.name.as_str()) {
                proof {
                    lemma_first_where_is(self.services@, service_named(service.name@), i as int);
                }
                self.services.set(i, service);
                return ;
            }
            i = i + 1;
        }
        proof {
            lemma_first_where_none(self.services@, service_named(service.name@));
        }
    }

    /// Highlights the service of the given name.
    pub fn highlight(&mut self, name: String)
        ensures
            final(self).highlighted() == Some(name),
            final(self).listed() == old(self).listed(),
    {
        self.selected_service = Some(name);
    }

    pub fn services(&self) -> (services: &Vec<Service>)
        ensures
            services@ == self.listed(),
    {
        &self.services
    }

    pub fn selected_service(&self) -> (name: &Option<String>)
        ensures
            *name == self.highlighted(),
    {
        &self.selected_service
    }
}

} // verus!
