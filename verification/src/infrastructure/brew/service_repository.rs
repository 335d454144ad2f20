//! What `brew services list` prints, read into services.

use crate::domain::entities::service::{service_views, Service, ServiceStatus, ServiceView};
use crate::seqs::{collect_all, collect_some};
use crate::text::{
    contains, has_part, lines, lowercased, split_lines, split_words, texts, to_lowercase, words,
};
use vstd::prelude::*;

verus! {

pub struct BrewServiceRepository;

/// The status that a word of `brew services list` stands for, where `lower`
/// is the word in lower case: started if it speaks of that; else stopped if
/// it speaks of that or of none; else an error if it speaks of one.
pub open spec fn status_of(lower: Seq<char>) -> ServiceStatus {
    if has_part(lower, "started"@) {
        ServiceStatus::Started
    } else if has_part(lower, "stopped"@) || has_part(lower, "none"@) {
        ServiceStatus::Stopped
    } else if has_part(lower, "error"@) {
        ServiceStatus::Error
    } else {
        ServiceStatus::Unknown
    }
}

/// The service that a line of `brew services list` stands for: its words
/// are the name, the status, the user and the file, of which the last two
/// may be missing; a line of fewer than two words stands for none.
pub open spec fn service_entry(line: Seq<char>) -> Option<ServiceView> {
    let parts = words(line);
    if parts.len() >= 2 {
        Some(
            ServiceView {
                name: parts[0],
                status: status_of(lowercased(parts[1])),
                user: if parts.len() >= 3 {
                    Some(parts[2])
                } else {
                    None
                },
                file: if parts.len() >= 4 {
                    Some(parts[3])
                } else {
                    None
                },
            },
        )
    } else {
        None
    }
}

/// The lines below the heading.
pub open spec fn below_heading(rows: Seq<Seq<char>>) -> Seq<Seq<char>> {
    if rows.len() == 0 {
        rows
    } else {
        rows.skip(1)
    }
}

/// What a line of `brew services list` stands for.
pub open spec fn service_reader() -> spec_fn(Seq<char>) -> Option<ServiceView> {
    |line: Seq<char>| service_entry(line)
}

impl BrewServiceRepository {
    pub fn new() -> Self {
        BrewServiceRepository
    }

    /// The status that `lower` stands for, where `lower` is a status word in
    /// lower case.
    pub fn classify_status(lower: &str) -> (status: ServiceStatus)
        ensures
            status == status_of(lower@),
    {
        if contains(lower, "started") {
            ServiceStatus::Started
        } else if contains(lower, "stopped") || contains(lower, "none") {
            ServiceStatus::Stopped
        } else if contains(lower, "error") {
            ServiceStatus::Error
        } else {
            ServiceStatus::Unknown
        }
    }

    /// The status that a word of `brew services list` stands for, whatever
    /// its case.
    pub fn parse_service_status(status_str: &str) -> (status: ServiceStatus)
        ensures
            status == status_of(lowercased(status_str@)),
    {
        let lower = to_lowercase(status_str);
        Self::classify_status(lower.as_str())
    }

    /// The services that `brew services list` printed. The first line is
    /// the heading and stands for none.
    pub fn parse_services_list(&self, output: &str) -> (services: Vec<Service>)
        ensures
            service_views(services@) == collect_all(below_heading(lines(output@)), service_reader()),
    {
        let rows = split_lines(output);
        let mut services: Vec<Service> = Vec::new();
        assert(service_views(services@) =~= Seq::empty());
        if rows.len() == 0 {
            assert(texts(rows@).len() == 0);
            return services;
        }
        assert(texts(rows@).len() == rows@.len());
        let ghost body = below_heading(lines(output@));
        let mut i: usize = 1;
        while i < rows.len()
            invariant
                1 <= i <= rows@.len(),
                texts(rows@) == lines(output@),
                body == below_heading(lines(output@)),
                service_views(services@) == collect_some(body, service_reader(), (i - 1) as nat),
            decreases rows@.len() - i,
        {
            assert(texts(rows@)[i as int] == rows@[i as int]@);
            assert(body[i - 1] == lines(output@)[i as int]);
            let parts = split_words(rows[i].as_str());
            if parts.len() >= 2 {
                assert(texts(parts@)[0] == parts@[0]@);
                assert(texts(parts@)[1] == parts@[1]@);
                let status = Self::parse_service_status(parts[1].as_str());
                let mut service = Service::new(parts[0].clone(), status);
                if parts.len() >= 3 {
                    assert(texts(parts@)[2] == parts@[2]@);
                    service = service.with_user(parts[2].clone());
                }
                if parts.len() >= 4 {
                    assert(texts(parts@)[3] == parts@[3]@);
                    service = service.with_file(parts[3].clone());
                }
                assert(service_views(services@.push(service)) =~= service_views(services@).push(
                    service@,
                ));
                services.push(service);
            }
            i = i + 1;
        }
        services
    }
}

} // verus!
