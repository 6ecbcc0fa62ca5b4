//! Finding a user's PDS from their DID document.

use vstd::prelude::*;

use crate::text::{copy_str, join2, str_eq};

verus! {

/// A service entry of a DID document: its `id` and `serviceEndpoint`, each
/// present only when it is a string.
pub struct DidService {
    pub id: Option<String>,
    pub service_endpoint: Option<String>,
}

/// The view of an optional string.
pub open spec fn opt_view(s: Option<String>) -> Option<Seq<char>> {
    match s {
        Some(v) => Some(v@),
        None => None,
    }
}

/// The view of a list of service entries.
pub open spec fn services_view(services: Seq<DidService>) -> Seq<(Option<Seq<char>>, Option<Seq<char>>)> {
    services.map_values(|s: DidService| (opt_view(s.id), opt_view(s.service_endpoint)))
}

/// The URL of a DID's document in the PLC directory.
pub fn did_doc_url(did: &str) -> (url: String)
    ensures
        url@ == "https://plc.directory/"@ + did@,
{
    join2("https://plc.directory/", did)
}

/// The PDS endpoint named by the first service whose id is `#atproto_pds`,
/// or why there is none.
pub open spec fn pds_in_services(services: Seq<(Option<Seq<char>>, Option<Seq<char>>)>) -> Result<Seq<char>, Seq<char>>
    decreases services.len(),
{
    if services.len() == 0 {
        Err("No atproto_pds service found in DID document"@)
    } else if services[0].0 == Some("#atproto_pds"@) {
        match services[0].1 {
            Some(endpoint) => Ok(endpoint),
            None => Err("No serviceEndpoint for atproto_pds"@),
        }
    } else {
        pds_in_services(services.drop_first())
    }
}

/// The PDS endpoint of a DID document whose `service` member is `services`
/// (`None` when it is missing or not an array).
pub fn pds_from_services(services: &Option<Vec<DidService>>) -> (pds: Result<String, String>)
    ensures
        match services {
            None => pds matches Err(e) && e@ == "No services in DID document"@,
            Some(list) => match pds {
                Ok(p) => pds_in_services(services_view(list@)) == Ok::<Seq<char>, Seq<char>>(p@),
                Err(e) => pds_in_services(services_view(list@)) == Err::<Seq<char>, Seq<char>>(e@),
            },
        },
{
    let list = match services {
        None => return Err(copy_str("No services in DID document")),
        Some(list) => list,
    };
    let ghost all = services_view(list@);
    let n = list.len();
    let mut i: usize = 0;
    assert(all.skip(0) =~= all);
    while i < n
        invariant
            n == list@.len(),
            all == services_view(list@),
            *services == Some(*list),
            i <= n,
            pds_in_services(all) == pds_in_services(all.skip(i as int)),
        decreases n - i,
    {
        let svc = &list[i];
        let ghost rest = all.skip(i as int);
        assert(rest[0] == (opt_view(svc.id), opt_view(svc.service_endpoint)));
        assert(rest.drop_first() =~= all.skip(i + 1));
        let is_pds = match &svc.id {
            Some(id) => str_eq(id.as_str(), "#atproto_pds"),
            None => false,
        };
        if is_pds {
            return match &svc.service_endpoint {
                Some(endpoint) => Ok(copy_str(endpoint.as_str())),
                None => Err(copy_str("No serviceEndpoint for atproto_pds")),
            };
        }
        i = i + 1;
    }
    Err(copy_str("No atproto_pds service found in DID document"))
}

/// The PDS is the endpoint of the first service, at whatever index it
/// stands, whose id is `#atproto_pds`; when that service has no endpoint,
/// there is none.
pub proof fn law_pds_is_first_pds_service(services: Seq<(Option<Seq<char>>, Option<Seq<char>>)>, i: int)
    requires
        0 <= i < services.len(),
        services[i].0 == Some("#atproto_pds"@),
        forall|j: int| 0 <= j < i ==> #[trigger] services[j].0 != Some("#atproto_pds"@),
    ensures
        pds_in_services(services) == (match services[i].1 {
            Some(endpoint) => Ok::<Seq<char>, Seq<char>>(endpoint),
            None => Err::<Seq<char>, Seq<char>>("No serviceEndpoint for atproto_pds"@),
        }),
    decreases i,
{
    if i > 0 {
        let rest = services.drop_first();
        assert(services[0].0 != Some("#atproto_pds"@));
        assert forall|j: int| 0 <= j < i - 1 implies #[trigger] rest[j].0 != Some("#atproto_pds"@) by {
            assert(rest[j] == services[j + 1]);
        }
        assert(rest[i - 1] == services[i]);
        law_pds_is_first_pds_service(rest, i - 1);
    }
}

/// A document whose first service is the PDS service with endpoint `e`
/// names `e`, whatever services follow.
pub proof fn law_leading_pds_service(e: Seq<char>, rest: Seq<(Option<Seq<char>>, Option<Seq<char>>)>)
    ensures
        pds_in_services(seq![(Some("#atproto_pds"@), Some(e))] + rest) == Ok::<Seq<char>, Seq<char>>(e),
{
    let all = seq![(Some("#atproto_pds"@), Some(e))] + rest;
    assert(all[0] == (Some("#atproto_pds"@), Some(e)));
    law_pds_is_first_pds_service(all, 0);
}

/// Without a service whose id is `#atproto_pds` there is no PDS.
pub proof fn law_no_pds_service(services: Seq<(Option<Seq<char>>, Option<Seq<char>>)>)
    requires
        forall|j: int| 0 <= j < services.len() ==> #[trigger] services[j].0 != Some("#atproto_pds"@),
    ensures
        pds_in_services(services) == Err::<Seq<char>, Seq<char>>("No atproto_pds service found in DID document"@),
    decreases services.len(),
{
    if services.len() > 0 {
        let rest = services.drop_first();
        assert(services[0].0 != Some("#atproto_pds"@));
        assert forall|j: int| 0 <= j < rest.len() implies #[trigger] rest[j].0 != Some("#atproto_pds"@) by {
            assert(rest[j] == services[j + 1]);
        }
        law_no_pds_service(rest);
    }
}

} // verus!
