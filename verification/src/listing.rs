//! Listing aggregation: joining stored proposals with the catalog payload
//! fetched for each of them.
//!
//! The join is all-or-nothing: when any payload is missing (its fetch
//! failed) or does not parse, the whole aggregation fails with
//! `ServiceError::Upstream` and no partial listing is returned. The output
//! order is the input order.

use vstd::prelude::*;

use crate::catalog::{metadata_of_payload, parse_catalog_metadata, CatalogMetadata, MetadataModel};
use crate::errors::ServiceError;
use crate::store::{clone_proposal, views, Proposal, ProposalModel};

verus! {

/// Mathematical model of one listing.
pub ghost struct ListingModel {
    pub api_info: MetadataModel,
    pub db_info: ProposalModel,
}

/// One proposal paired with the metadata fetched for it; built per
/// request, never persisted.
pub struct Listing {
    pub api_info: CatalogMetadata,
    pub db_info: Proposal,
}

impl View for Listing {
    type V = ListingModel;

    open spec fn view(&self) -> ListingModel {
        ListingModel { api_info: self.api_info@, db_info: self.db_info@ }
    }
}

/// Every fetched payload is present and carries the six metadata fields.
pub open spec fn all_payloads_good(bodies: Seq<Option<String>>) -> bool {
    forall|i: int|
        0 <= i < bodies.len() ==> (#[trigger] bodies[i]) is Some && metadata_of_payload(
            bodies[i]->Some_0@,
        ) is Some
}

/// Join each proposal with the catalog payload fetched for its identifier
/// (`bodies[i]` is the payload for `proposals[i]`, or nothing when that
/// fetch failed).
///
/// Succeeds exactly when every payload is present and parses; the listing
/// then pairs each proposal, in input order, with its parsed metadata. Any
/// missing or unparseable payload fails the whole join with
/// `ServiceError::Upstream`: no partial listing is ever returned.
pub fn build_listings(proposals: &Vec<Proposal>, bodies: &Vec<Option<String>>) -> (r: Result<
    Vec<Listing>,
    ServiceError,
>)
    requires
        proposals@.len() == bodies@.len(),
    ensures
        match r {
            Ok(ls) => all_payloads_good(bodies@) && ls@.len() == proposals@.len() && forall|i: int|
                0 <= i < ls@.len() ==> (#[trigger] ls@[i])@.db_info == proposals@[i]@
                    && ls@[i]@.api_info == metadata_of_payload(bodies@[i]->Some_0@)->Some_0,
            Err(e) => e == ServiceError::Upstream && !all_payloads_good(bodies@),
        },
{
    let n = proposals.len();
    let mut out: Vec<Listing> = Vec::new();
    let mut i: usize = 0;
    while i < n
        invariant
            n == proposals@.len(),
            n == bodies@.len(),
            i <= n,
            out@.len() == i,
            forall|j: int|
                0 <= j < i ==> (#[trigger] bodies@[j]) is Some && metadata_of_payload(
                    bodies@[j]->Some_0@,
                ) is Some,
            forall|j: int|
                0 <= j < i ==> (#[trigger] out@[j])@.db_info == proposals@[j]@
                    && out@[j]@.api_info == metadata_of_payload(bodies@[j]->Some_0@)->Some_0,
        decreases n - i,
    {
        match &bodies[i] {
            None => {
                return Err(ServiceError::Upstream);
            },
            Some(body) => {
                match parse_catalog_metadata(body.as_str()) {
                    Err(_) => {
                        return Err(ServiceError::Upstream);
                    },
                    Ok(meta) => {
                        out.push(Listing { api_info: meta, db_info: clone_proposal(&proposals[i]) });
                    },
                }
            },
        }
        i = i + 1;
    }
    Ok(out)
}

/// The catalog identifiers of `s`, one per line, in order.
pub open spec fn id_lines(s: Seq<ProposalModel>) -> Seq<char>
    decreases s.len(),
{
    if s.len() == 0 {
        Seq::empty()
    } else if s.len() == 1 {
        s[0].catalog_id
    } else {
        id_lines(s.drop_last()) + seq!['\n'] + s.last().catalog_id
    }
}

/// The newline-separated list of the proposals' catalog identifiers, in
/// input order.
pub fn catalog_id_lines(proposals: &Vec<Proposal>) -> (r: String)
    ensures
        r@ == id_lines(views(proposals@)),
{
    proof {
        reveal_strlit("\n");
    }
    let ghost s = views(proposals@);
    let n = proposals.len();
    let mut out = String::new();
    let mut i: usize = 0;
    while i < n
        invariant
            n == proposals@.len(),
            s == views(proposals@),
            s.len() == n,
            i <= n,
            out@ == id_lines(s.take(i as int)),
            "\n"@ == seq!['\n'],
        decreases n - i,
    {
        let ghost before = out@;
        if i > 0 {
            out.append("\n");
        }
        out.append(proposals[i].catalog_id.as_str());
        proof {
            assert(s.take(i + 1).drop_last() =~= s.take(i as int));
            assert(s.take(i + 1).last() == s[i as int]);
            if i == 0 {
                assert(out@ =~= id_lines(s.take(1)));
            } else {
                assert(out@ =~= id_lines(s.take(i as int)) + seq!['\n'] + s[i as int].catalog_id);
                assert(out@ =~= id_lines(s.take(i + 1)));
            }
        }
        i = i + 1;
    }
    proof {
        assert(s.take(n as int) =~= s);
    }
    out
}

} // verus!
