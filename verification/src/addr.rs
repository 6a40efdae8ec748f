//! Resolved endpoints and address-family-aware candidate selection.
//!
//! The platform resolver hands back a list of candidate addresses; the
//! verified scan below picks the first one that satisfies the configured
//! address-family restriction, in the resolver's own order.

use vstd::prelude::*;

use crate::error::ResolutionFailure;
use crate::error::SessionError;

verus! {

/// A resolved IP address, held as its raw bits so contracts can speak of it
/// as a plain value.
#[derive(Clone, Copy, Debug, PartialEq, Eq, Structural)]
#[allow(inconsistent_fields)]
pub enum IpAddress {
    V4 { bits: u32 },
    V6 { bits: u128 },
}

/// A resolved network endpoint: one concrete address and port. Immutable
/// once produced by resolution.
#[derive(Clone, Copy, Debug, PartialEq, Eq, Structural)]
pub struct Endpoint {
    pub ip: IpAddress,
    pub port: u16,
}

/// Which address families resolution may return.
#[derive(Clone, Copy, Debug, PartialEq, Eq, Structural)]
pub enum FamilyPreference {
    Any,
    V4Only,
    V6Only,
}

/// Whether an address satisfies the family restriction.
pub open spec fn family_matches(pref: FamilyPreference, ip: IpAddress) -> bool {
    match pref {
        FamilyPreference::Any => true,
        FamilyPreference::V4Only => ip is V4,
        FamilyPreference::V6Only => ip is V6,
    }
}

/// The first candidate, in resolver order, whose family satisfies the
/// restriction.
pub open spec fn first_match(candidates: Seq<Endpoint>, pref: FamilyPreference) -> Option<
    Endpoint,
>
    decreases candidates.len(),
{
    if candidates.len() == 0 {
        None
    } else if family_matches(pref, candidates[0].ip) {
        Some(candidates[0])
    } else {
        first_match(candidates.drop_first(), pref)
    }
}

/// The error reported when candidates existed but none had the requested
/// family. A restriction of `Any` cannot fail this way; it is mapped to the
/// empty-list failure for totality.
pub open spec fn family_failure(pref: FamilyPreference) -> SessionError {
    match pref {
        FamilyPreference::Any => SessionError::Resolution {
            failure: ResolutionFailure::NoCandidates,
        },
        FamilyPreference::V4Only => SessionError::Resolution {
            failure: ResolutionFailure::NoMatchingV4,
        },
        FamilyPreference::V6Only => SessionError::Resolution {
            failure: ResolutionFailure::NoMatchingV6,
        },
    }
}

/// What selection returns: the first matching candidate, or the resolution
/// error that says why there was none.
pub open spec fn spec_select(candidates: Seq<Endpoint>, pref: FamilyPreference) -> Result<
    Endpoint,
    SessionError,
> {
    match first_match(candidates, pref) {
        Some(e) => Ok(e),
        None => if candidates.len() == 0 {
            Err(SessionError::Resolution { failure: ResolutionFailure::NoCandidates })
        } else {
            Err(family_failure(pref))
        },
    }
}

/// Whether this endpoint's family satisfies the restriction.
pub fn endpoint_matches(pref: FamilyPreference, e: &Endpoint) -> (b: bool)
    ensures
        b == family_matches(pref, e.ip),
{
    match pref {
        FamilyPreference::Any => true,
        FamilyPreference::V4Only => matches!(e.ip, IpAddress::V4 { .. }),
        FamilyPreference::V6Only => matches!(e.ip, IpAddress::V6 { .. }),
    }
}

proof fn lemma_first_match_step(candidates: Seq<Endpoint>, pref: FamilyPreference)
    requires
        candidates.len() > 0,
        !family_matches(pref, candidates[0].ip),
    ensures
        first_match(candidates, pref) == first_match(candidates.drop_first(), pref),
{
}

/// Scan the resolver's candidates in order and return the first endpoint in
/// the requested family, or the resolution error naming what was missing.
pub fn select_endpoint(candidates: &Vec<Endpoint>, pref: FamilyPreference) -> (r: Result<
    Endpoint,
    SessionError,
>)
    ensures
        r == spec_select(candidates@, pref),
{
    let n = candidates.len();
    let mut i: usize = 0;
    assert(candidates@.skip(0) =~= candidates@);
    while i < n
        invariant
            i <= n,
            n == candidates@.len(),
            first_match(candidates@, pref) == first_match(candidates@.skip(i as int), pref),
        decreases n - i,
    {
        let c = candidates[i];
        if endpoint_matches(pref, &c) {
            assert(candidates@.skip(i as int)[0] == c);
            return Ok(c);
        }
        proof {
            assert(candidates@.skip(i as int).drop_first() =~= candidates@.skip(i as int + 1));
            lemma_first_match_step(candidates@.skip(i as int), pref);
        }
        i += 1;
    }
    assert(candidates@.skip(n as int) =~= Seq::<Endpoint>::empty());
    if candidates.len() == 0 {
        Err(SessionError::Resolution { failure: ResolutionFailure::NoCandidates })
    } else {
        match pref {
            FamilyPreference::Any => Err(
                SessionError::Resolution { failure: ResolutionFailure::NoCandidates },
            ),
            FamilyPreference::V4Only => Err(
                SessionError::Resolution { failure: ResolutionFailure::NoMatchingV4 },
            ),
            FamilyPreference::V6Only => Err(
                SessionError::Resolution { failure: ResolutionFailure::NoMatchingV6 },
            ),
        }
    }
}

/// A family restriction is honoured: a selected endpoint always lies in the
/// requested family (so `V4Only` never yields an IPv6 endpoint and
/// `V6Only` never an IPv4 one), the selection only ever returns a candidate
/// from the list, and when no candidate has the requested family the
/// selection fails.
pub proof fn lemma_family_restriction(candidates: Seq<Endpoint>, pref: FamilyPreference)
    ensures
        spec_select(candidates, pref) matches Ok(e) ==> family_matches(pref, e.ip),
        spec_select(candidates, pref) matches Ok(e) ==> candidates.contains(e),
        (forall|i: int|
            0 <= i < candidates.len() ==> !family_matches(pref, candidates[i].ip)) ==> spec_select(
            candidates,
            pref,
        ) is Err,
    decreases candidates.len(),
{
    if candidates.len() > 0 && !family_matches(pref, candidates[0].ip) {
        lemma_family_restriction(candidates.drop_first(), pref);
        assert forall|j: int| 0 <= j < candidates.drop_first().len() implies candidates.drop_first()[j]
            == candidates[j + 1] by {}
        match spec_select(candidates.drop_first(), pref) {
            Ok(e) => {
                assert(candidates.drop_first().contains(e));
                let k = choose|k: int|
                    0 <= k < candidates.drop_first().len() && candidates.drop_first()[k] == e;
                assert(candidates[k + 1] == e);
            },
            Err(_) => {},
        }
    }
}

/// The local endpoint a UDP client binds before its first send: an
/// ephemeral port on the wildcard address, the IPv6 wildcard exactly when
/// only IPv6 addresses were asked for.
pub open spec fn spec_udp_client_bind(pref: FamilyPreference) -> Endpoint {
    if pref is V6Only {
        Endpoint { ip: IpAddress::V6 { bits: 0 }, port: 0 }
    } else {
        Endpoint { ip: IpAddress::V4 { bits: 0 }, port: 0 }
    }
}

/// Pick the wildcard endpoint a UDP client binds, per the family
/// restriction.
pub fn udp_client_bind_endpoint(pref: FamilyPreference) -> (r: Endpoint)
    ensures
        r == spec_udp_client_bind(pref),
        r.port == 0,
{
    match pref {
        FamilyPreference::V6Only => Endpoint { ip: IpAddress::V6 { bits: 0 }, port: 0 },
        _ => Endpoint { ip: IpAddress::V4 { bits: 0 }, port: 0 },
    }
}

} // verus!
