use netpipe::addr::{
    select_endpoint, udp_client_bind_endpoint, Endpoint, FamilyPreference, IpAddress,
};
use netpipe::error::{ResolutionFailure, SessionError};

fn v4(bits: u32, port: u16) -> Endpoint {
    Endpoint { ip: IpAddress::V4 { bits }, port }
}

fn v6(bits: u128, port: u16) -> Endpoint {
    Endpoint { ip: IpAddress::V6 { bits }, port }
}

#[test]
fn any_preference_takes_the_first_candidate() {
    let candidates = vec![v6(7, 80), v4(0x7f000001, 80)];
    let r = select_endpoint(&candidates, FamilyPreference::Any);
    assert_eq!(r, Ok(v6(7, 80)));
}

#[test]
fn v4_only_skips_ipv6_candidates() {
    let candidates = vec![v6(7, 80), v6(8, 80), v4(0x7f000001, 80)];
    let r = select_endpoint(&candidates, FamilyPreference::V4Only);
    assert_eq!(r, Ok(v4(0x7f000001, 80)));
}

#[test]
fn v6_only_skips_ipv4_candidates() {
    let candidates = vec![v4(1, 443), v4(2, 443), v6(9, 443)];
    let r = select_endpoint(&candidates, FamilyPreference::V6Only);
    assert_eq!(r, Ok(v6(9, 443)));
}

#[test]
fn resolver_order_is_kept_among_matches() {
    let candidates = vec![v4(3, 1), v4(4, 1)];
    let r = select_endpoint(&candidates, FamilyPreference::V4Only);
    assert_eq!(r, Ok(v4(3, 1)));
}

#[test]
fn v4_only_fails_when_only_ipv6_resolves() {
    let candidates = vec![v6(7, 80), v6(8, 80)];
    let r = select_endpoint(&candidates, FamilyPreference::V4Only);
    assert_eq!(
        r,
        Err(SessionError::Resolution { failure: ResolutionFailure::NoMatchingV4 })
    );
}

#[test]
fn v6_only_fails_when_only_ipv4_resolves() {
    let candidates = vec![v4(1, 80)];
    let r = select_endpoint(&candidates, FamilyPreference::V6Only);
    assert_eq!(
        r,
        Err(SessionError::Resolution { failure: ResolutionFailure::NoMatchingV6 })
    );
}

#[test]
fn empty_candidate_list_fails_as_unresolvable() {
    let candidates: Vec<Endpoint> = Vec::new();
    for pref in [
        FamilyPreference::Any,
        FamilyPreference::V4Only,
        FamilyPreference::V6Only,
    ] {
        let r = select_endpoint(&candidates, pref);
        assert_eq!(
            r,
            Err(SessionError::Resolution { failure: ResolutionFailure::NoCandidates })
        );
    }
}

#[test]
fn udp_client_binds_the_matching_wildcard() {
    assert_eq!(udp_client_bind_endpoint(FamilyPreference::Any), v4(0, 0));
    assert_eq!(udp_client_bind_endpoint(FamilyPreference::V4Only), v4(0, 0));
    assert_eq!(udp_client_bind_endpoint(FamilyPreference::V6Only), v6(0, 0));
}
