use aries_vcx::did_doc::service_aries::AriesService;
use aries_vcx::error::{VcxError, VcxErrorKind};
use aries_vcx::messages::connection::did::Did;
use aries_vcx::utils::service_resolvable::ServiceResolvable;

fn service(endpoint: &str) -> AriesService {
    AriesService {
        id: "did:example:1;indy".to_string(),
        type_: "IndyAgent".to_string(),
        priority: 0,
        recipient_keys: vec!["key-1".to_string()],
        routing_keys: vec![],
        service_endpoint: endpoint.to_string(),
    }
}

#[test]
fn known_service_needs_no_ledger() {
    let known = ServiceResolvable::AriesService(service("https://a.example"));
    assert_eq!(known.did_to_look_up(), None);
    let failure = Err(VcxError::from_msg(VcxErrorKind::IOError, "ledger is down"));
    assert_eq!(known.clone().resolve(failure), Ok(service("https://a.example")));
    assert_eq!(known.resolve(Ok(service("https://b.example"))), Ok(service("https://a.example")));
}

#[test]
fn identifier_is_resolved_by_the_ledger() {
    let named = ServiceResolvable::Did(Did("did:example:2".to_string()));
    assert_eq!(named.did_to_look_up(), Some(&Did("did:example:2".to_string())));
    assert_eq!(named.clone().resolve(Ok(service("https://b.example"))), Ok(service("https://b.example")));
    let failure = named.resolve(Err(VcxError::from_msg(VcxErrorKind::IOError, "ledger is down"))).unwrap_err();
    assert_eq!(failure.kind(), VcxErrorKind::IOError);
    assert_eq!(failure.message(), "ledger is down");
}
