use aries_vcx::did_doc::DidDoc;
use aries_vcx::error::VcxErrorKind;
use aries_vcx::messages::a2a::MessageId;
use aries_vcx::messages::connection::invite::Invitation;
use aries_vcx::messages::connection::request::{ConnectionData, Request};
use aries_vcx::messages::connection::response::{ConnectionSignature, Response, SignedResponse};
use aries_vcx::messages::error::ProblemReport;
use aries_vcx::messages::thread::Thread;
use aries_vcx::protocols::conversation::Conversation;
use aries_vcx::protocols::connection::invitee::state_machine::{
    InviteeEvent, InviteeFullState, SmConnectionInvitee,
};
use aries_vcx::protocols::connection::invitee::states::initial::InitialState as InviteeInitial;
use aries_vcx::protocols::connection::invitee::states::invited::InvitedState as InviteeInvited;
use aries_vcx::protocols::connection::invitee::states::requested::RequestedState as InviteeRequested;
use aries_vcx::protocols::connection::inviter::state_machine::{
    InviterEvent, InviterFullState, SmConnectionInviter,
};
use aries_vcx::protocols::connection::inviter::states::complete::CompleteState;
use aries_vcx::protocols::connection::inviter::states::initial::InitialState;
use aries_vcx::protocols::connection::inviter::states::invited::InvitedState;
use aries_vcx::protocols::connection::inviter::states::requested::RequestedState;
use aries_vcx::protocols::connection::inviter::states::responded::RespondedState;

fn invitation(id: &str) -> Invitation {
    Invitation::create_with_id(MessageId(id.to_string()))
        .set_label("inviter".to_string())
        .set_service_endpoint("https://inviter.example/agent".to_string())
        .set_keys(vec!["inviter-key".to_string()], vec!["mediator-key".to_string()])
}

fn invitee_doc() -> DidDoc {
    DidDoc {
        id: "did:invitee".to_string(),
        recipient_keys: vec!["invitee-key".to_string()],
        routing_keys: vec![],
        service_endpoint: "https://invitee.example/agent".to_string(),
    }
}

fn inviter_doc() -> DidDoc {
    DidDoc {
        id: "did:inviter".to_string(),
        recipient_keys: vec!["inviter-pairwise-key".to_string()],
        routing_keys: vec!["mediator-key".to_string()],
        service_endpoint: "https://inviter.example/agent".to_string(),
    }
}

fn request(thid: &str) -> Request {
    Request {
        id: MessageId("request-1".to_string()),
        label: "invitee".to_string(),
        connection: ConnectionData { did: "did:invitee".to_string(), did_doc: invitee_doc() },
        thread: Some(Thread::new().set_thid(thid.to_string())),
    }
}

fn signed_response(thid: &str) -> SignedResponse {
    SignedResponse {
        id: MessageId("response-1".to_string()),
        thread: Thread::new().set_thid(thid.to_string()),
        connection_sig: ConnectionSignature {
            signature: "c2lnbmF0dXJl".to_string(),
            sig_data: "ZGF0YQ==".to_string(),
            signer: "inviter-key".to_string(),
        },
    }
}

fn response(thid: &str) -> Response {
    Response {
        id: MessageId("response-1".to_string()),
        thread: Thread::new().set_thid(thid.to_string()),
        connection: ConnectionData { did: "did:inviter".to_string(), did_doc: inviter_doc() },
    }
}

fn report(description: &str) -> ProblemReport {
    ProblemReport::create_with_id(MessageId::id()).set_description(description.to_string())
}

fn report_on(thid: &str, description: &str) -> ProblemReport {
    report(description).set_thread_id(thid)
}

fn ack(thid: &str) -> Thread {
    Thread::new().set_thid(thid.to_string())
}

#[test]
fn connection_happy_path_ends_on_the_same_thread() {
    // the inviter hands out the invitation
    let mut inviter = SmConnectionInviter::new();
    assert_eq!(inviter.state, InviterFullState::Initial(InitialState::new(None)));
    inviter.handle(InviterEvent::Invitation(invitation("t1"))).unwrap();
    assert_eq!(inviter.state, InviterFullState::Invited(InvitedState { invitation: invitation("t1") }));
    assert_eq!(inviter.thread_id(), None);

    // the invitee takes it and asks to connect
    let mut invitee = SmConnectionInvitee::new();
    invitee.handle(InviteeEvent::Invitation(invitation("t1"))).unwrap();
    assert_eq!(invitee.state, InviteeFullState::Invited(InviteeInvited { invitation: invitation("t1") }));
    invitee.handle(InviteeEvent::Request(request("t1"))).unwrap();
    assert_eq!(
        invitee.state,
        InviteeFullState::Requested(InviteeRequested {
            request: request("t1"),
            did_doc: DidDoc {
                id: "t1".to_string(),
                recipient_keys: vec!["inviter-key".to_string()],
                routing_keys: vec!["mediator-key".to_string()],
                service_endpoint: "https://inviter.example/agent".to_string(),
            },
        })
    );
    assert_eq!(invitee.thread_id(), Some("t1".to_string()));

    // the inviter receives the request, then sends the signed response
    inviter.handle(InviterEvent::Request(request("t1"), signed_response("t1"))).unwrap();
    assert_eq!(
        inviter.state,
        InviterFullState::Requested(RequestedState {
            signed_response: signed_response("t1"),
            did_doc: invitee_doc(),
            thread_id: "t1".to_string(),
        })
    );
    inviter.handle(InviterEvent::ResponseSent).unwrap();
    assert_eq!(
        inviter.state,
        InviterFullState::Responded(RespondedState { signed_response: signed_response("t1"), did_doc: invitee_doc() })
    );
    inviter.handle(InviterEvent::Ack(ack("t1"))).unwrap();
    assert_eq!(
        inviter.state,
        InviterFullState::Completed(CompleteState {
            did_doc: invitee_doc(),
            thread_id: Some("t1".to_string()),
            protocols: None,
        })
    );

    // the invitee reads the response and confirms
    invitee.handle(InviteeEvent::Response(response("t1"))).unwrap();
    match &invitee.state {
        InviteeFullState::Responded(state) => {
            assert_eq!(state.response, response("t1"));
            assert_eq!(state.request, request("t1"));
            assert_eq!(state.did_doc, inviter_doc());
        }
        other => panic!("unexpected state {:?}", other),
    }
    invitee.handle(InviteeEvent::Ack).unwrap();
    match &invitee.state {
        InviteeFullState::Completed(state) => {
            assert_eq!(state.did_doc, inviter_doc());
            assert_eq!(state.protocols, None);
        }
        other => panic!("unexpected state {:?}", other),
    }

    assert_eq!(inviter.thread_id(), Some("t1".to_string()));
    assert_eq!(invitee.thread_id(), inviter.thread_id());
}

#[test]
fn states_convert_by_moving_their_data() {
    let invited = InvitedState::from((InitialState::new(Some(report("old"))), invitation("i1")));
    assert_eq!(invited, InvitedState { invitation: invitation("i1") });

    let requested = RequestedState::from((invited, request("t9"), signed_response("t9")));
    assert_eq!(requested.signed_response, signed_response("t9"));
    assert_eq!(requested.did_doc, invitee_doc());
    assert_eq!(requested.thread_id, "t9");

    let responded = RespondedState::from(requested);
    assert_eq!(responded, RespondedState { signed_response: signed_response("t9"), did_doc: invitee_doc() });

    let initial = InitialState::from((responded.clone(), report("changed my mind")));
    assert_eq!(initial, InitialState::new(Some(report("changed my mind"))));

    let complete = CompleteState::from(responded);
    assert_eq!(complete, CompleteState { did_doc: invitee_doc(), thread_id: Some("t9".to_string()), protocols: None });

    let mut unthreaded = signed_response("x");
    unthreaded.thread = Thread::new();
    let complete = CompleteState::from(RespondedState { signed_response: unthreaded, did_doc: invitee_doc() });
    assert_eq!(complete.thread_id, Some(String::new()));

    let derived = DidDoc::from(invitation("i2"));
    assert_eq!(derived.id, "i2");
    assert_eq!(derived.service_endpoint, "https://inviter.example/agent");
    assert_eq!(derived.recipient_keys, vec!["inviter-key".to_string()]);
    assert_eq!(derived.routing_keys, vec!["mediator-key".to_string()]);
    assert_eq!(derived.duplicate(), derived);
}

#[test]
fn request_thread_is_its_own_identifier_unless_named() {
    let mut plain = request("t1");
    plain.thread = None;
    assert_eq!(plain.get_thread_id(), "request-1");
    plain.thread = Some(Thread::new());
    assert_eq!(plain.get_thread_id(), "request-1");
    assert_eq!(request("t1").get_thread_id(), "t1");
}

fn inviter_states() -> Vec<InviterFullState> {
    vec![
        InviterFullState::Initial(InitialState::new(None)),
        InviterFullState::Invited(InvitedState { invitation: invitation("t1") }),
        InviterFullState::Requested(RequestedState {
            signed_response: signed_response("t1"),
            did_doc: invitee_doc(),
            thread_id: "t1".to_string(),
        }),
        InviterFullState::Responded(RespondedState { signed_response: signed_response("t1"), did_doc: invitee_doc() }),
        InviterFullState::Completed(CompleteState {
            did_doc: invitee_doc(),
            thread_id: Some("t1".to_string()),
            protocols: None,
        }),
    ]
}

fn inviter_events() -> Vec<InviterEvent> {
    vec![
        InviterEvent::Invitation(invitation("t1")),
        InviterEvent::Request(request("t1"), signed_response("t1")),
        InviterEvent::ResponseSent,
        InviterEvent::Ack(ack("t1")),
    ]
}

#[test]
fn inviter_rejects_every_pair_that_is_not_listed() {
    let states = inviter_states();
    let events = inviter_events();
    for (s, state) in states.iter().enumerate() {
        for (e, event) in events.iter().enumerate() {
            let mut machine = SmConnectionInviter { state: state.clone() };
            let outcome = machine.handle(event.clone());
            if s == e {
                assert!(outcome.is_ok());
                assert_ne!(&machine.state, state);
            } else {
                assert_eq!(outcome.unwrap_err().kind(), VcxErrorKind::InvalidState);
                assert_eq!(&machine.state, state);
                let rejected = state.clone().apply(event.clone()).unwrap_err();
                assert_eq!(&rejected.state, state);
                assert_eq!(rejected.failure.kind(), VcxErrorKind::InvalidState);
            }
        }
    }
}

#[test]
fn problem_report_resets_every_state() {
    for state in inviter_states() {
        let mut machine = SmConnectionInviter { state };
        machine.handle(InviterEvent::ProblemReport(report_on("t1", "no"))).unwrap();
        assert_eq!(machine.state, InviterFullState::Initial(InitialState::new(Some(report_on("t1", "no")))));
    }
    let mut invitee = SmConnectionInvitee::new();
    invitee.handle(InviteeEvent::Invitation(invitation("t1"))).unwrap();
    invitee.handle(InviteeEvent::Request(request("t1"))).unwrap();
    invitee.handle(InviteeEvent::ProblemReport(report_on("t1", "rejected"))).unwrap();
    assert_eq!(invitee.state, InviteeFullState::Initial(InviteeInitial::new(Some(report_on("t1", "rejected")))));
    invitee.handle(InviteeEvent::ProblemReport(report("again"))).unwrap();
    assert_eq!(invitee.state, InviteeFullState::Initial(InviteeInitial::new(Some(report("again")))));
    // and the conversation can start over
    invitee.handle(InviteeEvent::Invitation(invitation("t2"))).unwrap();
    assert_eq!(invitee.state, InviteeFullState::Invited(InviteeInvited { invitation: invitation("t2") }));
}

#[test]
fn response_of_another_thread_is_a_correlation_failure() {
    let mut invitee = SmConnectionInvitee::new();
    invitee.handle(InviteeEvent::Invitation(invitation("t1"))).unwrap();
    invitee.handle(InviteeEvent::Request(request("t1"))).unwrap();
    let before = invitee.clone();
    let failure = invitee.handle(InviteeEvent::Response(response("t2"))).unwrap_err();
    assert_eq!(failure.kind(), VcxErrorKind::InvalidThread);
    assert_eq!(invitee, before);

    let mut inviter = SmConnectionInviter::new();
    inviter.handle(InviterEvent::Invitation(invitation("t1"))).unwrap();
    let before = inviter.clone();
    let failure = inviter.handle(InviterEvent::Request(request("t1"), signed_response("other"))).unwrap_err();
    assert_eq!(failure.kind(), VcxErrorKind::InvalidThread);
    assert_eq!(inviter, before);
}

#[test]
fn invitee_rejects_messages_out_of_turn() {
    let mut invitee = SmConnectionInvitee::new();
    for event in [InviteeEvent::Request(request("t1")), InviteeEvent::Response(response("t1")), InviteeEvent::Ack] {
        assert_eq!(invitee.handle(event).unwrap_err().kind(), VcxErrorKind::InvalidState);
        assert_eq!(invitee, SmConnectionInvitee::new());
    }
    invitee.handle(InviteeEvent::Invitation(invitation("t1"))).unwrap();
    let invited = invitee.clone();
    for event in [InviteeEvent::Invitation(invitation("t3")), InviteeEvent::Response(response("t1")), InviteeEvent::Ack] {
        assert_eq!(invitee.handle(event).unwrap_err().kind(), VcxErrorKind::InvalidState);
        assert_eq!(invitee, invited);
    }
}

#[test]
fn problem_report_of_another_thread_is_rejected() {
    // while the connection has no thread, every report is taken
    for state in &inviter_states()[..2] {
        let mut machine = SmConnectionInviter { state: state.clone() };
        assert_eq!(machine.thread_id(), None);
        machine.handle(InviterEvent::ProblemReport(report_on("elsewhere", "no"))).unwrap();
    }
    // once it has one, only a report on it
    for state in &inviter_states()[2..] {
        let mut machine = SmConnectionInviter { state: state.clone() };
        assert_eq!(machine.thread_id(), Some("t1".to_string()));
        assert!(state.takes(&ack("t1")));
        assert!(!state.takes(&ack("t2")));
        for report in [report_on("t2", "no"), report("no")] {
            let failure = machine.handle(InviterEvent::ProblemReport(report.clone())).unwrap_err();
            assert_eq!(failure.kind(), VcxErrorKind::InvalidThread);
            assert_eq!(&machine.state, state);
            let rejected = state.clone().apply(InviterEvent::ProblemReport(report)).unwrap_err();
            assert_eq!(&rejected.state, state);
            assert_eq!(rejected.failure.kind(), VcxErrorKind::InvalidThread);
        }
    }

    let mut invitee = SmConnectionInvitee::new();
    invitee.handle(InviteeEvent::Invitation(invitation("t1"))).unwrap();
    invitee.handle(InviteeEvent::ProblemReport(report_on("elsewhere", "no"))).unwrap();
    invitee.handle(InviteeEvent::Invitation(invitation("t1"))).unwrap();
    invitee.handle(InviteeEvent::Request(request("t1"))).unwrap();
    let events = [InviteeEvent::Response(response("t1")), InviteeEvent::Ack];
    for step in 0..3 {
        let before = invitee.clone();
        assert_eq!(invitee.thread_id(), Some("t1".to_string()));
        let failure = invitee.handle(InviteeEvent::ProblemReport(report_on("t2", "no"))).unwrap_err();
        assert_eq!(failure.kind(), VcxErrorKind::InvalidThread);
        assert_eq!(invitee, before);
        if step < 2 {
            invitee.handle(events[step].clone()).unwrap();
        }
    }
    invitee.handle(InviteeEvent::ProblemReport(report_on("t1", "no"))).unwrap();
    assert_eq!(invitee.state, InviteeFullState::Initial(InviteeInitial::new(Some(report_on("t1", "no")))));
}

#[test]
fn confirmation_of_another_thread_is_rejected() {
    let mut inviter = SmConnectionInviter { state: inviter_states()[3].clone() };
    let before = inviter.clone();
    for thread in [ack("t2"), Thread::new()] {
        assert_eq!(inviter.handle(InviterEvent::Ack(thread)).unwrap_err().kind(), VcxErrorKind::InvalidThread);
        assert_eq!(inviter, before);
    }
    inviter.handle(InviterEvent::Ack(ack("t1"))).unwrap();
    assert_eq!(inviter.state, inviter_states()[4]);
    // out of turn it is the state that rejects it, whatever its thread
    for state in [0, 1, 2, 4] {
        let mut machine = SmConnectionInviter { state: inviter_states()[state].clone() };
        assert_eq!(machine.handle(InviterEvent::Ack(ack("t2"))).unwrap_err().kind(), VcxErrorKind::InvalidState);
        assert_eq!(machine.handle(InviterEvent::Ack(ack("t1"))).unwrap_err().kind(), VcxErrorKind::InvalidState);
    }
}

#[test]
fn connection_messages_are_counted_by_the_conversation() {
    let mut with_thread = ack("t1");
    with_thread.sender_order = 2;

    let machine = SmConnectionInviter { state: inviter_states()[3].clone() };
    let mut inviter = Conversation::new(machine);
    assert_eq!(inviter.thread, Thread::new().set_thid("t1".to_string()));
    inviter.receive("did:invitee", InviterEvent::Ack(with_thread.clone())).unwrap();
    assert_eq!(inviter.machine.state, inviter_states()[4]);
    assert_eq!(inviter.thread.received_order("did:invitee"), Some(2));

    // the same confirmation again, and a report that is no later than it
    let before = inviter.clone();
    assert_eq!(
        inviter.receive("did:invitee", InviterEvent::Ack(with_thread)).unwrap_err().kind(),
        VcxErrorKind::InvalidThread
    );
    let mut late = report_on("t1", "no");
    late.thread.sender_order = 1;
    assert_eq!(
        inviter.receive("did:invitee", InviterEvent::ProblemReport(late.clone())).unwrap_err().kind(),
        VcxErrorKind::InvalidThread
    );
    assert_eq!(inviter, before);
    late.thread.sender_order = 3;
    inviter.receive("did:invitee", InviterEvent::ProblemReport(late)).unwrap();
    assert_eq!(inviter.thread.received_order("did:invitee"), Some(3));

    let mut machine = SmConnectionInvitee::new();
    machine.handle(InviteeEvent::Invitation(invitation("t1"))).unwrap();
    machine.handle(InviteeEvent::Request(request("t1"))).unwrap();
    let mut invitee = Conversation::new(machine);
    let mut answer = response("t1");
    answer.thread.sender_order = 1;
    invitee.receive("did:inviter", InviteeEvent::Response(answer.clone())).unwrap();
    assert_eq!(invitee.thread.received_order("did:inviter"), Some(1));
    let before = invitee.clone();
    assert_eq!(
        invitee.receive("did:inviter", InviteeEvent::Response(answer)).unwrap_err().kind(),
        VcxErrorKind::InvalidThread
    );
    assert_eq!(invitee, before);
    // what the invitee does itself is not counted
    invitee.receive("did:inviter", InviteeEvent::Ack).unwrap();
    assert_eq!(invitee.thread.received_order("did:inviter"), Some(1));
    assert_eq!(invitee.machine.thread_id(), Some("t1".to_string()));
}
