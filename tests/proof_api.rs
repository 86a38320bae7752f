use libvcx::error::{VcxError, VcxErrorKind};
use libvcx::message::{A2AMessage, PendingMessage};
use libvcx::presentation::{PresentationRequest, PresentationStatus, Verifier, VerifierState};
use libvcx::proofs::{
    create_proof, get_presentation_msg, get_presentation_request_msg, get_proof_state,
    get_source_id, get_state, get_thread_id, is_valid_handle, mark_presentation_request_msg_sent,
    release, release_all, send_proof_request, update_state,
};
use libvcx::registry::ObjectCache;

const REQUESTED_ATTRS: &str = r#"[{"name":"address1","restrictions":[{"issuer_did":"V4SGRU86Z58d6TV7PBUe6f"}]},{"name":"zip"}]"#;
const REQUESTED_PREDICATES: &str = r#"[{"name":"age","p_type":">=","p_value":18}]"#;
const PRESENTATION: &str = r#"{"proof":{"proofs":[]},"requested_proof":{"revealed_attrs":{"address1_1":{"raw":"101-Tela-Lane"}}}}"#;

fn working_send(_msg: &String) -> Result<(), VcxError> {
    Ok(())
}

fn timeout_send(_msg: &String) -> Result<(), VcxError> {
    Err(VcxError::from_kind(VcxErrorKind::IOError))
}

fn accept_all(_request: &PresentationRequest, _presentation: &String) -> bool {
    true
}

fn reject_all(_request: &PresentationRequest, _presentation: &String) -> bool {
    false
}

fn create_default_proof(proofs: &mut ObjectCache<Verifier>) -> u32 {
    create_proof(
        proofs,
        "1".to_string(),
        REQUESTED_ATTRS.to_owned(),
        REQUESTED_PREDICATES.to_owned(),
        r#"{"support_revocation":false}"#.to_string(),
        "Optional".to_owned(),
    )
    .unwrap()
}

fn presentation_msg() -> A2AMessage {
    A2AMessage::Presentation { thread_id: "1".to_string(), presentation: PRESENTATION.to_string() }
}

fn reject_msg() -> A2AMessage {
    A2AMessage::ProblemReport { thread_id: "1".to_string(), comment: "rejected".to_string() }
}

#[test]
fn test_create_proof_succeeds() {
    let mut proofs = ObjectCache::new();
    create_default_proof(&mut proofs);
}

#[test]
fn test_revocation_details() {
    let mut proofs = ObjectCache::new();
    // No revocation
    create_default_proof(&mut proofs);
    // Revocation interval
    create_proof(
        &mut proofs,
        "1".to_string(),
        REQUESTED_ATTRS.to_owned(),
        REQUESTED_PREDICATES.to_owned(),
        r#"{"to":1234}"#.to_string(),
        "Optional".to_owned(),
    )
    .unwrap();
}

#[test]
fn test_release_proof() {
    let mut proofs = ObjectCache::new();
    let handle = create_default_proof(&mut proofs);
    assert!(release(&mut proofs, handle).is_ok());
    assert!(!is_valid_handle(&proofs, handle));
}

#[test]
fn test_send_proof_request() {
    let mut proofs = ObjectCache::new();
    let handle_proof = create_default_proof(&mut proofs);
    assert_eq!(send_proof_request(&mut proofs, handle_proof, working_send).unwrap(), 0);
    assert_eq!(
        get_state(&proofs, handle_proof).unwrap(),
        VerifierState::PresentationRequestSent.code()
    );
}

#[test]
fn test_get_proof_fails_with_no_proof() {
    let mut proofs = ObjectCache::new();
    let handle = create_default_proof(&mut proofs);
    assert!(is_valid_handle(&proofs, handle));
    assert!(get_presentation_msg(&proofs, handle).is_err())
}

#[test]
fn test_proof_update_state_v2() {
    let mut proofs = ObjectCache::new();
    let handle_proof = create_default_proof(&mut proofs);
    send_proof_request(&mut proofs, handle_proof, working_send).unwrap();
    assert_eq!(
        get_state(&proofs, handle_proof).unwrap(),
        VerifierState::PresentationRequestSent.code()
    );
    let msg = presentation_msg();
    update_state(&mut proofs, handle_proof, Some(&msg), &Vec::new(), accept_all).unwrap();
    assert_eq!(get_state(&proofs, handle_proof).unwrap(), VerifierState::Finished.code());
}

#[test]
fn test_update_state() {
    let mut proofs = ObjectCache::new();
    let handle_proof = create_default_proof(&mut proofs);
    send_proof_request(&mut proofs, handle_proof, working_send).unwrap();
    assert_eq!(
        get_state(&proofs, handle_proof).unwrap(),
        VerifierState::PresentationRequestSent.code()
    );
    let msg = presentation_msg();
    update_state(&mut proofs, handle_proof, Some(&msg), &Vec::new(), accept_all).unwrap();
    assert_eq!(get_state(&proofs, handle_proof).unwrap(), VerifierState::Finished.code());
}

#[test]
fn test_proof_validation_with_predicate() {
    let mut proofs = ObjectCache::new();
    let handle_proof = create_default_proof(&mut proofs);
    send_proof_request(&mut proofs, handle_proof, working_send).unwrap();
    assert_eq!(
        get_state(&proofs, handle_proof).unwrap(),
        VerifierState::PresentationRequestSent.code()
    );
    let msg = presentation_msg();
    update_state(&mut proofs, handle_proof, Some(&msg), &Vec::new(), accept_all).unwrap();
    assert_eq!(get_state(&proofs, handle_proof).unwrap(), VerifierState::Finished.code());
}

#[test]
fn test_update_state_with_reject_message() {
    let mut proofs = ObjectCache::new();
    let handle_proof = create_default_proof(&mut proofs);
    send_proof_request(&mut proofs, handle_proof, working_send).unwrap();
    let msg = reject_msg();
    update_state(&mut proofs, handle_proof, Some(&msg), &Vec::new(), accept_all).unwrap();
    assert_eq!(get_state(&proofs, handle_proof).unwrap(), VerifierState::Failed.code());
}

#[test]
fn test_send_presentation_request() {
    let mut proofs = ObjectCache::new();
    let handle_proof = create_default_proof(&mut proofs);
    send_proof_request(&mut proofs, handle_proof, working_send).unwrap();
    assert_eq!(
        get_state(&proofs, handle_proof).unwrap(),
        VerifierState::PresentationRequestSent.code()
    );
}

#[test]
fn test_get_proof() {
    let mut proofs = ObjectCache::new();
    let handle_proof = create_default_proof(&mut proofs);
    send_proof_request(&mut proofs, handle_proof, working_send).unwrap();
    assert_eq!(
        get_state(&proofs, handle_proof).unwrap(),
        VerifierState::PresentationRequestSent.code()
    );
    let msg = presentation_msg();
    update_state(&mut proofs, handle_proof, Some(&msg), &Vec::new(), accept_all).unwrap();
    assert_eq!(get_state(&proofs, handle_proof).unwrap(), VerifierState::Finished.code());
    let proof_str = get_presentation_msg(&proofs, handle_proof).unwrap();
    assert_eq!(proof_str, PRESENTATION.replace("\n", "").replace(" ", ""));
}

#[test]
fn test_release_all() {
    let mut proofs = ObjectCache::new();
    let mut handles = Vec::new();
    for _ in 0..5 {
        let h = create_proof(
            &mut proofs,
            "1".to_string(),
            REQUESTED_ATTRS.to_owned(),
            REQUESTED_PREDICATES.to_owned(),
            r#"{"support_revocation":false}"#.to_string(),
            "Optional".to_owned(),
        )
        .unwrap();
        handles.push(h);
    }
    release_all(&mut proofs);
    for h in handles {
        assert_eq!(release(&mut proofs, h).unwrap_err().kind(), VcxErrorKind::InvalidProofHandle);
    }
}

#[test]
fn test_send_proof_request_can_be_retried() {
    let mut proofs = ObjectCache::new();
    let handle_proof = create_default_proof(&mut proofs);
    let _request = get_presentation_request_msg(&proofs, handle_proof).unwrap();
    assert_eq!(get_state(&proofs, handle_proof).unwrap(), 1);

    assert_eq!(
        send_proof_request(&mut proofs, handle_proof, timeout_send).unwrap_err().kind(),
        VcxErrorKind::IOError
    );
    assert_eq!(get_state(&proofs, handle_proof).unwrap(), 1);

    // Retry sending the request
    assert_eq!(send_proof_request(&mut proofs, handle_proof, working_send).unwrap(), 0);
    assert_eq!(
        get_state(&proofs, handle_proof).unwrap(),
        VerifierState::PresentationRequestSent.code()
    );
}

#[test]
fn test_proof_accepted() {
    let mut proofs = ObjectCache::new();
    let handle_proof = create_default_proof(&mut proofs);
    let _request = get_presentation_request_msg(&proofs, handle_proof).unwrap();
    send_proof_request(&mut proofs, handle_proof, working_send).unwrap();
    let msg = presentation_msg();
    update_state(&mut proofs, handle_proof, Some(&msg), &Vec::new(), accept_all).unwrap();
    assert_eq!(get_state(&proofs, handle_proof).unwrap(), VerifierState::Finished.code());
}

#[test]
fn test_proof_errors() {
    let mut proofs = ObjectCache::new();
    let handle_proof = create_default_proof(&mut proofs);
    let bad_handle = 100000;
    let empty = r#""#;

    assert_eq!(
        send_proof_request(&mut proofs, bad_handle, working_send).unwrap_err().kind(),
        VcxErrorKind::InvalidHandle
    );
    assert_eq!(get_proof_state(&proofs, handle_proof).unwrap(), 0);
    assert_eq!(
        create_proof(
            &mut proofs,
            "my source id".to_string(),
            empty.to_string(),
            "{}".to_string(),
            r#"{"support_revocation":false}"#.to_string(),
            "my name".to_string()
        )
        .unwrap_err()
        .kind(),
        VcxErrorKind::InvalidJson
    );
    assert_eq!(get_source_id(&proofs, bad_handle).unwrap_err().kind(), VcxErrorKind::InvalidHandle);
}

// Edge cases: ordinals, fresh handles, message text, thread matching, mailbox polling.

#[test]
fn create_gives_request_set_ordinal() {
    let mut proofs = ObjectCache::new();
    let h = create_proof(
        &mut proofs,
        "src".to_string(),
        r#"["name"]"#.to_string(),
        "[]".to_string(),
        "{}".to_string(),
        "proof".to_string(),
    )
    .unwrap();
    assert_eq!(get_state(&proofs, h).unwrap(), 1);
    assert_eq!(get_proof_state(&proofs, h).unwrap(), PresentationStatus::Undefined.code());
    assert_eq!(get_source_id(&proofs, h).unwrap(), "src");
    assert_eq!(get_thread_id(&proofs, h).unwrap(), "src");
}

#[test]
fn handles_are_fresh_and_increasing() {
    let mut proofs = ObjectCache::new();
    let h1 = create_default_proof(&mut proofs);
    let h2 = create_default_proof(&mut proofs);
    assert_eq!(h1, 1);
    assert_eq!(h2, 2);
    release(&mut proofs, h1).unwrap();
    let h3 = create_default_proof(&mut proofs);
    assert_eq!(h3, 3);
    assert!(!is_valid_handle(&proofs, h1));
}

#[test]
fn request_message_text_is_exact() {
    let mut proofs = ObjectCache::new();
    let h = create_proof(
        &mut proofs,
        "a\"b".to_string(),
        r#"["name"]"#.to_string(),
        "[]".to_string(),
        "{}".to_string(),
        "n".to_string(),
    )
    .unwrap();
    let msg = get_presentation_request_msg(&proofs, h).unwrap();
    assert_eq!(
        msg,
        r#"{"@id":"a\"b","name":"n","requested_attributes":["name"],"requested_predicates":[],"non_revoked":{}}"#
    );
    let parsed: serde_json::Value = serde_json::from_str(&msg).unwrap();
    assert_eq!(parsed["@id"], "a\"b");
}

#[test]
fn malformed_predicates_or_revocation_are_rejected() {
    let mut proofs = ObjectCache::new();
    let r1 = create_proof(
        &mut proofs,
        "1".to_string(),
        "[]".to_string(),
        "[".to_string(),
        "{}".to_string(),
        "n".to_string(),
    );
    assert_eq!(r1.unwrap_err().kind(), VcxErrorKind::InvalidJson);
    let r2 = create_proof(
        &mut proofs,
        "1".to_string(),
        "[]".to_string(),
        "[]".to_string(),
        "not json".to_string(),
        "n".to_string(),
    );
    assert_eq!(r2.unwrap_err().kind(), VcxErrorKind::InvalidJson);
    assert!(!is_valid_handle(&proofs, 1));
}

#[test]
fn verified_presentation_sets_proof_state() {
    let mut proofs = ObjectCache::new();
    let h = create_default_proof(&mut proofs);
    send_proof_request(&mut proofs, h, working_send).unwrap();
    let msg = presentation_msg();
    let u = update_state(&mut proofs, h, Some(&msg), &Vec::new(), accept_all).unwrap();
    assert_eq!(u.state, VerifierState::Finished.code());
    assert_eq!(u.consumed, None);
    assert_eq!(get_proof_state(&proofs, h).unwrap(), PresentationStatus::Verified.code());
}

#[test]
fn invalid_presentation_finishes_not_verified() {
    let mut proofs = ObjectCache::new();
    let h = create_default_proof(&mut proofs);
    send_proof_request(&mut proofs, h, working_send).unwrap();
    let msg = presentation_msg();
    update_state(&mut proofs, h, Some(&msg), &Vec::new(), reject_all).unwrap();
    assert_eq!(get_state(&proofs, h).unwrap(), VerifierState::Finished.code());
    assert_eq!(get_proof_state(&proofs, h).unwrap(), PresentationStatus::NotVerified.code());
}

#[test]
fn malformed_presentation_fails() {
    let mut proofs = ObjectCache::new();
    let h = create_default_proof(&mut proofs);
    send_proof_request(&mut proofs, h, working_send).unwrap();
    let msg = A2AMessage::Presentation { thread_id: "1".to_string(), presentation: "{oops".to_string() };
    update_state(&mut proofs, h, Some(&msg), &Vec::new(), accept_all).unwrap();
    assert_eq!(get_state(&proofs, h).unwrap(), VerifierState::Failed.code());
    assert!(get_presentation_msg(&proofs, h).is_err());
}

#[test]
fn presentation_on_other_thread_is_ignored() {
    let mut proofs = ObjectCache::new();
    let h = create_default_proof(&mut proofs);
    send_proof_request(&mut proofs, h, working_send).unwrap();
    let msg = A2AMessage::Presentation { thread_id: "2".to_string(), presentation: PRESENTATION.to_string() };
    update_state(&mut proofs, h, Some(&msg), &Vec::new(), accept_all).unwrap();
    assert_eq!(get_state(&proofs, h).unwrap(), VerifierState::PresentationRequestSent.code());
}

#[test]
fn terminal_state_ignores_messages() {
    let mut proofs = ObjectCache::new();
    let h = create_default_proof(&mut proofs);
    send_proof_request(&mut proofs, h, working_send).unwrap();
    let reject = reject_msg();
    update_state(&mut proofs, h, Some(&reject), &Vec::new(), accept_all).unwrap();
    let msg = presentation_msg();
    let u = update_state(&mut proofs, h, Some(&msg), &Vec::new(), accept_all).unwrap();
    assert_eq!(u.state, VerifierState::Failed.code());
}

#[test]
fn same_message_twice_is_a_no_op() {
    let mut proofs = ObjectCache::new();
    let h = create_default_proof(&mut proofs);
    send_proof_request(&mut proofs, h, working_send).unwrap();
    let msg = presentation_msg();
    let once = update_state(&mut proofs, h, Some(&msg), &Vec::new(), accept_all).unwrap();
    let twice = update_state(&mut proofs, h, Some(&msg), &Vec::new(), reject_all).unwrap();
    assert_eq!(once.state, twice.state);
    assert_eq!(get_proof_state(&proofs, h).unwrap(), PresentationStatus::Verified.code());
}

#[test]
fn mailbox_poll_consumes_first_acceptable_message() {
    let mut proofs = ObjectCache::new();
    let h = create_default_proof(&mut proofs);
    send_proof_request(&mut proofs, h, working_send).unwrap();
    let pending = vec![
        PendingMessage { uid: "a".to_string(), message: A2AMessage::Ack { thread_id: "1".to_string() } },
        PendingMessage {
            uid: "b".to_string(),
            message: A2AMessage::Presentation { thread_id: "9".to_string(), presentation: "{}".to_string() },
        },
        PendingMessage { uid: "c".to_string(), message: reject_msg() },
        PendingMessage { uid: "d".to_string(), message: presentation_msg() },
    ];
    let u = update_state(&mut proofs, h, None, &pending, accept_all).unwrap();
    assert_eq!(u.consumed, Some(2));
    assert_eq!(pending[2].uid, "c");
    assert_eq!(u.state, VerifierState::Failed.code());
}

#[test]
fn mailbox_poll_without_match_changes_nothing() {
    let mut proofs = ObjectCache::new();
    let h = create_default_proof(&mut proofs);
    let pending = vec![PendingMessage { uid: "a".to_string(), message: presentation_msg() }];
    let u = update_state(&mut proofs, h, None, &pending, accept_all).unwrap();
    assert_eq!(u.consumed, None);
    assert_eq!(u.state, 1);
}

#[test]
fn proposal_is_received_before_request_is_sent() {
    let mut proofs = ObjectCache::new();
    let h = create_default_proof(&mut proofs);
    let msg = A2AMessage::PresentationProposal { thread_id: "x".to_string(), proposal: "{}".to_string() };
    let u = update_state(&mut proofs, h, Some(&msg), &Vec::new(), accept_all).unwrap();
    assert_eq!(u.state, VerifierState::PresentationProposalReceived.code());
    assert_eq!(get_presentation_request_msg(&proofs, h).unwrap_err().kind(), VcxErrorKind::NotReady);
}

#[test]
fn mark_sent_then_mark_again_is_invalid_state() {
    let mut proofs = ObjectCache::new();
    let h = create_default_proof(&mut proofs);
    mark_presentation_request_msg_sent(&mut proofs, h).unwrap();
    assert_eq!(get_state(&proofs, h).unwrap(), VerifierState::PresentationRequestSent.code());
    assert_eq!(
        mark_presentation_request_msg_sent(&mut proofs, h).unwrap_err().kind(),
        VcxErrorKind::InvalidState
    );
    assert_eq!(
        send_proof_request(&mut proofs, h, working_send).unwrap_err().kind(),
        VcxErrorKind::InvalidState
    );
}

#[test]
fn drained_handles_fail_every_operation() {
    let mut proofs = ObjectCache::new();
    let h1 = create_default_proof(&mut proofs);
    let h2 = create_default_proof(&mut proofs);
    release_all(&mut proofs);
    for h in [h1, h2] {
        assert!(!is_valid_handle(&proofs, h));
        assert_eq!(get_state(&proofs, h).unwrap_err().kind(), VcxErrorKind::InvalidHandle);
        assert_eq!(get_proof_state(&proofs, h).unwrap_err().kind(), VcxErrorKind::InvalidHandle);
        assert_eq!(get_thread_id(&proofs, h).unwrap_err().kind(), VcxErrorKind::InvalidHandle);
        assert_eq!(get_presentation_msg(&proofs, h).unwrap_err().kind(), VcxErrorKind::InvalidHandle);
        assert_eq!(
            mark_presentation_request_msg_sent(&mut proofs, h).unwrap_err().kind(),
            VcxErrorKind::InvalidHandle
        );
        assert!(update_state(&mut proofs, h, None, &Vec::new(), accept_all).is_err());
        assert_eq!(release(&mut proofs, h).unwrap_err().kind(), VcxErrorKind::InvalidProofHandle);
    }
}
