//! The reset ledger behind every copy of the temporal-history reset: a
//! main-world copy reads the current generation (`None`), an extracted
//! render-world copy reads the generation frozen at extraction.

use bevy_metalfx::history::ResetLedger;

/// What extraction freezes for a render frame.
fn extract(ledger: &ResetLedger, frozen: Option<u64>) -> Option<u64> {
    Some(ledger.generation(frozen))
}

#[test]
fn default_has_no_requested_reset() {
    let main = ResetLedger::default();
    assert!(!main.is_requested(None));
    assert!(main.pending_request(None).is_none());
}

#[test]
fn inactive_or_unready_frames_cannot_consume_the_request() {
    let mut main = ResetLedger::new();
    main.request();
    for _ in 0..8 {
        let render = extract(&main, None);
        assert!(main.is_requested(render));
        // No eligible view, missing prepass, or pending scaler: no encode acknowledgement.
        assert!(main.pending_request(render).is_some());
    }
    assert!(main.is_requested(None));
}

#[test]
fn successful_encode_consumes_once_across_main_and_render_worlds() {
    let mut main = ResetLedger::new();
    let observer = None;
    main.request();
    let render = extract(&main, None);
    let token = main.pending_request(render).expect("requested reset");
    main.acknowledge(token);
    assert!(!main.is_requested(None));
    assert!(!main.is_requested(observer));
    assert!(!main.is_requested(render));
    let next = extract(&main, None);
    assert!(main.pending_request(next).is_none());
}

#[test]
fn extraction_does_not_see_a_request_from_a_later_main_frame() {
    let mut main = ResetLedger::new();
    let render = extract(&main, None);
    main.request();
    assert!(main.is_requested(None));
    assert!(!main.is_requested(render));
    let next = extract(&main, None);
    assert!(main.is_requested(next));
}

#[test]
fn old_encode_acknowledgement_cannot_consume_a_newer_request() {
    let mut main = ResetLedger::new();
    main.request();
    let old_render = extract(&main, None);
    let old_token = main.pending_request(old_render).expect("first request");
    main.request();
    main.acknowledge(old_token);
    assert!(!main.is_requested(old_render));
    assert!(
        main.is_requested(None),
        "the newer cut must still reach its own frame"
    );
    let render = extract(&main, None);
    let token = main.pending_request(render).expect("second request");
    main.acknowledge(token);
    assert!(!main.is_requested(None));
}

#[test]
fn dropped_encode_token_leaves_the_request_pending() {
    let mut main = ResetLedger::new();
    main.request();
    let render = extract(&main, None);
    {
        let _failed_encode = main.pending_request(render).expect("requested reset");
    }
    assert!(main.is_requested(None));
    let retry = extract(&main, None);
    let token = main.pending_request(retry).expect("retry still owes reset");
    main.acknowledge(token);
    assert!(!main.is_requested(None));
}

#[test]
fn one_encoded_reset_can_coalesce_requests_known_before_extraction() {
    let mut main = ResetLedger::new();
    main.request();
    main.request();
    let render = extract(&main, None);
    let token = main.pending_request(render).expect("coalesced request");
    main.acknowledge(token);
    assert!(!main.is_requested(None));
}

#[test]
fn acknowledgements_arriving_out_of_order_do_not_reopen_consumed_requests() {
    let mut main = ResetLedger::new();
    main.request();
    let first_render = extract(&main, None);
    let first = main.pending_request(first_render).expect("first request");
    main.request();
    let second_render = extract(&main, None);
    let second = main.pending_request(second_render).expect("second request");
    main.acknowledge(second);
    main.acknowledge(first);
    assert!(!main.is_requested(None));
    main.request();
    assert!(main.is_requested(None));
}

#[test]
fn tokens_carry_the_generation_their_frame_observed() {
    let mut main = ResetLedger::new();
    main.request();
    main.request();
    main.request();
    let token = main.pending_request(Some(2)).unwrap();
    assert_eq!(token.generation(), 2);
    main.acknowledge(token);
    assert!(!main.is_requested(Some(1)));
    assert!(!main.is_requested(Some(2)));
    assert!(main.is_requested(Some(3)));
    assert!(main.is_requested(None));
    assert_eq!(main.generation(None), 3);
}

#[test]
fn history_reset_defaults_to_not_requested() {
    let reset = ResetLedger::default();
    assert!(
        !reset.is_requested(None),
        "a default reset would throw away history on every startup frame"
    );
}
