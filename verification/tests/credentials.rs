use get_huawei_market::code::{
    refresh_retry_decision, trim_quotes, CodeManager, RetryDecision, TOKEN_UPDATE_INTERVAL_MILLIS,
};

#[test]
fn one_refresh_serves_every_caller_in_the_window() {
    // A manager whose pair has long expired.
    let mut mgr = CodeManager::new(0);
    mgr.last_update_millis = 0;
    let now: u64 = 10 * TOKEN_UPDATE_INTERVAL_MILLIS;

    let mut upstream_refresh_calls = 0u32;
    let mut first_pair: Option<(String, String)> = None;

    // N concurrent callers; the write lock serializes them, so each sees
    // either the pre-refresh or the post-refresh state.
    for caller in 0..8 {
        if mgr.needs_refresh(now + caller) {
            upstream_refresh_calls += 1;
            let identity = format!("identity-{}", upstream_refresh_calls);
            let token = mgr.apply_refresh(identity, "\"CODE-1\"", now);
            first_pair = Some((token.identity_id, token.interface_code));
        }
        let token = mgr.get_token();
        let (id, code) = first_pair.clone().expect("a refresh ran first");
        // Never a torn pair: both halves come from the same refresh.
        assert_eq!(token.identity_id, id);
        assert_eq!(token.interface_code, code);
    }
    assert_eq!(upstream_refresh_calls, 1);
}

#[test]
fn refresh_stores_the_unquoted_body() {
    let mut mgr = CodeManager::new(0);
    let token = mgr.apply_refresh("id-1".to_string(), "\"THE-CODE\"", 500);
    assert_eq!(token.interface_code, "THE-CODE");
    assert_eq!(token.identity_id, "id-1");
    assert_eq!(mgr.last_update_millis, 500);
    assert!(!mgr.needs_refresh(500 + TOKEN_UPDATE_INTERVAL_MILLIS));
    assert!(mgr.needs_refresh(501 + TOKEN_UPDATE_INTERVAL_MILLIS));
}

#[test]
fn request_codes_are_stamped_per_call() {
    let mut mgr = CodeManager::new(0);
    mgr.apply_refresh("id-1".to_string(), "CODE", 500);
    let t1 = mgr.get_token_for_request(1111);
    let t2 = mgr.get_token_for_request(2222);
    assert_eq!(t1.interface_code, "CODE_1111");
    assert_eq!(t2.interface_code, "CODE_2222");
    assert_eq!(t1.identity_id, t2.identity_id);
}

#[test]
fn quotes_are_stripped_only_at_the_ends() {
    assert_eq!(trim_quotes("\"abc\""), "abc");
    assert_eq!(trim_quotes("abc"), "abc");
    assert_eq!(trim_quotes("\"\"a\"b\"\""), "a\"b");
    assert_eq!(trim_quotes("\"\""), "");
    assert_eq!(trim_quotes(""), "");
}

#[test]
fn a_failing_refresh_retries_five_times_then_gives_up() {
    for attempt in 0..5u64 {
        assert!(matches!(
            refresh_retry_decision(attempt),
            RetryDecision::RetryAfterSecs(1)
        ));
    }
    assert!(matches!(refresh_retry_decision(5), RetryDecision::Fatal));
    assert!(matches!(refresh_retry_decision(6), RetryDecision::Fatal));
}
