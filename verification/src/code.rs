//! The credential manager: a rotating anonymous identity and a short-lived
//! interface code.
//!
//! Every upstream call must carry a current (identity, code) pair. The
//! manager here is the decision core: it says when the cached pair is too
//! old, what a refresh stores, how the per-request code is stamped, and
//! when a failing refresh may be retried. The caller serializes refreshes
//! behind a write lock, so readers see the identity, code and refresh
//! instant change together, never a torn triple.

use vstd::prelude::*;

use crate::utils::{push_char, spec_u64_digits, u64_to_string};

verus! {

/// How long a fetched interface code stays valid, in milliseconds.
pub const TOKEN_UPDATE_INTERVAL_MILLIS: u64 = 600000;

/// How many times a failing refresh is attempted before the process gives
/// up: without a credential nothing can proceed.
pub const MAX_REFRESH_RETRIES: u64 = 5;

/// The pair that authorizes one upstream call.
pub struct TokenInfo {
    pub identity_id: String,
    pub interface_code: String,
}

/// The credential triple: the current identity, the interface code once
/// one was fetched, and the instant of the last refresh.
pub struct CodeManager {
    pub identity_id: String,
    pub token: Option<String>,
    pub last_update_millis: u64,
}

/// Relies on uuid's `Uuid::new_v4` and its `simple` formatter: a fresh
/// random identity written as lowercase hexadecimal without hyphens.
#[verifier::external_body]
pub fn fresh_identity() -> (r: String) {
    uuid::Uuid::new_v4().simple().to_string()
}

/// A string without its leading quote characters.
pub open spec fn spec_trim_start_quotes(s: Seq<char>) -> Seq<char>
    decreases s.len(),
{
    if s.len() > 0 && s.first() == '"' {
        spec_trim_start_quotes(s.drop_first())
    } else {
        s
    }
}

/// A string without its trailing quote characters.
pub open spec fn spec_trim_end_quotes(s: Seq<char>) -> Seq<char>
    decreases s.len(),
{
    if s.len() > 0 && s.last() == '"' {
        spec_trim_end_quotes(s.drop_last())
    } else {
        s
    }
}

/// A string without its surrounding quote characters: how the refresh
/// endpoint's body is read as the literal interface code.
pub open spec fn spec_trim_quotes(s: Seq<char>) -> Seq<char> {
    spec_trim_end_quotes(spec_trim_start_quotes(s))
}

proof fn lemma_trim_start_skip(s: Seq<char>, i: int)
    requires
        0 <= i <= s.len(),
        forall|j: int| 0 <= j < i ==> s[j] == '"',
    ensures
        spec_trim_start_quotes(s) == spec_trim_start_quotes(s.skip(i)),
    decreases i,
{
    if i > 0 {
        lemma_trim_start_skip(s, i - 1);
        let t = s.skip(i - 1);
        assert(t.first() == s[i - 1]);
        assert(t.drop_first() =~= s.skip(i));
    } else {
        assert(s.skip(0) =~= s);
    }
}

proof fn lemma_trim_end_take(s: Seq<char>, i: int)
    requires
        0 <= i <= s.len(),
        forall|j: int| i <= j < s.len() ==> s[j] == '"',
    ensures
        spec_trim_end_quotes(s) == spec_trim_end_quotes(s.take(i)),
    decreases s.len() - i,
{
    if i < s.len() {
        lemma_trim_end_take(s, i + 1);
        let t = s.take(i + 1);
        assert(t.last() == s[i]);
        assert(t.drop_last() =~= s.take(i));
    } else {
        assert(s.take(i) =~= s);
    }
}

/// Strips surrounding quote characters off the refresh endpoint's body.
pub fn trim_quotes(s: &str) -> (r: String)
    ensures
        r@ == spec_trim_quotes(s@),
{
    let n: usize = s.unicode_len();
    let mut start: usize = 0;
    while start < n && s.get_char(start) == '"'
        invariant
            n == s@.len(),
            start <= n,
            forall|j: int| 0 <= j < start ==> s@[j] == '"',
        decreases n - start,
    {
        start = start + 1;
    }
    proof {
        lemma_trim_start_skip(s@, start as int);
        if start < n {
            assert(s@.skip(start as int).first() == s@[start as int]);
        }
        assert(spec_trim_start_quotes(s@) == s@.skip(start as int));
    }
    let mut end: usize = n;
    while end > start && s.get_char(end - 1) == '"'
        invariant
            n == s@.len(),
            start <= end <= n,
            forall|j: int| end <= j < n ==> s@[j] == '"',
        decreases end,
    {
        end = end - 1;
    }
    let trimmed = s.substring_char(start, end);
    proof {
        let mid = s@.skip(start as int);
        lemma_trim_end_take(mid, end - start);
        if end > start {
            assert(mid.take(end - start).last() == s@[end - 1]);
        }
        assert(mid.take(end - start) =~= s@.subrange(start as int, end as int));
        assert(spec_trim_end_quotes(mid) == spec_trim_end_quotes(mid.take(end - start)));
    }
    trimmed.to_owned()
}

/// Whether the cached pair is too old to use: the validity window has
/// passed since the last refresh.
pub open spec fn spec_needs_refresh(m: CodeManager, now_millis: u64) -> bool {
    now_millis > m.last_update_millis + TOKEN_UPDATE_INTERVAL_MILLIS
}

impl CodeManager {
    /// A manager as the process starts: a fresh identity, no interface
    /// code yet, the clock started now. The first use refreshes.
    pub fn new(now_millis: u64) -> (r: CodeManager)
        ensures
            r.token is None,
            r.last_update_millis == now_millis,
    {
        CodeManager { identity_id: fresh_identity(), token: None, last_update_millis: now_millis }
    }

    /// Whether a caller at this instant must refresh before using the
    /// cached pair.
    pub fn needs_refresh(&self, now_millis: u64) -> (r: bool)
        ensures
            r == spec_needs_refresh(*self, now_millis),
    {
        match now_millis.checked_sub(self.last_update_millis) {
            Some(elapsed) => elapsed > TOKEN_UPDATE_INTERVAL_MILLIS,
            None => false,
        }
    }

    /// The cached pair, read together: the identity and the code of one
    /// refresh, never a mix of two. A manager that has not refreshed yet
    /// hands out an empty code.
    pub fn get_token(&self) -> (r: TokenInfo)
        ensures
            r.identity_id@ == self.identity_id@,
            r.interface_code@ == (match self.token {
                Some(t) => t@,
                None => Seq::<char>::empty(),
            }),
    {
        TokenInfo {
            identity_id: self.identity_id.clone(),
            interface_code: match &self.token {
                Some(t) => t.clone(),
                None => String::new(),
            },
        }
    }

    /// The pair stamped for one request: upstream wants every call's code
    /// unique, so the caller's instant is appended to the cached code.
    pub fn get_token_for_request(&self, now_millis: u64) -> (r: TokenInfo)
        ensures
            r.identity_id@ == self.identity_id@,
            r.interface_code@ == (match self.token {
                Some(t) => t@,
                None => Seq::<char>::empty(),
            }) + seq!['_'] + spec_u64_digits(now_millis as int),
    {
        let base = self.get_token();
        let mut code = base.interface_code;
        push_char(&mut code, '_');
        let stamp = u64_to_string(now_millis);
        let code = code.concat(stamp.as_str());
        proof {
            assert(code@ =~= (match self.token {
                Some(t) => t@,
                None => Seq::<char>::empty(),
            }) + seq!['_'] + spec_u64_digits(now_millis as int));
        }
        TokenInfo { identity_id: base.identity_id, interface_code: code }
    }

    /// Stores the outcome of one refresh: the new identity, the code read
    /// off the endpoint's body with its surrounding quotes stripped, and
    /// the refresh instant — all three together.
    pub fn apply_refresh(&mut self, identity: String, body: &str, now_millis: u64) -> (r:
        TokenInfo)
        ensures
            final(self).identity_id@ == identity@,
            final(self).token == Some(r.interface_code),
            final(self).token->Some_0@ == spec_trim_quotes(body@),
            final(self).last_update_millis == now_millis,
            r.identity_id@ == identity@,
            r.interface_code@ == spec_trim_quotes(body@),
    {
        let code = trim_quotes(body);
        self.identity_id = identity;
        self.token = Some(code.clone());
        self.last_update_millis = now_millis;
        TokenInfo { identity_id: self.identity_id.clone(), interface_code: code }
    }
}

/// What a failing refresh attempt leads to: another try after a fixed
/// pause, until the retry budget is spent; then the failure is fatal.
pub enum RetryDecision {
    /// Try again after this many seconds.
    RetryAfterSecs(u64),
    /// The retry budget is spent; the process cannot proceed.
    Fatal,
}

/// Decides whether a refresh that has failed this many times already may
/// be tried again: up to the fixed budget, after a one-second pause.
pub fn refresh_retry_decision(failed_attempts: u64) -> (r: RetryDecision)
    ensures
        failed_attempts < MAX_REFRESH_RETRIES ==> r == RetryDecision::RetryAfterSecs(1u64),
        failed_attempts >= MAX_REFRESH_RETRIES ==> r == RetryDecision::Fatal,
{
    if failed_attempts < MAX_REFRESH_RETRIES {
        RetryDecision::RetryAfterSecs(1)
    } else {
        RetryDecision::Fatal
    }
}

/// Within the validity window of one refresh, no reader needs another
/// refresh, and every reader is handed the identity and the code that
/// that refresh stored together — never a newer code under an older
/// identity or the reverse.
pub proof fn lemma_refresh_serves_window(m: CodeManager, refreshed_at: u64, now: u64)
    requires
        m.last_update_millis == refreshed_at,
        m.token is Some,
        refreshed_at <= now <= refreshed_at + TOKEN_UPDATE_INTERVAL_MILLIS,
    ensures
        !spec_needs_refresh(m, now),
{
}

} // verus!
