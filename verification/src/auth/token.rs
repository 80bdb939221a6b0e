//! OAuth2 client-credentials support: the bearer-token cache and the
//! diagnostics built from a rejected token request.

use vstd::prelude::*;
use vstd::string::StringExecFns;
use crate::text::{
    decimal, prefix_within_bytes, push_char, string_from_chars, trim_chars, trimmed, u64_to_decimal,
    utf8_len, utf8_width, char_width,
};

verus! {

/// Longest body excerpt (in bytes) quoted in an error message, so an HTML
/// error page or a huge body cannot flood the terminal.
pub const OAUTH_ERROR_BODY_TRUNCATE: usize = 512;

/// A cached token counts as fresh while more than this many milliseconds of
/// its lifetime remain.
pub const REFRESH_MARGIN_MS: u64 = 60_000;

/// What [`truncate_for_log`] makes of `s`: the trimmed text, cut at the last
/// char boundary within the byte budget and marked with `…` when it was cut.
pub open spec fn log_excerpt(s: Seq<char>) -> Seq<char> {
    let t = trimmed(s);
    if utf8_len(t) <= OAUTH_ERROR_BODY_TRUNCATE {
        t
    } else {
        prefix_within_bytes(t, OAUTH_ERROR_BODY_TRUNCATE as int).push('…')
    }
}

/// Bytes of the UTF-8 encoding of `v` (saturating at `usize::MAX`).
fn utf8_len_of(v: &Vec<char>) -> (n: usize)
    ensures
        utf8_len(v@) <= usize::MAX ==> n == utf8_len(v@),
        utf8_len(v@) > usize::MAX ==> n == usize::MAX,
{
    let mut i: usize = 0;
    let mut n: usize = 0;
    while i < v.len()
        invariant
            i <= v@.len(),
            utf8_len(v@.take(i as int)) <= usize::MAX ==> n == utf8_len(v@.take(i as int)),
            utf8_len(v@.take(i as int)) > usize::MAX ==> n == usize::MAX,
        decreases v@.len() - i,
    {
        let w = char_width(v[i]);
        assert(v@.take(i + 1).drop_last() =~= v@.take(i as int));
        n = if n > usize::MAX - w { usize::MAX } else { n + w };
        i = i + 1;
    }
    assert(v@.take(v@.len() as int) =~= v@);
    n
}

/// Shortens a response body for an error message: trims it and keeps at
/// most [`OAUTH_ERROR_BODY_TRUNCATE`] bytes, never splitting a character,
/// followed by `…` when something was cut.
pub fn truncate_for_log(s: &str) -> (r: String)
    ensures
        r@ == log_excerpt(s@),
{
    let t = trim_chars(s);
    let len = utf8_len_of(&t);
    if len <= OAUTH_ERROR_BODY_TRUNCATE {
        return string_from_chars(&t);
    }
    let mut out = String::new();
    let mut k: usize = 0;
    let mut used: usize = 0;
    while k < t.len()
        invariant_except_break
            k <= t@.len(),
            used == utf8_len(t@.take(k as int)),
            used <= OAUTH_ERROR_BODY_TRUNCATE,
            out@ == t@.take(k as int),
        ensures
            k <= t@.len(),
            used == utf8_len(t@.take(k as int)),
            out@ == t@.take(k as int),
            used <= OAUTH_ERROR_BODY_TRUNCATE,
            k == t@.len() || utf8_len(t@.take(k + 1)) > OAUTH_ERROR_BODY_TRUNCATE,
        decreases t@.len() - k,
    {
        let w = char_width(t[k]);
        assert(t@.take(k + 1).drop_last() =~= t@.take(k as int));
        if w > OAUTH_ERROR_BODY_TRUNCATE - used {
            break;
        }
        used = used + w;
        push_char(&mut out, t[k]);
        assert(t@.take(k + 1) =~= t@.take(k as int).push(t@[k as int]));
        k = k + 1;
    }
    proof {
        crate::text::lemma_prefix_within_is_take(t@, OAUTH_ERROR_BODY_TRUNCATE as int, k as int);
    }
    push_char(&mut out, '…');
    out
}

/// The RFC 6749 error envelope of a rejected token request.
#[derive(Debug, Clone)]
pub struct OAuthErrorResp {
    pub error: String,
    pub error_description: Option<String>,
    pub error_uri: Option<String>,
}

/// `text` followed by `part` when `part` is present and not blank after
/// trimming, between `before` and `after`.
pub open spec fn with_optional_part(
    text: Seq<char>,
    part: Option<String>,
    before: Seq<char>,
    after: Seq<char>,
) -> Seq<char> {
    match part {
        Some(p) => if trimmed(p@).len() > 0 {
            text + before + trimmed(p@) + after
        } else {
            text
        },
        None => text,
    }
}

/// The diagnostic for a non-success token response with HTTP `status` and
/// `body`; `parsed` is `body` read as an RFC 6749 error envelope, when it is
/// one.
pub open spec fn oauth_error_message(
    status: u16,
    body: Seq<char>,
    parsed: Option<OAuthErrorResp>,
) -> Seq<char> {
    match parsed {
        Some(e) => {
            let head = "HTTP "@ + decimal(status as nat) + " "@ + e.error@;
            let with_desc = with_optional_part(head, e.error_description, " — "@, Seq::empty());
            with_optional_part(with_desc, e.error_uri, " (see "@, ")"@)
        },
        None => {
            let snippet = log_excerpt(body);
            if snippet.len() == 0 {
                "HTTP "@ + decimal(status as nat)
            } else {
                "HTTP "@ + decimal(status as nat) + ": "@ + snippet
            }
        },
    }
}

fn append_optional_part(msg: &mut String, part: &Option<String>, before: &str, after: &str)
    ensures
        final(msg)@ == with_optional_part(old(msg)@, *part, before@, after@),
{
    if let Some(p) = part {
        let t = trim_chars(p.as_str());
        if t.len() > 0 {
            msg.append(before);
            let ts = string_from_chars(&t);
            msg.append(ts.as_str());
            msg.append(after);
        }
    }
}

/// Builds the message for a rejected token request: the structured RFC 6749
/// fields when the server sent them, otherwise a bounded excerpt of the body.
pub fn format_oauth_error(status: u16, body: &str, parsed: Option<OAuthErrorResp>) -> (r: String)
    ensures
        r@ == oauth_error_message(status, body@, parsed),
{
    let code = u64_to_decimal(status as u64);
    match parsed {
        Some(e) => {
            let mut msg = String::from_str("HTTP ");
            msg.append(code.as_str());
            msg.append(" ");
            msg.append(e.error.as_str());
            append_optional_part(&mut msg, &e.error_description, " — ", "");
            append_optional_part(&mut msg, &e.error_uri, " (see ", ")");
            proof {
                reveal_strlit("");
                assert(""@ =~= Seq::<char>::empty());
            }
            msg
        },
        None => {
            let snippet = truncate_for_log(body);
            let mut msg = String::from_str("HTTP ");
            msg.append(code.as_str());
            if !snippet.as_str().is_empty() {
                msg.append(": ");
                msg.append(snippet.as_str());
            }
            msg
        },
    }
}

/// A bearer token with the instant (milliseconds on a monotonic clock) at
/// which it expires.
#[derive(Debug, Clone)]
pub struct CachedToken {
    pub bearer: String,
    pub expires_at_ms: u64,
}

/// The single-slot cache in front of the token endpoint.
#[derive(Debug)]
pub struct TokenCache {
    pub slot: Option<CachedToken>,
}

/// Whether a token expiring at `expires_at_ms` may still be handed out at
/// `now_ms`: more than the refresh margin of its lifetime is left.
pub open spec fn is_fresh(expires_at_ms: u64, now_ms: u64) -> bool {
    expires_at_ms > now_ms && expires_at_ms - now_ms > REFRESH_MARGIN_MS
}

/// The token the cache hands out at `now_ms`, if any.
pub open spec fn cached_bearer(c: TokenCache, now_ms: u64) -> Option<Seq<char>> {
    match c.slot {
        Some(t) => if is_fresh(t.expires_at_ms, now_ms) { Some(t.bearer@) } else { None },
        None => None,
    }
}

/// When a token fetched at `now_ms` with a lifetime of `ttl_secs` expires
/// (saturating at the end of the clock).
pub open spec fn expiry_of(now_ms: u64, ttl_secs: u64) -> u64 {
    if now_ms + ttl_secs * 1000 > u64::MAX { u64::MAX } else { (now_ms + ttl_secs * 1000) as u64 }
}

impl TokenCache {
    /// An empty cache.
    pub fn new() -> (c: Self)
        ensures
            c.slot is None,
    {
        TokenCache { slot: None }
    }

    /// The cached bearer token when it is still fresh at `now_ms`; `None`
    /// means the caller must fetch a new one.
    pub fn fresh_bearer(&self, now_ms: u64) -> (r: Option<String>)
        ensures
            r.deep_view() == cached_bearer(*self, now_ms),
    {
        match &self.slot {
            Some(t) => if t.expires_at_ms > now_ms && t.expires_at_ms - now_ms > REFRESH_MARGIN_MS {
                Some(t.bearer.clone())
            } else {
                None
            },
            None => None,
        }
    }

    /// Remembers a token fetched at `now_ms` that lives `ttl_secs` seconds.
    pub fn store(&mut self, bearer: String, now_ms: u64, ttl_secs: u64)
        ensures
            final(self).slot matches Some(t) && t.bearer@ == bearer@
                && t.expires_at_ms == expiry_of(now_ms, ttl_secs),
    {
        let life: u64 = if ttl_secs > u64::MAX / 1000 { u64::MAX } else { ttl_secs * 1000 };
        let expires = if life > u64::MAX - now_ms { u64::MAX } else { now_ms + life };
        self.slot = Some(CachedToken { bearer, expires_at_ms: expires });
    }

    /// Forgets the cached token, so the next request fetches a new one.
    pub fn invalidate(&mut self)
        ensures
            final(self).slot is None,
    {
        self.slot = None;
    }
}

/// A token stored at `now_ms` with a lifetime above the refresh margin is
/// what the cache hands out right away.
pub proof fn lemma_read_after_store(bearer: Seq<char>, now_ms: u64, ttl_secs: u64, t: CachedToken)
    requires
        t.bearer@ == bearer,
        t.expires_at_ms == expiry_of(now_ms, ttl_secs),
        ttl_secs * 1000 > REFRESH_MARGIN_MS,
        now_ms + ttl_secs * 1000 <= u64::MAX,
    ensures
        cached_bearer(TokenCache { slot: Some(t) }, now_ms) == Some(bearer),
{
}

/// A stored token keeps being handed out, without a new fetch, at every
/// later time until the refresh margin before its expiry, and never after.
pub proof fn lemma_token_reused_until_margin(
    bearer: Seq<char>,
    now_ms: u64,
    ttl_secs: u64,
    later_ms: u64,
    t: CachedToken,
)
    requires
        t.bearer@ == bearer,
        t.expires_at_ms == expiry_of(now_ms, ttl_secs),
        now_ms + ttl_secs * 1000 <= u64::MAX,
        now_ms <= later_ms,
    ensures
        later_ms + REFRESH_MARGIN_MS < now_ms + ttl_secs * 1000 ==> cached_bearer(
            TokenCache { slot: Some(t) },
            later_ms,
        ) == Some(bearer),
        later_ms + REFRESH_MARGIN_MS >= now_ms + ttl_secs * 1000 ==> cached_bearer(
            TokenCache { slot: Some(t) },
            later_ms,
        ) is None,
{
}

/// A token whose lifetime is within the refresh margin is never handed
/// out: the next request fetches again.
pub proof fn lemma_short_lived_token_is_refetched(now_ms: u64, ttl_secs: u64, t: CachedToken)
    requires
        t.expires_at_ms == expiry_of(now_ms, ttl_secs),
        ttl_secs * 1000 <= REFRESH_MARGIN_MS,
    ensures
        cached_bearer(TokenCache { slot: Some(t) }, now_ms) is None,
{
}

/// After `invalidate`, nothing is handed out, whatever the time.
pub proof fn lemma_invalidated_cache_is_empty(now_ms: u64)
    ensures
        cached_bearer(TokenCache { slot: None }, now_ms) is None,
{
}


/// The error of a rejected token request to `url`, with `detail` from
/// [`format_oauth_error`].
pub fn token_request_failed(url: &str, detail: &str) -> (r: String)
    ensures
        r@ == "OAuth token request to "@ + url@ + " failed: "@ + detail@,
{
    let mut s = String::from_str("OAuth token request to ");
    s.append(url);
    s.append(" failed: ");
    s.append(detail);
    s
}

/// The error of a token response that is not the expected shape: the
/// parser's complaint and a bounded excerpt of the body.
pub fn token_shape_error(reason: &str, body: &str) -> (r: String)
    ensures
        r@ == "OAuth token response was not the expected shape ("@ + reason@ + "); body was: "@
            + log_excerpt(body@),
{
    let mut s = String::from_str("OAuth token response was not the expected shape (");
    s.append(reason);
    s.append("); body was: ");
    let t = truncate_for_log(body);
    s.append(t.as_str());
    s
}


/// An excerpt never exceeds the byte budget by more than the three bytes of
/// the `…` that marks a cut.
pub proof fn lemma_excerpt_bounded(s: Seq<char>)
    ensures
        utf8_len(log_excerpt(s)) <= OAUTH_ERROR_BODY_TRUNCATE + 3,
{
    let t = trimmed(s);
    if utf8_len(t) > OAUTH_ERROR_BODY_TRUNCATE {
        let p = prefix_within_bytes(t, OAUTH_ERROR_BODY_TRUNCATE as int);
        crate::text::lemma_prefix_within_fits(t, OAUTH_ERROR_BODY_TRUNCATE as int);
        assert(p.push('…').drop_last() =~= p);
        assert(utf8_width('…') == 3) by {
            assert(('…' as u32) == 0x2026u32);
        }
    }
}

} // verus!
