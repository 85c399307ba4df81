use vstd::prelude::*;
use vstd::string::*;

use crate::config::{admits_optional, fault_for, resolve_optional, Config};
use crate::content::{
    count_tokens, filler_text, generate_filler, token_count_result, tokens_of, tokens_or_zero, TokenizeError,
};
use vstd::utf8::{encode_utf8, is_ascii_chars, is_ascii_chars_encode_utf8};
use crate::models::{sat_add_u32, Usage};
use crate::quota::QuotaWindow;
use crate::clock::unix_now_ms;
use crate::random::random_in;

verus! {

/// How humantime writes a duration of whole seconds.
pub uninterp spec fn duration_text(secs: nat) -> Seq<char>;

/// Relies on `humantime::format_duration` of a whole number of seconds,
/// written out through `Display`: the text depends on the seconds alone, and
/// zero is written "0s".
#[verifier::external_body]
fn format_reset(secs: u64) -> (r: String)
    ensures
        r@ == duration_text(secs as nat),
        secs == 0 ==> r@ == "0s"@,
{
    humantime::format_duration(std::time::Duration::from_secs(secs)).to_string()
}

/// The rate-limit values that every response reports.
#[derive(Debug)]
pub struct RateLimitHeaders {
    pub limit_requests: u64,
    pub remaining_requests: u64,
    pub reset_requests: String,
    pub limit_tokens: u64,
    pub remaining_tokens: u64,
    pub reset_tokens: String,
}

/// The quota that refused a request.
#[derive(Clone, Copy, Debug, PartialEq, Eq, Structural)]
pub enum QuotaAxis {
    Requests,
    Tokens,
}

/// What the pipeline hands the transport for one request.
#[derive(Debug)]
pub enum Outcome {
    /// A quota is spent: status 429.
    RateLimited { axis: QuotaAxis, headers: RateLimitHeaders },
    /// A simulated fault with the configured code, sent with `status`.
    Fault { status: u16, code: u16, headers: RateLimitHeaders },
    /// The length resolved to zero: status 204.
    NoContent { headers: RateLimitHeaders },
    /// Generated content and its token usage: status 200.
    Ready { content: String, usage: Usage, headers: RateLimitHeaders },
}

/// The HTTP status a fault is sent with: the configured code where it is a
/// valid status, else 500.
pub open spec fn fault_status_spec(code: u16) -> u16 {
    if 100 <= code && code <= 999 {
        code
    } else {
        500
    }
}

pub fn fault_status(code: u16) -> (r: u16)
    ensures
        r == fault_status_spec(code),
{
    if 100 <= code && code <= 999 {
        code
    } else {
        500
    }
}

impl Outcome {
    /// The HTTP status of the outcome.
    pub fn status_code(&self) -> (r: u16)
        ensures
            r == match self {
                Outcome::RateLimited { .. } => 429,
                Outcome::Fault { status, .. } => *status,
                Outcome::NoContent { .. } => 204,
                Outcome::Ready { .. } => 200,
            },
    {
        match self {
            Outcome::RateLimited { .. } => 429,
            Outcome::Fault { status, .. } => *status,
            Outcome::NoContent { .. } => 204,
            Outcome::Ready { .. } => 200,
        }
    }

    /// The rate-limit values the outcome carries.
    pub fn headers(&self) -> (r: &RateLimitHeaders)
        ensures
            r == match self {
                Outcome::RateLimited { headers, .. } => headers,
                Outcome::Fault { headers, .. } => headers,
                Outcome::NoContent { headers } => headers,
                Outcome::Ready { headers, .. } => headers,
            },
    {
        match self {
            Outcome::RateLimited { headers, .. } => headers,
            Outcome::Fault { headers, .. } => headers,
            Outcome::NoContent { headers } => headers,
            Outcome::Ready { headers, .. } => headers,
        }
    }
}

/// The simulator's state: its settings and its two quota windows.
pub struct ServerState {
    pub config: Config,
    pub requests: QuotaWindow,
    pub tokens: QuotaWindow,
}

/// The headers report both windows as they stand at `now`.
pub open spec fn headers_report(h: RateLimitHeaders, s: ServerState, now: u64) -> bool {
    &&& h.limit_requests == s.requests.limit
    &&& h.remaining_requests == s.requests.remaining_spec()
    &&& h.reset_requests@ == duration_text(s.requests.reset_in_spec(now) as nat)
    &&& h.limit_tokens == s.tokens.limit
    &&& h.remaining_tokens == s.tokens.remaining_spec()
    &&& h.reset_tokens@ == duration_text(s.tokens.reset_in_spec(now) as nat)
}

/// The configuration makes every admitted request fail with its fault.
pub open spec fn fault_forced(c: Config) -> bool {
    c.error_code is Some && (c.error_rate matches Some(p) && p >= 100)
}

/// `r` is what the pipeline answers at `now` to a request with prompt
/// text `prompt`, taking the state from `before` to `after`.
pub open spec fn handled(before: ServerState, after: ServerState, prompt: Seq<char>, r: Outcome, now: u64) -> bool {
    let admitted = before.requests.refreshed(now).fits(1);
    let counted = before.requests.counted(now, 1);
    match r {
        Outcome::RateLimited { axis: QuotaAxis::Requests, headers } => {
            &&& !admitted
            &&& after.requests == before.requests.refreshed(now)
            &&& after.tokens == before.tokens.refreshed(now)
            &&& headers_report(headers, after, now)
        },
        Outcome::Fault { status, code, headers } => {
            &&& admitted
            &&& before.config.error_code == Some(code)
            &&& before.config.error_rate matches Some(p) && p > 0
            &&& status == fault_status_spec(code)
            &&& after.requests == counted.refreshed(now)
            &&& after.tokens == before.tokens.refreshed(now)
            &&& headers_report(headers, after, now)
        },
        Outcome::NoContent { headers } => {
            &&& admitted
            &&& !fault_forced(before.config)
            &&& admits_optional(before.config.response_length, 0)
            &&& after.requests == counted.refreshed(now)
            &&& after.tokens == before.tokens.refreshed(now)
            &&& headers_report(headers, after, now)
        },
        Outcome::RateLimited { axis: QuotaAxis::Tokens, headers } => {
            &&& admitted
            &&& !fault_forced(before.config)
            &&& exists|len: usize|
                {
                    &&& len > 0
                    &&& admits_optional(before.config.response_length, len)
                    &&& tokens_of(prompt) <= encode_utf8(prompt).len()
                    &&& tokens_of(filler_text(len as nat)) <= len
                    &&& !before.tokens.refreshed(now).fits(
                        sat_add_u32(tokens_of(prompt), tokens_of(#[trigger] filler_text(len as nat)))
                            as u64,
                    )
                }
            &&& after.requests == counted.refreshed(now)
            &&& after.tokens == before.tokens.refreshed(now)
            &&& headers_report(headers, after, now)
        },
        Outcome::Ready { content, usage, headers } => {
            &&& admitted
            &&& !fault_forced(before.config)
            &&& content@.len() > 0
            &&& admits_optional(before.config.response_length, content@.len() as usize)
            &&& content@ == filler_text(content@.len())
            &&& is_ascii_chars(content@)
            &&& usage.prompt_tokens == tokens_of(prompt)
            &&& usage.completion_tokens == tokens_of(content@)
            &&& usage.total_tokens == sat_add_u32(usage.prompt_tokens, usage.completion_tokens)
            &&& before.tokens.refreshed(now).fits(usage.total_tokens as u64)
            &&& after.requests == counted.refreshed(now)
            &&& after.tokens == before.tokens.counted(now, usage.total_tokens as u64).refreshed(now)
            &&& headers_report(headers, after, now)
        },
    }
}

impl ServerState {
    pub open spec fn wf(&self) -> bool {
        &&& self.config.wf()
        &&& self.requests.wf()
        &&& self.tokens.wf()
        &&& self.requests.limit == self.config.rpm
        &&& self.tokens.limit == self.config.tpm
    }

    /// A fresh state: no request or token counted yet.
    pub fn new(config: Config) -> (r: ServerState)
        requires
            config.wf(),
        ensures
            r.wf(),
            r.config == config,
            r.requests == QuotaWindow::new_spec(config.rpm as u64, config.request_window_ms),
            r.tokens == QuotaWindow::new_spec(config.tpm as u64, config.token_window_ms),
    {
        ServerState {
            config,
            requests: QuotaWindow::new(config.rpm as u64, config.request_window_ms),
            tokens: QuotaWindow::new(config.tpm as u64, config.token_window_ms),
        }
    }

    /// Decides whether this request fails with a simulated fault: a draw in
    /// `[0, 100)` against the configured rate, when both a code and a rate
    /// are configured.
    pub fn should_return_error(&self) -> (r: Option<u16>)
        ensures
            exists|draw: u32| draw < 100 && r == fault_for(self.config.error_code, self.config.error_rate, draw),
            (self.config.error_code matches Some(c) && self.config.error_rate matches Some(p) && p
                >= 100) ==> r == self.config.error_code,
            (self.config.error_rate matches Some(p) && p == 0) ==> r is None,
            (self.config.error_code is None || self.config.error_rate is None) ==> r is None,
            r is Some ==> r == self.config.error_code && (self.config.error_rate matches Some(p) && p
                > 0),
    {
        match (self.config.error_code, self.config.error_rate) {
            (Some(code), Some(rate)) => {
                let draw = random_in(0, 99) as u32;
                let r = if draw < rate {
                    Some(code)
                } else {
                    None
                };
                assert(r == fault_for(self.config.error_code, self.config.error_rate, draw));
                r
            },
            _ => {
                assert(fault_for(self.config.error_code, self.config.error_rate, 0) is None);
                None
            },
        }
    }

    /// Resolves the configured response length for one request.
    pub fn get_response_length(&self) -> (r: usize)
        requires
            self.wf(),
        ensures
            admits_optional(self.config.response_length, r),
    {
        resolve_optional(self.config.response_length)
    }

    /// Resolves the configured artificial delay, in milliseconds, for one
    /// request.
    pub fn get_slowdown_ms(&self) -> (r: usize)
        requires
            self.wf(),
        ensures
            admits_optional(self.config.slowdown, r),
    {
        resolve_optional(self.config.slowdown)
    }

    /// Filler text of exactly `length` bytes.
    pub fn generate_lorem_content(&self, length: usize) -> (r: String)
        ensures
            r@ == filler_text(length as nat),
            r@.len() == length,
            is_ascii_chars(r@),
    {
        generate_filler(length)
    }

    /// The cl100k_base token count of `text`.
    pub fn count_tokens(&self, text: &str) -> (r: Result<u32, TokenizeError>)
        ensures
            r == token_count_result(text@),
            r matches Ok(n) ==> n <= encode_utf8(text@).len() && (text@.len() == 0 ==> n == 0),
            r is Ok || text@.len() > 0,
    {
        count_tokens(text)
    }

    /// Brings both windows up to `now` and reports them.
    pub fn rate_limit_headers_at(&mut self, now: u64) -> (r: RateLimitHeaders)
        requires
            old(self).wf(),
        ensures
            final(self).wf(),
            final(self).config == old(self).config,
            final(self).requests == old(self).requests.refreshed(now),
            final(self).tokens == old(self).tokens.refreshed(now),
            headers_report(r, *final(self), now),
            final(self).requests.reset_in_spec(now) <= final(self).requests.window_ms / 1000,
            final(self).tokens.reset_in_spec(now) <= final(self).tokens.window_ms / 1000,
    {
        proof {
            self.requests.lemma_reset_within_window(now);
            self.tokens.lemma_reset_within_window(now);
        }
        self.requests.refresh(now);
        self.tokens.refresh(now);
        RateLimitHeaders {
            limit_requests: self.requests.limit,
            remaining_requests: self.requests.remaining(),
            reset_requests: format_reset(self.requests.reset_in_secs(now)),
            limit_tokens: self.tokens.limit,
            remaining_tokens: self.tokens.remaining(),
            reset_tokens: format_reset(self.tokens.reset_in_secs(now)),
        }
    }

    /// Reports both windows as they stand now.
    pub fn get_rate_limit_headers(&mut self) -> (r: RateLimitHeaders)
        requires
            old(self).wf(),
        ensures
            final(self).wf(),
            final(self).config == old(self).config,
            exists|now: u64|
                {
                    &&& final(self).requests == old(self).requests.refreshed(now)
                    &&& final(self).tokens == old(self).tokens.refreshed(now)
                    &&& headers_report(r, *final(self), now)
                    &&& final(self).requests.reset_in_spec(now) <= final(self).requests.window_ms / 1000
                    &&& final(self).tokens.reset_in_spec(now) <= final(self).tokens.window_ms / 1000
                },
    {
        let now = unix_now_ms();
        self.rate_limit_headers_at(now)
    }

    /// Counts one request against the request quota, where it fits.
    pub fn increment_request_count(&mut self)
        requires
            old(self).wf(),
        ensures
            final(self).wf(),
            final(self).config == old(self).config,
            final(self).tokens == old(self).tokens,
            exists|now: u64| final(self).requests == old(self).requests.counted(now, 1),
    {
        let now = unix_now_ms();
        let _ = self.requests.check_and_count(now, 1);
    }

    /// Counts `tokens` against the token quota, where they fit.
    pub fn add_token_usage(&mut self, tokens: u32)
        requires
            old(self).wf(),
        ensures
            final(self).wf(),
            final(self).config == old(self).config,
            final(self).requests == old(self).requests,
            exists|now: u64| final(self).tokens == #[trigger] old(self).tokens.counted(now, tokens as u64),
    {
        let now = unix_now_ms();
        let _ = self.tokens.check_and_count(now, tokens as u64);
    }

    /// The request-quota steps of the pipeline at `now`: refuses the request
    /// where one more does not fit, else counts it. A refusal carries the
    /// headers as they then stand.
    pub fn admit_request_at(&mut self, now: u64) -> (r: Option<Outcome>)
        requires
            old(self).wf(),
        ensures
            final(self).wf(),
            final(self).config == old(self).config,
            final(self).requests == old(self).requests.counted(now, 1),
            final(self).tokens == old(self).tokens.refreshed(now),
            old(self).requests.refreshed(now).fits(1) <==> r is None,
            r matches Some(o) ==> o matches Outcome::RateLimited { axis, headers } && axis
                == QuotaAxis::Requests && headers_report(headers, *final(self), now),
    {
        let d = self.requests.check_and_count(now, 1);
        if !d.allowed {
            let headers = self.rate_limit_headers_at(now);
            Some(Outcome::RateLimited { axis: QuotaAxis::Requests, headers })
        } else {
            self.tokens.refresh(now);
            None
        }
    }

    /// The token-quota steps of the pipeline at `now`: refuses the request
    /// where its total does not fit (counting nothing), else counts the total
    /// and returns the usage.
    pub fn charge_tokens_at(&mut self, now: u64, prompt_tokens: u32, completion_tokens: u32) -> (r:
        Result<Usage, Outcome>)
        requires
            old(self).wf(),
        ensures
            final(self).wf(),
            final(self).config == old(self).config,
            final(self).requests == old(self).requests.refreshed(now),
            final(self).tokens == old(self).tokens.counted(
                now,
                sat_add_u32(prompt_tokens, completion_tokens) as u64,
            ),
            old(self).tokens.refreshed(now).fits(sat_add_u32(prompt_tokens, completion_tokens) as u64)
                <==> r is Ok,
            r matches Ok(u) ==> u == (Usage {
                prompt_tokens,
                completion_tokens,
                total_tokens: sat_add_u32(prompt_tokens, completion_tokens),
            }),
            r matches Err(o) ==> o matches Outcome::RateLimited { axis, headers } && axis
                == QuotaAxis::Tokens && headers_report(headers, *final(self), now),
    {
        let usage = Usage::new(prompt_tokens, completion_tokens);
        self.requests.refresh(now);
        let d = self.tokens.check_and_count(now, usage.total_tokens as u64);
        if d.allowed {
            Ok(usage)
        } else {
            let headers = self.rate_limit_headers_at(now);
            Err(Outcome::RateLimited { axis: QuotaAxis::Tokens, headers })
        }
    }

    /// Runs the whole pipeline for one request whose prompt text is
    /// `prompt`: request quota, fault injection, length, content, token
    /// quota. What the clock, the draws and the tokenizer give decides among
    /// the outcomes that `handled` allows.
    pub fn handle_request(&mut self, prompt: &str) -> (r: Outcome)
        requires
            old(self).wf(),
        ensures
            final(self).wf(),
            final(self).config == old(self).config,
            exists|now: u64| #[trigger] handled(*old(self), *final(self), prompt@, r, now),
            fault_forced(old(self).config) ==> (r is Fault || r matches Outcome::RateLimited {
                axis: QuotaAxis::Requests,
                ..
            }),
            old(self).config.error_code is None ==> !(r is Fault),
    {
        let ghost before = *self;
        let now = unix_now_ms();
        match self.admit_request_at(now) {
            Some(o) => {
                assert(handled(before, *self, prompt@, o, now));
                return o;
            },
            None => {},
        }
        match self.should_return_error() {
            Some(code) => {
                let headers = self.rate_limit_headers_at(now);
                let o = Outcome::Fault { status: fault_status(code), code, headers };
                assert(handled(before, *self, prompt@, o, now));
                return o;
            },
            None => {},
        }
        let length = self.get_response_length();
        if length == 0 {
            let headers = self.rate_limit_headers_at(now);
            let o = Outcome::NoContent { headers };
            assert(handled(before, *self, prompt@, o, now));
            return o;
        }
        let content = self.generate_lorem_content(length);
        let prompt_tokens = tokens_or_zero(count_tokens(prompt));
        let completion_tokens = tokens_or_zero(count_tokens(content.as_str()));
        proof {
            is_ascii_chars_encode_utf8(content@);
        }
        match self.charge_tokens_at(now, prompt_tokens, completion_tokens) {
            Err(o) => {
                assert(handled(before, *self, prompt@, o, now));
                o
            },
            Ok(usage) => {
                let headers = self.rate_limit_headers_at(now);
                let o = Outcome::Ready { content, usage, headers };
                assert(handled(before, *self, prompt@, o, now));
                o
            },
        }
    }
}

} // verus!
