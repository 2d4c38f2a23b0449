//! Pulling broadcasts from an upstream relay: the address to connect to and
//! the reconnection back-off. The connection itself is made by the caller.

use vstd::prelude::*;

use vstd::arithmetic::power2::{lemma_pow2_unfold, pow2};

use crate::outside::{url_append_query_pair, url_parses, url_with_query_pair};

verus! {

/// Configuration for subscribing to a remote relay and republishing locally.
pub struct UpstreamConfig {
    /// The relay URL to pull all broadcasts from, as text.
    pub url: Option<String>,
    /// JWT token for authenticating with the upstream relay.
    pub token: Option<String>,
}

/// Where the upstream task connects.
pub enum UpstreamTarget {
    /// No upstream URL is configured: the task returns at once.
    Disabled,
    /// Connect to this URL.
    Connect(String),
    /// The configured URL could not be read as a URL.
    InvalidUrl,
}

/// The name of the query parameter that carries the token.
pub open spec fn jwt_key() -> Seq<char> {
    "jwt"@
}

/// The URL the upstream task connects to: the configured URL, with the token,
/// if any, appended as the query parameter `jwt`.
pub fn upstream_target(config: &UpstreamConfig) -> (t: UpstreamTarget)
    ensures
        match config.url {
            None => t is Disabled,
            Some(u) => match config.token {
                None => t matches UpstreamTarget::Connect(s) && s@ == u@,
                Some(tok) => if url_parses(u@) {
                    t matches UpstreamTarget::Connect(s) && s@ == url_with_query_pair(
                        u@,
                        jwt_key(),
                        tok@,
                    )
                } else {
                    t is InvalidUrl
                },
            },
        },
{
    match &config.url {
        None => UpstreamTarget::Disabled,
        Some(u) => match &config.token {
            None => UpstreamTarget::Connect(u.clone()),
            Some(tok) => target_from_url(url_append_query_pair(u.as_str(), "jwt", tok.as_str())),
        },
    }
}

/// The target for a URL that may have failed to parse: connect to it when
/// there is one.
pub fn target_from_url(url: Option<String>) -> (t: UpstreamTarget)
    ensures
        match url {
            Some(u) => t matches UpstreamTarget::Connect(s) && s == u,
            None => t is InvalidUrl,
        },
{
    match url {
        Some(s) => UpstreamTarget::Connect(s),
        None => UpstreamTarget::InvalidUrl,
    }
}

/// The delay before the first reconnection, in seconds.
pub const INITIAL_BACKOFF_SECS: u64 = 1;

/// The longest delay between reconnections, in seconds.
pub const MAX_BACKOFF_SECS: u64 = 300;

/// The delay after a connection attempt: back to the initial delay when the
/// connection was made (and later closed), doubled up to the maximum when it
/// failed.
pub open spec fn next_backoff(secs: nat, connected: bool) -> nat {
    if connected {
        INITIAL_BACKOFF_SECS as nat
    } else if secs * 2 <= MAX_BACKOFF_SECS {
        secs * 2
    } else {
        MAX_BACKOFF_SECS as nat
    }
}

/// The delay after the given sequence of connection outcomes, starting from
/// the initial delay.
pub open spec fn backoff_after(outcomes: Seq<bool>) -> nat
    decreases outcomes.len(),
{
    if outcomes.len() == 0 {
        INITIAL_BACKOFF_SECS as nat
    } else {
        next_backoff(backoff_after(outcomes.drop_last()), outcomes.last())
    }
}

/// The reconnection delay of the upstream task. It always lies between the
/// initial and the maximum delay.
pub struct Backoff {
    secs: u64,
}

impl View for Backoff {
    type V = nat;

    closed spec fn view(&self) -> nat {
        self.secs as nat
    }
}

impl Backoff {
    #[verifier::type_invariant]
    spec fn bounded(self) -> bool {
        INITIAL_BACKOFF_SECS <= self.secs <= MAX_BACKOFF_SECS
    }

    /// The initial delay.
    pub fn new() -> (b: Self)
        ensures
            b@ == INITIAL_BACKOFF_SECS,
    {
        Backoff { secs: INITIAL_BACKOFF_SECS }
    }

    /// The current delay in seconds, to sleep before the next attempt.
    pub fn secs(&self) -> (s: u64)
        ensures
            s == self@,
            INITIAL_BACKOFF_SECS <= s <= MAX_BACKOFF_SECS,
    {
        proof {
            use_type_invariant(self);
        }
        self.secs
    }

    /// Records the outcome of a connection attempt: `connected` when the
    /// connection was made and has since closed, `false` when it failed.
    pub fn record(&mut self, connected: bool)
        ensures
            final(self)@ == next_backoff(old(self)@, connected),
    {
        proof {
            use_type_invariant(&*self);
        }
        if connected {
            self.secs = INITIAL_BACKOFF_SECS;
        } else if self.secs <= MAX_BACKOFF_SECS / 2 {
            self.secs = self.secs * 2;
        } else {
            self.secs = MAX_BACKOFF_SECS;
        }
    }
}

/// The delay never leaves the range from the initial to the maximum delay.
pub proof fn law_backoff_bounded(outcomes: Seq<bool>)
    ensures
        INITIAL_BACKOFF_SECS <= backoff_after(outcomes) <= MAX_BACKOFF_SECS,
    decreases outcomes.len(),
{
    if outcomes.len() > 0 {
        law_backoff_bounded(outcomes.drop_last());
    }
}

/// A made connection resets the delay to the initial delay.
pub proof fn law_backoff_resets(outcomes: Seq<bool>)
    requires
        outcomes.len() > 0,
        outcomes.last(),
    ensures
        backoff_after(outcomes) == INITIAL_BACKOFF_SECS,
{
}

/// After `k` failed attempts in a row from the start, the delay is `2^k`
/// seconds, capped at the maximum.
pub proof fn law_backoff_doubles(k: nat)
    ensures
        backoff_after(Seq::new(k, |i: int| false)) == if pow2(k) <= MAX_BACKOFF_SECS {
            pow2(k)
        } else {
            MAX_BACKOFF_SECS as nat
        },
    decreases k,
{
    let fails = Seq::new(k, |i: int| false);
    if k == 0 {
        assert(pow2(0) == 1) by {
            vstd::arithmetic::power2::lemma2_to64();
        }
    } else {
        let shorter = Seq::new((k - 1) as nat, |i: int| false);
        assert(fails.drop_last() =~= shorter);
        law_backoff_doubles((k - 1) as nat);
        lemma_pow2_unfold(k);
    }
}

/// Failures never shorten the delay.
pub proof fn law_backoff_grows_on_failure(outcomes: Seq<bool>)
    ensures
        backoff_after(outcomes) <= backoff_after(outcomes.push(false)),
{
    law_backoff_bounded(outcomes);
    assert(outcomes.push(false).drop_last() =~= outcomes);
}

/// An upstream subscriber: the configuration, the client that connects and
/// the origin that receives the remote relay's broadcasts.
pub struct Upstream<C, P> {
    pub config: UpstreamConfig,
    pub client: C,
    /// Receives broadcasts from the remote relay.
    pub secondary: P,
}

impl<C, P> Upstream<C, P> {
    /// Creates a new upstream subscriber.
    pub fn new(config: UpstreamConfig, client: C, secondary: P) -> (u: Self)
        ensures
            u.config == config,
            u.client == client,
            u.secondary == secondary,
    {
        Upstream { config, client, secondary }
    }
}

} // verus!
