//! The remote session model: endpoint addressing, the order in which
//! credentials are tried, and bounded connection retry with
//! exponential backoff.
//!
//! Opening the actual transport is outside work; the retry machine
//! here decides, step by step, whether to attempt, how long to wait,
//! and when to give up, and its contracts account for every attempt
//! and every second of scheduled waiting.

use vstd::arithmetic::power2::{
    lemma2_to64, lemma2_to64_rest, lemma_pow2_adds, lemma_pow2_pos, lemma_pow2_strictly_increases,
    pow2,
};
use vstd::prelude::*;
use vstd::string::*;

use crate::strutil::dec_rep;
use crate::strutil::u64_to_dec;

verus! {

/// Connection settings for one remote endpoint.
#[derive(Debug, Clone)]
pub struct SshConfig {
    pub host: String,
    pub port: u16,
    pub username: String,
    /// Path to the private key file, when key authentication is configured.
    pub key_path: Option<String>,
    /// Password, when password authentication is configured.
    pub password: Option<String>,
}

/// One way of authenticating a session.
#[derive(Debug, Clone, Copy, PartialEq, Eq, Structural)]
pub enum AuthMethod {
    KeyFile,
    Password,
}

/// The order in which credentials are tried: the key file first, when
/// one is configured and its file exists, then the password, when one
/// is configured.
pub open spec fn auth_plan_spec(key_configured: bool, key_file_exists: bool, password_configured: bool) -> Seq<AuthMethod> {
    let with_key: Seq<AuthMethod> = if key_configured && key_file_exists {
        seq![AuthMethod::KeyFile]
    } else {
        seq![]
    };
    if password_configured {
        with_key + seq![AuthMethod::Password]
    } else {
        with_key
    }
}

impl SshConfig {
    /// Whether at least one credential form is configured.
    pub fn has_credentials(&self) -> (r: bool)
        ensures
            r == (self.key_path is Some || self.password is Some),
    {
        self.key_path.is_some() || self.password.is_some()
    }

    /// The `host:port` address of the endpoint.
    pub fn address(&self) -> (r: String)
        ensures
            r@ == self.host@ + ":"@ + dec_rep(self.port as int),
    {
        self.host.clone().concat(":").concat(u64_to_dec(self.port as u64).as_str())
    }

    /// The authentication methods to try, in order. The caller reports
    /// whether the configured key file exists on disk.
    pub fn auth_methods(&self, key_file_exists: bool) -> (r: Vec<AuthMethod>)
        ensures
            r@ == auth_plan_spec(self.key_path is Some, key_file_exists, self.password is Some),
    {
        let mut out: Vec<AuthMethod> = Vec::new();
        if self.key_path.is_some() && key_file_exists {
            out.push(AuthMethod::KeyFile);
        }
        if self.password.is_some() {
            out.push(AuthMethod::Password);
        }
        proof {
            assert(out@ =~= auth_plan_spec(self.key_path is Some, key_file_exists, self.password is Some));
        }
        out
    }
}

/// The seconds waited after the `attempt`-th failed attempt:
/// `2^(attempt-1)`.
pub fn backoff_delay_secs(attempt: u32) -> (r: u64)
    requires
        1 <= attempt <= 63,
    ensures
        r as nat == pow2((attempt - 1) as nat),
{
    let mut r: u64 = 1;
    let mut i: u32 = 1;
    proof {
        lemma2_to64();
    }
    while i < attempt
        invariant
            1 <= i <= attempt <= 63,
            r as nat == pow2((i - 1) as nat),
        decreases attempt - i,
    {
        proof {
            lemma2_to64();
            lemma2_to64_rest();
            if ((i - 1) as nat) < 62 {
                lemma_pow2_strictly_increases((i - 1) as nat, 62);
            }
            lemma_pow2_adds((i - 1) as nat, 1);
        }
        r = r * 2;
        i = i + 1;
    }
    r
}

/// The total seconds of backoff scheduled over `n` attempts when every
/// attempt fails: a wait of `2^(i-1)` after each attempt `i` but the
/// last.
pub open spec fn total_backoff_secs(n: nat) -> nat
    decreases n,
{
    if n <= 1 {
        0
    } else {
        total_backoff_secs((n - 1) as nat) + pow2((n - 2) as nat)
    }
}

/// With `n` attempts against an unreachable host, the total scheduled
/// wait is `2^(n-1) - 1` seconds.
pub proof fn lemma_total_backoff(n: nat)
    requires
        n >= 1,
    ensures
        total_backoff_secs(n) == pow2((n - 1) as nat) - 1,
    decreases n,
{
    if n == 1 {
        assert(pow2(0) == 1) by {
            lemma2_to64();
        }
    } else {
        lemma_total_backoff((n - 1) as nat);
        lemma_pow2_adds((n - 2) as nat, 1);
        assert(pow2(1) == 2) by {
            lemma2_to64();
        }
    }
}

/// What the connection loop should do next.
#[derive(Debug, Clone, Copy, PartialEq, Eq, Structural)]
pub enum ConnectStep {
    /// Open the transport and authenticate; this is the given attempt,
    /// counted from one.
    Attempt(u32),
    /// Sleep for the given number of seconds before the next attempt.
    Wait(u64),
    /// Every attempt failed; surface a connection error.
    GiveUp,
}

/// Where the retry loop stands.
#[derive(Debug, Clone, Copy, PartialEq, Eq, Structural)]
pub enum RetryPhase {
    /// An attempt may be made.
    Ready,
    /// The last attempt failed and the backoff wait is pending.
    Backoff,
    /// The attempt budget is spent.
    Exhausted,
}

/// Bounded connection retry with exponential backoff.
///
/// The machine never schedules more than `max_attempts` attempts, and
/// its ghost tally accounts for every second of scheduled waiting.
pub struct RetryState {
    pub max_attempts: u32,
    pub attempts_made: u32,
    pub phase: RetryPhase,
    /// Total seconds of backoff scheduled so far.
    pub total_wait: Ghost<nat>,
}

impl RetryState {
    /// The machine's invariant, tying the wait tally to the attempt count.
    pub open spec fn wf(&self) -> bool {
        1 <= self.max_attempts <= 63 && match self.phase {
            RetryPhase::Ready => self.attempts_made < self.max_attempts
                && self.total_wait@ == total_backoff_secs((self.attempts_made + 1) as nat),
            RetryPhase::Backoff => 1 <= self.attempts_made < self.max_attempts
                && self.total_wait@ == total_backoff_secs(self.attempts_made as nat),
            RetryPhase::Exhausted => self.attempts_made == self.max_attempts
                && self.total_wait@ == total_backoff_secs(self.attempts_made as nat),
        }
    }

    /// A fresh retry budget of `max_attempts` attempts.
    pub fn new(max_attempts: u32) -> (r: RetryState)
        requires
            1 <= max_attempts <= 63,
        ensures
            r.wf(),
            r.max_attempts == max_attempts,
            r.attempts_made == 0,
            r.phase is Ready,
            r.total_wait@ == 0,
    {
        RetryState {
            max_attempts,
            attempts_made: 0,
            phase: RetryPhase::Ready,
            total_wait: Ghost(0),
        }
    }

    /// What the loop should do now.
    pub fn next_step(&self) -> (s: ConnectStep)
        requires
            self.wf(),
        ensures
            self.phase is Ready ==> s == ConnectStep::Attempt((self.attempts_made + 1) as u32),
            self.phase is Backoff ==> (s matches ConnectStep::Wait(d)
                && d as nat == pow2((self.attempts_made - 1) as nat)),
            self.phase is Exhausted ==> s == ConnectStep::GiveUp,
    {
        match self.phase {
            RetryPhase::Ready => ConnectStep::Attempt(self.attempts_made + 1),
            RetryPhase::Backoff => ConnectStep::Wait(backoff_delay_secs(self.attempts_made)),
            RetryPhase::Exhausted => ConnectStep::GiveUp,
        }
    }

    /// Record that the current attempt failed. When the budget is now
    /// spent, the machine gives up having made exactly `max_attempts`
    /// attempts with `total_backoff_secs(max_attempts)` seconds of
    /// scheduled waiting; otherwise a backoff wait is pending.
    pub fn on_failure(&mut self)
        requires
            old(self).wf(),
            old(self).phase is Ready,
        ensures
            final(self).wf(),
            final(self).max_attempts == old(self).max_attempts,
            final(self).attempts_made == old(self).attempts_made + 1,
            final(self).total_wait == old(self).total_wait,
            final(self).attempts_made == final(self).max_attempts ==> final(self).phase is Exhausted
                && final(self).total_wait@ == total_backoff_secs(final(self).max_attempts as nat),
            final(self).attempts_made < final(self).max_attempts ==> final(self).phase is Backoff,
    {
        self.attempts_made = self.attempts_made + 1;
        if self.attempts_made == self.max_attempts {
            self.phase = RetryPhase::Exhausted;
        } else {
            self.phase = RetryPhase::Backoff;
        }
    }

    /// Record that the backoff wait has elapsed; the next attempt may
    /// be made, and the wait joins the tally.
    pub fn on_waited(&mut self)
        requires
            old(self).wf(),
            old(self).phase is Backoff,
        ensures
            final(self).wf(),
            final(self).max_attempts == old(self).max_attempts,
            final(self).attempts_made == old(self).attempts_made,
            final(self).phase is Ready,
            final(self).total_wait@ == old(self).total_wait@ + pow2((old(self).attempts_made - 1) as nat),
    {
        proof {
            lemma_pow2_pos((self.attempts_made - 1) as nat);
        }
        self.phase = RetryPhase::Ready;
        self.total_wait = Ghost(self.total_wait@ + pow2((self.attempts_made - 1) as nat));
    }
}

} // verus!
