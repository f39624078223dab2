use vstd::prelude::*;

verus! {

/// Relies on `rand::random`: a value drawn from the thread's generator; nothing is
/// known of it.
pub assume_specification<T>[ rand::random::<T> ]() -> (r: T)
    where
        rand::distributions::Standard: rand::distributions::Distribution<T>,
;

/// Longest base delay, in seconds.
pub const MAX_BASE_SECS: u64 = 60;

/// Attempts past this one wait as long as it does.
pub const MAX_ATTEMPT: u32 = 6;

/// `2^attempt` seconds, at most 60.
pub open spec fn base_secs(attempt: nat) -> nat
    decreases attempt,
{
    if attempt == 0 {
        1
    } else {
        let b = 2 * base_secs((attempt - 1) as nat);
        if b >= 60 {
            60
        } else {
            b
        }
    }
}

/// The delay in milliseconds for `attempt` and a random `draw`: the base, plus a
/// jitter of `draw` reduced below half the base.
pub open spec fn delay_ms(attempt: nat, draw: nat) -> nat {
    base_secs(attempt) * 1000 + draw % (base_secs(attempt) * 500)
}

proof fn lemma_base_range(attempt: nat)
    ensures
        1 <= base_secs(attempt) <= 60,
    decreases attempt,
{
    if attempt > 0 {
        lemma_base_range((attempt - 1) as nat);
    }
}

proof fn lemma_base_saturates(i: nat, k: nat)
    requires
        i <= k,
        base_secs(i) == 60,
    ensures
        base_secs(k) == 60,
    decreases k - i,
{
    if i < k {
        assert(base_secs(i + 1) == 60);
        lemma_base_saturates(i + 1, k);
    }
}

/// The base delay of `attempt`, in seconds.
pub fn backoff_base_secs(attempt: u32) -> (r: u64)
    ensures
        r == base_secs(attempt as nat),
        1 <= r <= 60,
{
    let mut b: u64 = 1;
    let mut i: u32 = 0;
    while i < attempt && b < MAX_BASE_SECS
        invariant
            i <= attempt,
            b == base_secs(i as nat),
            1 <= b <= 60,
        decreases attempt - i,
    {
        b = if 2 * b >= MAX_BASE_SECS {
            MAX_BASE_SECS
        } else {
            2 * b
        };
        i += 1;
    }
    proof {
        lemma_base_range(attempt as nat);
        if i < attempt {
            lemma_base_saturates(i as nat, attempt as nat);
        }
    }
    b
}

/// The delay of `attempt` for the random `draw`, in milliseconds.
pub fn delay_with_draw(attempt: u32, draw: u64) -> (r: u64)
    ensures
        r == delay_ms(attempt as nat, draw as nat),
{
    let base = backoff_base_secs(attempt);
    base * 1000 + draw % (base * 500)
}

/// The delay before reconnecting after `attempt`, in milliseconds: the base
/// `min(60, 2^attempt)` seconds plus a random jitter below half of it.
pub fn backoff_delay(attempt: u32) -> (r: u64)
    ensures
        base_secs(attempt as nat) * 1000 <= r < base_secs(attempt as nat) * 1500,
{
    let draw: u64 = rand::random::<u64>();
    proof {
        lemma_base_range(attempt as nat);
    }
    delay_with_draw(attempt, draw)
}

/// The reconnect schedule of the supervisor.
#[derive(Debug, Clone, PartialEq, Eq)]
pub struct Reconnect {
    pub attempt: u32,
}

/// The attempt used for the delay after a session: 0 after a clean end.
pub open spec fn delay_attempt(attempt: nat, clean: bool) -> nat {
    if clean {
        0
    } else {
        attempt
    }
}

impl Reconnect {
    pub fn new() -> (r: Self)
        ensures
            r.attempt == 0,
    {
        Reconnect { attempt: 0 }
    }

    /// After a session ended (cleanly or not) and a random `draw`: the delay in
    /// milliseconds before the next attempt. A clean end resets the count; the
    /// count then advances, saturating at 6.
    pub fn delay_after_with_draw(&mut self, clean: bool, draw: u64) -> (r: u64)
        ensures
            r == delay_ms(delay_attempt(old(self).attempt as nat, clean), draw as nat),
            final(self).attempt == if delay_attempt(old(self).attempt as nat, clean) + 1
                >= MAX_ATTEMPT {
                MAX_ATTEMPT as nat
            } else {
                delay_attempt(old(self).attempt as nat, clean) + 1
            },
    {
        if clean {
            self.attempt = 0;
        }
        let d = delay_with_draw(self.attempt, draw);
        self.attempt = if self.attempt >= MAX_ATTEMPT - 1 {
            MAX_ATTEMPT
        } else {
            self.attempt + 1
        };
        d
    }

    /// After a session ended: the delay before the next attempt, with a fresh
    /// random jitter.
    pub fn delay_after(&mut self, clean: bool) -> (r: u64)
        ensures
            exists|draw: u64| r == delay_ms(delay_attempt(old(self).attempt as nat, clean), draw as nat),
            final(self).attempt == if delay_attempt(old(self).attempt as nat, clean) + 1
                >= MAX_ATTEMPT {
                MAX_ATTEMPT as nat
            } else {
                delay_attempt(old(self).attempt as nat, clean) + 1
            },
    {
        let draw: u64 = rand::random::<u64>();
        self.delay_after_with_draw(clean, draw)
    }
}

} // verus!
