//! The circuit breaker of the websocket transport: after a failure the websocket is not tried for
//! a while, and for longer after each further one.

use vstd::arithmetic::power2::*;
use vstd::prelude::*;

verus! {

/// How long the circuit stays open the first time, in nanoseconds.
pub const BASE_COOLDOWN: u64 = 30_000_000_000;

/// The longest that it stays open.
pub const MAX_COOLDOWN: u64 = 300_000_000_000;

/// A circuit breaker. Instants are nanoseconds of a clock that never goes back.
#[derive(Debug)]
pub struct WebsocketCircuitBreaker {
    consecutive_openings: u32,
    open_until: Option<u64>,
}

/// What opening the circuit came to.
#[derive(Clone, Copy, Debug, PartialEq, Eq, Structural)]
pub struct CircuitOpenResult {
    pub newly_opened: bool,
    pub cooldown: u64,
}

/// How long the circuit stays open at its so-manieth opening in a row: twice as long each time, up
/// to a limit.
pub open spec fn cooldown_of(openings: nat) -> nat {
    let doublings = if openings == 0 {
        0
    } else if openings - 1 < 4 {
        (openings - 1) as nat
    } else {
        4
    };
    if BASE_COOLDOWN * pow2(doublings) <= MAX_COOLDOWN {
        (BASE_COOLDOWN * pow2(doublings)) as nat
    } else {
        MAX_COOLDOWN as nat
    }
}

/// The sum of an instant and a delay, or the last instant.
pub open spec fn instant_after(now: u64, delay: nat) -> u64 {
    if now + delay <= u64::MAX {
        (now + delay) as u64
    } else {
        u64::MAX
    }
}

/// What opening a circuit with so many openings and this deadline makes of them, and what it comes
/// to.
pub open spec fn circuit_opened(openings: u32, deadline: Option<u64>, now: u64) -> (
    u32,
    Option<u64>,
    CircuitOpenResult,
) {
    if deadline is Some && now < deadline->0 {
        (
            openings,
            deadline,
            CircuitOpenResult { newly_opened: false, cooldown: (deadline->0 - now) as u64 },
        )
    } else {
        let more = if openings < u32::MAX {
            (openings + 1) as u32
        } else {
            u32::MAX
        };
        let cooldown = cooldown_of(more as nat);
        (
            more,
            Some(instant_after(now, cooldown)),
            CircuitOpenResult { newly_opened: true, cooldown: cooldown as u64 },
        )
    }
}

impl WebsocketCircuitBreaker {
    /// How often the circuit was opened since the last success.
    pub closed spec fn openings(&self) -> u32 {
        self.consecutive_openings
    }

    /// Until when the circuit is open.
    pub closed spec fn deadline(&self) -> Option<u64> {
        self.open_until
    }

    /// The circuit is open at a time.
    pub open spec fn is_open(&self, now: u64) -> bool {
        self.deadline() is Some && now < self.deadline()->0
    }

    /// A closed circuit.
    pub fn new() -> (circuit: WebsocketCircuitBreaker)
        ensures
            circuit.openings() == 0,
            circuit.deadline() is None,
    {
        WebsocketCircuitBreaker { consecutive_openings: 0, open_until: None }
    }

    /// Tells whether the websocket may be tried.
    pub fn allows_attempt(&self, now: u64) -> (allowed: bool)
        ensures
            allowed == !self.is_open(now),
    {
        match self.open_until {
            Some(open_until) => now >= open_until,
            None => true,
        }
    }

    /// Opens the circuit. One that is open stays as it is.
    pub fn open(&mut self, now: u64) -> (result: CircuitOpenResult)
        ensures
            (final(self).openings(), final(self).deadline(), result) == circuit_opened(
                old(self).openings(),
                old(self).deadline(),
                now,
            ),
            old(self).is_open(now) ==> {
                &&& final(self).openings() == old(self).openings()
                &&& final(self).deadline() == old(self).deadline()
                &&& result == (CircuitOpenResult {
                    newly_opened: false,
                    cooldown: (old(self).deadline()->0 - now) as u64,
                })
            },
            !old(self).is_open(now) ==> {
                let openings = if old(self).openings() < u32::MAX {
                    old(self).openings() + 1
                } else {
                    u32::MAX as int
                };
                let cooldown = cooldown_of(openings as nat);
                &&& final(self).openings() == openings
                &&& final(self).deadline() == Some(instant_after(now, cooldown))
                &&& result == (CircuitOpenResult {
                    newly_opened: true,
                    cooldown: cooldown as u64,
                })
            },
    {
        if let Some(open_until) = self.open_until {
            if now < open_until {
                return CircuitOpenResult { newly_opened: false, cooldown: open_until - now };
            }
        }
        self.consecutive_openings = self.consecutive_openings.saturating_add(1);
        let cooldown = cooldown_after(self.consecutive_openings);
        self.open_until = Some(now.saturating_add(cooldown));
        CircuitOpenResult { newly_opened: true, cooldown }
    }

    /// Closes the circuit after a success.
    pub fn record_success(&mut self)
        ensures
            final(self).openings() == 0,
            final(self).deadline() is None,
    {
        self.consecutive_openings = 0;
        self.open_until = None;
    }
}

fn cooldown_after(openings: u32) -> (cooldown: u64)
    ensures
        cooldown == cooldown_of(openings as nat),
{
    proof {
        lemma2_to64();
    }
    if openings <= 1 {
        BASE_COOLDOWN
    } else if openings == 2 {
        2 * BASE_COOLDOWN
    } else if openings == 3 {
        4 * BASE_COOLDOWN
    } else if openings == 4 {
        8 * BASE_COOLDOWN
    } else {
        MAX_COOLDOWN
    }
}

/// Each further opening keeps the circuit open at least as long, never longer than the limit, and
/// the first one for the base time.
pub proof fn law_cooldown_grows_to_its_limit(openings: nat)
    requires
        openings >= 1,
    ensures
        cooldown_of(1) == BASE_COOLDOWN,
        cooldown_of(openings) <= cooldown_of(openings + 1) <= MAX_COOLDOWN,
        openings <= 3 ==> cooldown_of(openings + 1) == 2 * cooldown_of(openings),
        openings >= 5 ==> cooldown_of(openings) == MAX_COOLDOWN,
{
    lemma2_to64();
}

/// A circuit that is opened is open until its cooldown is over, and then no longer.
pub proof fn law_circuit_recovers_after_its_cooldown(
    circuit: WebsocketCircuitBreaker,
    now: u64,
    cooldown: nat,
    later: u64,
)
    requires
        circuit.deadline() == Some(instant_after(now, cooldown)),
        now + cooldown <= u64::MAX,
    ensures
        circuit.is_open(later) <==> later < now + cooldown,
{
}

} // verus!
