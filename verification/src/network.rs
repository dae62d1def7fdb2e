//! How outgoing requests and simulated typing are paced and disguised:
//! random delays, the user agent, the proxy.
use vstd::prelude::*;
use rand::Rng;

verus! {

/// `rand::thread_rng().gen_range(low..high)`: a value drawn at random from
/// the half-open range; which one is left to chance.
#[verifier::external_body]
fn random_between(low: u64, high: u64) -> (r: u64)
    requires
        low < high,
    ensures
        low <= r < high,
{
    rand::thread_rng().gen_range(low..high)
}

/// The range, low inclusive and high exclusive, in milliseconds, that the
/// pause after a character is drawn from: 100 to 399 after a space or a
/// line break, 40 to 159 after any other character.
pub open spec fn keystroke_range(ch: char) -> (u64, u64) {
    if ch == ' ' || ch == '\n' {
        (100, 400)
    } else {
        (40, 160)
    }
}

pub fn keystroke_delay_bounds(ch: char) -> (r: (u64, u64))
    ensures
        r == keystroke_range(ch),
{
    if ch == ' ' || ch == '\n' {
        (100, 400)
    } else {
        (40, 160)
    }
}

/// The pause before the next simulated keystroke, in milliseconds, drawn
/// at random from `keystroke_range`.
pub fn keystroke_delay_ms(ch: char) -> (r: u64)
    ensures
        keystroke_range(ch).0 <= r < keystroke_range(ch).1,
{
    let (low, high) = keystroke_delay_bounds(ch);
    random_between(low, high)
}

/// The shortest delay before a request, in milliseconds.
pub const JITTER_MIN_MS: u64 = 50;

/// One past the longest delay before a request, in milliseconds.
pub const JITTER_MAX_MS: u64 = 500;

/// The random delay before a request, in milliseconds, drawn from
/// `JITTER_MIN_MS` up to but not including `JITTER_MAX_MS`.
pub fn jitter_delay_ms() -> (r: u64)
    ensures
        JITTER_MIN_MS <= r < JITTER_MAX_MS,
{
    random_between(JITTER_MIN_MS, JITTER_MAX_MS)
}

/// User agents that requests may present.
pub open spec fn stealth_user_agents() -> Seq<&'static str> {
    seq![
        "Mozilla/5.0 (Macintosh; Intel Mac OS X 14_5) AppleWebKit/605.1.15 (KHTML, like Gecko) Version/17.4 Safari/605.1.15",
        "Mozilla/5.0 (Macintosh; Intel Mac OS X 10_15_7) AppleWebKit/605.1.15 (KHTML, like Gecko) Version/17.3.1 Safari/605.1.15",
        "com.apple.trustd/3.0",
    ]
}

/// The user agent requests present: the first of the list.
pub fn stealth_user_agent() -> (r: &'static str)
    ensures
        r == stealth_user_agents()[0],
{
    let agents = vec![
        "Mozilla/5.0 (Macintosh; Intel Mac OS X 14_5) AppleWebKit/605.1.15 (KHTML, like Gecko) Version/17.4 Safari/605.1.15",
        "Mozilla/5.0 (Macintosh; Intel Mac OS X 10_15_7) AppleWebKit/605.1.15 (KHTML, like Gecko) Version/17.3.1 Safari/605.1.15",
        "com.apple.trustd/3.0",
    ];
    agents[0]
}

/// Whole-request timeout, in seconds.
pub const REQUEST_TIMEOUT_SECS: u64 = 30;

/// Connection timeout, in seconds.
pub const CONNECT_TIMEOUT_SECS: u64 = 10;

/// The proxy to route through: a given, non-empty URL.
pub fn proxy_to_use(proxy_url: Option<&str>) -> (r: Option<&str>)
    ensures
        match proxy_url {
            Some(p) => if p@.len() > 0 {
                r == Some(p)
            } else {
                r is None
            },
            None => r is None,
        },
{
    match proxy_url {
        Some(p) => if p.is_empty() {
            None
        } else {
            Some(p)
        },
        None => None,
    }
}

} // verus!
