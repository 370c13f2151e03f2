//! Connection establisher policy: bounded retry on transient transport
//! failures, and the model-specific post-connect initialization plan.
//!
//! The policy is pure: the caller performs the actual transport attempts and
//! sleeps, and feeds each attempt's structured outcome back in.

use vstd::prelude::*;
use vstd::string::StrSliceExecFns;
use crate::mappings::Kind;

verus! {

/// Attempt budget for opening a transport session.
pub const MAX_CONNECT_ATTEMPTS: u8 = 10;

/// Delay between retried attempts, in milliseconds.
pub const RETRY_DELAY_MS: u64 = 300;

/// Brightness set right after a successful connect.
pub const INITIAL_BRIGHTNESS: u8 = 50;

/// Startup mode used when no override is present or it does not parse.
pub const DEFAULT_STARTUP_MODE: u8 = 3;

/// Structured classification of a connect-time transport failure. The
/// transport boundary reports one of the three transient conditions, or
/// anything else.
#[derive(Debug, Clone, Copy, PartialEq, Eq, Structural)]
pub enum ConnectErrorKind {
    PermissionDenied,
    ResourceBusy,
    Disconnected,
    Other,
}

/// Transient conditions are eligible for bounded retry.
pub open spec fn spec_is_retryable(k: ConnectErrorKind) -> bool {
    k is PermissionDenied || k is ResourceBusy || k is Disconnected
}

/// Tells a transient connect failure apart from a terminal one.
pub fn is_retryable(k: &ConnectErrorKind) -> (r: bool)
    ensures
        r == spec_is_retryable(*k),
{
    match k {
        ConnectErrorKind::PermissionDenied => true,
        ConnectErrorKind::ResourceBusy => true,
        ConnectErrorKind::Disconnected => true,
        ConnectErrorKind::Other => false,
    }
}

/// What to do after one connect attempt.
#[derive(Debug, Clone, Copy, PartialEq, Eq, Structural)]
pub enum ConnectDecision {
    /// The attempt succeeded: use the session.
    Accept,
    /// Transient failure with budget left: sleep, then try again.
    Retry { delay_ms: u64 },
    /// Terminal failure, or transient failure on the final attempt: abort.
    Abort,
}

/// Decides the next move after attempt number `attempt` (1-based) ended with
/// `outcome` (`None` = success). Transient failures before the final attempt
/// retry after the fixed delay; everything else ends the attempt sequence.
pub fn connect_step(attempt: u8, outcome: &Option<ConnectErrorKind>) -> (d: ConnectDecision)
    requires
        1 <= attempt <= MAX_CONNECT_ATTEMPTS,
    ensures
        outcome is None ==> d is Accept,
        (outcome matches Some(k) && spec_is_retryable(*k) && attempt < MAX_CONNECT_ATTEMPTS) ==> d
            == (ConnectDecision::Retry { delay_ms: RETRY_DELAY_MS }),
        (outcome matches Some(k) && !(spec_is_retryable(*k) && attempt < MAX_CONNECT_ATTEMPTS))
            ==> d is Abort,
{
    match outcome {
        None => ConnectDecision::Accept,
        Some(k) => {
            if is_retryable(k) && attempt < MAX_CONNECT_ATTEMPTS {
                ConnectDecision::Retry { delay_ms: RETRY_DELAY_MS }
            } else {
                ConnectDecision::Abort
            }
        },
    }
}

/// What a whole attempt sequence comes to: how many attempts were made, how
/// many inter-attempt delays were observed, and whether a session was opened.
#[derive(Debug, Clone, Copy, PartialEq, Eq, Structural)]
pub struct ConnectRun {
    pub attempts: usize,
    pub delays: usize,
    pub connected: bool,
}

/// The attempt sequence's outcome, starting at 1-based attempt `attempt`,
/// when attempt `i` (1-based) would end with `outcomes[i - 1]`:
/// (attempts made, delays observed, connected).
pub open spec fn run_from(outcomes: Seq<Option<ConnectErrorKind>>, attempt: int) -> (int, int, bool)
    recommends
        1 <= attempt <= MAX_CONNECT_ATTEMPTS,
        outcomes.len() >= MAX_CONNECT_ATTEMPTS,
    decreases MAX_CONNECT_ATTEMPTS - attempt when 1 <= attempt <= MAX_CONNECT_ATTEMPTS
{
    if 1 <= attempt <= MAX_CONNECT_ATTEMPTS {
        match outcomes[attempt - 1] {
            None => (1, 0, true),
            Some(k) => {
                if spec_is_retryable(k) && attempt < MAX_CONNECT_ATTEMPTS {
                    let rest = run_from(outcomes, attempt + 1);
                    (rest.0 + 1, rest.1 + 1, rest.2)
                } else {
                    (1, 0, false)
                }
            },
        }
    } else {
        (0, 0, false)
    }
}

fn connect_run_from(outcomes: &Vec<Option<ConnectErrorKind>>, attempt: u8) -> (r: ConnectRun)
    requires
        1 <= attempt <= MAX_CONNECT_ATTEMPTS,
        outcomes@.len() >= MAX_CONNECT_ATTEMPTS,
    ensures
        (r.attempts as int, r.delays as int, r.connected) == run_from(outcomes@, attempt as int),
        r.attempts <= MAX_CONNECT_ATTEMPTS + 1 - attempt,
        r.delays <= MAX_CONNECT_ATTEMPTS - attempt,
    decreases MAX_CONNECT_ATTEMPTS - attempt,
{
    let outcome = &outcomes[(attempt - 1) as usize];
    match connect_step(attempt, outcome) {
        ConnectDecision::Accept => ConnectRun { attempts: 1, delays: 0, connected: true },
        ConnectDecision::Abort => ConnectRun { attempts: 1, delays: 0, connected: false },
        ConnectDecision::Retry { delay_ms: _ } => {
            let rest = connect_run_from(outcomes, attempt + 1);
            ConnectRun {
                attempts: rest.attempts + 1,
                delays: rest.delays + 1,
                connected: rest.connected,
            }
        },
    }
}

/// Replays the whole retry policy against a sequence of attempt outcomes
/// (`outcomes[i]` is what attempt `i + 1` would end with; `None` = success)
/// and reports how the sequence ends. The sequence must cover the full
/// attempt budget.
pub fn connect_run(outcomes: &Vec<Option<ConnectErrorKind>>) -> (r: ConnectRun)
    requires
        outcomes@.len() >= MAX_CONNECT_ATTEMPTS,
    ensures
        (r.attempts as int, r.delays as int, r.connected) == run_from(outcomes@, 1),
{
    connect_run_from(outcomes, 1)
}

/// A run over `n` transient failures followed by a success, with `n` below
/// the attempt budget, connects, makes `n + 1` attempts, and observes
/// exactly `n` delays.
pub proof fn lemma_connect_transient_then_success(
    outcomes: Seq<Option<ConnectErrorKind>>,
    n: int,
)
    requires
        outcomes.len() >= MAX_CONNECT_ATTEMPTS,
        0 <= n < MAX_CONNECT_ATTEMPTS,
        forall|i: int|
            0 <= i < n ==> ((#[trigger] outcomes[i]) matches Some(k) && spec_is_retryable(k)),
        outcomes[n] is None,
    ensures
        run_from(outcomes, 1) == (n + 1, n, true),
{
    lemma_connect_transient_then_success_from(outcomes, n, 1);
}

proof fn lemma_connect_transient_then_success_from(
    outcomes: Seq<Option<ConnectErrorKind>>,
    n: int,
    attempt: int,
)
    requires
        outcomes.len() >= MAX_CONNECT_ATTEMPTS,
        0 <= n < MAX_CONNECT_ATTEMPTS,
        1 <= attempt <= n + 1,
        forall|i: int|
            0 <= i < n ==> ((#[trigger] outcomes[i]) matches Some(k) && spec_is_retryable(k)),
        outcomes[n] is None,
    ensures
        run_from(outcomes, attempt) == (n + 2 - attempt, n + 1 - attempt, true),
    decreases n + 1 - attempt,
{
    if attempt == n + 1 {
        assert(run_from(outcomes, attempt) == (1int, 0int, true));
    } else {
        assert(outcomes[attempt - 1] matches Some(k) && spec_is_retryable(k));
        lemma_connect_transient_then_success_from(outcomes, n, attempt + 1);
    }
}

/// A run where every attempt in the budget fails transiently ends as a
/// terminal failure after the full budget of attempts.
pub proof fn lemma_connect_budget_exhausted(outcomes: Seq<Option<ConnectErrorKind>>)
    requires
        outcomes.len() >= MAX_CONNECT_ATTEMPTS,
        forall|i: int|
            0 <= i < MAX_CONNECT_ATTEMPTS ==> ((#[trigger] outcomes[i]) matches Some(k)
                && spec_is_retryable(k)),
    ensures
        run_from(outcomes, 1) == (MAX_CONNECT_ATTEMPTS as int, MAX_CONNECT_ATTEMPTS - 1, false),
{
    lemma_connect_budget_exhausted_from(outcomes, 1);
}

proof fn lemma_connect_budget_exhausted_from(outcomes: Seq<Option<ConnectErrorKind>>, attempt: int)
    requires
        outcomes.len() >= MAX_CONNECT_ATTEMPTS,
        1 <= attempt <= MAX_CONNECT_ATTEMPTS,
        forall|i: int|
            0 <= i < MAX_CONNECT_ATTEMPTS ==> ((#[trigger] outcomes[i]) matches Some(k)
                && spec_is_retryable(k)),
    ensures
        run_from(outcomes, attempt) == (
            MAX_CONNECT_ATTEMPTS + 1 - attempt,
            MAX_CONNECT_ATTEMPTS - attempt,
            false,
        ),
    decreases MAX_CONNECT_ATTEMPTS - attempt,
{
    assert(outcomes[attempt - 1] matches Some(k) && spec_is_retryable(k));
    if attempt == MAX_CONNECT_ATTEMPTS {
    } else {
        lemma_connect_budget_exhausted_from(outcomes, attempt + 1);
    }
}

/// A terminal (non-retryable) failure on the first attempt ends the run at
/// once: one attempt, no delay, no session.
pub proof fn lemma_connect_terminal_first(outcomes: Seq<Option<ConnectErrorKind>>)
    requires
        outcomes.len() >= MAX_CONNECT_ATTEMPTS,
        outcomes[0] matches Some(k) && !spec_is_retryable(k),
    ensures
        run_from(outcomes, 1) == (1int, 0int, false),
{
}

/// One model-specific post-connect initialization step.
#[derive(Debug, Clone, Copy, PartialEq, Eq, Structural)]
pub enum InitStep {
    /// Device-specific startup mode, for the model that supports it.
    SetMode(u8),
    SetBrightness(u8),
    ClearAllImages,
    Flush,
}

/// The one model whose startup mode is configurable.
pub open spec fn kind_has_startup_mode(k: Kind) -> bool {
    k is N4Pro
}

/// True for a decimal digit.
pub open spec fn spec_is_digit(c: char) -> bool {
    48 <= c as u32 <= 57
}

/// Value of a digit sequence read as a decimal number.
pub open spec fn digits_val(s: Seq<char>) -> int
    decreases s.len(),
{
    if s.len() == 0 {
        0
    } else {
        digits_val(s.drop_last()) * 10 + (s.last() as u32 - 48)
    }
}

/// How a digit run is read once an optional sign is stripped: one or more
/// decimal digits whose value fits in a byte; anything else fails.
pub open spec fn spec_parse_digits(digits: Seq<char>) -> Option<u8> {
    if digits.len() > 0 && (forall|i: int|
        0 <= i < digits.len() ==> spec_is_digit(#[trigger] digits[i])) && digits_val(digits)
        <= u8::MAX {
        Some(digits_val(digits) as u8)
    } else {
        None
    }
}

/// How `u8` parsing reads a string: an optional leading plus sign, then one
/// or more decimal digits whose value fits in a byte; anything else fails.
pub open spec fn spec_parse_u8(s: Seq<char>) -> Option<u8> {
    if s.len() > 0 && s[0] == '+' {
        spec_parse_digits(s.subrange(1, s.len() as int))
    } else {
        spec_parse_digits(s)
    }
}

proof fn lemma_digits_val_nonneg(s: Seq<char>)
    requires
        forall|i: int| 0 <= i < s.len() ==> spec_is_digit(#[trigger] s[i]),
    ensures
        digits_val(s) >= 0,
    decreases s.len(),
{
    if s.len() > 0 {
        lemma_digits_val_nonneg(s.drop_last());
    }
}

proof fn lemma_digits_val_prefix_le(s: Seq<char>, m: int)
    requires
        0 <= m <= s.len(),
        forall|i: int| 0 <= i < s.len() ==> spec_is_digit(#[trigger] s[i]),
    ensures
        digits_val(s.subrange(0, m)) <= digits_val(s),
    decreases s.len() - m,
{
    if m == s.len() {
        assert(s.subrange(0, m) =~= s);
    } else {
        let shorter = s.subrange(0, m);
        let longer = s.subrange(0, m + 1);
        assert(longer.drop_last() =~= shorter);
        assert(forall|i: int| 0 <= i < shorter.len() ==> spec_is_digit(#[trigger] shorter[i]));
        lemma_digits_val_nonneg(shorter);
        assert(digits_val(longer) == digits_val(shorter) * 10 + (longer.last() as u32 - 48));
        assert(digits_val(shorter) * 10 >= digits_val(shorter)) by (nonlinear_arith)
            requires digits_val(shorter) >= 0;
        lemma_digits_val_prefix_le(s, m + 1);
    }
}

/// Parses a byte the way the standard decimal parser reads it: an optional
/// leading plus sign, then digits, value at most 255.
pub fn parse_u8(s: &str) -> (r: Option<u8>)
    ensures
        r == spec_parse_u8(s@),
{
    let n = s.unicode_len();
    let start: usize = if n > 0 && s.get_char(0) == '+' {
        1
    } else {
        0
    };
    let ghost digits = if s@.len() > 0 && s@[0] == '+' {
        s@.subrange(1, s@.len() as int)
    } else {
        s@
    };
    assert(digits =~= s@.subrange(start as int, n as int));
    assert(spec_parse_u8(s@) == spec_parse_digits(digits));
    if start >= n {
        assert(digits.len() == 0);
        return None;
    }
    let mut acc: u32 = 0;
    let mut j: usize = start;
    while j < n
        invariant
            start <= j <= n,
            n == s@.len(),
            digits =~= s@.subrange(start as int, n as int),
            spec_parse_u8(s@) == spec_parse_digits(digits),
            forall|k: int| start <= k < j ==> spec_is_digit(#[trigger] s@[k]),
            acc as int == digits_val(s@.subrange(start as int, j as int)),
            acc <= u8::MAX,
        decreases n - j,
    {
        let c = s.get_char(j);
        let u = c as u32;
        if u < 48 || u > 57 {
            assert(digits[j - start] == c);
            assert(!spec_is_digit(digits[j - start]));
            assert(spec_parse_digits(digits) is None);
            return None;
        }
        let ghost pre = s@.subrange(start as int, j as int);
        let ghost cur = s@.subrange(start as int, j + 1 as int);
        assert(cur.drop_last() =~= pre);
        acc = acc * 10 + (u - 48);
        assert(acc as int == digits_val(cur));
        j = j + 1;
        if acc > u8::MAX as u32 {
            proof {
                if forall|i: int| 0 <= i < digits.len() ==> spec_is_digit(#[trigger] digits[i]) {
                    assert(forall|i: int|
                        0 <= i < s@.len() - start ==> spec_is_digit(
                            #[trigger] s@.subrange(start as int, n as int)[i],
                        ));
                    lemma_digits_val_prefix_le(digits, j as int - start);
                    assert(digits.subrange(0, j as int - start) =~= cur);
                    assert(digits_val(digits) > u8::MAX);
                }
                assert(spec_parse_digits(digits) is None);
            }
            return None;
        }
    }
    assert(s@.subrange(start as int, j as int) =~= digits);
    assert(spec_parse_digits(digits) == Some(acc as u8));
    Some(acc as u8)
}

/// The startup mode actually applied: the parsed override, or the default
/// when the override is absent or does not parse.
pub open spec fn spec_startup_mode(raw: Option<Seq<char>>) -> u8 {
    match raw {
        None => DEFAULT_STARTUP_MODE,
        Some(s) => match spec_parse_u8(s) {
            Some(m) => m,
            None => DEFAULT_STARTUP_MODE,
        },
    }
}

/// Resolves the startup-mode override (the raw environment value, if any)
/// to the mode to apply.
pub fn startup_mode(raw: Option<&String>) -> (r: u8)
    ensures
        r == spec_startup_mode(match raw {
            Some(s) => Some(s@),
            None => None,
        }),
{
    match raw {
        None => DEFAULT_STARTUP_MODE,
        Some(s) => match parse_u8(s.as_str()) {
            Some(m) => m,
            None => DEFAULT_STARTUP_MODE,
        },
    }
}

/// The post-connect initialization plan for a model: the startup mode where
/// the model supports one, then initial brightness, clearing every button
/// image, and a flush.
pub open spec fn spec_init_plan(kind: Kind, raw_mode: Option<Seq<char>>) -> Seq<InitStep> {
    let tail = seq![
        InitStep::SetBrightness(INITIAL_BRIGHTNESS),
        InitStep::ClearAllImages,
        InitStep::Flush,
    ];
    if kind_has_startup_mode(kind) {
        seq![InitStep::SetMode(spec_startup_mode(raw_mode))] + tail
    } else {
        tail
    }
}

/// Builds the initialization plan run right after a successful connect.
/// Every step must succeed; any failure surfaces as a connection failure.
pub fn init_plan(kind: &Kind, raw_mode: Option<&String>) -> (steps: Vec<InitStep>)
    ensures
        steps@ == spec_init_plan(*kind, match raw_mode {
            Some(s) => Some(s@),
            None => None,
        }),
{
    let mut steps: Vec<InitStep> = Vec::new();
    if matches!(kind, Kind::N4Pro) {
        steps.push(InitStep::SetMode(startup_mode(raw_mode)));
    }
    steps.push(InitStep::SetBrightness(INITIAL_BRIGHTNESS));
    steps.push(InitStep::ClearAllImages);
    steps.push(InitStep::Flush);
    proof {
        assert(steps@ =~= spec_init_plan(*kind, match raw_mode {
            Some(s) => Some(s@),
            None => None,
        }));
    }
    steps
}

} // verus!
