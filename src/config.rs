use vstd::prelude::*;
use vstd::string::*;

verus! {

/// One past the largest `u64`: a saturation mark while digits are read.
const PAST_U64: u128 = 18446744073709551616;

/// Measurement units shown by the viewer.
#[derive(Clone, Copy, Debug, PartialEq, Eq, Structural)]
pub enum Unit {
    Human,
    Si,
}

/// What to do with the background daemon.
#[derive(Clone, Copy, Debug, PartialEq, Eq, Structural)]
pub enum DaemonAction {
    /// Start collecting, one reading every `interval` seconds.
    Start { interval: u64 },
    Stop,
    Status,
}

/// A subcommand given instead of running the viewer.
#[derive(Clone, Copy, Debug, PartialEq, Eq, Structural)]
pub enum Command {
    Daemon { action: DaemonAction },
}

/// Settings of one invocation.
#[derive(Clone, Copy, Debug)]
pub struct Config {
    command: Option<Command>,
    delay_secs: u64,
    unit: Unit,
}

pub open spec fn is_char_digit(c: char) -> bool {
    '0' <= c && c <= '9'
}

/// The number that a sequence of decimal digit characters denotes.
pub open spec fn char_digits_value(s: Seq<char>) -> int
    decreases s.len(),
{
    if s.len() == 0 {
        0
    } else {
        char_digits_value(s.drop_last()) * 10 + (s.last() as int - '0' as int)
    }
}

/// The unsigned integer written in `t`: an optional `+`, then one or more decimal digits,
/// when it fits in a `u64`.
pub open spec fn unsigned_value(t: Seq<char>) -> Option<u64> {
    digits_u64(
        if t.len() > 0 && t[0] == '+' {
            t.drop_first()
        } else {
            t
        },
    )
}

/// The number that `body`, one or more decimal digits, denotes, when it fits in a `u64`.
pub open spec fn digits_u64(body: Seq<char>) -> Option<u64> {
    if body.len() > 0 && (forall|i: int| 0 <= i < body.len() ==> is_char_digit(#[trigger] body[i]))
        && char_digits_value(body) <= u64::MAX {
        Some(char_digits_value(body) as u64)
    } else {
        None
    }
}

/// The code of `c` once an ASCII capital is lowered.
pub open spec fn ascii_lower(c: char) -> int {
    if 'A' <= c && c <= 'Z' {
        (c as int) + 32
    } else {
        c as int
    }
}

/// `a` and `b` differ at most in the case of ASCII letters.
pub open spec fn same_ignoring_ascii_case(a: Seq<char>, b: Seq<char>) -> bool {
    a.len() == b.len() && forall|i: int| 0 <= i < a.len() ==> ascii_lower(#[trigger] a[i]) == ascii_lower(b[i])
}

/// The unit named by `t`, in any ASCII case.
pub open spec fn unit_of_text(t: Seq<char>) -> Option<Unit> {
    if same_ignoring_ascii_case(t, "human"@) {
        Some(Unit::Human)
    } else if same_ignoring_ascii_case(t, "si"@) {
        Some(Unit::Si)
    } else {
        None
    }
}

proof fn lemma_char_digits_value_nonneg(s: Seq<char>)
    requires
        forall|i: int| 0 <= i < s.len() ==> is_char_digit(#[trigger] s[i]),
    ensures
        char_digits_value(s) >= 0,
    decreases s.len(),
{
    if s.len() > 0 {
        lemma_char_digits_value_nonneg(s.drop_last());
    }
}

fn lower_char(c: char) -> (r: u32)
    ensures
        r == ascii_lower(c),
{
    if 'A' <= c && c <= 'Z' {
        (c as u32) + 32
    } else {
        c as u32
    }
}

/// Whether `a` and `b` differ at most in the case of ASCII letters.
pub fn eq_ignoring_ascii_case(a: &str, b: &str) -> (r: bool)
    ensures
        r == same_ignoring_ascii_case(a@, b@),
{
    let n = a.unicode_len();
    if n != b.unicode_len() {
        return false;
    }
    let mut i: usize = 0;
    while i < n
        invariant
            n == a@.len(),
            n == b@.len(),
            0 <= i <= n,
            forall|k: int| 0 <= k < i ==> ascii_lower(#[trigger] a@[k]) == ascii_lower(b@[k]),
        decreases n - i,
    {
        if lower_char(a.get_char(i)) != lower_char(b.get_char(i)) {
            return false;
        }
        i = i + 1;
    }
    true
}

/// Reads an unsigned decimal integer: an optional `+`, then digits only.
pub fn parse_unsigned(s: &str) -> (r: Option<u64>)
    ensures
        r == unsigned_value(s@),
{
    let n = s.unicode_len();
    let mut k: usize = 0;
    if n > 0 && s.get_char(0) == '+' {
        k = 1;
    }
    let ghost body = s@.subrange(k as int, n as int);
    proof {
        if s@.len() > 0 && s@[0] == '+' {
            assert(body =~= s@.drop_first());
        } else {
            assert(body =~= s@);
        }
    }
    if k == n {
        return None;
    }
    let mut v: u128 = 0;
    let mut i: usize = k;
    while i < n
        invariant
            n == s@.len(),
            k < n,
            k <= i <= n,
            body == s@.subrange(k as int, n as int),
            unsigned_value(s@) == digits_u64(body),
            forall|j: int| k <= j < i ==> is_char_digit(#[trigger] s@[j]),
            0 <= v <= PAST_U64,
            char_digits_value(s@.subrange(k as int, i as int)) < PAST_U64 ==> v == char_digits_value(
                s@.subrange(k as int, i as int),
            ),
            char_digits_value(s@.subrange(k as int, i as int)) >= PAST_U64 ==> v == PAST_U64,
        decreases n - i,
    {
        let c = s.get_char(i);
        if c < '0' || c > '9' {
            proof {
                assert(body[i - k] == c);
            }
            return None;
        }
        proof {
            let p = s@.subrange(k as int, i as int);
            let q = s@.subrange(k as int, i + 1);
            assert(q.drop_last() =~= p);
            assert(q.last() == c);
            assert forall|j: int| 0 <= j < p.len() implies is_char_digit(#[trigger] p[j]) by {
                assert(p[j] == s@[k + j]);
            }
            lemma_char_digits_value_nonneg(p);
        }
        let d = (c as u32 - '0' as u32) as u128;
        if v > PAST_U64 / 10 {
            v = PAST_U64;
        } else {
            v = v * 10 + d;
            if v > PAST_U64 {
                v = PAST_U64;
            }
        }
        i = i + 1;
    }
    proof {
        assert(s@.subrange(k as int, i as int) =~= body);
        assert forall|j: int| 0 <= j < body.len() implies is_char_digit(#[trigger] body[j]) by {
            assert(body[j] == s@[k + j]);
        }
    }
    if v <= u64::MAX as u128 {
        Some(v as u64)
    } else {
        None
    }
}

impl Config {
    pub closed spec fn command_spec(&self) -> Option<Command> {
        self.command
    }

    /// The daemon subcommand given, if any.
    pub fn command(&self) -> (r: Option<Command>)
        ensures
            r == self.command_spec(),
    {
        self.command
    }

    pub closed spec fn delay_spec(&self) -> u64 {
        self.delay_secs
    }

    pub closed spec fn unit_spec(&self) -> Unit {
        self.unit
    }

    pub closed spec fn wf(&self) -> bool {
        self.delay_secs > 0
    }

    pub fn new(command: Option<Command>, delay_secs: u64, unit: Unit) -> (r: Config)
        requires
            delay_secs > 0,
        ensures
            r.wf(),
            r.command_spec() == command,
            r.delay_spec() == delay_secs,
            r.unit_spec() == unit,
    {
        Config { command, delay_secs, unit }
    }

    /// Seconds between refreshes of the viewer.
    pub fn delay(&self) -> (r: u64)
        requires
            self.wf(),
        ensures
            r == self.delay_spec(),
            r > 0,
    {
        self.delay_secs
    }

    pub fn unit(&self) -> (r: Unit)
        ensures
            r == self.unit_spec(),
    {
        self.unit
    }

    /// Reads a refresh delay: a positive whole number of seconds.
    pub fn parse_duration(s: &str) -> (r: Result<u64, String>)
        ensures
            r matches Ok(secs) ==> unsigned_value(s@) == Some(secs) && secs > 0,
            r is Err <==> !(unsigned_value(s@) matches Some(secs) && secs > 0),
            r matches Err(m) ==> m@ == s@ + " isn't a positive number"@,
    {
        match parse_unsigned(s) {
            Some(secs) if secs > 0 => Ok(secs),
            _ => Err(s.to_owned().concat(" isn't a positive number")),
        }
    }

    /// Reads a unit name, `human` or `si`, in any ASCII case.
    pub fn parse_unit(s: &str) -> (r: Result<Unit, String>)
        ensures
            r matches Ok(u) ==> unit_of_text(s@) == Some(u),
            r is Err <==> unit_of_text(s@) is None,
            r matches Err(m) ==> m@ == s@ + " isn't a valid unit"@,
    {
        if eq_ignoring_ascii_case(s, "human") {
            Ok(Unit::Human)
        } else if eq_ignoring_ascii_case(s, "si") {
            Ok(Unit::Si)
        } else {
            Err(s.to_owned().concat(" isn't a valid unit"))
        }
    }
}

} // verus!
