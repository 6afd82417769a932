use vstd::prelude::*;

verus! {

/// Smallest value that no process id text can denote: one past `2^31`.
const OVER_LIMIT: i64 = 2147483649;

/// ASCII whitespace: space, tab, line feed, vertical tab, form feed, carriage return.
pub open spec fn is_space(b: u8) -> bool {
    b == 32 || (9 <= b && b <= 13)
}

pub open spec fn is_digit(b: u8) -> bool {
    48 <= b && b <= 57
}

/// `s` without its leading ASCII whitespace.
pub open spec fn trim_start(s: Seq<u8>) -> Seq<u8>
    decreases s.len(),
{
    if s.len() > 0 && is_space(s[0]) {
        trim_start(s.drop_first())
    } else {
        s
    }
}

/// `s` without its trailing ASCII whitespace.
pub open spec fn trim_end(s: Seq<u8>) -> Seq<u8>
    decreases s.len(),
{
    if s.len() > 0 && is_space(s.last()) {
        trim_end(s.drop_last())
    } else {
        s
    }
}

/// The number that a sequence of decimal digits denotes.
pub open spec fn digits_value(s: Seq<u8>) -> int
    decreases s.len(),
{
    if s.len() == 0 {
        0
    } else {
        digits_value(s.drop_last()) * 10 + (s.last() - 48)
    }
}

pub open spec fn all_digits(s: Seq<u8>) -> bool {
    forall|i: int| 0 <= i < s.len() ==> is_digit(#[trigger] s[i])
}

/// The integer written in `t`: an optional sign, then one or more decimal digits.
pub open spec fn signed_value(t: Seq<u8>) -> Option<int> {
    let neg = t.len() > 0 && t[0] == 45;
    let body = if t.len() > 0 && (t[0] == 45 || t[0] == 43) {
        t.drop_first()
    } else {
        t
    };
    if body.len() > 0 && all_digits(body) {
        Some(if neg { -digits_value(body) } else { digits_value(body) })
    } else {
        None
    }
}

/// The process id held by a PID record: the integer written in it, surrounding ASCII
/// whitespace aside, when it fits in an `i32`. The record is read as bytes, so other
/// whitespace (a no-break space, say) is not trimmed and makes the record invalid.
pub open spec fn record_pid(record: Seq<u8>) -> Option<i32> {
    match signed_value(trim_end(trim_start(record))) {
        Some(v) => if i32::MIN <= v && v <= i32::MAX {
            Some(v as i32)
        } else {
            None
        },
        None => None,
    }
}

proof fn lemma_digits_value_nonneg(s: Seq<u8>)
    requires
        all_digits(s),
    ensures
        digits_value(s) >= 0,
    decreases s.len(),
{
    if s.len() > 0 {
        lemma_digits_value_nonneg(s.drop_last());
    }
}

/// Index of the first byte of `s[from..]` that is not whitespace (or `s.len()`).
fn skip_spaces(s: &[u8]) -> (r: usize)
    ensures
        r <= s@.len(),
        trim_start(s@) == s@.subrange(r as int, s@.len() as int),
{
    let mut i: usize = 0;
    assert(s@.subrange(0, s@.len() as int) =~= s@);
    while i < s.len() && (s[i] == 32 || (9 <= s[i] && s[i] <= 13))
        invariant
            0 <= i <= s@.len(),
            trim_start(s@) == trim_start(s@.subrange(i as int, s@.len() as int)),
        decreases s@.len() - i,
    {
        proof {
            assert(s@.subrange(i as int, s@.len() as int).drop_first() =~= s@.subrange(
                i + 1,
                s@.len() as int,
            ));
        }
        i = i + 1;
    }
    i
}

/// End (exclusive) of `s[from..]` once its trailing whitespace is cut off.
fn cut_spaces(s: &[u8], from: usize) -> (r: usize)
    requires
        from <= s@.len(),
    ensures
        from <= r <= s@.len(),
        trim_end(s@.subrange(from as int, s@.len() as int)) == s@.subrange(from as int, r as int),
{
    let mut j: usize = s.len();
    while j > from && (s[j - 1] == 32 || (9 <= s[j - 1] && s[j - 1] <= 13))
        invariant
            from <= j <= s@.len(),
            trim_end(s@.subrange(from as int, s@.len() as int)) == trim_end(
                s@.subrange(from as int, j as int),
            ),
        decreases j,
    {
        proof {
            assert(s@.subrange(from as int, j as int).drop_last() =~= s@.subrange(
                from as int,
                j - 1,
            ));
        }
        j = j - 1;
    }
    j
}

/// Reads the process id from the contents of a PID record.
pub fn parse_pid(record: &[u8]) -> (r: Option<i32>)
    ensures
        r == record_pid(record@),
{
    let start = skip_spaces(record);
    let end = cut_spaces(record, start);
    let ghost t = record@.subrange(start as int, end as int);
    proof {
        assert(trim_end(trim_start(record@)) == t);
    }
    let mut k: usize = start;
    let mut neg = false;
    if k < end && (record[k] == 45 || record[k] == 43) {
        neg = record[k] == 45;
        k = k + 1;
    }
    let ghost body = record@.subrange(k as int, end as int);
    proof {
        if t.len() > 0 && (t[0] == 45 || t[0] == 43) {
            assert(body =~= t.drop_first());
        } else {
            assert(body =~= t);
        }
    }
    if k == end {
        return None;
    }
    let mut v: i64 = 0;
    let mut i: usize = k;
    while i < end
        invariant
            k <= i <= end <= record@.len(),
            body == record@.subrange(k as int, end as int),
            body.len() > 0,
            signed_value(trim_end(trim_start(record@))) == (if all_digits(body) {
                Some(
                    if neg {
                        -digits_value(body)
                    } else {
                        digits_value(body)
                    },
                )
            } else {
                None::<int>
            }),
            all_digits(record@.subrange(k as int, i as int)),
            0 <= v <= OVER_LIMIT,
            digits_value(record@.subrange(k as int, i as int)) < OVER_LIMIT ==> v == digits_value(
                record@.subrange(k as int, i as int),
            ),
            digits_value(record@.subrange(k as int, i as int)) >= OVER_LIMIT ==> v == OVER_LIMIT,
        decreases end - i,
    {
        let b = record[i];
        if b < 48 || b > 57 {
            proof {
                assert(body[i - k] == b);
                assert(!all_digits(body));
            }
            return None;
        }
        proof {
            let p = record@.subrange(k as int, i as int);
            let q = record@.subrange(k as int, i + 1);
            assert(q.drop_last() =~= p);
            assert(all_digits(q));
            assert(q.last() == b);
            assert(digits_value(q) == digits_value(p) * 10 + (b - 48));
            lemma_digits_value_nonneg(p);
        }
        if v > OVER_LIMIT / 10 {
            v = OVER_LIMIT;
        } else {
            v = v * 10 + (b - 48) as i64;
            if v > OVER_LIMIT {
                v = OVER_LIMIT;
            }
        }
        i = i + 1;
    }
    proof {
        assert(record@.subrange(k as int, i as int) =~= body);
    }
    if neg {
        if v <= 2147483648 {
            Some((-v) as i32)
        } else {
            None
        }
    } else {
        if v <= 2147483647 {
            Some(v as i32)
        } else {
            None
        }
    }
}

} // verus!
