//! The configuration of the process: set once at startup, read-only afterwards.
//!
//! The signing secret and the lifetime of a token come from two settings of
//! the environment, handed in as text. A missing secret stands for the empty
//! secret, a missing lifetime for `DEFAULT_LIFETIME`.

use crate::services::hasher::DEFAULT_COST;
use crate::services::jwt::DEFAULT_LIFETIME;
use crate::text::chars_of;
use std::sync::Arc;
use vstd::prelude::*;

verus! {

/// Whether `c` is one of the ten ASCII digits.
pub open spec fn is_digit(c: char) -> bool {
    0x30 <= c as u32 <= 0x39
}

/// The number that the digit `c` stands for.
pub open spec fn digit_of(c: char) -> int {
    c as u32 - 0x30
}

/// Whether `s` is made of ASCII digits only.
pub open spec fn all_digits(s: Seq<char>) -> bool {
    forall|i: int| 0 <= i < s.len() ==> is_digit(#[trigger] s[i])
}

/// The number that the digits `s` spell in base ten.
pub open spec fn decimal(s: Seq<char>) -> int
    decreases s.len(),
{
    if s.len() == 0 {
        0
    } else {
        decimal(s.drop_last()) * 10 + digit_of(s.last())
    }
}

/// The number of seconds that `s` spells: an optional sign, then at least one
/// digit and nothing else, for a number that fits in 64 bits.
pub open spec fn parsed_seconds(s: Seq<char>) -> Option<i64> {
    let negative = s.len() > 0 && s[0] == '-';
    let signed = s.len() > 0 && (s[0] == '-' || s[0] == '+');
    let digits = if signed {
        s.drop_first()
    } else {
        s
    };
    let value = if negative {
        -decimal(digits)
    } else {
        decimal(digits)
    };
    if digits.len() > 0 && all_digits(digits) && i64::MIN <= value <= i64::MAX {
        Some(value as i64)
    } else {
        None
    }
}

/// A number never gets smaller when digits are appended to it.
pub proof fn lemma_decimal_grows(s: Seq<char>, k: int)
    requires
        all_digits(s),
        0 <= k <= s.len(),
    ensures
        0 <= decimal(s.take(k)) <= decimal(s),
    decreases s.len(),
{
    if k == s.len() {
        assert(s.take(k) =~= s);
        if s.len() > 0 {
            assert(is_digit(s[s.len() - 1]));
            lemma_decimal_grows(s.drop_last(), k - 1);
        }
    } else {
        let front = s.drop_last();
        assert(is_digit(s[s.len() - 1]));
        assert forall|i: int| 0 <= i < front.len() implies is_digit(#[trigger] front[i]) by {
            assert(front[i] == s[i]);
        }
        lemma_decimal_grows(front, k);
        assert(front.take(k) =~= s.take(k));
    }
}

/// Reads a number of seconds from `text`.
pub fn parse_seconds(text: &str) -> (res: Option<i64>)
    ensures
        res == parsed_seconds(text@),
{
    let chars = chars_of(text);
    let n = chars.len();
    if n == 0 {
        return None;
    }
    let negative = chars[0] == '-';
    let start: usize = if chars[0] == '-' || chars[0] == '+' {
        1
    } else {
        0
    };
    if start == n {
        return None;
    }
    let ghost digits = chars@.subrange(start as int, n as int);
    assert(digits =~= if start == 1 {
        chars@.drop_first()
    } else {
        chars@
    });
    let mut acc: i64 = 0;
    let mut i: usize = start;
    assert(digits.take(0) =~= Seq::<char>::empty());
    while i < n
        invariant
            start <= i <= n,
            n == chars.len(),
            chars@ == text@,
            negative == (text@[0] == '-'),
            digits == chars@.subrange(start as int, n as int),
            digits == if text@[0] == '-' || text@[0] == '+' {
                text@.drop_first()
            } else {
                text@
            },
            all_digits(digits.take(i - start)),
            acc == if negative {
                -decimal(digits.take(i - start))
            } else {
                decimal(digits.take(i - start))
            },
        decreases n - i,
    {
        let c = chars[i];
        let code: u32 = c as u32;
        assert(digits[i - start] == c);
        if code < 0x30 || code > 0x39 {
            assert(!is_digit(digits[i - start]));
            return None;
        }
        let d: i64 = (code - 0x30) as i64;
        let ghost longer = digits.take(i - start + 1);
        proof {
            assert(longer.drop_last() =~= digits.take(i - start));
            assert(longer.last() == c);
            assert(decimal(longer) == decimal(digits.take(i - start)) * 10 + d);
            assert forall|j: int| 0 <= j < longer.len() implies is_digit(#[trigger] longer[j]) by {
                if j < i - start {
                    assert(longer[j] == digits.take(i - start)[j]);
                }
            }
            if all_digits(digits) {
                lemma_decimal_grows(digits, i - start + 1);
            }
        }
        let shifted = match acc.checked_mul(10) {
            Some(m) => m,
            None => {
                return None;
            },
        };
        let next = if negative {
            shifted.checked_sub(d)
        } else {
            shifted.checked_add(d)
        };
        match next {
            Some(v) => {
                acc = v;
            },
            None => {
                return None;
            },
        }
        i = i + 1;
    }
    assert(digits.take(n - start) =~= digits);
    Some(acc)
}

/// What every request of the process shares and none of them changes.
#[derive(Clone, Debug, PartialEq, Eq)]
pub struct StaticData {
    /// The secret that tokens are signed with. May be empty.
    pub jwt_secret: String,
    /// How long a token is valid, in seconds.
    pub jwt_lifetime: i64,
    /// The work factor for hashing passwords.
    pub hash_cost: u32,
}

/// The state of the application, cheap to copy for every worker.
#[derive(Clone)]
pub struct AppState {
    pub static_data: Arc<StaticData>,
}

/// The secret that a setting stands for: its text, or the empty secret where
/// it is not set.
pub open spec fn secret_of(setting: Option<&str>) -> Seq<char> {
    match setting {
        Some(text) => text@,
        None => Seq::empty(),
    }
}

/// The lifetime that a setting stands for, where it can be read.
pub open spec fn lifetime_of(setting: Option<&str>) -> Option<i64> {
    match setting {
        Some(text) => parsed_seconds(text@),
        None => Some(DEFAULT_LIFETIME),
    }
}

/// Whether the lifetime setting can be read: it is missing, or it spells a
/// number of seconds.
pub fn lifetime_is_readable(setting: Option<&str>) -> (ok: bool)
    ensures
        ok == lifetime_of(setting).is_some(),
{
    match setting {
        Some(text) => parse_seconds(text).is_some(),
        None => true,
    }
}

/// Builds the state of the application from the two settings.
///
/// The lifetime setting has to be readable: there is no sensible lifetime for
/// a setting that spells no number.
pub fn initialize(secret: Option<&str>, lifetime: Option<&str>) -> (state: AppState)
    requires
        lifetime_of(lifetime).is_some(),
    ensures
        state.static_data.jwt_secret@ == secret_of(secret),
        Some(state.static_data.jwt_lifetime) == lifetime_of(lifetime),
        state.static_data.hash_cost == DEFAULT_COST,
{
    let jwt_secret = match secret {
        Some(text) => text.to_owned(),
        None => String::new(),
    };
    let jwt_lifetime = match lifetime {
        Some(text) => match parse_seconds(text) {
            Some(seconds) => seconds,
            None => DEFAULT_LIFETIME,
        },
        None => DEFAULT_LIFETIME,
    };
    AppState { static_data: Arc::new(StaticData { jwt_secret, jwt_lifetime, hash_cost: DEFAULT_COST }) }
}

} // verus!
