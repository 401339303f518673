//! Process-startup configuration rules for the chain backend: which
//! settings are owed, and which have defaults.

use vstd::prelude::*;
use vstd::string::StrSliceExecFns;

verus! {

/// The chain backend's immutable, process-lifetime configuration.
pub struct ChainConfig {
    pub api_key: String,
    pub api_base: String,
    pub model: String,
}

/// Builds the chain backend's configuration from what the environment gave.
/// An absent credential is a fatal startup error; an absent model falls
/// back to the fixed default.
pub fn startup_config(api_key: Option<String>, model: Option<String>) -> (r: Result<
    ChainConfig,
    String,
>)
    ensures
        ({
            match api_key {
                None => r matches Err(m) && m@ == "OPENROUTER_API_KEY not set"@,
                Some(k) => r matches Ok(c) && c.api_key@ == k@ && c.api_base@
                    == "https://openrouter.ai/api/v1"@ && c.model@ == (match model {
                    Some(m) => m@,
                    None => "meta-llama/llama-3.2-3b-instruct"@,
                }),
            }
        }),
{
    match api_key {
        None => Err("OPENROUTER_API_KEY not set".to_owned()),
        Some(k) => Ok(
            ChainConfig {
                api_key: k,
                api_base: "https://openrouter.ai/api/v1".to_owned(),
                model: match model {
                    Some(m) => m,
                    None => "meta-llama/llama-3.2-3b-instruct".to_owned(),
                },
            },
        ),
    }
}

/// A decimal digit character.
pub open spec fn spec_is_digit(c: char) -> bool {
    48 <= c as u32 && c as u32 <= 57
}

/// Every character of `s` is a decimal digit.
pub open spec fn spec_all_digits(s: Seq<char>) -> bool {
    forall|k: int| 0 <= k < s.len() ==> spec_is_digit(s[k])
}

/// The value of a run of decimal digits, most significant first.
pub open spec fn spec_digits_val(s: Seq<char>) -> int
    decreases s.len(),
{
    if s.len() == 0 {
        0
    } else {
        spec_digits_val(s.drop_last()) * 10 + (s.last() as u32 - 48)
    }
}

/// What a sixteen-bit decimal parse accepts: an optional leading `+`, then
/// at least one digit, with a value at most 65535.
pub open spec fn spec_parse_u16(s: Seq<char>) -> Option<u16> {
    let digits = if s.len() > 0 && s[0] == '+' {
        s.drop_first()
    } else {
        s
    };
    if digits.len() > 0 && spec_all_digits(digits) && spec_digits_val(digits) <= 65535 {
        Some(spec_digits_val(digits) as u16)
    } else {
        None
    }
}

/// A run of digits has a value of at least zero.
proof fn lemma_digits_val_nonneg(s: Seq<char>)
    requires
        spec_all_digits(s),
    ensures
        spec_digits_val(s) >= 0,
    decreases s.len(),
{
    if s.len() > 0 {
        assert(spec_all_digits(s.drop_last()));
        lemma_digits_val_nonneg(s.drop_last());
    }
}

/// Among digits, a prefix never has a larger value than the whole run.
proof fn lemma_digits_val_prefix_le(s: Seq<char>, i: int)
    requires
        spec_all_digits(s),
        0 <= i <= s.len(),
    ensures
        spec_digits_val(s.take(i)) <= spec_digits_val(s),
    decreases s.len() - i,
{
    if i == s.len() {
        assert(s.take(i) =~= s);
    } else {
        assert(spec_all_digits(s.take(i)));
        lemma_digits_val_nonneg(s.take(i));
        assert(s.take(i + 1).drop_last() =~= s.take(i));
        assert(s.take(i + 1).last() == s[i]);
        lemma_digits_val_prefix_le(s, i + 1);
    }
}

/// Parses a sixteen-bit decimal number the way the standard parse does: an
/// optional leading `+`, then only digits, rejected on overflow.
pub fn parse_u16(s: &str) -> (r: Option<u16>)
    ensures
        r == spec_parse_u16(s@),
{
    let n = s.unicode_len();
    let start: usize = if n > 0 && s.get_char(0) == '+' {
        1
    } else {
        0
    };
    let ghost digits = s@.skip(start as int);
    proof {
        assert(s@.skip(0) =~= s@);
        if s@.len() > 0 {
            assert(s@.skip(1) =~= s@.drop_first());
        }
    }
    if start == n {
        return None;
    }
    let mut acc: u32 = 0;
    let mut i: usize = start;
    proof {
        assert(digits.take(0) =~= Seq::<char>::empty());
    }
    while i < n
        invariant
            start <= i <= n,
            n == s@.len(),
            start == 1 <==> (s@.len() > 0 && s@[0] == '+'),
            digits == s@.skip(start as int),
            digits == (if s@.len() > 0 && s@[0] == '+' {
                s@.drop_first()
            } else {
                s@
            }),
            forall|k: int| 0 <= k < i - start ==> spec_is_digit(digits[k]),
            acc <= 65535,
            acc as int == spec_digits_val(digits.take(i - start)),
        decreases n - i,
    {
        let c = s.get_char(i);
        let u = c as u32;
        proof {
            assert(digits[i - start] == s@[i as int]);
        }
        if u < 48 || u > 57 {
            proof {
                assert(!spec_is_digit(digits[i - start]));
                assert(i - start < digits.len());
                assert(!spec_all_digits(digits));
            }
            return None;
        }
        let d = u - 48;
        let next = acc * 10 + d;
        if next > 65535 {
            proof {
                assert(digits.take(i - start + 1).drop_last() =~= digits.take(i - start));
                assert(digits.take(i - start + 1).last() == digits[i - start]);
                assert(spec_digits_val(digits.take(i - start + 1)) == next);
                if spec_all_digits(digits) {
                    lemma_digits_val_prefix_le(digits, i - start + 1);
                }
            }
            return None;
        }
        acc = next;
        i = i + 1;
        proof {
            assert(digits.take(i - start).drop_last() =~= digits.take(i - start - 1));
            assert(digits.take(i - start).last() == digits[i - start - 1]);
        }
    }
    proof {
        assert(digits.take(n - start) =~= digits);
    }
    Some(acc as u16)
}

/// The port to bind: the setting's decimal value where one was given and
/// parses, and the fixed default everywhere else.
pub open spec fn spec_port_or_default(s: Option<Seq<char>>) -> u16 {
    match s {
        None => 8080u16,
        Some(t) => match spec_parse_u16(t) {
            Some(p) => p,
            None => 8080u16,
        },
    }
}

/// Picks the port to bind from the environment's setting.
pub fn port_or_default(s: Option<&str>) -> (r: u16)
    ensures
        r == spec_port_or_default(
            match s {
                Some(t) => Some(t@),
                None => None,
            },
        ),
{
    match s {
        None => 8080,
        Some(t) => match parse_u16(t) {
            Some(p) => p,
            None => 8080,
        },
    }
}

/// Startup is fatal exactly where the chain credential is absent, whatever
/// the other settings say.
pub proof fn lemma_startup_fatal_iff_no_credential(
    api_key: Option<String>,
    model: Option<String>,
    r: Result<ChainConfig, String>,
)
    requires
        ({
            match api_key {
                None => r matches Err(m) && m@ == "OPENROUTER_API_KEY not set"@,
                Some(k) => r matches Ok(c) && c.api_key@ == k@ && c.api_base@
                    == "https://openrouter.ai/api/v1"@ && c.model@ == (match model {
                    Some(m) => m@,
                    None => "meta-llama/llama-3.2-3b-instruct"@,
                }),
            }
        }),
    ensures
        api_key is None <==> r is Err,
{
}

} // verus!
