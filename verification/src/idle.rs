//! The idle-timeout policy of a relayed RabbitMQ session.
use vstd::prelude::*;

use crate::span::Span;
use crate::text::{chars_of, trim, trim_str};

verus! {

/// What `humantime::parse_duration` makes of `text`: the parsed duration as
/// whole seconds and sub-second nanoseconds, or `None` where it reports an
/// error.
pub uninterp spec fn humantime_parse(text: Seq<char>) -> Option<(u64, u32)>;

/// What `humantime::format_duration` renders a duration of `secs` seconds
/// and `nanos` nanoseconds as.
pub uninterp spec fn humantime_text(secs: u64, nanos: u32) -> Seq<char>;

/// The number of ASCII digits in `s`.
pub open spec fn ascii_digit_count(s: Seq<char>) -> nat
    decreases s.len(),
{
    if s.len() == 0 {
        0
    } else {
        ascii_digit_count(s.drop_last()) + if '0' <= s.last() && s.last() <= '9' {
            1nat
        } else {
            0nat
        }
    }
}

/// The most ASCII digits a configured duration may hold to be handed to the
/// duration parser.
pub const MAX_DURATION_DIGITS: usize = 11;

/// Counts the ASCII digits of `text`.
pub fn count_ascii_digits(text: &str) -> (n: usize)
    ensures
        n == ascii_digit_count(text@),
{
    let cs = chars_of(text);
    let mut n: usize = 0;
    let mut i: usize = 0;
    while i < cs.len()
        invariant
            cs@ == text@,
            i <= cs.len(),
            n <= i,
            n == ascii_digit_count(cs@.take(i as int)),
        decreases cs.len() - i,
    {
        assert(cs@.take(i as int + 1).drop_last() == cs@.take(i as int));
        let c = cs[i];
        if '0' <= c && c <= '9' {
            n = n + 1;
        }
        i = i + 1;
    }
    assert(cs@.take(cs.len() as int) == cs@);
    n
}

/// `humantime::parse_duration(text)`. Trusted: the result is the named
/// parse of `text`, converted to seconds and nanoseconds; the nanoseconds
/// are below one second, as `Duration::subsec_nanos` documents; and `"0"`
/// parses to zero, as the function's first line shows.
///
/// The parser adds each span to a running total with `Duration::new`, which
/// panics only where the total reaches `u64::MAX` seconds. With at most
/// eleven digits in the text, the numbers in it add up to at most 10^11
/// and there are at most eleven spans, so even counted in years
/// (31 557 600 s) and with each span's carried nanoseconds (below
/// 2 * 10^10 s) the total stays under 4 * 10^18 seconds: the call returns
/// on every text admitted here.
#[verifier::external_body]
fn parse_humantime(text: &str) -> (r: Option<Span>)
    requires
        ascii_digit_count(text@) <= MAX_DURATION_DIGITS,
    ensures
        match r {
            Some(s) => humantime_parse(text@) == Some((s.secs, s.nanos)) && s.wf(),
            None => humantime_parse(text@) is None,
        },
        text@ == "0"@ ==> r == Some(Span { secs: 0, nanos: 0 }),
{
    humantime::parse_duration(text).ok().map(|d| Span { secs: d.as_secs(), nanos: d.subsec_nanos() })
}

/// `humantime::format_duration(d).to_string()` for the duration `d` that
/// `s` stands for. Trusted: the text is the named rendering of `s`.
#[verifier::external_body]
pub(crate) fn format_span(s: Span) -> (t: String)
    requires
        s.wf(),
    ensures
        t@ == humantime_text(s.secs, s.nanos),
{
    humantime::format_duration(std::time::Duration::new(s.secs, s.nanos)).to_string()
}

/// The idle timeout used where none is configured, or the configured value
/// cannot be parsed: ten minutes.
pub open spec fn spec_default_idle_timeout() -> Span {
    Span { secs: 600, nanos: 0 }
}

/// The idle timeout used where none is configured: ten minutes.
pub fn default_idle_timeout() -> (s: Span)
    ensures
        s == spec_default_idle_timeout(),
{
    Span { secs: 600, nanos: 0 }
}

/// The effective idle timeout for a configured value: unset, blank,
/// unparseable or longer than eleven digits gives the default; a parsed zero
/// disables the timeout (`None`); any other parsed duration is used as is.
pub open spec fn idle_timeout_policy(value: Option<Seq<char>>) -> Option<Span> {
    match value {
        None => Some(spec_default_idle_timeout()),
        Some(v) => if trim(v).len() == 0 || ascii_digit_count(trim(v)) > MAX_DURATION_DIGITS {
            Some(spec_default_idle_timeout())
        } else {
            match humantime_parse(trim(v)) {
                Some((secs, nanos)) => if secs == 0 && nanos == 0 {
                    None
                } else {
                    Some(Span { secs, nanos })
                },
                None => Some(spec_default_idle_timeout()),
            }
        },
    }
}

/// Maps a configured `idle_timeout` string to an effective policy. An
/// explicit zero duration (`"0"`, `"0s"`) disables the timeout; an unset or
/// unparseable value falls back to the default of ten minutes, and so does a
/// value of more than eleven digits, which no idle timeout needs.
pub fn parse_idle_timeout(value: Option<&str>) -> (r: Option<Span>)
    ensures
        r == idle_timeout_policy(
            match value {
                Some(v) => Some(v@),
                None => None,
            },
        ),
        r matches Some(s) ==> s.wf(),
        value matches Some(v) && trim(v@) == "0"@ ==> r is None,
{
    proof {
        reveal_strlit("0");
        assert(ascii_digit_count("0"@.drop_last()) == 0);
        assert(ascii_digit_count("0"@) == 1);
    }
    match value {
        None => Some(default_idle_timeout()),
        Some(v) => {
            let trimmed = trim_str(v);
            if trimmed.as_str().is_empty()
                || count_ascii_digits(trimmed.as_str()) > MAX_DURATION_DIGITS {
                return Some(default_idle_timeout());
            }
            match parse_humantime(trimmed.as_str()) {
                Some(d) => if d.is_zero() {
                    None
                } else {
                    Some(d)
                },
                None => Some(default_idle_timeout()),
            }
        },
    }
}

/// How a configured value is read: a value the duration parser reads as a
/// non-zero duration is used as it is, a zero duration turns the timeout
/// off, and a blank or unreadable value leaves the default of ten minutes.
pub proof fn law_idle_timeout_uses_parsed_value(v: Seq<char>)
    ensures
        trim(v).len() > 0 && ascii_digit_count(trim(v)) <= MAX_DURATION_DIGITS ==> match humantime_parse(
            trim(v),
        ) {
            Some((secs, nanos)) => if secs == 0 && nanos == 0 {
                idle_timeout_policy(Some(v)) is None
            } else {
                idle_timeout_policy(Some(v)) == Some(Span { secs, nanos })
            },
            None => idle_timeout_policy(Some(v)) == Some(spec_default_idle_timeout()),
        },
        trim(v).len() == 0 ==> idle_timeout_policy(Some(v)) == Some(spec_default_idle_timeout()),
        spec_default_idle_timeout() == (Span { secs: 600, nanos: 0 }),
{
}

/// The effective idle timeout is never a zero span: a configured zero means
/// "no timeout" (`None`), and every other outcome is a non-zero duration.
pub proof fn law_idle_timeout_never_zero(value: Option<Seq<char>>)
    ensures
        idle_timeout_policy(value) matches Some(s) ==> !(s.secs == 0 && s.nanos == 0),
        value is None ==> idle_timeout_policy(value) == Some(spec_default_idle_timeout()),
{
}

} // verus!
