//! How the commands put durations into words.

use crate::text::{concat2, decimal_text, i64_to_text, signed_decimal_text, u64_to_text};
use vstd::prelude::*;
use vstd::string::StringSliceAdditionalSpecFns;
use vstd::utf8::{encode_utf8, is_char_boundary};

verus! {

/// A number followed by a unit.
pub open spec fn counted(n: u64, unit: Seq<char>) -> Seq<char> {
    decimal_text(n as nat) + unit
}

/// A span of seconds in words: seconds below a minute, minutes below an
/// hour, hours with the minutes that are left below a day, else days with
/// the hours that are left. What is left is named only where it is not zero.
pub open spec fn duration_words(seconds: u64) -> Seq<char> {
    if seconds < 60 {
        counted(seconds, "秒"@)
    } else if seconds < 3600 {
        counted(seconds / 60, "分钟"@)
    } else if seconds < 86400 {
        if (seconds % 3600) / 60 > 0 {
            counted(seconds / 3600, "小时"@) + counted((seconds % 3600) / 60, "分钟"@)
        } else {
            counted(seconds / 3600, "小时"@)
        }
    } else {
        if (seconds % 86400) / 3600 > 0 {
            counted(seconds / 86400, "天"@) + counted((seconds % 86400) / 3600, "小时"@)
        } else {
            counted(seconds / 86400, "天"@)
        }
    }
}

/// A span of seconds, which may be negative, with its unit.
pub open spec fn signed_seconds(seconds: i64) -> Seq<char> {
    signed_decimal_text(seconds as int) + "秒"@
}

/// A span of seconds in one unit: the largest of seconds, minutes, hours
/// and days of which it holds at least one.
pub open spec fn relative_words(seconds: i64) -> Seq<char> {
    if seconds < 60 {
        signed_seconds(seconds)
    } else if seconds < 3600 {
        counted((seconds / 60) as u64, "分钟"@)
    } else if seconds < 86400 {
        counted((seconds / 3600) as u64, "小时"@)
    } else {
        counted((seconds / 86400) as u64, "天"@)
    }
}

/// A span of seconds in words, with what is left always named: seconds
/// below a minute, minutes below an hour, hours and minutes below a day,
/// else days and hours.
pub open spec fn span_words(seconds: i64) -> Seq<char> {
    if seconds < 60 {
        signed_seconds(seconds)
    } else if seconds < 3600 {
        counted((seconds / 60) as u64, "分钟"@)
    } else if seconds < 86400 {
        counted((seconds / 3600) as u64, "小时"@) + counted(((seconds % 3600) / 60) as u64, "分钟"@)
    } else {
        counted((seconds / 86400) as u64, "天"@) + counted(
            ((seconds % 86400) / 3600) as u64,
            "小时"@,
        )
    }
}

fn count_text(n: u64, unit: &str) -> (s: String)
    ensures
        s@ == counted(n, unit@),
{
    let digits = u64_to_text(n);
    concat2(digits.as_str(), unit)
}

/// Puts a span of seconds into words.
pub fn format_duration_seconds(seconds: u64) -> (s: String)
    ensures
        s@ == duration_words(seconds),
{
    if seconds < 60 {
        count_text(seconds, "秒")
    } else if seconds < 3600 {
        count_text(seconds / 60, "分钟")
    } else if seconds < 86400 {
        let hours = seconds / 3600;
        let minutes = (seconds % 3600) / 60;
        if minutes > 0 {
            let mut s = count_text(hours, "小时");
            let rest = count_text(minutes, "分钟");
            s.append(rest.as_str());
            s
        } else {
            count_text(hours, "小时")
        }
    } else {
        let days = seconds / 86400;
        let hours = (seconds % 86400) / 3600;
        if hours > 0 {
            let mut s = count_text(days, "天");
            let rest = count_text(hours, "小时");
            s.append(rest.as_str());
            s
        } else {
            count_text(days, "天")
        }
    }
}

fn seconds_text(seconds: i64) -> (s: String)
    ensures
        s@ == signed_seconds(seconds),
{
    let digits = i64_to_text(seconds);
    concat2(digits.as_str(), "秒")
}

/// Puts a span of seconds into words, in one unit.
pub fn format_relative_time(seconds: i64) -> (s: String)
    ensures
        s@ == relative_words(seconds),
{
    if seconds < 60 {
        seconds_text(seconds)
    } else if seconds < 3600 {
        count_text((seconds / 60) as u64, "分钟")
    } else if seconds < 86400 {
        count_text((seconds / 3600) as u64, "小时")
    } else {
        count_text((seconds / 86400) as u64, "天")
    }
}

/// Puts a span of seconds into words, with what is left always named.
pub fn format_duration(seconds: i64) -> (s: String)
    ensures
        s@ == span_words(seconds),
{
    if seconds < 60 {
        seconds_text(seconds)
    } else if seconds < 3600 {
        count_text((seconds / 60) as u64, "分钟")
    } else if seconds < 86400 {
        let mut s = count_text((seconds / 3600) as u64, "小时");
        let rest = count_text(((seconds % 3600) / 60) as u64, "分钟");
        s.append(rest.as_str());
        s
    } else {
        let mut s = count_text((seconds / 86400) as u64, "天");
        let rest = count_text(((seconds % 86400) / 3600) as u64, "小时");
        s.append(rest.as_str());
        s
    }
}

/// `n` blanks.
pub open spec fn blanks(n: int) -> Seq<char> {
    Seq::new(
        if n > 0 {
            n as nat
        } else {
            0
        },
        |i: int| ' ',
    )
}

/// Where a text that is longer than `max_len` bytes is cut to make room for
/// the three dots.
pub open spec fn cut_at(max_len: usize) -> int {
    if max_len >= 3 {
        max_len - 3
    } else {
        0
    }
}

/// Fits a text into a column of `max_len`: a text of at most `max_len` bytes
/// is filled up with blanks to `max_len` characters, a longer one is cut
/// three bytes short of `max_len` and ends in three dots. The cut must not
/// fall inside a character.
pub fn truncate_string(s: &str, max_len: usize) -> (r: String)
    requires
        s.len() > max_len ==> is_char_boundary(s.spec_bytes(), cut_at(max_len)),
    ensures
        s.len() <= max_len ==> r@ == s@ + blanks(max_len - s@.len()),
        s.len() > max_len ==> r@.len() >= 3 && r@.subrange(r@.len() - 3, r@.len() as int)
            == "..."@ && encode_utf8(r@.subrange(0, r@.len() - 3)) == s.spec_bytes().subrange(
            0,
            cut_at(max_len),
        ),
{
    if s.len() <= max_len {
        let n = s.unicode_len();
        let mut r = s.to_string();
        let mut k: usize = n;
        assert(r@ =~= s@ + blanks(k - s@.len()));
        while k < max_len
            invariant
                n == s@.len(),
                n <= k,
                k <= max_len || k == n,
                r@ == s@ + blanks(k - s@.len()),
            decreases max_len - k,
        {
            proof {
                reveal_strlit(" ");
            }
            r.append(" ");
            k += 1;
            assert(r@ =~= s@ + blanks(k - s@.len()));
        }
        assert(r@ =~= s@ + blanks(max_len - s@.len()));
        r
    } else {
        let cut: usize = if max_len >= 3 {
            max_len - 3
        } else {
            0
        };
        let (head, _) = s.split_at(cut);
        let mut r = head.to_string();
        r.append("...");
        proof {
            reveal_strlit("...");
            assert(r@.subrange(r@.len() - 3, r@.len() as int) =~= "..."@);
            assert(r@.subrange(0, r@.len() - 3) =~= head@);
        }
        r
    }
}

} // verus!
