//! Reading process statistics out of the text of `/proc` files: GPU
//! engine time and memory from DRM `fdinfo` entries, CPU ticks from
//! `/proc/self/stat`, and resident memory from `/proc/self/status`.
use vstd::prelude::*;
use crate::text::{
    has_prefix, line_at, line_end, lemma_line_end_bounds, nth_token, parse_u64, parse_unsigned,
    strip_prefix, token,
};

verus! {

/// 2⁶⁴: the counters below wrap around at this value, as unsigned 64-bit
/// additions do in an optimised build.
pub open spec fn wrap() -> int {
    0x1_0000_0000_0000_0000
}

/// Key of the cumulative render-engine time, in nanoseconds.
pub const DRM_RENDER_KEY: &'static str = "drm-engine-render:";

/// Key of the VRAM currently allocated, in bytes.
pub const DRM_VRAM_KEY: &'static str = "drm-memory-vram:";

/// The value an `fdinfo` line gives for `key`: if the line begins with
/// `key`, the first whitespace-separated token after it, read as a `u64`.
pub open spec fn fdinfo_value(line: Seq<char>, key: Seq<char>) -> Option<nat> {
    if has_prefix(line, key) {
        match nth_token(line.skip(key.len() as int), 0) {
            Some(t) => parse_unsigned(t, u64::MAX as nat),
            None => None,
        }
    } else {
        None
    }
}

/// The value an `fdinfo` line gives for `key`.
pub fn fdinfo_line_value(line: &str, key: &str) -> (v: Option<u64>)
    ensures
        v matches Some(x) ==> fdinfo_value(line@, key@) == Some(x as nat),
        v is None ==> fdinfo_value(line@, key@) is None,
{
    match strip_prefix(line, key) {
        Some(rest) => match token(rest, 0) {
            Some(t) => parse_u64(t),
            None => None,
        },
        None => None,
    }
}

/// The sum of the values all lines of `s` from the line start `start` on
/// give for `key` (lines giving no value count as zero).
pub open spec fn fdinfo_sum(s: Seq<char>, start: int, key: Seq<char>) -> nat
    decreases s.len() + 1 - start,
{
    if start < 0 || start >= s.len() {
        0
    } else {
        proof {
            lemma_line_end_bounds(s, start);
        }
        let v = match fdinfo_value(line_at(s, start), key) {
            Some(x) => x,
            None => 0,
        };
        v + fdinfo_sum(s, line_end(s, start) + 1, key)
    }
}

/// The sum, wrapping around at 2⁶⁴, of `total` and the values the lines of
/// `s` give for `key`.
pub fn add_fdinfo_values(total: u64, s: &str, key: &str) -> (r: u64)
    ensures
        r == (total + fdinfo_sum(s@, 0, key@)) % wrap(),
{
    let n = s.unicode_len();
    let mut acc = total;
    let mut start: usize = 0;
    let ghost mut done: int = total as int;
    while start < n
        invariant
            n == s@.len(),
            start <= n,
            done + fdinfo_sum(s@, start as int, key@) == total + fdinfo_sum(s@, 0, key@),
            acc == done % wrap(),
        decreases n - start,
    {
        proof {
            lemma_line_end_bounds(s@, start as int);
        }
        let mut e = start;
        while e < n && s.get_char(e) != '\n'
            invariant
                n == s@.len(),
                start <= e <= n,
                line_end(s@, start as int) == line_end(s@, e as int),
            decreases n - e,
        {
            e = e + 1;
        }
        let mut end = e;
        if e < n && e > start && s.get_char(e - 1) == '\r' {
            end = e - 1;
        }
        let line = s.substring_char(start, end);
        proof {
            let seg = s@.subrange(start as int, e as int);
            if e < n && e > start && s@[e - 1] == '\r' {
                assert(line@ =~= seg.drop_last());
            } else {
                assert(line@ =~= seg);
            }
        }
        let v: u64 = match fdinfo_line_value(line, key) {
            Some(x) => x,
            None => 0,
        };
        proof {
            vstd::arithmetic::div_mod::lemma_add_mod_noop(done as int, v as int, wrap());
            vstd::arithmetic::div_mod::lemma_small_mod(v as nat, wrap() as nat);
            if acc + v < wrap() {
                vstd::arithmetic::div_mod::lemma_small_mod((acc + v) as nat, wrap() as nat);
            } else {
                vstd::arithmetic::div_mod::lemma_mod_sub_multiples_vanish(
                    (acc + v) as int,
                    wrap(),
                );
                vstd::arithmetic::div_mod::lemma_small_mod((acc + v - wrap()) as nat, wrap() as nat);
            }
            done = done + v as int;
        }
        acc = acc.wrapping_add(v);
        if e >= n {
            start = n;
            proof {
                assert(fdinfo_sum(s@, e + 1, key@) == 0);
            }
        } else {
            start = e + 1;
        }
    }
    acc
}

/// Running totals of render-engine time and VRAM over several `fdinfo`
/// entries.
#[derive(Debug, Clone, Copy, PartialEq, Eq, Structural)]
pub struct DrmTotals {
    pub render_ns: u64,
    pub vram_bytes: u64,
}

impl DrmTotals {
    /// Add what one `fdinfo` entry with text `s` reports.
    pub fn add_entry(&self, s: &str) -> (r: DrmTotals)
        ensures
            r.render_ns == (self.render_ns + fdinfo_sum(s@, 0, DRM_RENDER_KEY@)) % wrap(),
            r.vram_bytes == (self.vram_bytes + fdinfo_sum(s@, 0, DRM_VRAM_KEY@)) % wrap(),
    {
        DrmTotals {
            render_ns: add_fdinfo_values(self.render_ns, s, DRM_RENDER_KEY),
            vram_bytes: add_fdinfo_values(self.vram_bytes, s, DRM_VRAM_KEY),
        }
    }
}

} // verus!

verus! {

/// The number the whitespace-separated token of index `k` of `s` holds,
/// or zero when there is no such token or it is no `u64`.
pub open spec fn token_number(s: Seq<char>, k: int) -> nat {
    match nth_token(s, k) {
        Some(t) => match parse_unsigned(t, u64::MAX as nat) {
            Some(v) => v,
            None => 0,
        },
        None => 0,
    }
}

fn token_u64_or_zero(s: &str, k: usize) -> (v: u64)
    ensures
        v == token_number(s@, k as int),
{
    match token(s, k) {
        Some(t) => match parse_u64(t) {
            Some(v) => v,
            None => 0,
        },
        None => 0,
    }
}

/// CPU time of the process, in clock ticks, from the text of
/// `/proc/self/stat`: user time (token 13) plus system time (token 14),
/// each zero when missing or unreadable.
pub fn cpu_ticks(stat: &str) -> (t: u64)
    ensures
        t == (token_number(stat@, 13) as int + token_number(stat@, 14) as int) % wrap(),
{
    let utime = token_u64_or_zero(stat, 13);
    let stime = token_u64_or_zero(stat, 14);
    proof {
        if utime + stime < wrap() {
            vstd::arithmetic::div_mod::lemma_small_mod((utime + stime) as nat, wrap() as nat);
        } else {
            vstd::arithmetic::div_mod::lemma_mod_sub_multiples_vanish(
                (utime + stime) as int,
                wrap(),
            );
            vstd::arithmetic::div_mod::lemma_small_mod(
                (utime + stime - wrap()) as nat,
                wrap() as nat,
            );
        }
    }
    utime.wrapping_add(stime)
}

/// The first line of `s`, from the line start `start` on, that begins
/// with `p`.
pub open spec fn first_line_with_prefix(s: Seq<char>, start: int, p: Seq<char>) -> Option<
    Seq<char>,
>
    decreases s.len() + 1 - start,
{
    if start < 0 || start >= s.len() {
        None
    } else {
        proof {
            lemma_line_end_bounds(s, start);
        }
        if has_prefix(line_at(s, start), p) {
            Some(line_at(s, start))
        } else {
            first_line_with_prefix(s, line_end(s, start) + 1, p)
        }
    }
}

/// Resident memory of the process, in kilobytes, from the text of
/// `/proc/self/status`: token 1 of the first line that begins with
/// `VmRSS:`, or zero when there is none or it is no `u64`.
pub fn rss_kb(status: &str) -> (kb: u64)
    ensures
        kb == (match first_line_with_prefix(status@, 0, "VmRSS:"@) {
            Some(line) => token_number(line, 1),
            None => 0,
        }),
{
    let n = status.unicode_len();
    let mut start: usize = 0;
    while start < n
        invariant
            n == status@.len(),
            start <= n,
            first_line_with_prefix(status@, 0, "VmRSS:"@) == first_line_with_prefix(
                status@,
                start as int,
                "VmRSS:"@,
            ),
        decreases n - start,
    {
        proof {
            lemma_line_end_bounds(status@, start as int);
        }
        let mut e = start;
        while e < n && status.get_char(e) != '\n'
            invariant
                n == status@.len(),
                start <= e <= n,
                line_end(status@, start as int) == line_end(status@, e as int),
            decreases n - e,
        {
            e = e + 1;
        }
        let mut end = e;
        if e < n && e > start && status.get_char(e - 1) == '\r' {
            end = e - 1;
        }
        let line = status.substring_char(start, end);
        proof {
            let seg = status@.subrange(start as int, e as int);
            if e < n && e > start && status@[e - 1] == '\r' {
                assert(line@ =~= seg.drop_last());
            } else {
                assert(line@ =~= seg);
            }
        }
        if crate::text::starts_with(line, "VmRSS:") {
            return token_u64_or_zero(line, 1);
        }
        if e >= n {
            assert(first_line_with_prefix(status@, e + 1, "VmRSS:"@) is None);
            return 0;
        }
        start = e + 1;
    }
    0
}

} // verus!
