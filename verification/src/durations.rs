//! The day's durations as reported by the remote service, and the rule that
//! turns them into the displayed title.

use vstd::prelude::*;

verus! {

/// One coding interval of the day. Only `duration_millis` feeds the
/// displayed total; the remaining fields ride along unread.
pub struct DataItem {
    pub color: Option<String>,
    /// Length of the interval, in whole milliseconds.
    pub duration_millis: u64,
    pub project: String,
    /// Start of the interval, in whole milliseconds since the epoch.
    pub time_millis: u64,
}

/// The remote service's per-day summary of coding intervals.
pub struct ApiResponse {
    pub data: Vec<DataItem>,
    pub end: String,
    pub start: String,
    pub timezone: String,
}

/// Sum of the interval lengths, in milliseconds.
pub open spec fn sum_millis(data: Seq<DataItem>) -> int
    decreases data.len(),
{
    if data.len() == 0 {
        0
    } else {
        sum_millis(data.drop_last()) + data.last().duration_millis
    }
}

/// The displayed total: whole seconds of the summed durations, clamped to
/// `u32::MAX`.
pub open spec fn total_seconds_spec(r: ApiResponse) -> int {
    let s = sum_millis(r.data@) / 1000;
    if s > u32::MAX as int {
        u32::MAX as int
    } else {
        s
    }
}

pub proof fn lemma_sum_millis_bounds(data: Seq<DataItem>)
    ensures
        0 <= sum_millis(data) <= data.len() * (u64::MAX as int),
    decreases data.len(),
{
    if data.len() > 0 {
        lemma_sum_millis_bounds(data.drop_last());
    }
}

impl ApiResponse {
    /// Total coding time of the day in whole seconds, clamped to `u32::MAX`.
    pub fn total_seconds(&self) -> (r: u32)
        ensures
            r == total_seconds_spec(*self),
    {
        let n = self.data.len();
        let mut acc: u128 = 0;
        let mut i: usize = 0;
        while i < n
            invariant
                n == self.data@.len(),
                i <= n,
                acc == sum_millis(self.data@.subrange(0, i as int)),
            decreases n - i,
        {
            proof {
                lemma_sum_millis_bounds(self.data@.subrange(0, i as int));
                assert(self.data@.subrange(0, i + 1).drop_last() =~= self.data@.subrange(
                    0,
                    i as int,
                ));
            }
            acc = acc + self.data[i].duration_millis as u128;
            i = i + 1;
        }
        proof {
            assert(self.data@.subrange(0, n as int) =~= self.data@);
        }
        let secs: u128 = acc / 1000;
        if secs > u32::MAX as u128 {
            u32::MAX
        } else {
            secs as u32
        }
    }

    /// The title that this response makes the tray display: the summed
    /// durations, floored to whole seconds, rendered as hours and minutes.
    pub fn title(&self) -> (r: String)
        ensures
            r@ == title_spec(total_seconds_spec(*self)),
    {
        let secs = self.total_seconds();
        format_title(secs)
    }
}

pub const DIGITS: [char; 10] = ['0', '1', '2', '3', '4', '5', '6', '7', '8', '9'];

/// Decimal digits of `n`, most significant first, with no leading zero
/// except for `n == 0` itself.
pub open spec fn spec_dec(n: nat) -> Seq<char>
    decreases n,
{
    if n < 10 {
        seq![DIGITS@[n as int]]
    } else {
        spec_dec(n / 10) + seq![DIGITS@[(n % 10) as int]]
    }
}

/// The displayed title for a total of `seconds`: hours, the letter `h`,
/// leftover minutes, the letter `m`; truncating division, no padding.
pub open spec fn title_spec(seconds: int) -> Seq<char>
    recommends
        0 <= seconds,
{
    spec_dec((seconds / 3600) as nat) + seq!['h'] + spec_dec(((seconds % 3600) / 60) as nat)
        + seq!['m']
}

fn digit_str(d: u32) -> (r: &'static str)
    requires
        d < 10,
    ensures
        r@ == seq![DIGITS@[d as int]],
{
    proof {
        reveal_strlit("0");
        reveal_strlit("1");
        reveal_strlit("2");
        reveal_strlit("3");
        reveal_strlit("4");
        reveal_strlit("5");
        reveal_strlit("6");
        reveal_strlit("7");
        reveal_strlit("8");
        reveal_strlit("9");
        assert("0"@ =~= seq!['0']);
        assert("1"@ =~= seq!['1']);
        assert("2"@ =~= seq!['2']);
        assert("3"@ =~= seq!['3']);
        assert("4"@ =~= seq!['4']);
        assert("5"@ =~= seq!['5']);
        assert("6"@ =~= seq!['6']);
        assert("7"@ =~= seq!['7']);
        assert("8"@ =~= seq!['8']);
        assert("9"@ =~= seq!['9']);
    }
    match d {
        0 => "0",
        1 => "1",
        2 => "2",
        3 => "3",
        4 => "4",
        5 => "5",
        6 => "6",
        7 => "7",
        8 => "8",
        _ => "9",
    }
}

fn push_dec(s: &mut String, n: u32)
    ensures
        final(s)@ == old(s)@ + spec_dec(n as nat),
    decreases n,
{
    if n >= 10 {
        push_dec(s, n / 10);
    }
    s.append(digit_str(n % 10));
    proof {
        assert(old(s)@ + spec_dec(n as nat) =~= s@);
    }
}

/// Render a total of `seconds` as the tray title, for example `1h1m`.
pub fn format_title(seconds: u32) -> (r: String)
    ensures
        r@ == title_spec(seconds as int),
{
    let h: u32 = seconds / 3600;
    let m: u32 = (seconds % 3600) / 60;
    let mut s = String::new();
    push_dec(&mut s, h);
    s.append("h");
    push_dec(&mut s, m);
    s.append("m");
    proof {
        reveal_strlit("h");
        reveal_strlit("m");
        assert("h"@ =~= seq!['h']);
        assert("m"@ =~= seq!['m']);
        assert(s@ =~= title_spec(seconds as int));
    }
    s
}

/// A response with no intervals at all is displayed as `0h0m`.
pub proof fn lemma_empty_data_title(r: ApiResponse)
    requires
        r.data@.len() == 0,
    ensures
        title_spec(total_seconds_spec(r)) == "0h0m"@,
{
    reveal_strlit("0h0m");
    assert(sum_millis(r.data@) == 0);
    assert(title_spec(0) =~= "0h0m"@);
}

} // verus!
