//! What the pool's HTTP status API computes from the monitor's statistics.
use vstd::prelude::*;
use crate::text::{concat2, decimal, u64_to_decimal};

verus! {

/// The state shared by the API's request handlers: the status monitor.
#[derive(Clone, Debug)]
pub struct ApiState<M> {
    pub status_monitor: M,
}

/// Blocks still to sync: how far the network height is ahead, when it is known
/// and ahead.
pub fn remaining_blocks(current_block_height: u64, network_block_height: Option<u64>) -> (r: Option<u64>)
    ensures
        r == match network_block_height {
            Some(n) => if n > current_block_height { Some((n - current_block_height) as u64) } else { None },
            None => None,
        },
{
    match network_block_height {
        Some(n) => if n > current_block_height { Some(n - current_block_height) } else { None },
        None => None,
    }
}

/// The estimated time to sync `blocks` blocks at two seconds a block: seconds
/// under a minute, minutes under an hour, else hours and minutes.
pub open spec fn time_remaining_text(blocks: u64) -> Seq<char> {
    let seconds = (blocks * 2) as nat;
    if seconds < 60 {
        decimal(seconds) + "秒"@
    } else if seconds < 3600 {
        decimal(seconds / 60) + "分钟"@
    } else {
        decimal(seconds / 3600) + "小时"@ + decimal((seconds % 3600) / 60) + "分钟"@
    }
}

/// The estimated time to sync `blocks` blocks.
pub fn estimated_time_remaining(blocks: u64) -> (s: String)
    requires
        blocks * 2 <= u64::MAX,
    ensures
        s@ == time_remaining_text(blocks),
{
    let seconds = blocks * 2;
    if seconds < 60 {
        let d = u64_to_decimal(seconds);
        concat2(d.as_str(), "秒")
    } else if seconds < 3600 {
        let d = u64_to_decimal(seconds / 60);
        concat2(d.as_str(), "分钟")
    } else {
        let h = u64_to_decimal(seconds / 3600);
        let m = u64_to_decimal((seconds % 3600) / 60);
        let mut s = concat2(h.as_str(), "小时");
        s.append(m.as_str());
        s.append("分钟");
        s
    }
}

/// The estimate reads as the sync time of two seconds a block, cut to whole
/// units: under a minute, the seconds; under an hour, the whole minutes; else the
/// whole hours (however many, with no wrap at a day) and the whole minutes left
/// over (under 60), which together are the time cut to the minute.
pub proof fn time_remaining_reads_as_the_duration(blocks: u64)
    ensures
        ({
            let s = blocks * 2;
            let text = time_remaining_text(blocks);
            &&& s < 60 ==> text == decimal(s as nat) + "秒"@
            &&& 60 <= s < 3600 ==> exists|mn: nat| #![trigger decimal(mn)]
                mn * 60 <= s < mn * 60 + 60 && text == decimal(mn) + "分钟"@
            &&& s >= 3600 ==> exists|h: nat, mn: nat| #![trigger decimal(h), decimal(mn)]
                mn < 60 && h * 3600 + mn * 60 <= s < h * 3600 + mn * 60 + 60
                && text == decimal(h) + "小时"@ + decimal(mn) + "分钟"@
        }),
{
    let s = (blocks * 2) as nat;
    if 60 <= s < 3600 {
        let mn = s / 60;
        assert(mn * 60 <= s < mn * 60 + 60);
        assert(time_remaining_text(blocks) == decimal(mn) + "分钟"@);
    } else if s >= 3600 {
        let h = s / 3600;
        let r = s % 3600;
        let mn = r / 60;
        assert(s == h * 3600 + r);
        assert(r == mn * 60 + r % 60);
        assert(mn < 60);
        assert(time_remaining_text(blocks) == decimal(h) + "小时"@ + decimal(mn) + "分钟"@);
    }
}

} // verus!
