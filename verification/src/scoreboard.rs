//! The scoreboard: two displayed text labels holding the decimal rendering
//! of the score, refreshed only on frames where the score actually changed.

use vstd::prelude::*;

verus! {

use crate::entities::Score;

/// The decimal rendering of `n` as ASCII digit bytes, most significant
/// first, with no leading zeros (zero itself renders as "0").
pub open spec fn decimal_digits(n: nat) -> Seq<u8>
    decreases n,
{
    if n < 10 {
        seq![(48 + n) as u8]
    } else {
        decimal_digits(n / 10).push((48 + n % 10) as u8)
    }
}

/// Render `n` in decimal as ASCII digit bytes.
pub fn u32_to_decimal(n: u32) -> (r: Vec<u8>)
    ensures
        r@ == decimal_digits(n as nat),
    decreases n,
{
    if n < 10 {
        let mut r: Vec<u8> = Vec::new();
        r.push(48 + n as u8);
        proof {
            assert(r@ =~= decimal_digits(n as nat));
        }
        r
    } else {
        let mut r = u32_to_decimal(n / 10);
        r.push(48 + (n % 10) as u8);
        r
    }
}

/// The two score labels, together with the score they were last rendered
/// from and a count of the frames that actually rewrote them.
pub struct Scoreboard {
    pub player_text: Vec<u8>,
    pub ai_text: Vec<u8>,
    pub shown: Score,
    pub refreshes: u64,
}

/// Each label holds exactly the decimal rendering of the side's last-shown
/// counter.
pub open spec fn scoreboard_wf(sb: Scoreboard) -> bool {
    &&& sb.player_text@ == decimal_digits(sb.shown.player as nat)
    &&& sb.ai_text@ == decimal_digits(sb.shown.ai as nat)
}

impl Scoreboard {
    /// A scoreboard showing the starting score: both labels read "0".
    pub fn new() -> (sb: Scoreboard)
        ensures
            sb.shown == (Score { player: 0, ai: 0 }),
            sb.refreshes == 0,
            scoreboard_wf(sb),
    {
        Scoreboard {
            player_text: u32_to_decimal(0),
            ai_text: u32_to_decimal(0),
            shown: Score { player: 0, ai: 0 },
            refreshes: 0,
        }
    }
}

/// Refresh the labels, but only on a frame where the score differs from what
/// they show: an unchanged score leaves the scoreboard — refresh count
/// included — exactly as it was, and a changed one rewrites both labels to
/// the new score's rendering.
pub fn update_scoreboard(sb: &mut Scoreboard, score: &Score)
    requires
        old(sb).refreshes < u64::MAX,
    ensures
        scoreboard_wf(*old(sb)) ==> scoreboard_wf(*final(sb)),
        *score == old(sb).shown ==> *final(sb) == *old(sb),
        *score != old(sb).shown ==> {
            &&& final(sb).shown == *score
            &&& final(sb).player_text@ == decimal_digits(score.player as nat)
            &&& final(sb).ai_text@ == decimal_digits(score.ai as nat)
            &&& final(sb).refreshes == old(sb).refreshes + 1
        },
{
    if !(score.player == sb.shown.player && score.ai == sb.shown.ai) {
        sb.player_text = u32_to_decimal(score.player);
        sb.ai_text = u32_to_decimal(score.ai);
        sb.shown = *score;
        sb.refreshes = sb.refreshes + 1;
    }
}

} // verus!
