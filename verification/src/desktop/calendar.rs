//! The timeline's calendar. Stage notes are dated by a day offset from the
//! timeline's reference day, Sunday 3 May 2026.
use vstd::prelude::*;
use crate::desktop::types::{notes_view, StageNote, StageNoteView};

verus! {

/// Month number, day of month and month abbreviation of day offset
/// `offset`, as the timeline labels it. Days of March are counted back from
/// 1 April as though April had 30 days and March 31; beyond August the
/// labels run on past the month's end, and a day number that does not fit a
/// byte wraps.
pub open spec fn month_day(offset: i32) -> (u8, u8, Seq<char>) {
    let m = 3 + offset;
    if 1 <= m <= 31 {
        (5, m as u8, "May"@)
    } else if m < 1 && m > -30 {
        (4, (30 + m) as u8, "Apr"@)
    } else if m <= -30 {
        (3, (31 + (m + 30)) as u8, "Mar"@)
    } else if m <= 31 + 30 {
        (6, (m - 31) as u8, "Jun"@)
    } else if m <= 31 + 30 + 31 {
        (7, (m - 61) as u8, "Jul"@)
    } else {
        (8, (m - 92) as u8, "Aug"@)
    }
}

pub fn day_to_month_day(offset: i32) -> (r: (u8, u8, &'static str))
    requires
        offset <= i32::MAX - 3,
    ensures
        (r.0, r.1, r.2@) == month_day(offset),
{
    let may_day: i32 = 3 + offset;
    if may_day >= 1 && may_day <= 31 {
        (5, may_day as u8, "May")
    } else if may_day < 1 && may_day > -30 {
        (4, (30 + may_day) as u8, "Apr")
    } else if may_day <= -30 {
        let d: i32 = 31 + (may_day + 30);
        (3, #[verifier::truncate] (d as u8), "Mar")
    } else if may_day <= 31 + 30 {
        (6, (may_day - 31) as u8, "Jun")
    } else if may_day <= 31 + 30 + 31 {
        (7, (may_day - 61) as u8, "Jul")
    } else {
        let d: i32 = may_day - 92;
        (8, #[verifier::truncate] (d as u8), "Aug")
    }
}

/// Weekday initial of day offset `offset` (offset 0 is a Sunday).
pub open spec fn weekday_letter(offset: i32) -> Seq<char> {
    let dow = offset % 7;
    if dow == 0 || dow == 6 {
        "S"@
    } else if dow == 1 {
        "M"@
    } else if dow == 2 || dow == 4 {
        "T"@
    } else if dow == 3 {
        "W"@
    } else {
        "F"@
    }
}

pub fn day_of_week_letter(day_offset: i32) -> (r: &'static str)
    ensures
        r@ == weekday_letter(day_offset),
{
    // 2147483653 is a multiple of 7 that makes every offset non-negative.
    let shifted: i64 = day_offset as i64 + 2147483653;
    let dow: i64 = shifted % 7;
    assert(dow == day_offset % 7) by (nonlinear_arith)
        requires
            shifted == day_offset + 7 * 306783379,
            shifted >= 0,
            dow == shifted % 7,
    ;
    if dow == 0 || dow == 6 {
        "S"
    } else if dow == 1 {
        "M"
    } else if dow == 2 || dow == 4 {
        "T"
    } else if dow == 3 {
        "W"
    } else {
        "F"
    }
}

/// The day offset where the timeline pill of stage note `si` ends: at the
/// next stage's day; the last stage, when it is the job's current stage,
/// runs to today (offset 0); otherwise a stage ends 14 days after it began.
pub open spec fn stage_end_spec(notes: Seq<StageNoteView>, si: int, current_stage: usize) -> int {
    if si < notes.len() - 1 {
        notes[si + 1].day_offset as int
    } else if si == current_stage {
        0
    } else {
        notes[si].day_offset + 14
    }
}

pub fn stage_end_day(notes: &Vec<StageNote>, si: usize, current_stage: usize) -> (r: i32)
    requires
        si < notes@.len(),
        si + 1 >= notes@.len() && si != current_stage ==> notes@[si as int].day_offset <= i32::MAX - 14,
    ensures
        r == stage_end_spec(notes_view(notes@), si as int, current_stage),
{
    if si < notes.len() - 1 {
        notes[si + 1].day_offset
    } else if si == current_stage {
        0
    } else {
        notes[si].day_offset + 14
    }
}

} // verus!
