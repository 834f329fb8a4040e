//! The decisions of the infinite-scroll list: when to ask for more items, and
//! what to do with a batch that arrived. The page's event handlers apply them.
use vstd::prelude::*;

verus! {

/// How many more items a scroll to the bottom asks for.
pub const LOAD_MORE_AMOUNT: i32 = 10;

/// How many items are asked for when the list first shows.
pub const LOAD_INITIAL: i32 = 5;

/// How close to the bottom, in pixels, counts as the bottom.
pub const INFINITE_LOAD_THRESHHOLD: i32 = 100;

/// Whether a page of height `scroll_height` scrolled down to `scrolled_to`
/// is close enough to its bottom to load more.
pub fn reached_bottom(scroll_height: i32, scrolled_to: i32) -> (r: bool)
    ensures
        r == (scroll_height - INFINITE_LOAD_THRESHHOLD <= scrolled_to),
{
    (scroll_height as i64) - (INFINITE_LOAD_THRESHHOLD as i64) <= scrolled_to as i64
}

/// On a scroll event: how many items in total to ask for, if any. Nothing is
/// asked while a cool-down runs or a request is outstanding (`to_load` is
/// set); otherwise, at the bottom, the items shown plus `load_more`.
pub fn scroll_request(at_bottom: bool, cooling_down: bool, to_load: Option<i32>, shown: usize, load_more: i32) -> (r:
    Option<i32>)
    requires
        0 <= load_more,
        shown + load_more <= i32::MAX,
    ensures
        r == if at_bottom && !cooling_down && to_load is None {
            Some((shown + load_more) as i32)
        } else {
            None::<i32>
        },
{
    if at_bottom && !cooling_down && to_load.is_none() {
        Some((shown + load_more as usize) as i32)
    } else {
        None
    }
}

/// What to do with a batch of `fetched` items that arrived while `shown`
/// items were on the page.
pub enum LoadStep {
    /// Nothing to show yet: leave everything as it is.
    Keep,
    /// The batch is longer: show it and stop asking.
    Replace,
    /// Nothing new: start a cool-down and ask for `to_load` next.
    CoolDown { to_load: i32 },
}

/// The step taken after a batch arrived. `to_load` is the outstanding request.
pub fn after_load(shown: usize, fetched: usize, to_load: Option<i32>, load_more: i32) -> (r: LoadStep)
    requires
        i32::MIN <= (match to_load { Some(v) => v, None => load_more }) - load_more <= i32::MAX,
    ensures
        r == if fetched == 0 && shown == 0 {
            LoadStep::Keep
        } else if fetched > shown {
            LoadStep::Replace
        } else {
            LoadStep::CoolDown { to_load: ((match to_load { Some(v) => v, None => load_more }) - load_more) as i32 }
        },
{
    if fetched == 0 && shown == 0 {
        LoadStep::Keep
    } else if fetched > shown {
        LoadStep::Replace
    } else {
        let base = match to_load {
            Some(v) => v,
            None => load_more,
        };
        LoadStep::CoolDown { to_load: base - load_more }
    }
}

/// On a refresh: ask again for one more item than is shown.
pub fn refresh_request(shown: usize) -> (r: i32)
    requires
        shown < i32::MAX,
    ensures
        r == shown + 1,
{
    shown as i32 + 1
}

} // verus!
