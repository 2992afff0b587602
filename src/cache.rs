//! Looking up today's or yesterday's picture among the files already stored.

use vstd::prelude::*;
use crate::date::{date_digits, is_day_digits, is_instant, SECONDS_PER_DAY};
use crate::text::{has_prefix, join_path, joined};

verus! {

/// A picture found in the local store, by the day it belongs to.
#[derive(Debug, Clone, PartialEq, Eq)]
pub enum LocalPicture {
    Today(String),
    Yesterday(String),
}

pub open spec fn starts_with(names: Seq<String>, i: int, prefix: Seq<char>) -> bool {
    prefix.is_prefix_of(names[i]@)
}

/// No entry before index `end` starts with `prefix`.
pub open spec fn none_before(names: Seq<String>, end: int, prefix: Seq<char>) -> bool {
    forall|j: int| 0 <= j < end ==> !#[trigger] starts_with(names, j, prefix)
}

/// What a scan of the entry `names` of directory `dir` finds: the first entry
/// that starts with `today`; failing that, the last one that starts with
/// `yesterday`; failing that, nothing.
pub open spec fn local_picture_found(
    dir: Seq<char>,
    names: Seq<String>,
    today: Seq<char>,
    yesterday: Seq<char>,
    r: Option<LocalPicture>,
) -> bool {
    match r {
        Some(LocalPicture::Today(p)) => exists|i: int|
            0 <= i < names.len() && #[trigger] starts_with(names, i, today) && none_before(
                names,
                i,
                today,
            ) && p@ == joined(dir, names[i]@),
        Some(LocalPicture::Yesterday(p)) => none_before(names, names.len() as int, today)
            && exists|i: int|
            0 <= i < names.len() && #[trigger] starts_with(names, i, yesterday) && (forall|j: int|
                i < j < names.len() ==> !#[trigger] starts_with(names, j, yesterday)) && p@
                == joined(dir, names[i]@),
        None => none_before(names, names.len() as int, today) && none_before(
            names,
            names.len() as int,
            yesterday,
        ),
    }
}

/// Scans the entry names of `dir` for a picture of the day `today` or, as a
/// fallback, of the day `yesterday` (both `YYYYMMDD` prefixes).
pub fn find_local_picture(dir: &str, names: &Vec<String>, today: &str, yesterday: &str) -> (r:
    Option<LocalPicture>)
    ensures
        local_picture_found(dir@, names@, today@, yesterday@, r),
{
    let mut last_yesterday: Option<usize> = None;
    let mut i: usize = 0;
    while i < names.len()
        invariant
            i <= names@.len(),
            none_before(names@, i as int, today@),
            match last_yesterday {
                Some(k) => k < i && starts_with(names@, k as int, yesterday@) && (forall|j: int|
                    k < j < i ==> !#[trigger] starts_with(names@, j, yesterday@)),
                None => none_before(names@, i as int, yesterday@),
            },
        decreases names.len() - i,
    {
        if has_prefix(names[i].as_str(), today) {
            let p = join_path(dir, names[i].as_str());
            assert(starts_with(names@, i as int, today@));
            return Some(LocalPicture::Today(p));
        } else if has_prefix(names[i].as_str(), yesterday) {
            last_yesterday = Some(i);
        }
        i = i + 1;
    }
    match last_yesterday {
        Some(k) => {
            let p = join_path(dir, names[k].as_str());
            assert(starts_with(names@, k as int, yesterday@));
            Some(LocalPicture::Yesterday(p))
        },
        None => None,
    }
}

/// Looks, at the instant `now`, for today's picture among the entry names of
/// `dir`, and for yesterday's as a fallback, where yesterday is the UTC day
/// that holds `now` minus 24 hours.
pub fn poll_local_picture(dir: &str, names: &Vec<String>, now: i64) -> (r: Option<LocalPicture>)
    requires
        is_instant(now as int),
        is_instant(now - SECONDS_PER_DAY),
    ensures
        exists|today: Seq<char>, yesterday: Seq<char>|
            is_day_digits(now as int, today) && is_day_digits(now - SECONDS_PER_DAY, yesterday)
                && #[trigger] local_picture_found(dir@, names@, today, yesterday, r),
{
    let today = date_digits(now);
    let yesterday = date_digits(now - SECONDS_PER_DAY);
    find_local_picture(dir, names, today.as_str(), yesterday.as_str())
}

} // verus!
