//! What holds of reconciliation over all names, dates and runs.
use vstd::prelude::*;
use crate::calendar::Date;
use crate::date::{is_ascii_digit, parse_date_spec, second_segment, underscore_from};
use crate::directory::{directory_action, EntryAction};
use crate::file::{name_plan, planned_write, NamePlan};
use crate::normalization::normalized;

verus! {

pub open spec fn is_separator(c: char) -> bool {
    c == '_' || c == '-'
}

pub open spec fn is_media_prefix(p: Seq<char>) -> bool {
    p == seq!['I', 'M', 'G'] || p == seq!['V', 'I', 'D'] || p == seq!['P', 'A', 'N', 'O']
}

/// `raw` reads `(IMG|VID|PANO)[_-]` followed by eight digits and `[_-]`,
/// the prefix being `raw[..k]`.
pub open spec fn has_dated_shape(raw: Seq<char>, k: int) -> bool {
    &&& 0 <= k
    &&& k + 10 <= raw.len()
    &&& is_media_prefix(raw.subrange(0, k))
    &&& is_separator(raw[k])
    &&& forall|i: int| k + 1 <= i < k + 9 ==> is_ascii_digit(#[trigger] raw[i])
    &&& is_separator(raw[k + 9])
}

proof fn lemma_underscore_at(s: Seq<char>, from: int, to: int)
    requires
        0 <= from <= to < s.len(),
        forall|i: int| from <= i < to ==> #[trigger] s[i] != '_',
        s[to] == '_',
    ensures
        underscore_from(s, from) == to,
    decreases to - from,
{
    if from < to {
        lemma_underscore_at(s, from + 1, to);
    }
}

/// Whatever mix of hyphens and underscores separates the prefix, the eight
/// digits and the rest, the date token of the normalized name is exactly the
/// eight digits of the original name.
pub proof fn lemma_token_is_the_eight_digits(raw: Seq<char>, k: int)
    requires
        has_dated_shape(raw, k),
    ensures
        second_segment(normalized(raw)) == Some(raw.subrange(k + 1, k + 9)),
{
    let n = normalized(raw);
    let p = raw.subrange(0, k);
    assert(forall|i: int| 0 <= i < k ==> #[trigger] raw[i] == p[i]);
    assert forall|i: int| 0 <= i < k implies #[trigger] n[i] != '_' by {
        let img = seq!['I', 'M', 'G'];
        let vid = seq!['V', 'I', 'D'];
        let pano = seq!['P', 'A', 'N', 'O'];
        assert(img[0] == 'I' && img[1] == 'M' && img[2] == 'G');
        assert(vid[0] == 'V' && vid[1] == 'I' && vid[2] == 'D');
        assert(pano[0] == 'P' && pano[1] == 'A' && pano[2] == 'N' && pano[3] == 'O');
        assert(p.len() == k);
        if i == 0 {
        } else if i == 1 {
        } else if i == 2 {
        } else {
            assert(p == pano);
        }
    }
    lemma_underscore_at(n, 0, k);
    assert forall|i: int| k + 1 <= i < k + 9 implies #[trigger] n[i] == raw[i] && n[i] != '_' by {
        assert(is_ascii_digit(raw[i]));
    }
    lemma_underscore_at(n, k + 1, k + 9);
    assert(n.subrange(k + 1, k + 9) =~= raw.subrange(k + 1, k + 9));
}

/// A date equal to today is not in the future, and a future date differs
/// from today and lies strictly after it.
pub proof fn lemma_future_is_strict(date: Date, today: Date)
    ensures
        date == today ==> !today.precedes(date),
        today.precedes(date) ==> date != today && !date.precedes(today),
{
}

/// Reconciling a second time writes nothing: once the stored date of a file
/// was rewritten to the date its name carries, and reads back as that date,
/// the same name and the same day call for no further write.
pub proof fn lemma_second_run_writes_nothing(file_name: Seq<char>, today: Date, stored: Option<Date>)
    ensures
        ({
            let after = match planned_write(file_name, today, stored) {
                Some(written) => Some(written),
                None => stored,
            };
            planned_write(file_name, today, after) is None
        }),
{
}

/// The date written for a file one directory below the root of a walk.
pub open spec fn nested_planned_write(
    recursive: bool,
    file_name: Seq<char>,
    today: Date,
    stored: Option<Date>,
) -> Option<Date> {
    if directory_action(recursive) == EntryAction::Descend {
        planned_write(file_name, today, stored)
    } else {
        None
    }
}

/// A file in a subdirectory is never written by a single-level walk, and a
/// recursive walk writes it exactly as it would a file at the root, so that a
/// correctable date is corrected.
pub proof fn lemma_only_recursive_walks_reach_subdirectories(
    file_name: Seq<char>,
    today: Date,
    stored: Option<Date>,
)
    ensures
        nested_planned_write(false, file_name, today, stored) is None,
        nested_planned_write(true, file_name, today, stored) == planned_write(
            file_name,
            today,
            stored,
        ),
{
}

/// A file whose name carries a date after today keeps its stored date: no
/// date is written for it, whatever it stores.
pub proof fn lemma_future_names_are_not_written(
    file_name: Seq<char>,
    today: Date,
    stored: Option<Date>,
    token: Seq<char>,
    date: Date,
)
    requires
        second_segment(normalized(file_name)) == Some(token),
        parse_date_spec(token) == Ok::<Date, crate::date::DateParseError>(date),
        today.precedes(date),
    ensures
        planned_write(file_name, today, stored) is None,
        name_plan(file_name, today) is Unmatched || name_plan(file_name, today) == (
        NamePlan::FutureDate { date }),
{
}

} // verus!
