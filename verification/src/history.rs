//! The scan history: the most recent recognized texts, newest first.

use vstd::prelude::*;

use crate::text::{
    all_digits, decimal, digit_char, digits_value, lemma_decimal_writes, join_path, joined_path, push_decimal, push_separator,
};

verus! {

/// How many scans the history keeps.
pub const HISTORY_LIMIT: usize = 200;

/// One recognized text with its id (milliseconds since the Unix epoch at the
/// time of the scan) and the time of day it was taken at.
#[derive(Clone, Debug)]
pub struct HistoryEntry {
    pub id: u64,
    pub text: String,
    pub timestamp: String,
}

/// A number written with at least two digits, padded with a leading zero.
pub open spec fn two_digits(n: nat) -> Seq<char> {
    if n < 10 {
        seq!['0', digit_char(n as int)]
    } else {
        decimal(n)
    }
}

/// The time of day as an entry shows it: hour and minute, each with at
/// least two digits, separated by a colon, as in `09:05`.
pub open spec fn time_of_day(hour: u32, minute: u32) -> Seq<char> {
    two_digits(hour as nat) + seq![':'] + two_digits(minute as nat)
}

fn push_two_digits(s: &mut String, n: u32)
    ensures
        final(s)@ == old(s)@ + two_digits(n as nat),
{
    if n < 10 {
        push_decimal(s, 0);
        assert(decimal(0) =~= seq!['0']);
    }
    push_decimal(s, n as u128);
    assert(n < 10 ==> decimal(n as nat) =~= seq![digit_char(n as int)]);
    assert(old(s)@ + seq!['0'] + decimal(n as nat) =~= old(s)@ + (seq!['0'] + decimal(n as nat)));
}

/// The label of the time of day at which a scan was taken, such as `09:05`.
pub fn time_of_day_label(hour: u32, minute: u32) -> (r: String)
    ensures
        r@ == time_of_day(hour, minute),
{
    let mut r = String::new();
    push_two_digits(&mut r, hour);
    push_separator(&mut r, ':');
    push_two_digits(&mut r, minute);
    r
}

/// The history after a new scan: the new entry first, then the older ones in
/// their order, cut to the limit.
pub open spec fn appended(entries: Seq<HistoryEntry>, entry: HistoryEntry) -> Seq<HistoryEntry> {
    let all = seq![entry] + entries;
    if all.len() > HISTORY_LIMIT {
        all.take(HISTORY_LIMIT as int)
    } else {
        all
    }
}

/// The path of the history file inside the application data directory.
pub fn history_path(app_data_dir: &str) -> (r: String)
    ensures
        r@ == joined_path(app_data_dir@, "history.json"@),
{
    join_path(app_data_dir, "history.json")
}

/// Puts a new scan at the front of the history and drops the oldest ones
/// beyond the limit.
pub fn append(entries: &mut Vec<HistoryEntry>, entry: HistoryEntry)
    ensures
        final(entries)@ == appended(old(entries)@, entry),
{
    let ghost e = entry;
    entries.insert(0, entry);
    assert(entries@ =~= seq![e] + old(entries)@);
    if entries.len() > HISTORY_LIMIT {
        entries.truncate(HISTORY_LIMIT);
    }
}

/// The history never holds more than the limit, the new scan comes first and
/// the older scans follow in their order.
pub proof fn lemma_append_newest_first(entries: Seq<HistoryEntry>, entry: HistoryEntry)
    ensures
        appended(entries, entry).len() <= HISTORY_LIMIT,
        appended(entries, entry).len() == if entries.len() < HISTORY_LIMIT {
            entries.len() + 1
        } else {
            HISTORY_LIMIT as nat
        },
        appended(entries, entry)[0] == entry,
        forall|i: int|
            0 < i < appended(entries, entry).len() ==> #[trigger] appended(entries, entry)[i]
                == entries[i - 1],
{
}

/// A number written with `two_digits` has at least two digits and writes
/// that number; numbers below one hundred take exactly two.
pub proof fn lemma_two_digits(n: nat)
    ensures
        all_digits(two_digits(n)),
        digits_value(two_digits(n)) == n,
        two_digits(n).len() >= 2,
        n < 100 ==> two_digits(n).len() == 2,
{
    lemma_decimal_writes(n);
    if n < 10 {
        let t = two_digits(n);
        assert(t.drop_last() =~= seq!['0']);
        assert(seq!['0'].drop_last() =~= Seq::<char>::empty());
        assert(digits_value(Seq::<char>::empty()) == 0);
        assert(seq!['0'].last() == '0');
        assert(digits_value(seq!['0']) == 0);
        assert(decimal(n)[0] == digit_char(n as int));
        assert(t.last() == decimal(n)[0]);
        assert(t[0] == '0' && t[1] == decimal(n)[0]);
    } else if n < 100 {
        assert(decimal((n / 10) as nat).len() == 1) by {
            lemma_decimal_writes((n / 10) as nat);
        }
    }
}

/// A time of day within a day is shown in five characters: two digits of
/// the hour, a colon, two digits of the minute.
pub proof fn lemma_time_of_day(hour: u32, minute: u32)
    requires
        hour < 24,
        minute < 60,
    ensures
        time_of_day(hour, minute).len() == 5,
        time_of_day(hour, minute)[2] == ':',
        all_digits(time_of_day(hour, minute).take(2)),
        all_digits(time_of_day(hour, minute).skip(3)),
        digits_value(time_of_day(hour, minute).take(2)) == hour,
        digits_value(time_of_day(hour, minute).skip(3)) == minute,
{
    lemma_two_digits(hour as nat);
    lemma_two_digits(minute as nat);
    let t = time_of_day(hour, minute);
    assert(t.take(2) =~= two_digits(hour as nat));
    assert(t.skip(3) =~= two_digits(minute as nat));
}

} // verus!
