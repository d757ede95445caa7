use vstd::prelude::*;
use vstd::string::StringExecFns;

use chrono::Timelike;

use crate::messages::{Channel, DigitizerId};
use crate::time::{Timestamp, CHRONO_MAX_SECS, CHRONO_MIN_SECS};

verus! {

/// The character of decimal digit `d`.
pub open spec fn digit(d: int) -> char {
    (d + 48) as char
}

/// The decimal digits of `n`, most significant first, without leading zeros.
pub open spec fn decimal(n: nat) -> Seq<char>
    decreases n,
{
    if n < 10 {
        seq![digit(n as int)]
    } else {
        decimal(n / 10).push(digit((n % 10) as int))
    }
}

/// The text of decimal digit `d`.
fn digit_str(d: u64) -> (s: &'static str)
    requires
        d < 10,
    ensures
        s@ == seq![digit(d as int)],
{
    proof {
        reveal_strlit("0");
        reveal_strlit("1");
        reveal_strlit("2");
        reveal_strlit("3");
        reveal_strlit("4");
        reveal_strlit("5");
        reveal_strlit("6");
        reveal_strlit("7");
        reveal_strlit("8");
        reveal_strlit("9");
    }
    if d == 0 {
        "0"
    } else if d == 1 {
        "1"
    } else if d == 2 {
        "2"
    } else if d == 3 {
        "3"
    } else if d == 4 {
        "4"
    } else if d == 5 {
        "5"
    } else if d == 6 {
        "6"
    } else if d == 7 {
        "7"
    } else if d == 8 {
        "8"
    } else {
        "9"
    }
}

/// The decimal digits of `n`, most significant first.
fn decimal_string(n: u64) -> (s: String)
    ensures
        s@ == decimal(n as nat),
    decreases n,
{
    if n < 10 {
        String::from_str(digit_str(n))
    } else {
        let mut s = decimal_string(n / 10);
        s.append(digit_str(n % 10));
        s
    }
}

/// Nanoseconds in one second.
pub const NANOS_PER_SECOND: i128 = 1_000_000_000;

/// The whole seconds of `t` since the epoch, rounded down.
pub open spec fn whole_seconds(t: Timestamp) -> int {
    (t.nanos as int) / (NANOS_PER_SECOND as int)
}

/// The nanoseconds of `t` past its whole second.
pub open spec fn subsecond_nanos(t: Timestamp) -> int {
    (t.nanos as int) % (NANOS_PER_SECOND as int)
}

/// Splits a timestamp into whole seconds since the epoch and nanoseconds past them.
pub fn split_seconds(t: Timestamp) -> (r: (i64, u32))
    requires
        t.in_range(),
    ensures
        r.0 == whole_seconds(t),
        r.1 == subsecond_nanos(t),
        r.0 * NANOS_PER_SECOND + r.1 == t.nanos,
        r.1 < NANOS_PER_SECOND,
{
    let n = t.nanos;
    if n >= 0 {
        let q = n / NANOS_PER_SECOND;
        let r = n % NANOS_PER_SECOND;
        assert(q <= 9_223_372_036_854_775_807) by (nonlinear_arith)
            requires
                q == n / 1_000_000_000i128,
                0 <= n <= 9_223_372_036_854_775_807_000_000i128,
        ;
        (q as i64, r as u32)
    } else {
        let m = 0 - n;
        let q = m / NANOS_PER_SECOND;
        let r = m % NANOS_PER_SECOND;
        assert(q <= 9_223_372_036_854_775_808) by (nonlinear_arith)
            requires
                q == m / 1_000_000_000i128,
                0 < m <= 9_223_372_036_854_775_808_000_000i128,
        ;
        assert(m == q * NANOS_PER_SECOND + r);
        if r == 0 {
            assert(n == (0 - q) * NANOS_PER_SECOND);
            assert((n as int) / 1_000_000_000int == 0 - q && (n as int) % 1_000_000_000int == 0) by (nonlinear_arith)
                requires
                    n == (0 - q) * 1_000_000_000i128,
            ;
            ((0 - q) as i64, 0)
        } else {
            assert(n == (0 - q - 1) * NANOS_PER_SECOND + (NANOS_PER_SECOND - r));
            assert((n as int) / 1_000_000_000int == 0 - q - 1 && (n as int) % 1_000_000_000int == NANOS_PER_SECOND - r)
                by (nonlinear_arith)
                requires
                    n == (0 - q - 1) * 1_000_000_000i128 + (1_000_000_000i128 - r),
                    0 < r < 1_000_000_000i128,
            ;
            ((0 - q - 1) as i64, (NANOS_PER_SECOND - r) as u32)
        }
    }
}

/// Whether chrono's `DateTime<Utc>` holds the instant `secs` seconds after
/// the epoch: between `MIN_UTC` and `MAX_UTC`.
pub open spec fn chrono_secs_in_range(secs: i64) -> bool {
    CHRONO_MIN_SECS <= secs <= CHRONO_MAX_SECS
}

/// The text that chrono's `format("%d/%m/%y")` writes for the instant `secs`
/// seconds and `nsecs` nanoseconds after the epoch, in UTC: day, month and
/// two-digit year.
pub uninterp spec fn date_text(secs: i64, nsecs: u32) -> Seq<char>;

/// The two decimal digits of `n`, which lies below one hundred.
pub open spec fn two_digits(n: int) -> Seq<char> {
    seq![digit(n / 10), digit(n % 10)]
}

/// The text that chrono's `format("%H:%M:%S")` writes for the instant `secs`
/// seconds after the epoch (within a second that is not a leap second), in
/// UTC: hours, minutes and seconds of the day, two digits each, separated by
/// colons.
pub open spec fn clock_text(secs: i64) -> Seq<char> {
    let of_day = (secs as int) % 86400;
    two_digits(of_day / 3600) + ":"@ + two_digits((of_day % 3600) / 60) + ":"@ + two_digits(of_day % 60)
}

/// Calls `chrono::DateTime::<Utc>::from_timestamp(secs, nsecs)` and, where it
/// gives a date-time, returns its `format("%d/%m/%y")` and `format("%H:%M:%S")`
/// texts and its `nanosecond()`. The contract claims: a date-time comes back
/// exactly when `secs` lies between `MIN_UTC` and `MAX_UTC` (the nanoseconds
/// are below one second); the date text is the one named by `date_text`, a
/// function of the arguments alone; the time text is `clock_text(secs)`;
/// `nanosecond()` gives `nsecs` back.
#[verifier::external_body]
fn chrono_date_and_clock(secs: i64, nsecs: u32) -> (r: Option<(String, String, u32)>)
    requires
        nsecs < 1_000_000_000,
    ensures
        r.is_some() == chrono_secs_in_range(secs),
        r matches Some(p) ==> p.0@ == date_text(secs, nsecs) && p.1@ == clock_text(secs) && p.2 == nsecs,
{
    match chrono::DateTime::<chrono::Utc>::from_timestamp(secs, nsecs) {
        Some(t) => Some((t.format("%d/%m/%y").to_string(), t.format("%H:%M:%S").to_string(), t.nanosecond())),
        None => None,
    }
}

/// The text shown for an instant that chrono holds: its date, its time of
/// day and its nanoseconds, one per line, the last followed by " ns".
pub open spec fn datetime_text(secs: i64, nsecs: u32) -> Seq<char> {
    date_text(secs, nsecs) + "\n"@ + clock_text(secs) + "\n"@ + decimal(nsecs as nat) + " ns"@
}

/// The text shown for a timestamp: "N/A" where there is none, or where chrono
/// cannot represent it, else `datetime_text` of its seconds and nanoseconds.
pub open spec fn timestamp_text(t: Option<Timestamp>) -> Seq<char> {
    match t {
        None => "N/A"@,
        Some(t) => if chrono_secs_in_range(whole_seconds(t) as i64) {
            datetime_text(whole_seconds(t) as i64, subsecond_nanos(t) as u32)
        } else {
            "N/A"@
        },
    }
}

/// Joins chrono's date and time texts and the nanoseconds into the table's
/// layout: one per line, the nanoseconds followed by " ns".
pub fn join_datetime_text(date: String, clock: &String, nanos: u32) -> (s: String)
    ensures
        s@ == date@ + "\n"@ + clock@ + "\n"@ + decimal(nanos as nat) + " ns"@,
{
    let mut s = date;
    s.append("\n");
    s.append(clock.as_str());
    s.append("\n");
    let digits = decimal_string(nanos as u64);
    s.append(digits.as_str());
    s.append(" ns");
    s
}

/// The text of a formatted timestamp, or "N/A" where there is none.
pub fn text_or_not_available(formatted: Option<String>) -> (s: String)
    ensures
        s@ == match formatted {
            Some(t) => t@,
            None => "N/A"@,
        },
{
    match formatted {
        Some(s) => s,
        None => String::from_str("N/A"),
    }
}

/// Formats a timestamp for the table.
pub fn format_timestamp(timestamp: Option<Timestamp>) -> (s: String)
    requires
        timestamp matches Some(t) ==> t.in_range(),
    ensures
        s@ == timestamp_text(timestamp),
{
    match timestamp {
        None => text_or_not_available(None),
        Some(t) => {
            let (secs, nsecs) = split_seconds(t);
            match chrono_date_and_clock(secs, nsecs) {
                Some((date, clock, nanos)) => text_or_not_available(Some(join_datetime_text(date, &clock, nanos))),
                None => text_or_not_available(None),
            }
        },
    }
}

/// "Yes" or "No".
pub open spec fn yes_no(b: bool) -> Seq<char> {
    if b {
        "Yes"@
    } else {
        "No"@
    }
}

fn yes_no_string(b: bool) -> (s: String)
    ensures
        s@ == yes_no(b),
{
    if b {
        String::from_str("Yes")
    } else {
        String::from_str("No")
    }
}

/// The channels listed one after another, each preceded by a space.
pub open spec fn channel_list_text(cs: Seq<Channel>) -> Seq<char>
    decreases cs.len(),
{
    if cs.len() == 0 {
        Seq::empty()
    } else {
        channel_list_text(cs.drop_last()) + " "@ + decimal(cs.last() as nat)
    }
}

/// The text of the channels present: empty where they are not known.
pub open spec fn channels_present_text(cs: Option<Seq<Channel>>) -> Seq<char> {
    match cs {
        None => Seq::empty(),
        Some(cs) => channel_list_text(cs),
    }
}

fn channels_present_string(cs: &Option<Vec<Channel>>) -> (s: String)
    ensures
        s@ == channels_present_text(match cs {
            Some(v) => Some(v@),
            None => None,
        }),
{
    match cs {
        None => String::new(),
        Some(v) => {
            let mut text = String::new();
            let n = v.len();
            let mut i: usize = 0;
            while i < n
                invariant
                    n == v@.len(),
                    i <= n,
                    text@ == channel_list_text(v@.subrange(0, i as int)),
                decreases n - i,
            {
                let d = decimal_string(v[i] as u64);
                text.append(" ");
                text.append(d.as_str());
                proof {
                    let pre = v@.subrange(0, i + 1);
                    assert(pre.drop_last() == v@.subrange(0, i as int));
                    assert(pre.last() == v@[i as int]);
                }
                i = i + 1;
            }
            assert(v@.subrange(0, n as int) == v@);
            text
        },
    }
}

/// What the trace monitor knows of one digitiser, as shown in its tables.
/// The decimal texts of the message rate and of the trace means are made by the
/// caller, which holds them as floating-point numbers.
#[derive(Clone, Debug)]
pub struct DigitiserRow {
    pub msg_count: usize,
    pub first_msg_timestamp: Option<Timestamp>,
    pub last_msg_timestamp: Option<Timestamp>,
    pub last_msg_frame: u32,
    pub msg_rate_text: String,
    pub num_channels_present: usize,
    pub channels_present: Option<Vec<Channel>>,
    pub has_num_channels_changed: bool,
    pub num_samples_in_first_channel: usize,
    pub is_num_samples_identical: bool,
    pub has_num_samples_changed: bool,
    pub bad_frame_count: usize,
    pub min_mean_text: String,
    pub max_mean_text: String,
}

impl DigitiserRow {
    /// The timestamps lie in the library's range.
    pub open spec fn wf(&self) -> bool {
        &&& (self.first_msg_timestamp matches Some(t) ==> t.in_range())
        &&& (self.last_msg_timestamp matches Some(t) ==> t.in_range())
    }

    /// The channels present, as a sequence where they are known.
    pub open spec fn channels_view(&self) -> Option<Seq<Channel>> {
        match self.channels_present {
            Some(v) => Some(v@),
            None => None,
        }
    }
}

/// The cells of the message table for digitiser `id`.
pub open spec fn message_cells(id: DigitizerId, r: DigitiserRow) -> Seq<Seq<char>> {
    seq![
        decimal(id as nat),
        decimal(r.msg_count as nat),
        timestamp_text(r.first_msg_timestamp),
        timestamp_text(r.last_msg_timestamp),
        decimal(r.last_msg_frame as nat),
        r.msg_rate_text@,
        decimal(r.bad_frame_count as nat),
    ]
}

/// The cells of the channel table for a digitiser.
pub open spec fn channel_cells(r: DigitiserRow) -> Seq<Seq<char>> {
    seq![
        decimal(r.num_channels_present as nat),
        yes_no(r.has_num_channels_changed),
        decimal(r.num_samples_in_first_channel as nat),
        yes_no(r.is_num_samples_identical),
        yes_no(r.has_num_samples_changed),
        decimal(r.bad_frame_count as nat),
        r.min_mean_text@,
        r.max_mean_text@,
        channels_present_text(r.channels_view()),
    ]
}

fn message_row(id: DigitizerId, r: &DigitiserRow) -> (row: Vec<String>)
    requires
        r.wf(),
    ensures
        row@.map_values(|s: String| s@) == message_cells(id, *r),
{
    let mut row: Vec<String> = Vec::new();
    row.push(decimal_string(id as u64));
    row.push(decimal_string(r.msg_count as u64));
    row.push(format_timestamp(r.first_msg_timestamp));
    row.push(format_timestamp(r.last_msg_timestamp));
    row.push(decimal_string(r.last_msg_frame as u64));
    row.push(r.msg_rate_text.clone());
    row.push(decimal_string(r.bad_frame_count as u64));
    assert(row@.map_values(|s: String| s@) =~= message_cells(id, *r));
    row
}

fn channel_row(r: &DigitiserRow) -> (row: Vec<String>)
    ensures
        row@.map_values(|s: String| s@) == channel_cells(*r),
{
    let mut row: Vec<String> = Vec::new();
    row.push(decimal_string(r.num_channels_present as u64));
    row.push(yes_no_string(r.has_num_channels_changed));
    row.push(decimal_string(r.num_samples_in_first_channel as u64));
    row.push(yes_no_string(r.is_num_samples_identical));
    row.push(yes_no_string(r.has_num_samples_changed));
    row.push(decimal_string(r.bad_frame_count as u64));
    row.push(r.min_mean_text.clone());
    row.push(r.max_mean_text.clone());
    row.push(channels_present_string(&r.channels_present));
    assert(row@.map_values(|s: String| s@) =~= channel_cells(*r));
    row
}

/// `order` lists each position of `ids` once, by ascending id.
pub open spec fn sorted_order_of(order: Seq<usize>, ids: Seq<DigitizerId>) -> bool {
    &&& order.len() == ids.len()
    &&& forall|k: int| 0 <= k < order.len() ==> #[trigger] order[k] < ids.len()
    &&& forall|a: int, b: int| 0 <= a < b < order.len() ==> #[trigger] order[a] != #[trigger] order[b]
    &&& forall|a: int, b: int| 0 <= a < b < order.len() ==> ids[#[trigger] order[a] as int] <= ids[#[trigger] order[b] as int]
}

/// The positions of `ids` ordered by id; equal ids keep their order.
pub fn sorted_order(ids: &Vec<DigitizerId>) -> (order: Vec<usize>)
    ensures
        sorted_order_of(order@, ids@),
{
    let n = ids.len();
    let mut order: Vec<usize> = Vec::new();
    let mut i: usize = 0;
    while i < n
        invariant
            n == ids@.len(),
            i <= n,
            order@.len() == i,
            forall|k: int| 0 <= k < order@.len() ==> #[trigger] order@[k] < i,
            forall|a: int, b: int| 0 <= a < b < order@.len() ==> #[trigger] order@[a] != #[trigger] order@[b],
            forall|a: int, b: int|
                0 <= a < b < order@.len() ==> ids@[#[trigger] order@[a] as int] <= ids@[#[trigger] order@[b] as int],
        decreases n - i,
    {
        let id = ids[i];
        let mut p: usize = 0;
        while p < order.len() && ids[order[p]] <= id
            invariant
                order@.len() == i,
                n == ids@.len(),
                i < n,
                id == ids@[i as int],
                p <= order@.len(),
                forall|k: int| 0 <= k < order@.len() ==> #[trigger] order@[k] < i,
                forall|k: int| 0 <= k < p ==> ids@[#[trigger] order@[k] as int] <= id,
            decreases order@.len() - p,
        {
            p = p + 1;
        }
        let ghost before = order@;
        order.insert(p, i);
        proof {
            assert(order@ == before.insert(p as int, i));
            assert forall|k: int| 0 <= k < order@.len() implies #[trigger] order@[k] < i + 1 by {
                if k < p {
                    assert(order@[k] == before[k]);
                } else if k > p {
                    assert(order@[k] == before[k - 1]);
                }
            }
            assert forall|a: int, b: int| 0 <= a < b < order@.len() implies #[trigger] order@[a] != #[trigger] order@[b] by {
                let a2 = if a < p { a } else { a - 1 };
                let b2 = if b <= p { b } else { b - 1 };
                if a != p && b != p {
                    assert(order@[a] == before[a2]);
                    assert(order@[b] == before[b2]);
                    assert(a2 < b2);
                } else if a == p {
                    assert(order@[b] == before[b - 1]);
                } else {
                    assert(order@[a] == before[a]);
                }
            }
            assert forall|a: int, b: int| 0 <= a < b < order@.len() implies ids@[#[trigger] order@[a] as int] <= ids@[
                #[trigger] order@[b] as int] by {
                if b < p {
                    assert(order@[a] == before[a]);
                    assert(order@[b] == before[b]);
                } else if b == p {
                    assert(order@[a] == before[a]);
                } else if a == p {
                    assert(order@[b] == before[b - 1]);
                    assert(ids@[before[p as int] as int] > id);
                    if b - 1 > p {
                        assert(ids@[before[p as int] as int] <= ids@[before[b - 1] as int]);
                    }
                } else if a < p {
                    assert(order@[a] == before[a]);
                    assert(order@[b] == before[b - 1]);
                    assert(ids@[before[a] as int] <= id);
                    assert(ids@[before[p as int] as int] > id);
                    if b - 1 > p {
                        assert(ids@[before[p as int] as int] <= ids@[before[b - 1] as int]);
                    }
                } else {
                    assert(order@[a] == before[a - 1]);
                    assert(order@[b] == before[b - 1]);
                }
            }
        }
        i = i + 1;
    }
    order
}

/// The table body as text.
pub open spec fn body_view(body: Seq<Vec<String>>) -> Seq<Seq<Seq<char>>> {
    body.map_values(|row: Vec<String>| row@.map_values(|s: String| s@))
}

/// The ids of the rows.
pub open spec fn row_ids(rows: Seq<(DigitizerId, DigitiserRow)>) -> Seq<DigitizerId> {
    rows.map_values(|e: (DigitizerId, DigitiserRow)| e.0)
}

/// The selected row of a table, if any.
#[derive(Clone, Copy, Debug, PartialEq, Eq, Structural)]
pub struct TableSelection {
    pub selected: Option<usize>,
}

impl TableSelection {
    /// Nothing selected.
    pub fn new() -> (t: TableSelection)
        ensures
            t.selected is None,
    {
        TableSelection { selected: None }
    }

    /// The selected row.
    pub fn selected(&self) -> (r: Option<usize>)
        ensures
            r == self.selected,
    {
        self.selected
    }

    /// Selects a row, or none.
    pub fn select(&mut self, index: Option<usize>)
        ensures
            final(self).selected == index,
    {
        self.selected = index;
    }
}

/// The selection after moving down a table of `len` rows: the next row, from
/// the last back to the first; the first where none was selected; unchanged
/// in an empty table.
pub open spec fn next_selection(selected: Option<usize>, len: nat) -> Option<usize> {
    if len == 0 {
        selected
    } else {
        match selected {
            Some(i) => if i >= len - 1 {
                Some(0)
            } else {
                Some((i + 1) as usize)
            },
            None => Some(0),
        }
    }
}

/// The selection after moving up a table of `len` rows: the previous row,
/// from the first round to the last; the first where none was selected;
/// unchanged in an empty table.
pub open spec fn previous_selection(selected: Option<usize>, len: nat) -> Option<usize> {
    if len == 0 {
        selected
    } else {
        match selected {
            Some(i) => if i == 0 {
                Some((len - 1) as usize)
            } else {
                Some((i - 1) as usize)
            },
            None => Some(0),
        }
    }
}

/// The state of the trace monitor's table.
#[derive(Clone, Debug)]
pub struct App {
    pub table_headers: Vec<String>,
    pub table_body: Vec<Vec<String>>,
    pub table_state: TableSelection,
}

impl App {
    /// A table with the given headers, no row and no selection.
    pub fn new(table_headers: &[&str]) -> (app: App)
        ensures
            app.table_headers@.len() == table_headers@.len(),
            forall|k: int| 0 <= k < table_headers@.len() ==> (#[trigger] app.table_headers@[k])@ == table_headers@[k]@,
            app.table_body@.len() == 0,
            app.table_state.selected is None,
    {
        let mut headers: Vec<String> = Vec::new();
        let n = table_headers.len();
        let mut i: usize = 0;
        while i < n
            invariant
                n == table_headers@.len(),
                i <= n,
                headers@.len() == i,
                forall|k: int| 0 <= k < i ==> (#[trigger] headers@[k])@ == table_headers@[k]@,
            decreases n - i,
        {
            headers.push(String::from_str(table_headers[i]));
            i = i + 1;
        }
        App { table_headers: headers, table_body: Vec::new(), table_state: TableSelection::new() }
    }

    /// Fills the body with one row per digitiser, by ascending id: its id,
    /// message count, first and last message timestamps, last frame, message
    /// rate and bad-frame count.
    pub fn generate_table_body(&mut self, rows: &Vec<(DigitizerId, DigitiserRow)>)
        requires
            forall|k: int| 0 <= k < rows@.len() ==> (#[trigger] rows@[k]).1.wf(),
        ensures
            final(self).table_headers == old(self).table_headers,
            final(self).table_state == old(self).table_state,
            exists|order: Seq<usize>|
                sorted_order_of(order, row_ids(rows@)) && body_view(final(self).table_body@) == order.map_values(
                    |j: usize| message_cells(rows@[j as int].0, rows@[j as int].1),
                ),
    {
        let ids = Self::ids(rows);
        let order = sorted_order(&ids);
        let ghost headers = self.table_headers;
        let ghost state = self.table_state;
        self.table_body.clear();
        let n = order.len();
        let mut k: usize = 0;
        while k < n
            invariant
                n == order@.len(),
                ids@ == row_ids(rows@),
                sorted_order_of(order@, ids@),
                forall|j: int| 0 <= j < rows@.len() ==> (#[trigger] rows@[j]).1.wf(),
                k <= n,
                body_view(self.table_body@) == order@.subrange(0, k as int).map_values(
                    |j: usize| message_cells(rows@[j as int].0, rows@[j as int].1),
                ),
                self.table_headers == headers,
                self.table_state == state,
            decreases n - k,
        {
            let j = order[k];
            let row = message_row(rows[j].0, &rows[j].1);
            let ghost before = self.table_body@;
            self.table_body.push(row);
            proof {
                assert(body_view(self.table_body@) =~= body_view(before).push(row@.map_values(|s: String| s@)));
                assert(order@.subrange(0, k + 1).map_values(|j: usize| message_cells(rows@[j as int].0, rows@[j as int].1))
                    =~= order@.subrange(0, k as int).map_values(
                    |j: usize| message_cells(rows@[j as int].0, rows@[j as int].1),
                ).push(message_cells(rows@[j as int].0, rows@[j as int].1)));
            }
            k = k + 1;
        }
        assert(order@.subrange(0, n as int) == order@);
    }

    /// Fills the body with one row per digitiser, by ascending id: its number
    /// of channels and whether that changed, samples in its first channel,
    /// whether the sample counts agree and changed, its bad-frame count, the
    /// smallest and largest trace mean, and the channels present.
    pub fn generate_table_body2(&mut self, rows: &Vec<(DigitizerId, DigitiserRow)>)
        ensures
            final(self).table_headers == old(self).table_headers,
            final(self).table_state == old(self).table_state,
            exists|order: Seq<usize>|
                sorted_order_of(order, row_ids(rows@)) && body_view(final(self).table_body@) == order.map_values(
                    |j: usize| channel_cells(rows@[j as int].1),
                ),
    {
        let ids = Self::ids(rows);
        let order = sorted_order(&ids);
        let ghost headers = self.table_headers;
        let ghost state = self.table_state;
        self.table_body.clear();
        let n = order.len();
        let mut k: usize = 0;
        while k < n
            invariant
                n == order@.len(),
                ids@ == row_ids(rows@),
                sorted_order_of(order@, ids@),
                k <= n,
                body_view(self.table_body@) == order@.subrange(0, k as int).map_values(
                    |j: usize| channel_cells(rows@[j as int].1),
                ),
                self.table_headers == headers,
                self.table_state == state,
            decreases n - k,
        {
            let j = order[k];
            let row = channel_row(&rows[j].1);
            let ghost before = self.table_body@;
            self.table_body.push(row);
            proof {
                assert(body_view(self.table_body@) =~= body_view(before).push(row@.map_values(|s: String| s@)));
                assert(order@.subrange(0, k + 1).map_values(|j: usize| channel_cells(rows@[j as int].1))
                    =~= order@.subrange(0, k as int).map_values(|j: usize| channel_cells(rows@[j as int].1)).push(
                    channel_cells(rows@[j as int].1),
                ));
            }
            k = k + 1;
        }
        assert(order@.subrange(0, n as int) == order@);
    }

    fn ids(rows: &Vec<(DigitizerId, DigitiserRow)>) -> (ids: Vec<DigitizerId>)
        ensures
            ids@ == row_ids(rows@),
    {
        let mut ids: Vec<DigitizerId> = Vec::new();
        let n = rows.len();
        let mut i: usize = 0;
        while i < n
            invariant
                n == rows@.len(),
                i <= n,
                ids@ == row_ids(rows@).subrange(0, i as int),
            decreases n - i,
        {
            ids.push(rows[i].0);
            i = i + 1;
            assert(ids@ =~= row_ids(rows@).subrange(0, i as int));
        }
        assert(row_ids(rows@).subrange(0, n as int) =~= row_ids(rows@));
        ids
    }

    /// Moves the selection to the next row (see `next_selection`).
    pub fn next(&mut self)
        ensures
            final(self).table_headers == old(self).table_headers,
            final(self).table_body == old(self).table_body,
            final(self).table_state.selected == next_selection(old(self).table_state.selected, old(self).table_body@.len()),
    {
        if self.table_body.len() == 0 {
            return ;
        }
        let i = match self.table_state.selected() {
            Some(i) => {
                if i >= self.table_body.len() - 1 {
                    0
                } else {
                    i + 1
                }
            },
            None => 0,
        };
        self.table_state.select(Some(i));
    }

    /// Moves the selection to the previous row (see `previous_selection`).
    pub fn previous(&mut self)
        ensures
            final(self).table_headers == old(self).table_headers,
            final(self).table_body == old(self).table_body,
            final(self).table_state.selected == previous_selection(
                old(self).table_state.selected,
                old(self).table_body@.len(),
            ),
    {
        if self.table_body.len() == 0 {
            return ;
        }
        let i = match self.table_state.selected() {
            Some(i) => {
                if i == 0 {
                    self.table_body.len() - 1
                } else {
                    i - 1
                }
            },
            None => 0,
        };
        self.table_state.select(Some(i));
    }
}

/// Law: in a table with rows, where no row or a row of the table is selected,
/// moving down leaves a row of the table selected, and so does moving up.
pub proof fn law_moves_select_a_row(selected: Option<usize>, len: nat)
    requires
        len > 0,
        len <= usize::MAX,
        selected matches Some(i) ==> i < len,
    ensures
        next_selection(selected, len) matches Some(i) && i < len,
        previous_selection(selected, len) matches Some(i) && i < len,
{
}

/// Law: moving up undoes moving down, and moving down undoes moving up, when a
/// row of the table is selected.
pub proof fn law_previous_undoes_next(i: usize, len: nat)
    requires
        i < len,
        len <= usize::MAX,
    ensures
        previous_selection(next_selection(Some(i), len), len) == Some(i),
        next_selection(previous_selection(Some(i), len), len) == Some(i),
{
}

} // verus!
