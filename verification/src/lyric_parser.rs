//! The lyric timeline: reading time-stamped lyric text into rows, and finding
//! the row that is sung at a given moment.
//!
//! A line carries a row when it holds a stamp `[MM:SS.F]`, with two digits of
//! minutes, two of seconds and one or more of a fraction, at any place in the
//! line. The leftmost stamp counts and the row's text is what follows it.
use vstd::prelude::*;
use crate::text::{
    chars_of, string_of_range, slice_of, is_digit, is_digit_char, digit_value, digit_char,
    decimal_value, all_digits, int_of, parse_i32,
};

verus! {

/// One line of lyrics and the moment, in milliseconds, at which it starts.
#[derive(Debug)]
pub struct LyricRow {
    pub start: i32,
    pub content: String,
}

impl View for LyricRow {
    type V = (int, Seq<char>);

    open spec fn view(&self) -> (int, Seq<char>) {
        (self.start as int, self.content@)
    }
}

impl LyricRow {
    pub fn new(start: i32, content: String) -> (row: Self)
        ensures
            row.start == start,
            row.content == content,
    {
        Self { start, content }
    }
}

/// The rows of a timeline as pairs of start and text.
pub open spec fn rows_view(rows: Seq<LyricRow>) -> Seq<(int, Seq<char>)> {
    rows.map_values(|r: LyricRow| r@)
}

/// How many digits stand in `line` from index `from` on, without a gap.
pub open spec fn digit_run(line: Seq<char>, from: int) -> nat
    decreases line.len() - from,
{
    if 0 <= from < line.len() && is_digit(line[from]) {
        1 + digit_run(line, from + 1)
    } else {
        0
    }
}

/// How many characters stand in `s` from index `from` up to the next line
/// feed, or to the end where there is none.
pub open spec fn text_run(s: Seq<char>, from: int) -> nat
    decreases s.len() - from,
{
    if 0 <= from < s.len() && s[from] != '\n' {
        1 + text_run(s, from + 1)
    } else {
        0
    }
}

/// Whether a stamp `[MM:SS.F]` starts at index `i` of `line`.
pub open spec fn stamp_at(line: Seq<char>, i: int) -> bool {
    &&& 0 <= i
    &&& i + 9 <= line.len()
    &&& line[i] == '['
    &&& is_digit(line[i + 1])
    &&& is_digit(line[i + 2])
    &&& line[i + 3] == ':'
    &&& is_digit(line[i + 4])
    &&& is_digit(line[i + 5])
    &&& line[i + 6] == '.'
    &&& is_digit(line[i + 7])
    &&& i + 7 + digit_run(line, i + 7) < line.len()
    &&& line[i + 7 + digit_run(line, i + 7)] == ']'
}

/// The index just behind the stamp that starts at `i`.
pub open spec fn stamp_end(line: Seq<char>, i: int) -> int {
    i + 7 + digit_run(line, i + 7) + 1
}

/// The moment that the stamp at `i` names, in milliseconds. The fraction is
/// not counted.
pub open spec fn stamp_ms(line: Seq<char>, i: int) -> int {
    ((digit_value(line[i + 1]) * 10 + digit_value(line[i + 2])) * 60 + (digit_value(line[i + 4])
        * 10 + digit_value(line[i + 5]))) * 1000
}

/// The least index from `from` on at which a stamp starts, or the length of
/// the line where there is none.
pub open spec fn first_stamp(line: Seq<char>, from: int) -> int
    decreases line.len() - from,
{
    if from < 0 || from >= line.len() {
        line.len() as int
    } else if stamp_at(line, from) {
        from
    } else {
        first_stamp(line, from + 1)
    }
}

/// The row that one line carries, if any: the time of its leftmost stamp and
/// the text behind that stamp, up to the end of the line.
pub open spec fn row_of(line: Seq<char>) -> Option<(int, Seq<char>)> {
    let i = first_stamp(line, 0);
    if i < line.len() {
        let c = stamp_end(line, i);
        Some((stamp_ms(line, i), line.subrange(c, c + text_run(line, c))))
    } else {
        None
    }
}

/// A line as it is read: one carriage return before the line feed that ended
/// it does not belong to it.
pub open spec fn trimmed(raw: Seq<char>, fed: bool) -> Seq<char> {
    if fed && raw.len() > 0 && raw.last() == '\r' {
        raw.drop_last()
    } else {
        raw
    }
}

/// The row of one line as a sequence: one row, or none.
pub open spec fn line_rows(line: Seq<char>) -> Seq<(int, Seq<char>)> {
    match row_of(line) {
        Some(r) => seq![r],
        None => Seq::empty(),
    }
}

/// The rows of `s` from the line that starts at index `start` on, where the
/// characters of that line before index `pos` hold no line feed. A line ends
/// at a line feed or at the end of the text; the text behind a last line feed
/// is a line only where it is not empty.
pub open spec fn lyric_rows_from(s: Seq<char>, start: int, pos: int) -> Seq<(int, Seq<char>)>
    decreases s.len() - pos,
{
    if start < 0 || pos < start {
        Seq::empty()
    } else if pos >= s.len() {
        if start < s.len() {
            line_rows(s.subrange(start, s.len() as int))
        } else {
            Seq::empty()
        }
    } else if s[pos] == '\n' {
        line_rows(trimmed(s.subrange(start, pos), true)) + lyric_rows_from(s, pos + 1, pos + 1)
    } else {
        lyric_rows_from(s, start, pos + 1)
    }
}

/// The timeline that a lyric text holds: the rows of its lines, in the order
/// of the lines. Lines without a stamp carry nothing.
pub open spec fn lyric_rows(s: Seq<char>) -> Seq<(int, Seq<char>)> {
    lyric_rows_from(s, 0, 0)
}

/// The time that two decimal fields give, minutes and seconds, in
/// milliseconds; nothing where a field is no `i32` or the time does not fit
/// in one.
pub open spec fn time_of(minutes: Seq<char>, seconds: Seq<char>) -> Option<int> {
    match (int_of(minutes), int_of(seconds)) {
        (Some(m), Some(s)) => {
            let t = (m * 60 + s) * 1000;
            if i32::MIN <= t <= i32::MAX {
                Some(t)
            } else {
                None
            }
        },
        _ => None,
    }
}

/// Both fields of a stamp are read as numbers and give a time that fits.
pub proof fn lemma_stamp_time(line: Seq<char>, i: int)
    requires
        stamp_at(line, i),
    ensures
        time_of(line.subrange(i + 1, i + 3), line.subrange(i + 4, i + 6)) == Some(
            stamp_ms(line, i),
        ),
        0 <= stamp_ms(line, i) <= 6_039_000,
        stamp_ms(line, i) % 1000 == 0,
{
    lemma_two_digits(line.subrange(i + 1, i + 3));
    lemma_two_digits(line.subrange(i + 4, i + 6));
}

/// Two digits write the number ten times the first plus the second.
pub proof fn lemma_two_digits(s: Seq<char>)
    requires
        s.len() == 2,
        is_digit(s[0]),
        is_digit(s[1]),
    ensures
        int_of(s) == Some(digit_value(s[0]) * 10 + digit_value(s[1])),
{
    let front = s.drop_last();
    assert(front.len() == 1);
    assert(front.last() == s[0]);
    assert(front.drop_last().len() == 0);
    assert(decimal_value(front.drop_last()) == 0);
    assert(decimal_value(front) == digit_value(s[0]));
    assert(decimal_value(s) == digit_value(s[0]) * 10 + digit_value(s[1]));
    assert(all_digits(s));
}

/// Reads minutes and seconds, each a decimal `i32`, and gives the time in
/// milliseconds.
pub fn parse_time(minute_str: &str, seconds_str: &str) -> (r: Option<i32>)
    ensures
        match r {
            Some(t) => time_of(minute_str@, seconds_str@) == Some(t as int),
            None => time_of(minute_str@, seconds_str@) is None,
        },
{
    if let Some(minutes) = parse_i32(minute_str) {
        if let Some(seconds) = parse_i32(seconds_str) {
            let t: i64 = (minutes as i64 * 60 + seconds as i64) * 1000;
            if -2147483648 <= t && t <= 2147483647 {
                return Some(t as i32);
            }
        }
    }
    None
}

fn scan_digits(line: &Vec<char>, from: usize) -> (end: usize)
    requires
        from <= line.len(),
    ensures
        end == from + digit_run(line@, from as int),
        end <= line.len(),
{
    let mut j: usize = from;
    while j < line.len() && is_digit_char(line[j])
        invariant
            from <= j <= line.len(),
            from + digit_run(line@, from as int) == j + digit_run(line@, j as int),
        decreases line.len() - j,
    {
        j += 1;
    }
    j
}

fn scan_text(s: &Vec<char>, from: usize) -> (end: usize)
    requires
        from <= s.len(),
    ensures
        end == from + text_run(s@, from as int),
        end <= s.len(),
{
    let mut j: usize = from;
    while j < s.len() && s[j] != '\n'
        invariant
            from <= j <= s.len(),
            from + text_run(s@, from as int) == j + text_run(s@, j as int),
        decreases s.len() - j,
    {
        j += 1;
    }
    j
}

/// Tests for a stamp at index `i`; where there is one, gives the index just
/// behind it.
fn stamp_here(line: &Vec<char>, i: usize) -> (r: Option<usize>)
    requires
        i < line.len(),
    ensures
        match r {
            Some(c) => stamp_at(line@, i as int) && c == stamp_end(line@, i as int) && c
                <= line.len(),
            None => !stamp_at(line@, i as int),
        },
{
    if line.len() - i < 9 {
        return None;
    }
    if line[i] == '[' && is_digit_char(line[i + 1]) && is_digit_char(line[i + 2]) && line[i + 3]
        == ':' && is_digit_char(line[i + 4]) && is_digit_char(line[i + 5]) && line[i + 6] == '.'
        && is_digit_char(line[i + 7]) {
        let e = scan_digits(line, i + 7);
        if e < line.len() && line[e] == ']' {
            return Some(e + 1);
        }
    }
    None
}

/// Reads one line, given by its characters, into the row that it carries.
pub fn parse_line(line: &Vec<char>) -> (r: Option<LyricRow>)
    ensures
        match r {
            Some(row) => row_of(line@) == Some(row@),
            None => row_of(line@) is None,
        },
{
    let n = line.len();
    let mut i: usize = 0;
    while i < n
        invariant
            i <= n,
            n == line.len(),
            first_stamp(line@, 0) == first_stamp(line@, i as int),
        decreases n - i,
    {
        if let Some(c) = stamp_here(line, i) {
            let e = scan_text(line, c);
            let minutes = string_of_range(line, i + 1, i + 3);
            let seconds = string_of_range(line, i + 4, i + 6);
            let content = string_of_range(line, c, e);
            proof {
                lemma_stamp_time(line@, i as int);
            }
            return match parse_time(minutes.as_str(), seconds.as_str()) {
                Some(t) => Some(LyricRow::new(t, content)),
                None => None,
            };
        }
        i += 1;
    }
    None
}

/// Reads one line of lyric text into the row that it carries.
pub fn parse_row(line: &str) -> (r: Option<LyricRow>)
    ensures
        match r {
            Some(row) => row_of(line@) == Some(row@),
            None => row_of(line@) is None,
        },
{
    let chars = chars_of(line);
    parse_line(&chars)
}

/// Appends the row of `s[start..stop]`, if it carries one.
fn push_line(rows: &mut Vec<LyricRow>, s: &Vec<char>, start: usize, stop: usize)
    requires
        start <= stop <= s.len(),
    ensures
        rows_view(final(rows)@) == rows_view(old(rows)@) + line_rows(
            s@.subrange(start as int, stop as int),
        ),
{
    let line = slice_of(s, start, stop);
    let ghost before = rows_view(rows@);
    if let Some(row) = parse_line(&line) {
        rows.push(row);
        proof {
            assert(rows_view(rows@) =~= before + seq![row@]);
        }
    } else {
        proof {
            assert(before + Seq::<(int, Seq<char>)>::empty() =~= before);
        }
    }
}

/// Reads a lyric text into its timeline: one row for each line that holds a
/// stamp, in the order of the lines. The rows are neither sorted nor merged.
pub fn parse_rows(content: &str) -> (rows: Vec<LyricRow>)
    ensures
        rows_view(rows@) == lyric_rows(content@),
        forall|i: int| 0 <= i < rows.len() ==> whole_second(#[trigger] rows[i]@),
{
    proof {
        lemma_rows_read(content@);
    }
    let s = chars_of(content);
    let n = s.len();
    let mut rows: Vec<LyricRow> = Vec::new();
    let mut start: usize = 0;
    let mut pos: usize = 0;
    proof {
        assert(rows_view(rows@) + lyric_rows(content@) =~= lyric_rows(content@));
    }
    while pos < n
        invariant
            start <= pos <= n,
            n == s.len(),
            s@ == content@,
            lyric_rows(content@) == rows_view(rows@) + lyric_rows_from(
                content@,
                start as int,
                pos as int,
            ),
        decreases n - pos,
    {
        if s[pos] == '\n' {
            let ghost before = rows_view(rows@);
            let ghost rest = lyric_rows_from(content@, pos + 1, pos + 1);
            let mut stop = pos;
            if start < pos && s[pos - 1] == '\r' {
                stop = pos - 1;
            }
            proof {
                let raw = s@.subrange(start as int, pos as int);
                if start < pos && s[pos - 1] == '\r' {
                    assert(raw.drop_last() =~= s@.subrange(start as int, stop as int));
                }
                assert(s@.subrange(start as int, stop as int) == trimmed(raw, true));
            }
            push_line(&mut rows, &s, start, stop);
            proof {
                let row = line_rows(trimmed(s@.subrange(start as int, pos as int), true));
                assert((before + row) + rest =~= before + (row + rest));
            }
            start = pos + 1;
        }
        pos += 1;
    }
    if start < n {
        push_line(&mut rows, &s, start, n);
    } else {
        proof {
            assert(rows_view(rows@) + Seq::<(int, Seq<char>)>::empty() =~= rows_view(rows@));
        }
    }
    proof {
        assert forall|i: int| 0 <= i < rows.len() implies whole_second(#[trigger] rows[i]@) by {
            assert(rows_view(rows@)[i] == rows[i]@);
        }
    }
    rows
}

/// The text that stands for a timeline without rows.
pub open spec fn no_lyric() -> Seq<char> {
    "no lyric"@
}

/// Whether `k` is the last row of `rows` that has started at the moment `t`.
pub open spec fn is_latest_started(rows: Seq<LyricRow>, t: int, k: int) -> bool {
    &&& 0 <= k < rows.len()
    &&& rows[k].start <= t
    &&& forall|j: int| k < j < rows.len() ==> (#[trigger] rows[j]).start > t
}

/// Whether no row of `rows` has started at the moment `t`.
pub open spec fn none_started(rows: Seq<LyricRow>, t: int) -> bool {
    forall|j: int| 0 <= j < rows.len() ==> (#[trigger] rows[j]).start > t
}

/// The line to show at the moment `t_ms`: the text of the last row that has
/// started by then; the first row's text while none has; a fixed notice for
/// a timeline without rows.
pub fn lyric_at(rows: &Vec<LyricRow>, t_ms: i32) -> (line: &str)
    ensures
        rows.len() == 0 ==> line@ == no_lyric(),
        rows.len() > 0 && none_started(rows@, t_ms as int) ==> line@ == rows[0].content@,
        forall|k: int| is_latest_started(rows@, t_ms as int, k) ==> line@ == rows[k].content@,
{
    let n = rows.len();
    if n == 0 {
        return "no lyric";
    }
    let mut i: usize = n;
    while i > 0
        invariant
            i <= n,
            n == rows.len(),
            forall|j: int| i <= j < n ==> (#[trigger] rows[j]).start > t_ms,
        decreases i,
    {
        if rows[i - 1].start <= t_ms {
            return rows[i - 1].content.as_str();
        }
        i -= 1;
    }
    rows[0].content.as_str()
}

/// A row written as one line: `[MM:SS.000]` and the row's text, with the
/// minutes and seconds of its start in two digits each.
pub open spec fn row_line(row: (int, Seq<char>)) -> Seq<char> {
    let seconds = row.0 / 1000;
    let m = seconds / 60;
    let s = seconds % 60;
    seq![
        '[',
        digit_char(m / 10),
        digit_char(m % 10),
        ':',
        digit_char(s / 10),
        digit_char(s % 10),
        '.',
        '0',
        '0',
        '0',
        ']',
    ] + row.1
}

/// A timeline written as text: the line of each row, each ended by a line
/// feed.
pub open spec fn rows_text(rows: Seq<(int, Seq<char>)>) -> Seq<char>
    decreases rows.len(),
{
    if rows.len() == 0 {
        Seq::empty()
    } else {
        row_line(rows[0]) + seq!['\n'] + rows_text(rows.drop_first())
    }
}

/// Whether a row can be written as a line and read back: it starts at a
/// whole second before the hundredth minute, its text holds no line feed
/// and does not end in a carriage return.
pub open spec fn printable(row: (int, Seq<char>)) -> bool {
    &&& 0 <= row.0 < 6_000_000
    &&& row.0 % 1000 == 0
    &&& forall|i: int| 0 <= i < row.1.len() ==> row.1[i] != '\n'
    &&& row.1.len() > 0 ==> row.1.last() != '\r'
}

/// A stretch without a line feed that ends at a line feed, or at the end of
/// the text, is counted whole.
pub proof fn lemma_text_run(s: Seq<char>, from: int, to: int)
    requires
        0 <= from <= to <= s.len(),
        forall|i: int| from <= i < to ==> s[i] != '\n',
        to == s.len() || s[to] == '\n',
    ensures
        text_run(s, from) == to - from,
    decreases to - from,
{
    if from < to {
        lemma_text_run(s, from + 1, to);
    }
}

/// The line of a printable row carries that row, holds no line feed and
/// ends in no carriage return.
pub proof fn lemma_row_line(row: (int, Seq<char>))
    requires
        printable(row),
    ensures
        row_of(row_line(row)) == Some(row),
        row_line(row).len() == 11 + row.1.len(),
        forall|i: int| 0 <= i < row_line(row).len() ==> row_line(row)[i] != '\n',
        trimmed(row_line(row), true) == row_line(row),
{
    let line = row_line(row);
    let seconds = row.0 / 1000;
    let m = seconds / 60;
    let s = seconds % 60;
    assert(0 <= m < 100 && 0 <= s < 60);
    assert(line.len() == 11 + row.1.len());
    assert(line[0] == '[' && line[3] == ':' && line[6] == '.' && line[10] == ']');
    assert(line[1] == digit_char(m / 10) && line[2] == digit_char(m % 10));
    assert(line[4] == digit_char(s / 10) && line[5] == digit_char(s % 10));
    assert(line[7] == '0' && line[8] == '0' && line[9] == '0');
    assert(digit_run(line, 10) == 0);
    assert(digit_run(line, 9) == 1);
    assert(digit_run(line, 8) == 2);
    assert(digit_run(line, 7) == 3);
    assert(stamp_at(line, 0));
    assert(first_stamp(line, 0) == 0);
    assert(stamp_end(line, 0) == 11);
    assert(digit_value(line[1]) == m / 10 && digit_value(line[2]) == m % 10);
    assert(digit_value(line[4]) == s / 10 && digit_value(line[5]) == s % 10);
    assert(stamp_ms(line, 0) == row.0);
    assert forall|i: int| 0 <= i < line.len() implies line[i] != '\n' by {
        if i >= 11 {
            assert(line[i] == row.1[i - 11]);
        }
    }
    lemma_text_run(line, 11, line.len() as int);
    assert(line.subrange(11, line.len() as int) =~= row.1);
    if row.1.len() > 0 {
        assert(line.last() == row.1.last());
    } else {
        assert(line.last() == ']');
    }
}

/// Characters of a line that are no line feeds do not change what is read.
pub proof fn lemma_scan_line(s: Seq<char>, start: int, pos: int, end: int)
    requires
        0 <= start <= pos <= end <= s.len(),
        forall|i: int| pos <= i < end ==> s[i] != '\n',
    ensures
        lyric_rows_from(s, start, pos) == lyric_rows_from(s, start, end),
    decreases end - pos,
{
    if pos < end {
        lemma_scan_line(s, start, pos + 1, end);
    }
}

/// What is read behind a prefix of whole lines is what is read of the rest
/// alone.
pub proof fn lemma_shift(pre: Seq<char>, rest: Seq<char>, start: int, pos: int)
    requires
        0 <= start <= pos,
    ensures
        lyric_rows_from(pre + rest, pre.len() + start, pre.len() + pos) == lyric_rows_from(
            rest,
            start,
            pos,
        ),
    decreases rest.len() - pos,
{
    let s = pre + rest;
    let n = pre.len() as int;
    if pos >= rest.len() {
        if start < rest.len() {
            assert(s.subrange(n + start, s.len() as int) =~= rest.subrange(
                start,
                rest.len() as int,
            ));
        }
    } else {
        assert(s[n + pos] == rest[pos]);
        if rest[pos] == '\n' {
            assert(s.subrange(n + start, n + pos) =~= rest.subrange(start, pos));
            lemma_shift(pre, rest, pos + 1, pos + 1);
        } else {
            lemma_shift(pre, rest, start, pos + 1);
        }
    }
}

/// Writing a timeline of printable rows as text, one line `[MM:SS.000]text`
/// for each row, and reading that text gives the same timeline.
pub proof fn lemma_written_rows_read_back(rows: Seq<(int, Seq<char>)>)
    requires
        forall|i: int| 0 <= i < rows.len() ==> printable(#[trigger] rows[i]),
    ensures
        lyric_rows(rows_text(rows)) == rows,
    decreases rows.len(),
{
    if rows.len() == 0 {
        assert(lyric_rows(rows_text(rows)) =~= rows);
    } else {
        let line = row_line(rows[0]);
        let later = rows.drop_first();
        let rest = rows_text(later);
        let pre = line + seq!['\n'];
        let s = pre + rest;
        let end = line.len() as int;
        assert(rows_text(rows) == s);
        lemma_row_line(rows[0]);
        assert forall|i: int| 0 <= i < later.len() implies printable(#[trigger] later[i]) by {
            assert(later[i] == rows[i + 1]);
        }
        lemma_written_rows_read_back(later);
        assert forall|i: int| 0 <= i < end implies s[i] != '\n' by {
            assert(s[i] == line[i]);
        }
        lemma_scan_line(s, 0, 0, end);
        assert(s[end] == '\n');
        assert(s.subrange(0, end) =~= line);
        assert(lyric_rows_from(s, 0, end) == line_rows(trimmed(line, true)) + lyric_rows_from(
            s,
            end + 1,
            end + 1,
        ));
        lemma_shift(pre, rest, 0, 0);
        assert(line_rows(line) =~= seq![rows[0]]);
        assert(seq![rows[0]] + later =~= rows);
    }
}

/// Reading a lyric text, writing its rows out as lines `[MM:SS.000]text` and
/// reading those again gives the rows of the first reading, where each of
/// them is printable.
pub proof fn lemma_round_trip(text: Seq<char>)
    requires
        forall|i: int|
            0 <= i < lyric_rows(text).len() ==> printable(#[trigger] lyric_rows(text)[i]),
    ensures
        lyric_rows(rows_text(lyric_rows(text))) == lyric_rows(text),
{
    lemma_written_rows_read_back(lyric_rows(text));
}

/// Whether a row starts at a whole second, from 0 up to 99 minutes and 99
/// seconds, and holds no line feed in its text.
pub open spec fn whole_second(row: (int, Seq<char>)) -> bool {
    &&& 0 <= row.0 <= 6_039_000
    &&& row.0 % 1000 == 0
    &&& forall|i: int| 0 <= i < row.1.len() ==> row.1[i] != '\n'
}

/// Where a line holds a stamp from `from` on, the first of them is one.
pub proof fn lemma_first_stamp(line: Seq<char>, from: int)
    requires
        0 <= from,
        first_stamp(line, from) < line.len(),
    ensures
        from <= first_stamp(line, from),
        stamp_at(line, first_stamp(line, from)),
    decreases line.len() - from,
{
    if from < line.len() && !stamp_at(line, from) {
        lemma_first_stamp(line, from + 1);
    }
}

/// A stretch that is counted up to a line feed ends inside the text and
/// holds no line feed.
pub proof fn lemma_text_run_holds(s: Seq<char>, from: int)
    requires
        0 <= from <= s.len(),
    ensures
        from + text_run(s, from) <= s.len(),
        forall|i: int| from <= i < from + text_run(s, from) ==> s[i] != '\n',
    decreases s.len() - from,
{
    if from < s.len() && s[from] != '\n' {
        lemma_text_run_holds(s, from + 1);
    }
}

/// The row that a line carries starts at a whole second and holds no line
/// feed.
pub proof fn lemma_row_of(line: Seq<char>)
    requires
        row_of(line).is_some(),
    ensures
        whole_second(row_of(line).unwrap()),
{
    let i = first_stamp(line, 0);
    lemma_first_stamp(line, 0);
    lemma_stamp_time(line, i);
    let c = stamp_end(line, i);
    lemma_text_run_holds(line, c);
}

/// Every row that is read from the lines of a text starts at a whole second
/// and holds no line feed.
pub proof fn lemma_rows_from(s: Seq<char>, start: int, pos: int)
    ensures
        forall|i: int|
            0 <= i < lyric_rows_from(s, start, pos).len() ==> whole_second(
                #[trigger] lyric_rows_from(s, start, pos)[i],
            ),
    decreases s.len() - pos,
{
    if start < 0 || pos < start {
        assert(lyric_rows_from(s, start, pos).len() == 0);
    } else if pos >= s.len() {
        if start >= s.len() {
            assert(lyric_rows_from(s, start, pos).len() == 0);
        }
        if start < s.len() {
            let line = s.subrange(start, s.len() as int);
            if row_of(line).is_some() {
                lemma_row_of(line);
                assert(line_rows(line)[0] == row_of(line).unwrap());
            }
            assert(lyric_rows_from(s, start, pos) == line_rows(line));
        }
    } else if s[pos] == '\n' {
        let line = trimmed(s.subrange(start, pos), true);
        if row_of(line).is_some() {
            lemma_row_of(line);
        }
        lemma_rows_from(s, pos + 1, pos + 1);
        let head = line_rows(line);
        let rest = lyric_rows_from(s, pos + 1, pos + 1);
        assert forall|i: int| 0 <= i < (head + rest).len() implies whole_second(
            #[trigger] (head + rest)[i],
        ) by {
            if i < head.len() {
                assert((head + rest)[i] == head[i]);
                assert(head[i] == row_of(line).unwrap());
            } else {
                assert((head + rest)[i] == rest[i - head.len()]);
            }
        }
        assert(lyric_rows_from(s, start, pos) == head + rest);
    } else {
        lemma_rows_from(s, start, pos + 1);
        assert(lyric_rows_from(s, start, pos) == lyric_rows_from(s, start, pos + 1));
    }
}

/// Every row of a timeline that is read from text starts at a whole second,
/// from 0 up to 99 minutes and 99 seconds, and its text holds no line feed:
/// such a row is printable unless it starts in the hundredth minute or
/// later, or its text ends in a carriage return.
pub proof fn lemma_rows_read(text: Seq<char>)
    ensures
        forall|i: int|
            0 <= i < lyric_rows(text).len() ==> whole_second(#[trigger] lyric_rows(text)[i]),
        forall|i: int|
            0 <= i < lyric_rows(text).len() ==> (printable(#[trigger] lyric_rows(text)[i]) <==> {
                let row = lyric_rows(text)[i];
                row.0 < 6_000_000 && (row.1.len() > 0 ==> row.1.last() != '\r')
            }),
{
    lemma_rows_from(text, 0, 0);
    assert forall|i: int| 0 <= i < lyric_rows(text).len() implies (printable(
        #[trigger] lyric_rows(text)[i],
    ) <==> {
        let row = lyric_rows(text)[i];
        row.0 < 6_000_000 && (row.1.len() > 0 ==> row.1.last() != '\r')
    }) by {
        assert(whole_second(lyric_rows(text)[i]));
    }
}

} // verus!
