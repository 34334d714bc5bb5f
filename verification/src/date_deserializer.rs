use vstd::prelude::*;

use crate::calendar::{is_valid_ymd, spec_uniform_date, uniform_date, CalendarDate};
use crate::error::ErrorCode;
use crate::values::{Column, Scalar};

verus! {

/// The smallest day number a date value may hold (1000-01-01).
pub const DATE_MIN: i32 = -354285;

/// The largest day number a date value may hold (9999-12-31).
pub const DATE_MAX: i32 = 2932896;

/// A JSON value, with each number kept as its text.
#[derive(Debug, PartialEq, Eq)]
pub enum JsonValue {
    Null,
    Bool(bool),
    Number(String),
    String(String),
    Array(Vec<JsonValue>),
    Object(Vec<(String, JsonValue)>),
}

/// Whether `b` is an ASCII decimal digit.
pub open spec fn is_digit(b: u8) -> bool {
    48 <= b <= 57
}

/// Whether the bytes of `s` from `start` up to `end` are all decimal digits.
pub open spec fn all_digits(s: Seq<u8>, start: int, end: int) -> bool {
    forall|i: int| start <= i < end ==> #[trigger] is_digit(s[i])
}

/// The number written by the `n` decimal digits of `s` that begin at `start`.
pub open spec fn digits_value(s: Seq<u8>, start: int, n: nat) -> int
    decreases n,
{
    if n == 0 {
        0
    } else {
        digits_value(s, start, (n - 1) as nat) * 10 + (s[start + n - 1] - 48)
    }
}

/// Whether `s` ends, after its date, with a time of day `HH:MM:SS`, separated
/// from the date by a space or a `T`, with an optional fraction of a second.
pub open spec fn has_time_suffix(s: Seq<u8>) -> bool {
    &&& s.len() >= 19
    &&& (s[10] == 32 || s[10] == 84)
    &&& all_digits(s, 11, 13)
    &&& s[13] == 58
    &&& all_digits(s, 14, 16)
    &&& s[16] == 58
    &&& all_digits(s, 17, 19)
    &&& digits_value(s, 11, 2) < 24
    &&& digits_value(s, 14, 2) < 60
    &&& digits_value(s, 17, 2) < 60
    &&& (s.len() == 19 || (s.len() >= 21 && s[19] == 46 && all_digits(s, 20, s.len() as int)))
}

/// Whether `s` has the shape `YYYY-MM-DD`, alone or followed by a time of day.
pub open spec fn has_date_shape(s: Seq<u8>) -> bool {
    &&& s.len() >= 10
    &&& all_digits(s, 0, 4)
    &&& s[4] == 45
    &&& all_digits(s, 5, 7)
    &&& s[7] == 45
    &&& all_digits(s, 8, 10)
    &&& (s.len() == 10 || has_time_suffix(s))
}

/// The year, month and day that a date text gives, when it is well formed and
/// names an existing day.
pub open spec fn spec_parse_date(s: Seq<u8>) -> Option<(int, int, int)> {
    if has_date_shape(s) && is_valid_ymd(
        digits_value(s, 0, 4),
        digits_value(s, 5, 2),
        digits_value(s, 8, 2),
    ) {
        Some((digits_value(s, 0, 4), digits_value(s, 5, 2), digits_value(s, 8, 2)))
    } else {
        None
    }
}

/// The little-endian 32-bit integer held by the four bytes of `s` at `at`.
pub open spec fn spec_le_i32(s: Seq<u8>, at: int) -> int {
    let u = s[at] + 256 * s[at + 1] + 65536 * s[at + 2] + 16777216 * s[at + 3];
    if u >= 2147483648 {
        u - 4294967296
    } else {
        u
    }
}

/// The date value of a day number, when it lies within the supported range.
pub open spec fn spec_check_date(days: int) -> bool {
    DATE_MIN <= days <= DATE_MAX
}

/// Whether the whole of `s` from `start` up to `end` is decimal digits.
fn check_digits(s: &[u8], start: usize, end: usize) -> (r: bool)
    requires
        start <= end <= s@.len(),
    ensures
        r == all_digits(s@, start as int, end as int),
{
    let mut i = start;
    while i < end
        invariant
            start <= i <= end <= s@.len(),
            all_digits(s@, start as int, i as int),
        decreases end - i,
    {
        if s[i] < 48 || s[i] > 57 {
            assert(!is_digit(s@[i as int]));
            return false;
        }
        i = i + 1;
    }
    true
}

/// The number written by the `n` digits of `s` that begin at `start`.
fn read_number(s: &[u8], start: usize, n: usize) -> (r: u32)
    requires
        start + n <= s@.len(),
        n <= 4,
        all_digits(s@, start as int, start + n),
    ensures
        r == digits_value(s@, start as int, n as nat),
        r < 10000,
{
    let mut value: u32 = 0;
    let mut k: usize = 0;
    while k < n
        invariant
            k <= n <= 4,
            start + n <= s@.len(),
            all_digits(s@, start as int, start + n),
            value == digits_value(s@, start as int, k as nat),
            value < 10000,
            k == 0 ==> value == 0,
            k == 1 ==> value < 10,
            k == 2 ==> value < 100,
            k == 3 ==> value < 1000,
        decreases n - k,
    {
        assert(start + k < s@.len());
        assert(s@.len() == s.len());
        let b = s[start + k];
        assert(is_digit(s@[(start + k) as int]));
        value = value * 10 + (b - 48) as u32;
        k = k + 1;
    }
    value
}

/// The calendar date a date text names.
pub fn parse_date_text(s: &[u8]) -> (r: Result<CalendarDate, ErrorCode>)
    ensures
        match r {
            Ok(d) => spec_parse_date(s@) == Some((d.year as int, d.month as int, d.day as int))
                && d.spec_valid(),
            Err(e) => spec_parse_date(s@) is None && e is BadBytes
                && e.spec_message() == "Cannot parse value to Date type"@,
        },
{
    let len = s.len();
    let mut shape = len >= 10 && check_digits(s, 0, 4) && s[4] == 45 && check_digits(s, 5, 7)
        && s[7] == 45 && check_digits(s, 8, 10);
    if shape && len != 10 {
        shape = len >= 19 && (s[10] == 32 || s[10] == 84) && check_digits(s, 11, 13) && s[13]
            == 58 && check_digits(s, 14, 16) && s[16] == 58 && check_digits(s, 17, 19);
        if shape {
            let hour = read_number(s, 11, 2);
            let minute = read_number(s, 14, 2);
            let second = read_number(s, 17, 2);
            shape = hour < 24 && minute < 60 && second < 60;
            if shape && len != 19 {
                shape = len >= 21 && s[19] == 46 && check_digits(s, 20, len);
            }
        }
    }
    if !shape {
        return Err(ErrorCode::BadBytes(String::from_str("Cannot parse value to Date type")));
    }
    let year = read_number(s, 0, 4);
    let month = read_number(s, 5, 2);
    let day = read_number(s, 8, 2);
    match CalendarDate::from_ymd_opt(year as i32, month, day) {
        Some(d) => Ok(d),
        None => Err(ErrorCode::BadBytes(String::from_str("Cannot parse value to Date type"))),
    }
}


/// The 32-bit little-endian integer held by `s[at..at + 4]`.
fn read_le_i32(s: &[u8], at: usize) -> (r: i32)
    requires
        at + 4 <= s@.len(),
    ensures
        r == spec_le_i32(s@, at as int),
{
    let u: i64 = s[at] as i64 + 256 * (s[at + 1] as i64) + 65536 * (s[at + 2] as i64) + 16777216 * (
    s[at + 3] as i64);
    if u >= 2147483648 {
        (u - 4294967296) as i32
    } else {
        u as i32
    }
}

/// The day number `days` as a date value, when it lies within the supported range.
pub fn check_date(days: i64) -> (r: Result<i32, String>)
    ensures
        match r {
            Ok(v) => spec_check_date(days as int) && v == days,
            Err(m) => !spec_check_date(days as int) && m@ == "date is out of range"@,
        },
{
    if DATE_MIN as i64 <= days && days <= DATE_MAX as i64 {
        Ok(days as i32)
    } else {
        Err(String::from_str("date is out of range"))
    }
}

/// Keeps the values of `v` while giving back spare capacity.
#[verifier::external_body]
fn vec_shrink_to_fit(v: &mut Vec<i32>)
    ensures
        final(v)@ == old(v)@,
{
    v.shrink_to_fit();
}

/// The start of row `row` when rows are `step` bytes apart.
pub open spec fn row_start(step: int, row: int) -> int {
    step * row
}

/// Whether row `row` holds a whole 32-bit value within `len` bytes.
pub open spec fn row_fits(len: int, step: int, row: int) -> bool {
    row_start(step, row) + 4 <= len
}

/// Whether each of the first `n` rows holds a whole 32-bit value.
pub open spec fn rows_fit(len: int, step: int, n: int) -> bool {
    forall|q: int| 0 <= q < n ==> #[trigger] row_fits(len, step, q)
}

/// The values of the first `n` rows of `bytes`, rows being `step` bytes apart.
pub open spec fn batch_values(bytes: Seq<u8>, step: int, n: int) -> Seq<i32> {
    Seq::new(n as nat, |r: int| spec_le_i32(bytes, row_start(step, r)) as i32)
}

/// Collects date values, each a number of days from 1970-01-01, into a column.
pub struct DateDeserializer {
    pub buffer: Vec<u8>,
    pub builder: Vec<i32>,
}

impl DateDeserializer {
    /// An empty deserializer with room for `capacity` values.
    pub fn with_capacity(capacity: usize) -> (r: Self)
        ensures
            r.buffer@ == Seq::<u8>::empty(),
            r.builder@ == Seq::<i32>::empty(),
    {
        DateDeserializer { buffer: Vec::new(), builder: Vec::with_capacity(capacity) }
    }

    /// The number of bytes the collected values take.
    pub fn memory_size(&self) -> (r: usize)
        requires
            self.builder@.len() * 4 <= usize::MAX,
        ensures
            r == self.builder@.len() * 4,
    {
        self.builder.len() * 4
    }

    /// The number of collected values.
    pub fn len(&self) -> (r: usize)
        ensures
            r == self.builder@.len(),
    {
        self.builder.len()
    }

    /// Reads one value from the front of `reader`, four bytes little-endian, and
    /// moves `reader` past it.
    pub fn de_binary(&mut self, reader: &mut &[u8]) -> (r: Result<(), ErrorCode>)
        ensures
            r is Ok <==> old(reader)@.len() >= 4,
            r is Ok ==> final(reader)@ == old(reader)@.subrange(4, old(reader)@.len() as int)
                && final(self).builder@ == old(self).builder@.push(
                spec_le_i32(old(reader)@, 0) as i32,
            ),
            r matches Err(e) ==> final(reader)@ == old(reader)@ && final(self).builder@ == old(
                self,
            ).builder@ && e is Io && e.spec_message()
                == "failed to fill whole buffer"@,
            final(self).buffer@ == old(self).buffer@,
    {
        let bytes: &[u8] = *reader;
        if bytes.len() < 4 {
            return Err(ErrorCode::Io(String::from_str("failed to fill whole buffer")));
        }
        let value = read_le_i32(bytes, 0);
        *reader = &bytes[4..bytes.len()];
        self.builder.push(value);
        Ok(())
    }

    /// Adds the default value, day 0.
    pub fn de_default(&mut self)
        ensures
            final(self).builder@ == old(self).builder@.push(0),
            final(self).buffer@ == old(self).buffer@,
    {
        self.builder.push(0);
    }

    /// Reads `rows` values from `reader`, rows being `step` bytes apart, each
    /// four bytes little-endian at the start of its row; stops at the first row
    /// that does not hold a whole value.
    pub fn de_fixed_binary_batch(&mut self, reader: &[u8], step: usize, rows: usize) -> (r: Result<
        (),
        ErrorCode,
    >)
        requires
            forall|q: int|
                0 <= q < rows && #[trigger] rows_fit(reader@.len() as int, step as int, q)
                    ==> row_start(step as int, q) <= reader@.len(),
        ensures
            r is Ok <==> rows_fit(reader@.len() as int, step as int, rows as int),
            r is Ok ==> final(self).builder@ == old(self).builder@ + batch_values(
                reader@,
                step as int,
                rows as int,
            ),
            r matches Err(e) ==> exists|k: int|
                #![trigger batch_values(reader@, step as int, k)]
                0 <= k < rows && rows_fit(reader@.len() as int, step as int, k) && !row_fits(
                    reader@.len() as int,
                    step as int,
                    k,
                ) && final(self).builder@ == old(self).builder@ + batch_values(
                    reader@,
                    step as int,
                    k,
                ) && e is Io && e.spec_message()
                    == "failed to fill whole buffer"@,
            final(self).buffer@ == old(self).buffer@,
    {
        let ghost start = self.builder@;
        let mut row: usize = 0;
        while row < rows
            invariant
                row <= rows,
                start == old(self).builder@,
                rows_fit(reader@.len() as int, step as int, row as int),
                self.builder@ == start + batch_values(reader@, step as int, row as int),
                self.buffer@ == old(self).buffer@,
                forall|q: int|
                    0 <= q < rows && #[trigger] rows_fit(reader@.len() as int, step as int, q)
                        ==> row_start(step as int, q) <= reader@.len(),
            decreases rows - row,
        {
            assert(row_start(step as int, row as int) <= reader@.len());
            assert(reader@.len() == reader.len());
            let offset = step * row;
            let len = reader.len();
            if len - offset < 4 {
                assert(!row_fits(reader@.len() as int, step as int, row as int));
                assert(self.builder@ == old(self).builder@ + batch_values(
                    reader@,
                    step as int,
                    row as int,
                ));
                return Err(ErrorCode::Io(String::from_str("failed to fill whole buffer")));
            }
            let value = read_le_i32(reader, offset);
            self.builder.push(value);
            proof {
                assert(batch_values(reader@, step as int, row + 1) =~= batch_values(
                    reader@,
                    step as int,
                    row as int,
                ).push(value));
                assert forall|q: int| 0 <= q < row + 1 implies #[trigger] row_fits(
                    reader@.len() as int,
                    step as int,
                    q,
                ) by {
                    if q == row {
                    } else {
                        assert(row_fits(reader@.len() as int, step as int, q));
                    }
                }
            }
            row = row + 1;
        }
        Ok(())
    }

    /// Reads a date from a JSON string and adds its day number.
    pub fn de_json(&mut self, value: &JsonValue) -> (r: Result<(), ErrorCode>)
        ensures
            match value {
                JsonValue::String(v) => match spec_parse_date(vstd::utf8::encode_utf8(v@)) {
                    Some((y, m, d)) => r is Ok && final(self).builder@ == old(self).builder@.push(
                        spec_uniform_date(y, m, d) as i32,
                    ),
                    None => r is Err && final(self).builder@ == old(self).builder@,
                },
                _ => r is Err && final(self).builder@ == old(self).builder@,
            },
            r matches Err(e) ==> (match value {
                JsonValue::String(_) => e is BadBytes
                    && e.spec_message() == "Cannot parse value to Date type"@,
                _ => e is Internal && e.spec_message()
                    == "Incorrect string value"@,
            }),
            final(self).buffer@ == old(self).buffer@,
    {
        match value {
            JsonValue::String(v) => {
                let date = parse_date_text(v.as_str().as_bytes())?;
                let days = uniform_date(date);
                self.builder.push(days);
                Ok(())
            },
            _ => Err(ErrorCode::Internal(String::from_str("Incorrect string value"))),
        }
    }

    /// Adds a date value, which must lie within the supported range.
    pub fn append_data_value(&mut self, value: Scalar) -> (r: Result<(), ErrorCode>)
        ensures
            match value {
                Scalar::Date(v) => if spec_check_date(v as int) {
                    r is Ok && final(self).builder@ == old(self).builder@.push(v)
                } else {
                    r matches Err(e) && e is Internal && e.spec_message()
                        == "date is out of range"@ && final(self).builder@ == old(self).builder@
                },
                _ => r matches Err(e) && e is Internal && e.spec_message()
                    == "Unable to get date value"@ && final(self).builder@ == old(self).builder@,
            },
            final(self).buffer@ == old(self).buffer@,
    {
        match value {
            Scalar::Date(v) => {
                match check_date(v as i64) {
                    Ok(_) => {
                        self.builder.push(v);
                        Ok(())
                    },
                    Err(m) => Err(ErrorCode::Internal(m)),
                }
            },
            _ => Err(ErrorCode::Internal(String::from_str("Unable to get date value"))),
        }
    }

    /// Takes the last value back out.
    pub fn pop_data_value(&mut self) -> (r: Result<Scalar, ErrorCode>)
        ensures
            old(self).builder@.len() > 0 ==> r == Ok::<Scalar, ErrorCode>(
                Scalar::Date(old(self).builder@.last()),
            ) && final(self).builder@ == old(self).builder@.drop_last(),
            old(self).builder@.len() == 0 ==> (r matches Err(e) && e is Internal && e.spec_message() == "Date column is empty when pop data value"@
                && final(self).builder@ == old(self).builder@),
            final(self).buffer@ == old(self).buffer@,
    {
        match self.builder.pop() {
            Some(v) => Ok(Scalar::Date(v)),
            None => Err(
                ErrorCode::Internal(String::from_str("Date column is empty when pop data value")),
            ),
        }
    }

    /// Hands the collected values over as a column and starts afresh.
    pub fn finish_to_column(&mut self) -> (r: Column)
        ensures
            r matches Column::Date(values) && values@ == old(self).builder@,
            final(self).builder@ == Seq::<i32>::empty(),
            final(self).buffer@ == old(self).buffer@,
    {
        vec_shrink_to_fit(&mut self.builder);
        let mut values: Vec<i32> = Vec::new();
        std::mem::swap(&mut values, &mut self.builder);
        Column::Date(values)
    }
}

/// Taking a value back out after adding one gives back the value that was
/// added and leaves the values that were there before.
pub proof fn law_pop_returns_appended(values: Seq<i32>, v: i32)
    ensures
        values.push(v).len() > 0,
        values.push(v).last() == v,
        values.push(v).drop_last() == values,
{
    assert(values.push(v).drop_last() =~= values);
}

/// Every date that date text is read as lies within the years 0 to 9999.
pub proof fn law_parsed_dates_have_four_digit_years(s: Seq<u8>)
    ensures
        spec_parse_date(s) matches Some((y, m, d)) ==> 0 <= y <= 9999 && 1 <= m <= 12 && 1 <= d <= 31,
{
    if has_date_shape(s) {
        lemma_digits_bounds(s, 0, 4);
    }
}

/// Ten to the power `n`, for up to four digits.
pub open spec fn digits_limit(n: nat) -> int {
    if n == 0 {
        1
    } else if n == 1 {
        10
    } else if n == 2 {
        100
    } else if n == 3 {
        1000
    } else {
        10000
    }
}

/// A number written with `n` decimal digits lies below `10^n`.
proof fn lemma_digits_bounds(s: Seq<u8>, start: int, n: nat)
    requires
        all_digits(s, start, start + n),
    ensures
        0 <= digits_value(s, start, n),
        n <= 4 ==> digits_value(s, start, n) < digits_limit(n),
    decreases n,
{
    if n > 0 {
        assert(is_digit(s[start + n - 1]));
        lemma_digits_bounds(s, start, (n - 1) as nat);
    }
}

} // verus!
