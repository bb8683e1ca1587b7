use vstd::prelude::*;

verus! {

/// An instant in UTC with millisecond precision, as the API writes it:
/// `YYYY-MM-DDTHH:MM:SS.mmmZ`.
#[derive(Debug, Clone, Copy, PartialEq, Eq, Structural)]
pub struct Timestamp {
    /// The year, 0 to 9999.
    pub year: u16,
    /// The month, 1 to 12.
    pub month: u8,
    /// The day of the month, from 1.
    pub day: u8,
    /// The hour, 0 to 23.
    pub hour: u8,
    /// The minute, 0 to 59.
    pub minute: u8,
    /// The second, 0 to 59.
    pub second: u8,
    /// The millisecond, 0 to 999.
    pub millisecond: u16,
}

/// Why a text is not a timestamp.
#[derive(Debug, Clone, Copy, PartialEq, Eq, Structural)]
pub enum TimestampError {
    /// The text does not have the shape `YYYY-MM-DDTHH:MM:SS.mmmZ`.
    Malformed,
    /// The shape is right but a field is out of its range (a month 13, a
    /// 31st of April, an hour 24).
    OutOfRange,
}

/// The characters that `Timestamp::to_text` writes for the digits 0 to 9.
pub open spec fn digit_char(n: int) -> char {
    if n == 0 {
        '0'
    } else if n == 1 {
        '1'
    } else if n == 2 {
        '2'
    } else if n == 3 {
        '3'
    } else if n == 4 {
        '4'
    } else if n == 5 {
        '5'
    } else if n == 6 {
        '6'
    } else if n == 7 {
        '7'
    } else if n == 8 {
        '8'
    } else {
        '9'
    }
}

/// The value of a decimal digit character.
pub open spec fn digit_value(c: char) -> Option<int> {
    if c == '0' {
        Some(0)
    } else if c == '1' {
        Some(1)
    } else if c == '2' {
        Some(2)
    } else if c == '3' {
        Some(3)
    } else if c == '4' {
        Some(4)
    } else if c == '5' {
        Some(5)
    } else if c == '6' {
        Some(6)
    } else if c == '7' {
        Some(7)
    } else if c == '8' {
        Some(8)
    } else if c == '9' {
        Some(9)
    } else {
        None
    }
}

/// The `n` characters of `s` from `from` on are all decimal digits.
pub open spec fn all_digits(s: Seq<char>, from: int, n: int) -> bool {
    forall|i: int| from <= i < from + n ==> (#[trigger] digit_value(s[i])) is Some
}

/// The number that the `n` digits of `s` from `from` on write, most
/// significant first.
pub open spec fn number_at(s: Seq<char>, from: int, n: nat) -> int
    decreases n,
{
    if n == 0 {
        0
    } else {
        10 * number_at(s, from, (n - 1) as nat) + digit_value(s[from + n - 1]).unwrap()
    }
}

/// Years divisible by 4 are leap years, except centuries not divisible by 400.
pub open spec fn is_leap_year(year: int) -> bool {
    year % 4 == 0 && (year % 100 != 0 || year % 400 == 0)
}

/// The number of days in a month of the proleptic Gregorian calendar.
pub open spec fn days_in_month(year: int, month: int) -> int {
    if month == 2 {
        if is_leap_year(year) {
            29
        } else {
            28
        }
    } else if month == 4 || month == 6 || month == 9 || month == 11 {
        30
    } else {
        31
    }
}

impl Timestamp {
    /// Every field is in its range and the day exists in its month.
    pub open spec fn wf(&self) -> bool {
        &&& self.year <= 9999
        &&& 1 <= self.month <= 12
        &&& 1 <= self.day <= days_in_month(self.year as int, self.month as int)
        &&& self.hour < 24
        &&& self.minute < 60
        &&& self.second < 60
        &&& self.millisecond < 1000
    }

    /// The text `s` has the shape `YYYY-MM-DDTHH:MM:SS.mmmZ`.
    pub open spec fn has_shape(s: Seq<char>) -> bool {
        &&& s.len() == 24
        &&& s[4] == '-' && s[7] == '-' && s[10] == 'T' && s[13] == ':'
        &&& s[16] == ':' && s[19] == '.' && s[23] == 'Z'
        &&& all_digits(s, 0, 4) && all_digits(s, 5, 2) && all_digits(s, 8, 2)
        &&& all_digits(s, 11, 2) && all_digits(s, 14, 2) && all_digits(s, 17, 2)
        &&& all_digits(s, 20, 3)
    }

    /// The fields that a text of the right shape writes, before any range check.
    pub open spec fn fields_of(s: Seq<char>) -> Timestamp {
        Timestamp {
            year: number_at(s, 0, 4) as u16,
            month: number_at(s, 5, 2) as u8,
            day: number_at(s, 8, 2) as u8,
            hour: number_at(s, 11, 2) as u8,
            minute: number_at(s, 14, 2) as u8,
            second: number_at(s, 17, 2) as u8,
            millisecond: number_at(s, 20, 3) as u16,
        }
    }

    /// What reading the text `s` gives.
    pub open spec fn spec_parse(s: Seq<char>) -> Result<Timestamp, TimestampError> {
        if !Self::has_shape(s) {
            Err(TimestampError::Malformed)
        } else if !Self::fields_of(s).wf() {
            Err(TimestampError::OutOfRange)
        } else {
            Ok(Self::fields_of(s))
        }
    }

    /// The text of the timestamp.
    pub open spec fn spec_text(&self) -> Seq<char> {
        digits(self.year as int, 4) + seq!['-'] + digits(self.month as int, 2) + seq!['-']
            + digits(self.day as int, 2) + seq!['T'] + digits(self.hour as int, 2) + seq![':']
            + digits(self.minute as int, 2) + seq![':'] + digits(self.second as int, 2) + seq![
            '.',
        ] + digits(self.millisecond as int, 3) + seq!['Z']
    }
}

/// The last `n` decimal digits of `v`, most significant first, zeros in front.
pub open spec fn digits(v: int, n: nat) -> Seq<char>
    decreases n,
{
    if n == 0 {
        Seq::empty()
    } else {
        digits(v / 10, (n - 1) as nat).push(digit_char(v % 10))
    }
}

/// Ten to the power `n`.
pub open spec fn pow10(n: nat) -> int
    decreases n,
{
    if n == 0 {
        1
    } else {
        10 * pow10((n - 1) as nat)
    }
}

proof fn lemma_digits_len(v: int, n: nat)
    ensures
        digits(v, n).len() == n,
    decreases n,
{
    if n > 0 {
        lemma_digits_len(v / 10, (n - 1) as nat);
    }
}

proof fn lemma_pow10_small(k: nat)
    requires
        k <= 3,
    ensures
        pow10(k) <= 1000,
        pow10(k + 1) == 10 * pow10(k),
{
    reveal_with_fuel(pow10, 4);
}

/// Digits written by `digits` read back as the number they were written from.
proof fn lemma_digits_read_back(s: Seq<char>, from: int, v: int, n: nat)
    requires
        0 <= from,
        from + n <= s.len(),
        0 <= v < pow10(n),
        s.subrange(from, from + n) == digits(v, n),
    ensures
        all_digits(s, from, n as int),
        number_at(s, from, n) == v,
    decreases n,
{
    if n > 0 {
        let m = (n - 1) as nat;
        lemma_digits_len(v / 10, m);
        assert(s.subrange(from, from + m) =~= s.subrange(from, from + n).subrange(0, m as int));
        assert(digits(v, n).subrange(0, m as int) =~= digits(v / 10, m));
        assert(v / 10 < pow10(m)) by (nonlinear_arith)
            requires
                v < 10 * pow10(m),
                0 <= v,
        ;
        lemma_digits_read_back(s, from, v / 10, m);
        assert(s[from + m] == s.subrange(from, from + n)[m as int]);
        assert(s[from + m] == digit_char(v % 10));
    }
}

/// The digit character of a value below ten, as a one-character text.
fn digit_text(d: u16) -> (r: &'static str)
    requires
        d < 10,
    ensures
        r@ == seq![digit_char(d as int)],
{
    proof {
        reveal_strlit("0");
        reveal_strlit("1");
        reveal_strlit("2");
        reveal_strlit("3");
        reveal_strlit("4");
        reveal_strlit("5");
        reveal_strlit("6");
        reveal_strlit("7");
        reveal_strlit("8");
        reveal_strlit("9");
    }
    if d == 0 {
        "0"
    } else if d == 1 {
        "1"
    } else if d == 2 {
        "2"
    } else if d == 3 {
        "3"
    } else if d == 4 {
        "4"
    } else if d == 5 {
        "5"
    } else if d == 6 {
        "6"
    } else if d == 7 {
        "7"
    } else if d == 8 {
        "8"
    } else {
        "9"
    }
}

/// Appends the last `n` decimal digits of `v`.
fn push_digits(out: &mut String, v: u16, n: usize)
    ensures
        final(out)@ == old(out)@ + digits(v as int, n as nat),
    decreases n,
{
    if n > 0 {
        push_digits(out, v / 10, n - 1);
        out.append(digit_text(v % 10));
    } else {
        assert(old(out)@ + digits(v as int, 0) =~= old(out)@);
    }
    assert(old(out)@ + digits(v as int, n as nat) =~= final(out)@) by {
        if n > 0 {
            assert(old(out)@ + digits(v as int, n as nat) =~= old(out)@ + digits((v / 10) as int, (n - 1) as nat) + seq![digit_char((v % 10) as int)]);
        }
    }
}

/// The value of the decimal digit at position `i`.
fn digit_at(s: &str, i: usize) -> (r: Option<u16>)
    requires
        i < s@.len(),
    ensures
        r.is_some() == digit_value(s@[i as int]).is_some(),
        r.is_some() ==> r.unwrap() as int == digit_value(s@[i as int]).unwrap(),
{
    let c = s.get_char(i);
    if c == '0' {
        Some(0)
    } else if c == '1' {
        Some(1)
    } else if c == '2' {
        Some(2)
    } else if c == '3' {
        Some(3)
    } else if c == '4' {
        Some(4)
    } else if c == '5' {
        Some(5)
    } else if c == '6' {
        Some(6)
    } else if c == '7' {
        Some(7)
    } else if c == '8' {
        Some(8)
    } else if c == '9' {
        Some(9)
    } else {
        None
    }
}

/// The number that the `n` characters from `from` on write, if they are all digits.
fn number_in(s: &str, from: usize, n: usize) -> (r: Option<u16>)
    requires
        from + n <= s@.len(),
        from <= 24,
        n <= 4,
    ensures
        r.is_some() == all_digits(s@, from as int, n as int),
        r.is_some() ==> r.unwrap() as int == number_at(s@, from as int, n as nat),
        r.is_some() ==> r.unwrap() < pow10(n as nat),
{
    let mut acc: u16 = 0;
    let mut k: usize = 0;
    while k < n
        invariant
            from + n <= s@.len(),
            from <= 24,
            n <= 4,
            k <= n,
            all_digits(s@, from as int, k as int),
            acc as int == number_at(s@, from as int, k as nat),
            acc < pow10(k as nat),
        decreases n - k,
    {
        match digit_at(s, from + k) {
            Some(d) => {
                proof {
                    lemma_pow10_small(k as nat);
                }
                acc = acc * 10 + d;
                k = k + 1;
            },
            None => {
                assert(digit_value(s@[from + k]) is None);
                return None;
            },
        }
    }
    Some(acc)
}

fn days_in_month_exec(year: u16, month: u8) -> (r: u8)
    ensures
        r as int == days_in_month(year as int, month as int),
{
    if month == 2 {
        if year % 4 == 0 && (year % 100 != 0 || year % 400 == 0) {
            29
        } else {
            28
        }
    } else if month == 4 || month == 6 || month == 9 || month == 11 {
        30
    } else {
        31
    }
}

impl Timestamp {
    /// Whether every field is in its range and the day exists in its month.
    pub fn is_valid(&self) -> (r: bool)
        ensures
            r == self.wf(),
    {
        self.year <= 9999 && 1 <= self.month && self.month <= 12 && 1 <= self.day
            && self.day <= days_in_month_exec(self.year, self.month) && self.hour < 24
            && self.minute < 60 && self.second < 60 && self.millisecond < 1000
    }

    /// Reads a timestamp written as `YYYY-MM-DDTHH:MM:SS.mmmZ`; any other
    /// shape is refused, as is a field out of its range.
    pub fn parse(s: &str) -> (r: Result<Timestamp, TimestampError>)
        ensures
            r == Self::spec_parse(s@),
            r is Ok ==> r->Ok_0.wf(),
    {
        proof {
            reveal_with_fuel(pow10, 4);
        }
        let n = s.unicode_len();
        if n != 24 {
            return Err(TimestampError::Malformed);
        }
        if s.get_char(4) != '-' || s.get_char(7) != '-' || s.get_char(10) != 'T' || s.get_char(13)
            != ':' || s.get_char(16) != ':' || s.get_char(19) != '.' || s.get_char(23) != 'Z' {
            return Err(TimestampError::Malformed);
        }
        let year = number_in(s, 0, 4);
        let month = number_in(s, 5, 2);
        let day = number_in(s, 8, 2);
        let hour = number_in(s, 11, 2);
        let minute = number_in(s, 14, 2);
        let second = number_in(s, 17, 2);
        let millisecond = number_in(s, 20, 3);
        match (year, month, day, hour, minute, second, millisecond) {
            (Some(year), Some(month), Some(day), Some(hour), Some(minute), Some(second), Some(millisecond)) => {
                let t = Timestamp {
                    year,
                    month: month as u8,
                    day: day as u8,
                    hour: hour as u8,
                    minute: minute as u8,
                    second: second as u8,
                    millisecond,
                };
                assert(t == Self::fields_of(s@));
                if t.is_valid() {
                    Ok(t)
                } else {
                    Err(TimestampError::OutOfRange)
                }
            },
            _ => Err(TimestampError::Malformed),
        }
    }

    /// Writes the timestamp as `YYYY-MM-DDTHH:MM:SS.mmmZ`.
    pub fn to_text(&self) -> (r: String)
        ensures
            r@ == self.spec_text(),
    {
        proof {
            reveal_strlit("-");
            reveal_strlit("T");
            reveal_strlit(":");
            reveal_strlit(".");
            reveal_strlit("Z");
        }
        let mut out = String::new();
        push_digits(&mut out, self.year, 4);
        out.append("-");
        push_digits(&mut out, self.month as u16, 2);
        out.append("-");
        push_digits(&mut out, self.day as u16, 2);
        out.append("T");
        push_digits(&mut out, self.hour as u16, 2);
        out.append(":");
        push_digits(&mut out, self.minute as u16, 2);
        out.append(":");
        push_digits(&mut out, self.second as u16, 2);
        out.append(".");
        push_digits(&mut out, self.millisecond, 3);
        out.append("Z");
        assert(out@ =~= self.spec_text());
        out
    }
}

/// Timestamp round trip: reading the text of a valid timestamp gives it back.
pub proof fn lemma_timestamp_round_trip(t: Timestamp)
    requires
        t.wf(),
    ensures
        Timestamp::spec_parse(t.spec_text()) == Ok::<Timestamp, TimestampError>(t),
{
    reveal_with_fuel(pow10, 5);
    let s = t.spec_text();
    lemma_digits_len(t.year as int, 4);
    lemma_digits_len(t.month as int, 2);
    lemma_digits_len(t.day as int, 2);
    lemma_digits_len(t.hour as int, 2);
    lemma_digits_len(t.minute as int, 2);
    lemma_digits_len(t.second as int, 2);
    lemma_digits_len(t.millisecond as int, 3);
    assert(s.len() == 24);
    assert(s.subrange(0, 4) =~= digits(t.year as int, 4));
    assert(s.subrange(5, 7) =~= digits(t.month as int, 2));
    assert(s.subrange(8, 10) =~= digits(t.day as int, 2));
    assert(s.subrange(11, 13) =~= digits(t.hour as int, 2));
    assert(s.subrange(14, 16) =~= digits(t.minute as int, 2));
    assert(s.subrange(17, 19) =~= digits(t.second as int, 2));
    assert(s.subrange(20, 23) =~= digits(t.millisecond as int, 3));
    lemma_digits_read_back(s, 0, t.year as int, 4);
    lemma_digits_read_back(s, 5, t.month as int, 2);
    lemma_digits_read_back(s, 8, t.day as int, 2);
    lemma_digits_read_back(s, 11, t.hour as int, 2);
    lemma_digits_read_back(s, 14, t.minute as int, 2);
    lemma_digits_read_back(s, 17, t.second as int, 2);
    lemma_digits_read_back(s, 20, t.millisecond as int, 3);
    assert(Timestamp::fields_of(s) == t);
}

/// The creation and last-update instants of a record.
#[derive(Debug, Clone, Copy, PartialEq, Eq, Structural)]
pub struct Timestamps {
    pub created_at: Timestamp,
    pub updated_at: Timestamp,
}

/// Which of the two instants of a record could not be read, and why.
#[derive(Debug, Clone, Copy, PartialEq, Eq, Structural)]
pub enum TimestampsError {
    /// The creation instant.
    CreatedAt(TimestampError),
    /// The last-update instant.
    UpdatedAt(TimestampError),
}

impl Timestamps {
    /// Both instants are valid.
    pub open spec fn wf(&self) -> bool {
        self.created_at.wf() && self.updated_at.wf()
    }

    /// What reading the two texts gives: the first failure, creation first.
    pub open spec fn spec_parse(created_at: Seq<char>, updated_at: Seq<char>) -> Result<Timestamps, TimestampsError> {
        match (Timestamp::spec_parse(created_at), Timestamp::spec_parse(updated_at)) {
            (Err(e), _) => Err(TimestampsError::CreatedAt(e)),
            (Ok(_), Err(e)) => Err(TimestampsError::UpdatedAt(e)),
            (Ok(c), Ok(u)) => Ok(Timestamps { created_at: c, updated_at: u }),
        }
    }

    /// Reads the creation and last-update instants.
    pub fn parse(created_at: &str, updated_at: &str) -> (r: Result<Timestamps, TimestampsError>)
        ensures
            r == Self::spec_parse(created_at@, updated_at@),
            r is Ok ==> r->Ok_0.wf(),
    {
        let c = match Timestamp::parse(created_at) {
            Ok(c) => c,
            Err(e) => return Err(TimestampsError::CreatedAt(e)),
        };
        let u = match Timestamp::parse(updated_at) {
            Ok(u) => u,
            Err(e) => return Err(TimestampsError::UpdatedAt(e)),
        };
        Ok(Timestamps { created_at: c, updated_at: u })
    }
}

} // verus!
