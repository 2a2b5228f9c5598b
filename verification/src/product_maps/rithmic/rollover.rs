//! The front-month contract of a futures product: which delivery month trades at a given
//! time, given each product's rollover day and whether it lists monthly or quarterly.
use crate::helpers::converters::trunc_rem;
use crate::helpers::text::{decimal_text, digit, digit_char, push_char, push_decimal, str_eq};
use chrono::Datelike;
use vstd::prelude::*;

verus! {

/// Why no front month could be named.
#[derive(Debug, PartialEq, Eq)]
pub enum RolloverError {
    UnknownSymbol(String),
    InvalidMonth(u32),
}

/// When a product rolls to its next contract: the day of the month, and whether only the
/// quarterly months (March, June, September, December) are listed.
#[derive(Clone, Copy, Debug, PartialEq, Eq, Structural)]
pub struct ContractSpec {
    pub rollover_day: u32,
    pub is_quarterly: bool,
}

/// The rollover specification of each product with one.
pub open spec fn spec_contract_spec(symbol: Seq<char>) -> Option<ContractSpec> {
    if symbol == "CL"@ {
        Some(ContractSpec { rollover_day: 18, is_quarterly: false })
    } else if symbol == "HO"@ {
        Some(ContractSpec { rollover_day: 25, is_quarterly: false })
    } else if symbol == "RB"@ {
        Some(ContractSpec { rollover_day: 25, is_quarterly: false })
    } else if symbol == "NG"@ {
        Some(ContractSpec { rollover_day: 28, is_quarterly: false })
    } else if symbol == "MCL"@ {
        Some(ContractSpec { rollover_day: 18, is_quarterly: false })
    } else if symbol == "QM"@ {
        Some(ContractSpec { rollover_day: 18, is_quarterly: false })
    } else if symbol == "QG"@ {
        Some(ContractSpec { rollover_day: 28, is_quarterly: false })
    } else if symbol == "GC"@ {
        Some(ContractSpec { rollover_day: 26, is_quarterly: false })
    } else if symbol == "SI"@ {
        Some(ContractSpec { rollover_day: 25, is_quarterly: false })
    } else if symbol == "HG"@ {
        Some(ContractSpec { rollover_day: 28, is_quarterly: false })
    } else if symbol == "PA"@ {
        Some(ContractSpec { rollover_day: 25, is_quarterly: false })
    } else if symbol == "PL"@ {
        Some(ContractSpec { rollover_day: 25, is_quarterly: false })
    } else if symbol == "MGC"@ {
        Some(ContractSpec { rollover_day: 26, is_quarterly: false })
    } else if symbol == "SIL"@ {
        Some(ContractSpec { rollover_day: 25, is_quarterly: false })
    } else if symbol == "ES"@ {
        Some(ContractSpec { rollover_day: 9, is_quarterly: true })
    } else if symbol == "NQ"@ {
        Some(ContractSpec { rollover_day: 9, is_quarterly: true })
    } else if symbol == "RTY"@ {
        Some(ContractSpec { rollover_day: 9, is_quarterly: true })
    } else if symbol == "YM"@ {
        Some(ContractSpec { rollover_day: 9, is_quarterly: true })
    } else if symbol == "MES"@ {
        Some(ContractSpec { rollover_day: 9, is_quarterly: true })
    } else if symbol == "MNQ"@ {
        Some(ContractSpec { rollover_day: 9, is_quarterly: true })
    } else if symbol == "M2K"@ {
        Some(ContractSpec { rollover_day: 9, is_quarterly: true })
    } else if symbol == "MYM"@ {
        Some(ContractSpec { rollover_day: 9, is_quarterly: true })
    } else if symbol == "ZN"@ {
        Some(ContractSpec { rollover_day: 21, is_quarterly: true })
    } else if symbol == "ZF"@ {
        Some(ContractSpec { rollover_day: 21, is_quarterly: true })
    } else if symbol == "ZB"@ {
        Some(ContractSpec { rollover_day: 21, is_quarterly: true })
    } else if symbol == "ZT"@ {
        Some(ContractSpec { rollover_day: 21, is_quarterly: true })
    } else if symbol == "UB"@ {
        Some(ContractSpec { rollover_day: 21, is_quarterly: true })
    } else if symbol == "SR3"@ {
        Some(ContractSpec { rollover_day: 13, is_quarterly: true })
    } else if symbol == "6E"@ {
        Some(ContractSpec { rollover_day: 9, is_quarterly: true })
    } else if symbol == "6B"@ {
        Some(ContractSpec { rollover_day: 9, is_quarterly: true })
    } else if symbol == "6J"@ {
        Some(ContractSpec { rollover_day: 9, is_quarterly: true })
    } else if symbol == "6C"@ {
        Some(ContractSpec { rollover_day: 9, is_quarterly: true })
    } else if symbol == "6A"@ {
        Some(ContractSpec { rollover_day: 9, is_quarterly: true })
    } else if symbol == "6N"@ {
        Some(ContractSpec { rollover_day: 9, is_quarterly: true })
    } else if symbol == "6S"@ {
        Some(ContractSpec { rollover_day: 9, is_quarterly: true })
    } else if symbol == "M6E"@ {
        Some(ContractSpec { rollover_day: 9, is_quarterly: true })
    } else if symbol == "M6A"@ {
        Some(ContractSpec { rollover_day: 9, is_quarterly: true })
    } else if symbol == "ZC"@ {
        Some(ContractSpec { rollover_day: 15, is_quarterly: false })
    } else if symbol == "ZW"@ {
        Some(ContractSpec { rollover_day: 15, is_quarterly: false })
    } else if symbol == "ZS"@ {
        Some(ContractSpec { rollover_day: 15, is_quarterly: false })
    } else if symbol == "ZM"@ {
        Some(ContractSpec { rollover_day: 15, is_quarterly: false })
    } else if symbol == "ZL"@ {
        Some(ContractSpec { rollover_day: 15, is_quarterly: false })
    } else if symbol == "KE"@ {
        Some(ContractSpec { rollover_day: 15, is_quarterly: false })
    } else if symbol == "CT"@ {
        Some(ContractSpec { rollover_day: 7, is_quarterly: false })
    } else if symbol == "VX"@ {
        Some(ContractSpec { rollover_day: 9, is_quarterly: false })
    } else {
        None
    }
}

/// The rollover specification of `symbol`, if the product has one.
pub fn contract_spec(symbol: &str) -> (r: Option<ContractSpec>)
    ensures
        r == spec_contract_spec(symbol@),
{
    if str_eq(symbol, "CL") {
        Some(ContractSpec { rollover_day: 18, is_quarterly: false })
    } else if str_eq(symbol, "HO") {
        Some(ContractSpec { rollover_day: 25, is_quarterly: false })
    } else if str_eq(symbol, "RB") {
        Some(ContractSpec { rollover_day: 25, is_quarterly: false })
    } else if str_eq(symbol, "NG") {
        Some(ContractSpec { rollover_day: 28, is_quarterly: false })
    } else if str_eq(symbol, "MCL") {
        Some(ContractSpec { rollover_day: 18, is_quarterly: false })
    } else if str_eq(symbol, "QM") {
        Some(ContractSpec { rollover_day: 18, is_quarterly: false })
    } else if str_eq(symbol, "QG") {
        Some(ContractSpec { rollover_day: 28, is_quarterly: false })
    } else if str_eq(symbol, "GC") {
        Some(ContractSpec { rollover_day: 26, is_quarterly: false })
    } else if str_eq(symbol, "SI") {
        Some(ContractSpec { rollover_day: 25, is_quarterly: false })
    } else if str_eq(symbol, "HG") {
        Some(ContractSpec { rollover_day: 28, is_quarterly: false })
    } else if str_eq(symbol, "PA") {
        Some(ContractSpec { rollover_day: 25, is_quarterly: false })
    } else if str_eq(symbol, "PL") {
        Some(ContractSpec { rollover_day: 25, is_quarterly: false })
    } else if str_eq(symbol, "MGC") {
        Some(ContractSpec { rollover_day: 26, is_quarterly: false })
    } else if str_eq(symbol, "SIL") {
        Some(ContractSpec { rollover_day: 25, is_quarterly: false })
    } else if str_eq(symbol, "ES") {
        Some(ContractSpec { rollover_day: 9, is_quarterly: true })
    } else if str_eq(symbol, "NQ") {
        Some(ContractSpec { rollover_day: 9, is_quarterly: true })
    } else if str_eq(symbol, "RTY") {
        Some(ContractSpec { rollover_day: 9, is_quarterly: true })
    } else if str_eq(symbol, "YM") {
        Some(ContractSpec { rollover_day: 9, is_quarterly: true })
    } else if str_eq(symbol, "MES") {
        Some(ContractSpec { rollover_day: 9, is_quarterly: true })
    } else if str_eq(symbol, "MNQ") {
        Some(ContractSpec { rollover_day: 9, is_quarterly: true })
    } else if str_eq(symbol, "M2K") {
        Some(ContractSpec { rollover_day: 9, is_quarterly: true })
    } else if str_eq(symbol, "MYM") {
        Some(ContractSpec { rollover_day: 9, is_quarterly: true })
    } else if str_eq(symbol, "ZN") {
        Some(ContractSpec { rollover_day: 21, is_quarterly: true })
    } else if str_eq(symbol, "ZF") {
        Some(ContractSpec { rollover_day: 21, is_quarterly: true })
    } else if str_eq(symbol, "ZB") {
        Some(ContractSpec { rollover_day: 21, is_quarterly: true })
    } else if str_eq(symbol, "ZT") {
        Some(ContractSpec { rollover_day: 21, is_quarterly: true })
    } else if str_eq(symbol, "UB") {
        Some(ContractSpec { rollover_day: 21, is_quarterly: true })
    } else if str_eq(symbol, "SR3") {
        Some(ContractSpec { rollover_day: 13, is_quarterly: true })
    } else if str_eq(symbol, "6E") {
        Some(ContractSpec { rollover_day: 9, is_quarterly: true })
    } else if str_eq(symbol, "6B") {
        Some(ContractSpec { rollover_day: 9, is_quarterly: true })
    } else if str_eq(symbol, "6J") {
        Some(ContractSpec { rollover_day: 9, is_quarterly: true })
    } else if str_eq(symbol, "6C") {
        Some(ContractSpec { rollover_day: 9, is_quarterly: true })
    } else if str_eq(symbol, "6A") {
        Some(ContractSpec { rollover_day: 9, is_quarterly: true })
    } else if str_eq(symbol, "6N") {
        Some(ContractSpec { rollover_day: 9, is_quarterly: true })
    } else if str_eq(symbol, "6S") {
        Some(ContractSpec { rollover_day: 9, is_quarterly: true })
    } else if str_eq(symbol, "M6E") {
        Some(ContractSpec { rollover_day: 9, is_quarterly: true })
    } else if str_eq(symbol, "M6A") {
        Some(ContractSpec { rollover_day: 9, is_quarterly: true })
    } else if str_eq(symbol, "ZC") {
        Some(ContractSpec { rollover_day: 15, is_quarterly: false })
    } else if str_eq(symbol, "ZW") {
        Some(ContractSpec { rollover_day: 15, is_quarterly: false })
    } else if str_eq(symbol, "ZS") {
        Some(ContractSpec { rollover_day: 15, is_quarterly: false })
    } else if str_eq(symbol, "ZM") {
        Some(ContractSpec { rollover_day: 15, is_quarterly: false })
    } else if str_eq(symbol, "ZL") {
        Some(ContractSpec { rollover_day: 15, is_quarterly: false })
    } else if str_eq(symbol, "KE") {
        Some(ContractSpec { rollover_day: 15, is_quarterly: false })
    } else if str_eq(symbol, "CT") {
        Some(ContractSpec { rollover_day: 7, is_quarterly: false })
    } else if str_eq(symbol, "VX") {
        Some(ContractSpec { rollover_day: 9, is_quarterly: false })
    } else {
        None
    }
}

/// The contract month code of a month: F, G, H, J, K, M, N, Q, U, V, X, Z for January to
/// December.
pub open spec fn spec_month_code(month: int) -> Option<char> {
    if month == 1 { Some('F') }
    else if month == 2 { Some('G') }
    else if month == 3 { Some('H') }
    else if month == 4 { Some('J') }
    else if month == 5 { Some('K') }
    else if month == 6 { Some('M') }
    else if month == 7 { Some('N') }
    else if month == 8 { Some('Q') }
    else if month == 9 { Some('U') }
    else if month == 10 { Some('V') }
    else if month == 11 { Some('X') }
    else if month == 12 { Some('Z') }
    else { None }
}

/// The month code of `month`; months outside 1 to 12 are invalid.
pub fn month_to_code(month: u32) -> (r: Result<char, RolloverError>)
    ensures
        match spec_month_code(month as int) {
            Some(c) => r == Ok::<char, RolloverError>(c),
            None => r == Err::<char, RolloverError>(RolloverError::InvalidMonth(month)),
        },
{
    match month {
        1 => Ok('F'),
        2 => Ok('G'),
        3 => Ok('H'),
        4 => Ok('J'),
        5 => Ok('K'),
        6 => Ok('M'),
        7 => Ok('N'),
        8 => Ok('Q'),
        9 => Ok('U'),
        10 => Ok('V'),
        11 => Ok('X'),
        12 => Ok('Z'),
        _ => Err(RolloverError::InvalidMonth(month)),
    }
}

/// The next listed month after `month` and whether it falls in the next year: for
/// quarterly products the next quarter month strictly after a quarter month, or the
/// quarter month a month lies in otherwise; for monthly products the next month.
pub open spec fn spec_next_month(month: int, is_quarterly: bool) -> (int, bool) {
    if is_quarterly {
        if month == 12 {
            (3, true)
        } else if month <= 2 {
            (3, false)
        } else if month <= 5 {
            (6, false)
        } else if month <= 8 {
            (9, false)
        } else {
            (12, false)
        }
    } else if month == 12 {
        (1, true)
    } else {
        (month + 1, false)
    }
}

/// The next listed month after `current_month`, and whether the year advances.
pub fn get_next_month(current_month: u32, is_quarterly: bool) -> (r: (u32, bool))
    requires
        is_quarterly ==> 1 <= current_month <= 12,
        !is_quarterly ==> current_month < u32::MAX,
    ensures
        (r.0 as int, r.1) == spec_next_month(current_month as int, is_quarterly),
{
    if is_quarterly {
        match current_month {
            3 => (6, false),
            6 => (9, false),
            9 => (12, false),
            12 => (3, true),
            1..=2 => (3, false),
            4..=5 => (6, false),
            7..=8 => (9, false),
            _ => (12, false),
        }
    } else {
        if current_month == 12 {
            (1, true)
        } else {
            (current_month + 1, false)
        }
    }
}

/// The month after `ym` as [`spec_next_month`] gives it, with the year carried.
pub open spec fn advance(ym: (int, int), is_quarterly: bool) -> (int, int) {
    let (m, carry) = spec_next_month(ym.1, is_quarterly);
    (if carry { ym.0 + 1 } else { ym.0 }, m)
}

/// The (year, month) of the front contract on the given Chicago calendar date. Quarterly
/// products trade the next quarter month, or the current one until its rollover day.
/// Monthly products trade the next month, or the month after once the rollover day is
/// reached; in December on or after the rollover day, January of the next year.
pub open spec fn front_year_month(spec: ContractSpec, year: int, month: int, day: int) -> (int, int) {
    if spec.is_quarterly {
        if month == 3 || month == 6 || month == 9 || month == 12 {
            if day >= spec.rollover_day {
                advance((year, month), true)
            } else {
                (year, month)
            }
        } else {
            advance((year, month), true)
        }
    } else if month == 12 && day >= spec.rollover_day {
        (year + 1, 1)
    } else {
        let next = advance((year, month), false);
        if day >= spec.rollover_day {
            advance(next, false)
        } else {
            next
        }
    }
}

/// Months from (`y0`, `m0`) to (`y1`, `m1`).
pub open spec fn months_between(y0: int, m0: int, y1: int, m1: int) -> int {
    (y1 - y0) * 12 + (m1 - m0)
}

/// The front contract never lies before the current month: a monthly product trades one
/// or two months ahead, a quarterly one at most three, and always in a quarter month.
pub proof fn law_front_month_ahead(spec: ContractSpec, year: int, month: int, day: int)
    requires
        1 <= month <= 12,
    ensures
        ({
            let (y, m) = front_year_month(spec, year, month, day);
            let ahead = months_between(year, month, y, m);
            &&& 1 <= m <= 12
            &&& 0 <= ahead <= 3
            &&& !spec.is_quarterly ==> 1 <= ahead <= 2
            &&& spec.is_quarterly ==> (m == 3 || m == 6 || m == 9 || m == 12)
        }),
{
}

/// Within a month, a later day never gives an earlier front contract.
pub proof fn law_front_month_monotone(spec: ContractSpec, year: int, month: int, day1: int, day2: int)
    requires
        1 <= month <= 12,
        day1 <= day2,
    ensures
        ({
            let (y1, m1) = front_year_month(spec, year, month, day1);
            let (y2, m2) = front_year_month(spec, year, month, day2);
            months_between(y1, m1, y2, m2) >= 0
        }),
{
}

/// `n` (between -99 and 99) written with at least two characters, as `{:02}` writes it:
/// a leading zero for 0 to 9, a minus sign before negative numbers.
pub open spec fn two_digit_text(n: int) -> Seq<char> {
    if n >= 10 {
        seq![digit_char(n / 10), digit_char(n % 10)]
    } else if n >= 0 {
        seq!['0', digit_char(n)]
    } else if n > -10 {
        seq!['-', digit_char(-n)]
    } else {
        seq!['-', digit_char((-n) / 10), digit_char((-n) % 10)]
    }
}

/// The front contract's name on the given Chicago calendar date: the symbol, the month
/// code and the last two digits of the year.
pub open spec fn spec_front_month(symbol: Seq<char>, year: int, month: int, day: int) -> Option<Seq<char>> {
    match spec_contract_spec(symbol) {
        Some(spec) => {
            let (y, m) = front_year_month(spec, year, month, day);
            match spec_month_code(m) {
                Some(code) => Some(symbol + seq![code] + two_digit_text(trunc_rem(y, 100))),
                None => None,
            }
        },
        None => None,
    }
}

/// Appends `n` (between -99 and 99) as `{:02}` writes it.
fn push_two_digits(text: &mut String, n: i32)
    requires
        -99 <= n <= 99,
    ensures
        final(text)@ == old(text)@ + two_digit_text(n as int),
{
    if n >= 10 {
        push_char(text, digit(n / 10));
        push_char(text, digit(n % 10));
    } else if n >= 0 {
        push_char(text, '0');
        push_char(text, digit(n));
    } else if n > -10 {
        push_char(text, '-');
        push_char(text, digit(-n));
    } else {
        push_char(text, '-');
        push_char(text, digit((-n) / 10));
        push_char(text, digit((-n) % 10));
    }
}

/// The front contract of `symbol` on the Chicago calendar date `year`-`month`-`day`, as
/// the symbol followed by the month code and the year's last two digits, such as
/// `"CLG24"`.
pub fn front_month(symbol: &str, year: i32, month: u32, day: u32) -> (r: Result<String, RolloverError>)
    requires
        1 <= month <= 12,
        i32::MIN < year < i32::MAX,
    ensures
        spec_contract_spec(symbol@) is None ==> (r matches Err(RolloverError::UnknownSymbol(s))
            && s@ == symbol@),
        spec_contract_spec(symbol@) is Some ==> (r matches Ok(name)
            && Some(name@) == spec_front_month(symbol@, year as int, month as int, day as int)),
{
    let spec = match contract_spec(symbol) {
        Some(spec) => spec,
        None => {
            return Err(RolloverError::UnknownSymbol(symbol.to_owned()));
        },
    };
    let mut month = month;
    let mut year = year;
    if spec.is_quarterly {
        if month == 3 || month == 6 || month == 9 || month == 12 {
            if day >= spec.rollover_day {
                let (next_month, year_increment) = get_next_month(month, true);
                month = next_month;
                if year_increment {
                    year = year + 1;
                }
            }
        } else {
            let (next_month, year_increment) = get_next_month(month, true);
            month = next_month;
            if year_increment {
                year = year + 1;
            }
        }
    } else {
        if month == 12 && day >= spec.rollover_day {
            month = 1;
            year = year + 1;
        } else {
            let (next_month, year_increment) = get_next_month(month, false);
            month = next_month;
            if year_increment {
                year = year + 1;
            }
            if day >= spec.rollover_day {
                let (next_month, year_increment) = get_next_month(month, false);
                month = next_month;
                if year_increment {
                    year = year + 1;
                }
            }
        }
    }
    let year_code = year % 100;
    let month_code = match month_to_code(month) {
        Ok(code) => code,
        Err(e) => {
            return Err(e);
        },
    };
    let mut name = symbol.to_owned();
    push_char(&mut name, month_code);
    push_two_digits(&mut name, year_code);
    Ok(name)
}

/// The calendar date in Chicago of a UTC time, as chrono and chrono-tz compute it.
pub uninterp spec fn chicago_date(utc_nanos: int) -> (int, int, int);

/// `DateTime::from_timestamp_nanos(..).with_timezone(&Chicago)`, read as year, month and
/// day. The time zone rules are chrono-tz's and are not restated here; chrono documents
/// the month as 1 to 12 and the day as 1 to 31, and keeps every date's year within
/// 262143 of year zero.
#[verifier::external_body]
fn chicago_calendar_date(utc_nanos: i64) -> (r: (i32, u32, u32))
    ensures
        (r.0 as int, r.1 as int, r.2 as int) == chicago_date(utc_nanos as int),
        -262144 <= r.0 <= 262143,
        1 <= r.1 <= 12,
        1 <= r.2 <= 31,
{
    let chicago_time = chrono::DateTime::from_timestamp_nanos(utc_nanos).with_timezone(
        &chrono_tz::America::Chicago,
    );
    (chicago_time.year(), chicago_time.month(), chicago_time.day())
}

/// The front contract of `symbol` at the UTC time `utc_nanos` (nanoseconds since the
/// epoch), judged by the calendar date in Chicago.
pub fn get_front_month(symbol: &str, utc_nanos: i64) -> (r: Result<String, RolloverError>)
    ensures
        ({
            let (year, month, day) = chicago_date(utc_nanos as int);
            &&& spec_contract_spec(symbol@) is None ==> (r matches Err(RolloverError::UnknownSymbol(s))
                && s@ == symbol@)
            &&& spec_contract_spec(symbol@) is Some ==> (r matches Ok(name)
                && Some(name@) == spec_front_month(symbol@, year, month, day))
        }),
{
    let (year, month, day) = chicago_calendar_date(utc_nanos);
    front_month(symbol, year, month, day)
}

impl RolloverError {
    /// The error's message.
    pub fn message(&self) -> (r: String)
        ensures
            r@ == (match self {
                RolloverError::UnknownSymbol(s) => "Symbol not recognized: "@ + s@,
                RolloverError::InvalidMonth(m) => "Invalid month for rollover: "@ + decimal_text(*m as nat),
            }),
    {
        match self {
            RolloverError::UnknownSymbol(s) => String::from_str("Symbol not recognized: ").concat(s.as_str()),
            RolloverError::InvalidMonth(m) => {
                let mut text = String::from_str("Invalid month for rollover: ");
                push_decimal(&mut text, *m as u64);
                text
            },
        }
    }
}

/// The equity index futures (E-mini and Micro S&P 500, Nasdaq-100, Russell 2000 and Dow)
/// are listed quarterly and roll on the 9th.
pub proof fn law_equity_index_products_roll_quarterly_on_the_ninth()
    ensures
        spec_contract_spec("ES"@) == Some(ContractSpec { rollover_day: 9, is_quarterly: true }),
        spec_contract_spec("NQ"@) == Some(ContractSpec { rollover_day: 9, is_quarterly: true }),
        spec_contract_spec("RTY"@) == Some(ContractSpec { rollover_day: 9, is_quarterly: true }),
        spec_contract_spec("YM"@) == Some(ContractSpec { rollover_day: 9, is_quarterly: true }),
        spec_contract_spec("MES"@) == Some(ContractSpec { rollover_day: 9, is_quarterly: true }),
        spec_contract_spec("MNQ"@) == Some(ContractSpec { rollover_day: 9, is_quarterly: true }),
        spec_contract_spec("M2K"@) == Some(ContractSpec { rollover_day: 9, is_quarterly: true }),
        spec_contract_spec("MYM"@) == Some(ContractSpec { rollover_day: 9, is_quarterly: true }),
{
    reveal_strlit("CL");
    reveal_strlit("HO");
    reveal_strlit("RB");
    reveal_strlit("NG");
    reveal_strlit("MCL");
    reveal_strlit("QM");
    reveal_strlit("QG");
    reveal_strlit("GC");
    reveal_strlit("SI");
    reveal_strlit("HG");
    reveal_strlit("PA");
    reveal_strlit("PL");
    reveal_strlit("MGC");
    reveal_strlit("SIL");
    reveal_strlit("ES");
    reveal_strlit("NQ");
    reveal_strlit("RTY");
    reveal_strlit("YM");
    reveal_strlit("MES");
    reveal_strlit("MNQ");
    reveal_strlit("M2K");
    reveal_strlit("MYM");
    assert(spec_contract_spec("ES"@) == Some(ContractSpec { rollover_day: 9, is_quarterly: true })) by {
        assert("ES"@[0] != "CL"@[0]);
        assert("ES"@[0] != "HO"@[0]);
        assert("ES"@[0] != "RB"@[0]);
        assert("ES"@[0] != "NG"@[0]);
        assert("ES"@.len() != "MCL"@.len());
        assert("ES"@[0] != "QM"@[0]);
        assert("ES"@[0] != "QG"@[0]);
        assert("ES"@[0] != "GC"@[0]);
        assert("ES"@[0] != "SI"@[0]);
        assert("ES"@[0] != "HG"@[0]);
        assert("ES"@[0] != "PA"@[0]);
        assert("ES"@[0] != "PL"@[0]);
        assert("ES"@.len() != "MGC"@.len());
        assert("ES"@.len() != "SIL"@.len());
    }
    assert(spec_contract_spec("NQ"@) == Some(ContractSpec { rollover_day: 9, is_quarterly: true })) by {
        assert("NQ"@[0] != "CL"@[0]);
        assert("NQ"@[0] != "HO"@[0]);
        assert("NQ"@[0] != "RB"@[0]);
        assert("NQ"@[1] != "NG"@[1]);
        assert("NQ"@.len() != "MCL"@.len());
        assert("NQ"@[0] != "QM"@[0]);
        assert("NQ"@[0] != "QG"@[0]);
        assert("NQ"@[0] != "GC"@[0]);
        assert("NQ"@[0] != "SI"@[0]);
        assert("NQ"@[0] != "HG"@[0]);
        assert("NQ"@[0] != "PA"@[0]);
        assert("NQ"@[0] != "PL"@[0]);
        assert("NQ"@.len() != "MGC"@.len());
        assert("NQ"@.len() != "SIL"@.len());
        assert("NQ"@[0] != "ES"@[0]);
    }
    assert(spec_contract_spec("RTY"@) == Some(ContractSpec { rollover_day: 9, is_quarterly: true })) by {
        assert("RTY"@.len() != "CL"@.len());
        assert("RTY"@.len() != "HO"@.len());
        assert("RTY"@.len() != "RB"@.len());
        assert("RTY"@.len() != "NG"@.len());
        assert("RTY"@[0] != "MCL"@[0]);
        assert("RTY"@.len() != "QM"@.len());
        assert("RTY"@.len() != "QG"@.len());
        assert("RTY"@.len() != "GC"@.len());
        assert("RTY"@.len() != "SI"@.len());
        assert("RTY"@.len() != "HG"@.len());
        assert("RTY"@.len() != "PA"@.len());
        assert("RTY"@.len() != "PL"@.len());
        assert("RTY"@[0] != "MGC"@[0]);
        assert("RTY"@[0] != "SIL"@[0]);
        assert("RTY"@.len() != "ES"@.len());
        assert("RTY"@.len() != "NQ"@.len());
    }
    assert(spec_contract_spec("YM"@) == Some(ContractSpec { rollover_day: 9, is_quarterly: true })) by {
        assert("YM"@[0] != "CL"@[0]);
        assert("YM"@[0] != "HO"@[0]);
        assert("YM"@[0] != "RB"@[0]);
        assert("YM"@[0] != "NG"@[0]);
        assert("YM"@.len() != "MCL"@.len());
        assert("YM"@[0] != "QM"@[0]);
        assert("YM"@[0] != "QG"@[0]);
        assert("YM"@[0] != "GC"@[0]);
        assert("YM"@[0] != "SI"@[0]);
        assert("YM"@[0] != "HG"@[0]);
        assert("YM"@[0] != "PA"@[0]);
        assert("YM"@[0] != "PL"@[0]);
        assert("YM"@.len() != "MGC"@.len());
        assert("YM"@.len() != "SIL"@.len());
        assert("YM"@[0] != "ES"@[0]);
        assert("YM"@[0] != "NQ"@[0]);
        assert("YM"@.len() != "RTY"@.len());
    }
    assert(spec_contract_spec("MES"@) == Some(ContractSpec { rollover_day: 9, is_quarterly: true })) by {
        assert("MES"@.len() != "CL"@.len());
        assert("MES"@.len() != "HO"@.len());
        assert("MES"@.len() != "RB"@.len());
        assert("MES"@.len() != "NG"@.len());
        assert("MES"@[1] != "MCL"@[1]);
        assert("MES"@.len() != "QM"@.len());
        assert("MES"@.len() != "QG"@.len());
        assert("MES"@.len() != "GC"@.len());
        assert("MES"@.len() != "SI"@.len());
        assert("MES"@.len() != "HG"@.len());
        assert("MES"@.len() != "PA"@.len());
        assert("MES"@.len() != "PL"@.len());
        assert("MES"@[1] != "MGC"@[1]);
        assert("MES"@[0] != "SIL"@[0]);
        assert("MES"@.len() != "ES"@.len());
        assert("MES"@.len() != "NQ"@.len());
        assert("MES"@[0] != "RTY"@[0]);
        assert("MES"@.len() != "YM"@.len());
    }
    assert(spec_contract_spec("MNQ"@) == Some(ContractSpec { rollover_day: 9, is_quarterly: true })) by {
        assert("MNQ"@.len() != "CL"@.len());
        assert("MNQ"@.len() != "HO"@.len());
        assert("MNQ"@.len() != "RB"@.len());
        assert("MNQ"@.len() != "NG"@.len());
        assert("MNQ"@[1] != "MCL"@[1]);
        assert("MNQ"@.len() != "QM"@.len());
        assert("MNQ"@.len() != "QG"@.len());
        assert("MNQ"@.len() != "GC"@.len());
        assert("MNQ"@.len() != "SI"@.len());
        assert("MNQ"@.len() != "HG"@.len());
        assert("MNQ"@.len() != "PA"@.len());
        assert("MNQ"@.len() != "PL"@.len());
        assert("MNQ"@[1] != "MGC"@[1]);
        assert("MNQ"@[0] != "SIL"@[0]);
        assert("MNQ"@.len() != "ES"@.len());
        assert("MNQ"@.len() != "NQ"@.len());
        assert("MNQ"@[0] != "RTY"@[0]);
        assert("MNQ"@.len() != "YM"@.len());
        assert("MNQ"@[1] != "MES"@[1]);
    }
    assert(spec_contract_spec("M2K"@) == Some(ContractSpec { rollover_day: 9, is_quarterly: true })) by {
        assert("M2K"@.len() != "CL"@.len());
        assert("M2K"@.len() != "HO"@.len());
        assert("M2K"@.len() != "RB"@.len());
        assert("M2K"@.len() != "NG"@.len());
        assert("M2K"@[1] != "MCL"@[1]);
        assert("M2K"@.len() != "QM"@.len());
        assert("M2K"@.len() != "QG"@.len());
        assert("M2K"@.len() != "GC"@.len());
        assert("M2K"@.len() != "SI"@.len());
        assert("M2K"@.len() != "HG"@.len());
        assert("M2K"@.len() != "PA"@.len());
        assert("M2K"@.len() != "PL"@.len());
        assert("M2K"@[1] != "MGC"@[1]);
        assert("M2K"@[0] != "SIL"@[0]);
        assert("M2K"@.len() != "ES"@.len());
        assert("M2K"@.len() != "NQ"@.len());
        assert("M2K"@[0] != "RTY"@[0]);
        assert("M2K"@.len() != "YM"@.len());
        assert("M2K"@[1] != "MES"@[1]);
        assert("M2K"@[1] != "MNQ"@[1]);
    }
    assert(spec_contract_spec("MYM"@) == Some(ContractSpec { rollover_day: 9, is_quarterly: true })) by {
        assert("MYM"@.len() != "CL"@.len());
        assert("MYM"@.len() != "HO"@.len());
        assert("MYM"@.len() != "RB"@.len());
        assert("MYM"@.len() != "NG"@.len());
        assert("MYM"@[1] != "MCL"@[1]);
        assert("MYM"@.len() != "QM"@.len());
        assert("MYM"@.len() != "QG"@.len());
        assert("MYM"@.len() != "GC"@.len());
        assert("MYM"@.len() != "SI"@.len());
        assert("MYM"@.len() != "HG"@.len());
        assert("MYM"@.len() != "PA"@.len());
        assert("MYM"@.len() != "PL"@.len());
        assert("MYM"@[1] != "MGC"@[1]);
        assert("MYM"@[0] != "SIL"@[0]);
        assert("MYM"@.len() != "ES"@.len());
        assert("MYM"@.len() != "NQ"@.len());
        assert("MYM"@[0] != "RTY"@[0]);
        assert("MYM"@.len() != "YM"@.len());
        assert("MYM"@[1] != "MES"@[1]);
        assert("MYM"@[1] != "MNQ"@[1]);
        assert("MYM"@[1] != "M2K"@[1]);
    }
}

/// The currency futures (euro, pound, yen, Canadian, Australian and New Zealand dollar,
/// Swiss franc, and the micro euro and Australian dollar) are listed quarterly and roll
/// on the 9th.
pub proof fn law_currency_products_roll_quarterly_on_the_ninth()
    ensures
        spec_contract_spec("6E"@) == Some(ContractSpec { rollover_day: 9, is_quarterly: true }),
        spec_contract_spec("6B"@) == Some(ContractSpec { rollover_day: 9, is_quarterly: true }),
        spec_contract_spec("6J"@) == Some(ContractSpec { rollover_day: 9, is_quarterly: true }),
        spec_contract_spec("6C"@) == Some(ContractSpec { rollover_day: 9, is_quarterly: true }),
        spec_contract_spec("6A"@) == Some(ContractSpec { rollover_day: 9, is_quarterly: true }),
        spec_contract_spec("6N"@) == Some(ContractSpec { rollover_day: 9, is_quarterly: true }),
        spec_contract_spec("6S"@) == Some(ContractSpec { rollover_day: 9, is_quarterly: true }),
        spec_contract_spec("M6E"@) == Some(ContractSpec { rollover_day: 9, is_quarterly: true }),
        spec_contract_spec("M6A"@) == Some(ContractSpec { rollover_day: 9, is_quarterly: true }),
{
    reveal_strlit("CL");
    reveal_strlit("HO");
    reveal_strlit("RB");
    reveal_strlit("NG");
    reveal_strlit("MCL");
    reveal_strlit("QM");
    reveal_strlit("QG");
    reveal_strlit("GC");
    reveal_strlit("SI");
    reveal_strlit("HG");
    reveal_strlit("PA");
    reveal_strlit("PL");
    reveal_strlit("MGC");
    reveal_strlit("SIL");
    reveal_strlit("ES");
    reveal_strlit("NQ");
    reveal_strlit("RTY");
    reveal_strlit("YM");
    reveal_strlit("MES");
    reveal_strlit("MNQ");
    reveal_strlit("M2K");
    reveal_strlit("MYM");
    reveal_strlit("ZN");
    reveal_strlit("ZF");
    reveal_strlit("ZB");
    reveal_strlit("ZT");
    reveal_strlit("UB");
    reveal_strlit("SR3");
    reveal_strlit("6E");
    reveal_strlit("6B");
    reveal_strlit("6J");
    reveal_strlit("6C");
    reveal_strlit("6A");
    reveal_strlit("6N");
    reveal_strlit("6S");
    reveal_strlit("M6E");
    reveal_strlit("M6A");
    assert(spec_contract_spec("6E"@) == Some(ContractSpec { rollover_day: 9, is_quarterly: true })) by {
        assert("6E"@[0] != "CL"@[0]);
        assert("6E"@[0] != "HO"@[0]);
        assert("6E"@[0] != "RB"@[0]);
        assert("6E"@[0] != "NG"@[0]);
        assert("6E"@.len() != "MCL"@.len());
        assert("6E"@[0] != "QM"@[0]);
        assert("6E"@[0] != "QG"@[0]);
        assert("6E"@[0] != "GC"@[0]);
        assert("6E"@[0] != "SI"@[0]);
        assert("6E"@[0] != "HG"@[0]);
        assert("6E"@[0] != "PA"@[0]);
        assert("6E"@[0] != "PL"@[0]);
        assert("6E"@.len() != "MGC"@.len());
        assert("6E"@.len() != "SIL"@.len());
        assert("6E"@[0] != "ES"@[0]);
        assert("6E"@[0] != "NQ"@[0]);
        assert("6E"@.len() != "RTY"@.len());
        assert("6E"@[0] != "YM"@[0]);
        assert("6E"@.len() != "MES"@.len());
        assert("6E"@.len() != "MNQ"@.len());
        assert("6E"@.len() != "M2K"@.len());
        assert("6E"@.len() != "MYM"@.len());
        assert("6E"@[0] != "ZN"@[0]);
        assert("6E"@[0] != "ZF"@[0]);
        assert("6E"@[0] != "ZB"@[0]);
        assert("6E"@[0] != "ZT"@[0]);
        assert("6E"@[0] != "UB"@[0]);
        assert("6E"@.len() != "SR3"@.len());
    }
    assert(spec_contract_spec("6B"@) == Some(ContractSpec { rollover_day: 9, is_quarterly: true })) by {
        assert("6B"@[0] != "CL"@[0]);
        assert("6B"@[0] != "HO"@[0]);
        assert("6B"@[0] != "RB"@[0]);
        assert("6B"@[0] != "NG"@[0]);
        assert("6B"@.len() != "MCL"@.len());
        assert("6B"@[0] != "QM"@[0]);
        assert("6B"@[0] != "QG"@[0]);
        assert("6B"@[0] != "GC"@[0]);
        assert("6B"@[0] != "SI"@[0]);
        assert("6B"@[0] != "HG"@[0]);
        assert("6B"@[0] != "PA"@[0]);
        assert("6B"@[0] != "PL"@[0]);
        assert("6B"@.len() != "MGC"@.len());
        assert("6B"@.len() != "SIL"@.len());
        assert("6B"@[0] != "ES"@[0]);
        assert("6B"@[0] != "NQ"@[0]);
        assert("6B"@.len() != "RTY"@.len());
        assert("6B"@[0] != "YM"@[0]);
        assert("6B"@.len() != "MES"@.len());
        assert("6B"@.len() != "MNQ"@.len());
        assert("6B"@.len() != "M2K"@.len());
        assert("6B"@.len() != "MYM"@.len());
        assert("6B"@[0] != "ZN"@[0]);
        assert("6B"@[0] != "ZF"@[0]);
        assert("6B"@[0] != "ZB"@[0]);
        assert("6B"@[0] != "ZT"@[0]);
        assert("6B"@[0] != "UB"@[0]);
        assert("6B"@.len() != "SR3"@.len());
        assert("6B"@[1] != "6E"@[1]);
    }
    assert(spec_contract_spec("6J"@) == Some(ContractSpec { rollover_day: 9, is_quarterly: true })) by {
        assert("6J"@[0] != "CL"@[0]);
        assert("6J"@[0] != "HO"@[0]);
        assert("6J"@[0] != "RB"@[0]);
        assert("6J"@[0] != "NG"@[0]);
        assert("6J"@.len() != "MCL"@.len());
        assert("6J"@[0] != "QM"@[0]);
        assert("6J"@[0] != "QG"@[0]);
        assert("6J"@[0] != "GC"@[0]);
        assert("6J"@[0] != "SI"@[0]);
        assert("6J"@[0] != "HG"@[0]);
        assert("6J"@[0] != "PA"@[0]);
        assert("6J"@[0] != "PL"@[0]);
        assert("6J"@.len() != "MGC"@.len());
        assert("6J"@.len() != "SIL"@.len());
        assert("6J"@[0] != "ES"@[0]);
        assert("6J"@[0] != "NQ"@[0]);
        assert("6J"@.len() != "RTY"@.len());
        assert("6J"@[0] != "YM"@[0]);
        assert("6J"@.len() != "MES"@.len());
        assert("6J"@.len() != "MNQ"@.len());
        assert("6J"@.len() != "M2K"@.len());
        assert("6J"@.len() != "MYM"@.len());
        assert("6J"@[0] != "ZN"@[0]);
        assert("6J"@[0] != "ZF"@[0]);
        assert("6J"@[0] != "ZB"@[0]);
        assert("6J"@[0] != "ZT"@[0]);
        assert("6J"@[0] != "UB"@[0]);
        assert("6J"@.len() != "SR3"@.len());
        assert("6J"@[1] != "6E"@[1]);
        assert("6J"@[1] != "6B"@[1]);
    }
    assert(spec_contract_spec("6C"@) == Some(ContractSpec { rollover_day: 9, is_quarterly: true })) by {
        assert("6C"@[0] != "CL"@[0]);
        assert("6C"@[0] != "HO"@[0]);
        assert("6C"@[0] != "RB"@[0]);
        assert("6C"@[0] != "NG"@[0]);
        assert("6C"@.len() != "MCL"@.len());
        assert("6C"@[0] != "QM"@[0]);
        assert("6C"@[0] != "QG"@[0]);
        assert("6C"@[0] != "GC"@[0]);
        assert("6C"@[0] != "SI"@[0]);
        assert("6C"@[0] != "HG"@[0]);
        assert("6C"@[0] != "PA"@[0]);
        assert("6C"@[0] != "PL"@[0]);
        assert("6C"@.len() != "MGC"@.len());
        assert("6C"@.len() != "SIL"@.len());
        assert("6C"@[0] != "ES"@[0]);
        assert("6C"@[0] != "NQ"@[0]);
        assert("6C"@.len() != "RTY"@.len());
        assert("6C"@[0] != "YM"@[0]);
        assert("6C"@.len() != "MES"@.len());
        assert("6C"@.len() != "MNQ"@.len());
        assert("6C"@.len() != "M2K"@.len());
        assert("6C"@.len() != "MYM"@.len());
        assert("6C"@[0] != "ZN"@[0]);
        assert("6C"@[0] != "ZF"@[0]);
        assert("6C"@[0] != "ZB"@[0]);
        assert("6C"@[0] != "ZT"@[0]);
        assert("6C"@[0] != "UB"@[0]);
        assert("6C"@.len() != "SR3"@.len());
        assert("6C"@[1] != "6E"@[1]);
        assert("6C"@[1] != "6B"@[1]);
        assert("6C"@[1] != "6J"@[1]);
    }
    assert(spec_contract_spec("6A"@) == Some(ContractSpec { rollover_day: 9, is_quarterly: true })) by {
        assert("6A"@[0] != "CL"@[0]);
        assert("6A"@[0] != "HO"@[0]);
        assert("6A"@[0] != "RB"@[0]);
        assert("6A"@[0] != "NG"@[0]);
        assert("6A"@.len() != "MCL"@.len());
        assert("6A"@[0] != "QM"@[0]);
        assert("6A"@[0] != "QG"@[0]);
        assert("6A"@[0] != "GC"@[0]);
        assert("6A"@[0] != "SI"@[0]);
        assert("6A"@[0] != "HG"@[0]);
        assert("6A"@[0] != "PA"@[0]);
        assert("6A"@[0] != "PL"@[0]);
        assert("6A"@.len() != "MGC"@.len());
        assert("6A"@.len() != "SIL"@.len());
        assert("6A"@[0] != "ES"@[0]);
        assert("6A"@[0] != "NQ"@[0]);
        assert("6A"@.len() != "RTY"@.len());
        assert("6A"@[0] != "YM"@[0]);
        assert("6A"@.len() != "MES"@.len());
        assert("6A"@.len() != "MNQ"@.len());
        assert("6A"@.len() != "M2K"@.len());
        assert("6A"@.len() != "MYM"@.len());
        assert("6A"@[0] != "ZN"@[0]);
        assert("6A"@[0] != "ZF"@[0]);
        assert("6A"@[0] != "ZB"@[0]);
        assert("6A"@[0] != "ZT"@[0]);
        assert("6A"@[0] != "UB"@[0]);
        assert("6A"@.len() != "SR3"@.len());
        assert("6A"@[1] != "6E"@[1]);
        assert("6A"@[1] != "6B"@[1]);
        assert("6A"@[1] != "6J"@[1]);
        assert("6A"@[1] != "6C"@[1]);
    }
    assert(spec_contract_spec("6N"@) == Some(ContractSpec { rollover_day: 9, is_quarterly: true })) by {
        assert("6N"@[0] != "CL"@[0]);
        assert("6N"@[0] != "HO"@[0]);
        assert("6N"@[0] != "RB"@[0]);
        assert("6N"@[0] != "NG"@[0]);
        assert("6N"@.len() != "MCL"@.len());
        assert("6N"@[0] != "QM"@[0]);
        assert("6N"@[0] != "QG"@[0]);
        assert("6N"@[0] != "GC"@[0]);
        assert("6N"@[0] != "SI"@[0]);
        assert("6N"@[0] != "HG"@[0]);
        assert("6N"@[0] != "PA"@[0]);
        assert("6N"@[0] != "PL"@[0]);
        assert("6N"@.len() != "MGC"@.len());
        assert("6N"@.len() != "SIL"@.len());
        assert("6N"@[0] != "ES"@[0]);
        assert("6N"@[0] != "NQ"@[0]);
        assert("6N"@.len() != "RTY"@.len());
        assert("6N"@[0] != "YM"@[0]);
        assert("6N"@.len() != "MES"@.len());
        assert("6N"@.len() != "MNQ"@.len());
        assert("6N"@.len() != "M2K"@.len());
        assert("6N"@.len() != "MYM"@.len());
        assert("6N"@[0] != "ZN"@[0]);
        assert("6N"@[0] != "ZF"@[0]);
        assert("6N"@[0] != "ZB"@[0]);
        assert("6N"@[0] != "ZT"@[0]);
        assert("6N"@[0] != "UB"@[0]);
        assert("6N"@.len() != "SR3"@.len());
        assert("6N"@[1] != "6E"@[1]);
        assert("6N"@[1] != "6B"@[1]);
        assert("6N"@[1] != "6J"@[1]);
        assert("6N"@[1] != "6C"@[1]);
        assert("6N"@[1] != "6A"@[1]);
    }
    assert(spec_contract_spec("6S"@) == Some(ContractSpec { rollover_day: 9, is_quarterly: true })) by {
        assert("6S"@[0] != "CL"@[0]);
        assert("6S"@[0] != "HO"@[0]);
        assert("6S"@[0] != "RB"@[0]);
        assert("6S"@[0] != "NG"@[0]);
        assert("6S"@.len() != "MCL"@.len());
        assert("6S"@[0] != "QM"@[0]);
        assert("6S"@[0] != "QG"@[0]);
        assert("6S"@[0] != "GC"@[0]);
        assert("6S"@[0] != "SI"@[0]);
        assert("6S"@[0] != "HG"@[0]);
        assert("6S"@[0] != "PA"@[0]);
        assert("6S"@[0] != "PL"@[0]);
        assert("6S"@.len() != "MGC"@.len());
        assert("6S"@.len() != "SIL"@.len());
        assert("6S"@[0] != "ES"@[0]);
        assert("6S"@[0] != "NQ"@[0]);
        assert("6S"@.len() != "RTY"@.len());
        assert("6S"@[0] != "YM"@[0]);
        assert("6S"@.len() != "MES"@.len());
        assert("6S"@.len() != "MNQ"@.len());
        assert("6S"@.len() != "M2K"@.len());
        assert("6S"@.len() != "MYM"@.len());
        assert("6S"@[0] != "ZN"@[0]);
        assert("6S"@[0] != "ZF"@[0]);
        assert("6S"@[0] != "ZB"@[0]);
        assert("6S"@[0] != "ZT"@[0]);
        assert("6S"@[0] != "UB"@[0]);
        assert("6S"@.len() != "SR3"@.len());
        assert("6S"@[1] != "6E"@[1]);
        assert("6S"@[1] != "6B"@[1]);
        assert("6S"@[1] != "6J"@[1]);
        assert("6S"@[1] != "6C"@[1]);
        assert("6S"@[1] != "6A"@[1]);
        assert("6S"@[1] != "6N"@[1]);
    }
    assert(spec_contract_spec("M6E"@) == Some(ContractSpec { rollover_day: 9, is_quarterly: true })) by {
        assert("M6E"@.len() != "CL"@.len());
        assert("M6E"@.len() != "HO"@.len());
        assert("M6E"@.len() != "RB"@.len());
        assert("M6E"@.len() != "NG"@.len());
        assert("M6E"@[1] != "MCL"@[1]);
        assert("M6E"@.len() != "QM"@.len());
        assert("M6E"@.len() != "QG"@.len());
        assert("M6E"@.len() != "GC"@.len());
        assert("M6E"@.len() != "SI"@.len());
        assert("M6E"@.len() != "HG"@.len());
        assert("M6E"@.len() != "PA"@.len());
        assert("M6E"@.len() != "PL"@.len());
        assert("M6E"@[1] != "MGC"@[1]);
        assert("M6E"@[0] != "SIL"@[0]);
        assert("M6E"@.len() != "ES"@.len());
        assert("M6E"@.len() != "NQ"@.len());
        assert("M6E"@[0] != "RTY"@[0]);
        assert("M6E"@.len() != "YM"@.len());
        assert("M6E"@[1] != "MES"@[1]);
        assert("M6E"@[1] != "MNQ"@[1]);
        assert("M6E"@[1] != "M2K"@[1]);
        assert("M6E"@[1] != "MYM"@[1]);
        assert("M6E"@.len() != "ZN"@.len());
        assert("M6E"@.len() != "ZF"@.len());
        assert("M6E"@.len() != "ZB"@.len());
        assert("M6E"@.len() != "ZT"@.len());
        assert("M6E"@.len() != "UB"@.len());
        assert("M6E"@[0] != "SR3"@[0]);
        assert("M6E"@.len() != "6E"@.len());
        assert("M6E"@.len() != "6B"@.len());
        assert("M6E"@.len() != "6J"@.len());
        assert("M6E"@.len() != "6C"@.len());
        assert("M6E"@.len() != "6A"@.len());
        assert("M6E"@.len() != "6N"@.len());
        assert("M6E"@.len() != "6S"@.len());
    }
    assert(spec_contract_spec("M6A"@) == Some(ContractSpec { rollover_day: 9, is_quarterly: true })) by {
        assert("M6A"@.len() != "CL"@.len());
        assert("M6A"@.len() != "HO"@.len());
        assert("M6A"@.len() != "RB"@.len());
        assert("M6A"@.len() != "NG"@.len());
        assert("M6A"@[1] != "MCL"@[1]);
        assert("M6A"@.len() != "QM"@.len());
        assert("M6A"@.len() != "QG"@.len());
        assert("M6A"@.len() != "GC"@.len());
        assert("M6A"@.len() != "SI"@.len());
        assert("M6A"@.len() != "HG"@.len());
        assert("M6A"@.len() != "PA"@.len());
        assert("M6A"@.len() != "PL"@.len());
        assert("M6A"@[1] != "MGC"@[1]);
        assert("M6A"@[0] != "SIL"@[0]);
        assert("M6A"@.len() != "ES"@.len());
        assert("M6A"@.len() != "NQ"@.len());
        assert("M6A"@[0] != "RTY"@[0]);
        assert("M6A"@.len() != "YM"@.len());
        assert("M6A"@[1] != "MES"@[1]);
        assert("M6A"@[1] != "MNQ"@[1]);
        assert("M6A"@[1] != "M2K"@[1]);
        assert("M6A"@[1] != "MYM"@[1]);
        assert("M6A"@.len() != "ZN"@.len());
        assert("M6A"@.len() != "ZF"@.len());
        assert("M6A"@.len() != "ZB"@.len());
        assert("M6A"@.len() != "ZT"@.len());
        assert("M6A"@.len() != "UB"@.len());
        assert("M6A"@[0] != "SR3"@[0]);
        assert("M6A"@.len() != "6E"@.len());
        assert("M6A"@.len() != "6B"@.len());
        assert("M6A"@.len() != "6J"@.len());
        assert("M6A"@.len() != "6C"@.len());
        assert("M6A"@.len() != "6A"@.len());
        assert("M6A"@.len() != "6N"@.len());
        assert("M6A"@.len() != "6S"@.len());
        assert("M6A"@[2] != "M6E"@[2]);
    }
}

/// The Treasury futures (2-, 5- and 10-year notes, the bond and the ultra bond) are listed
/// quarterly and roll on the 21st.
pub proof fn law_treasury_products_roll_quarterly_on_the_twenty_first()
    ensures
        spec_contract_spec("ZN"@) == Some(ContractSpec { rollover_day: 21, is_quarterly: true }),
        spec_contract_spec("ZF"@) == Some(ContractSpec { rollover_day: 21, is_quarterly: true }),
        spec_contract_spec("ZB"@) == Some(ContractSpec { rollover_day: 21, is_quarterly: true }),
        spec_contract_spec("ZT"@) == Some(ContractSpec { rollover_day: 21, is_quarterly: true }),
        spec_contract_spec("UB"@) == Some(ContractSpec { rollover_day: 21, is_quarterly: true }),
{
    reveal_strlit("CL");
    reveal_strlit("HO");
    reveal_strlit("RB");
    reveal_strlit("NG");
    reveal_strlit("MCL");
    reveal_strlit("QM");
    reveal_strlit("QG");
    reveal_strlit("GC");
    reveal_strlit("SI");
    reveal_strlit("HG");
    reveal_strlit("PA");
    reveal_strlit("PL");
    reveal_strlit("MGC");
    reveal_strlit("SIL");
    reveal_strlit("ES");
    reveal_strlit("NQ");
    reveal_strlit("RTY");
    reveal_strlit("YM");
    reveal_strlit("MES");
    reveal_strlit("MNQ");
    reveal_strlit("M2K");
    reveal_strlit("MYM");
    reveal_strlit("ZN");
    reveal_strlit("ZF");
    reveal_strlit("ZB");
    reveal_strlit("ZT");
    reveal_strlit("UB");
    assert(spec_contract_spec("ZN"@) == Some(ContractSpec { rollover_day: 21, is_quarterly: true })) by {
        assert("ZN"@[0] != "CL"@[0]);
        assert("ZN"@[0] != "HO"@[0]);
        assert("ZN"@[0] != "RB"@[0]);
        assert("ZN"@[0] != "NG"@[0]);
        assert("ZN"@.len() != "MCL"@.len());
        assert("ZN"@[0] != "QM"@[0]);
        assert("ZN"@[0] != "QG"@[0]);
        assert("ZN"@[0] != "GC"@[0]);
        assert("ZN"@[0] != "SI"@[0]);
        assert("ZN"@[0] != "HG"@[0]);
        assert("ZN"@[0] != "PA"@[0]);
        assert("ZN"@[0] != "PL"@[0]);
        assert("ZN"@.len() != "MGC"@.len());
        assert("ZN"@.len() != "SIL"@.len());
        assert("ZN"@[0] != "ES"@[0]);
        assert("ZN"@[0] != "NQ"@[0]);
        assert("ZN"@.len() != "RTY"@.len());
        assert("ZN"@[0] != "YM"@[0]);
        assert("ZN"@.len() != "MES"@.len());
        assert("ZN"@.len() != "MNQ"@.len());
        assert("ZN"@.len() != "M2K"@.len());
        assert("ZN"@.len() != "MYM"@.len());
    }
    assert(spec_contract_spec("ZF"@) == Some(ContractSpec { rollover_day: 21, is_quarterly: true })) by {
        assert("ZF"@[0] != "CL"@[0]);
        assert("ZF"@[0] != "HO"@[0]);
        assert("ZF"@[0] != "RB"@[0]);
        assert("ZF"@[0] != "NG"@[0]);
        assert("ZF"@.len() != "MCL"@.len());
        assert("ZF"@[0] != "QM"@[0]);
        assert("ZF"@[0] != "QG"@[0]);
        assert("ZF"@[0] != "GC"@[0]);
        assert("ZF"@[0] != "SI"@[0]);
        assert("ZF"@[0] != "HG"@[0]);
        assert("ZF"@[0] != "PA"@[0]);
        assert("ZF"@[0] != "PL"@[0]);
        assert("ZF"@.len() != "MGC"@.len());
        assert("ZF"@.len() != "SIL"@.len());
        assert("ZF"@[0] != "ES"@[0]);
        assert("ZF"@[0] != "NQ"@[0]);
        assert("ZF"@.len() != "RTY"@.len());
        assert("ZF"@[0] != "YM"@[0]);
        assert("ZF"@.len() != "MES"@.len());
        assert("ZF"@.len() != "MNQ"@.len());
        assert("ZF"@.len() != "M2K"@.len());
        assert("ZF"@.len() != "MYM"@.len());
        assert("ZF"@[1] != "ZN"@[1]);
    }
    assert(spec_contract_spec("ZB"@) == Some(ContractSpec { rollover_day: 21, is_quarterly: true })) by {
        assert("ZB"@[0] != "CL"@[0]);
        assert("ZB"@[0] != "HO"@[0]);
        assert("ZB"@[0] != "RB"@[0]);
        assert("ZB"@[0] != "NG"@[0]);
        assert("ZB"@.len() != "MCL"@.len());
        assert("ZB"@[0] != "QM"@[0]);
        assert("ZB"@[0] != "QG"@[0]);
        assert("ZB"@[0] != "GC"@[0]);
        assert("ZB"@[0] != "SI"@[0]);
        assert("ZB"@[0] != "HG"@[0]);
        assert("ZB"@[0] != "PA"@[0]);
        assert("ZB"@[0] != "PL"@[0]);
        assert("ZB"@.len() != "MGC"@.len());
        assert("ZB"@.len() != "SIL"@.len());
        assert("ZB"@[0] != "ES"@[0]);
        assert("ZB"@[0] != "NQ"@[0]);
        assert("ZB"@.len() != "RTY"@.len());
        assert("ZB"@[0] != "YM"@[0]);
        assert("ZB"@.len() != "MES"@.len());
        assert("ZB"@.len() != "MNQ"@.len());
        assert("ZB"@.len() != "M2K"@.len());
        assert("ZB"@.len() != "MYM"@.len());
        assert("ZB"@[1] != "ZN"@[1]);
        assert("ZB"@[1] != "ZF"@[1]);
    }
    assert(spec_contract_spec("ZT"@) == Some(ContractSpec { rollover_day: 21, is_quarterly: true })) by {
        assert("ZT"@[0] != "CL"@[0]);
        assert("ZT"@[0] != "HO"@[0]);
        assert("ZT"@[0] != "RB"@[0]);
        assert("ZT"@[0] != "NG"@[0]);
        assert("ZT"@.len() != "MCL"@.len());
        assert("ZT"@[0] != "QM"@[0]);
        assert("ZT"@[0] != "QG"@[0]);
        assert("ZT"@[0] != "GC"@[0]);
        assert("ZT"@[0] != "SI"@[0]);
        assert("ZT"@[0] != "HG"@[0]);
        assert("ZT"@[0] != "PA"@[0]);
        assert("ZT"@[0] != "PL"@[0]);
        assert("ZT"@.len() != "MGC"@.len());
        assert("ZT"@.len() != "SIL"@.len());
        assert("ZT"@[0] != "ES"@[0]);
        assert("ZT"@[0] != "NQ"@[0]);
        assert("ZT"@.len() != "RTY"@.len());
        assert("ZT"@[0] != "YM"@[0]);
        assert("ZT"@.len() != "MES"@.len());
        assert("ZT"@.len() != "MNQ"@.len());
        assert("ZT"@.len() != "M2K"@.len());
        assert("ZT"@.len() != "MYM"@.len());
        assert("ZT"@[1] != "ZN"@[1]);
        assert("ZT"@[1] != "ZF"@[1]);
        assert("ZT"@[1] != "ZB"@[1]);
    }
    assert(spec_contract_spec("UB"@) == Some(ContractSpec { rollover_day: 21, is_quarterly: true })) by {
        assert("UB"@[0] != "CL"@[0]);
        assert("UB"@[0] != "HO"@[0]);
        assert("UB"@[0] != "RB"@[0]);
        assert("UB"@[0] != "NG"@[0]);
        assert("UB"@.len() != "MCL"@.len());
        assert("UB"@[0] != "QM"@[0]);
        assert("UB"@[0] != "QG"@[0]);
        assert("UB"@[0] != "GC"@[0]);
        assert("UB"@[0] != "SI"@[0]);
        assert("UB"@[0] != "HG"@[0]);
        assert("UB"@[0] != "PA"@[0]);
        assert("UB"@[0] != "PL"@[0]);
        assert("UB"@.len() != "MGC"@.len());
        assert("UB"@.len() != "SIL"@.len());
        assert("UB"@[0] != "ES"@[0]);
        assert("UB"@[0] != "NQ"@[0]);
        assert("UB"@.len() != "RTY"@.len());
        assert("UB"@[0] != "YM"@[0]);
        assert("UB"@.len() != "MES"@.len());
        assert("UB"@.len() != "MNQ"@.len());
        assert("UB"@.len() != "M2K"@.len());
        assert("UB"@.len() != "MYM"@.len());
        assert("UB"@[0] != "ZN"@[0]);
        assert("UB"@[0] != "ZF"@[0]);
        assert("UB"@[0] != "ZB"@[0]);
        assert("UB"@[0] != "ZT"@[0]);
    }
}

/// Three-month SOFR futures are listed quarterly and roll on the 13th.
pub proof fn law_sofr_rolls_quarterly_on_the_thirteenth()
    ensures
        spec_contract_spec("SR3"@) == Some(ContractSpec { rollover_day: 13, is_quarterly: true }),
{
    reveal_strlit("CL");
    reveal_strlit("HO");
    reveal_strlit("RB");
    reveal_strlit("NG");
    reveal_strlit("MCL");
    reveal_strlit("QM");
    reveal_strlit("QG");
    reveal_strlit("GC");
    reveal_strlit("SI");
    reveal_strlit("HG");
    reveal_strlit("PA");
    reveal_strlit("PL");
    reveal_strlit("MGC");
    reveal_strlit("SIL");
    reveal_strlit("ES");
    reveal_strlit("NQ");
    reveal_strlit("RTY");
    reveal_strlit("YM");
    reveal_strlit("MES");
    reveal_strlit("MNQ");
    reveal_strlit("M2K");
    reveal_strlit("MYM");
    reveal_strlit("ZN");
    reveal_strlit("ZF");
    reveal_strlit("ZB");
    reveal_strlit("ZT");
    reveal_strlit("UB");
    reveal_strlit("SR3");
    assert(spec_contract_spec("SR3"@) == Some(ContractSpec { rollover_day: 13, is_quarterly: true })) by {
        assert("SR3"@.len() != "CL"@.len());
        assert("SR3"@.len() != "HO"@.len());
        assert("SR3"@.len() != "RB"@.len());
        assert("SR3"@.len() != "NG"@.len());
        assert("SR3"@[0] != "MCL"@[0]);
        assert("SR3"@.len() != "QM"@.len());
        assert("SR3"@.len() != "QG"@.len());
        assert("SR3"@.len() != "GC"@.len());
        assert("SR3"@.len() != "SI"@.len());
        assert("SR3"@.len() != "HG"@.len());
        assert("SR3"@.len() != "PA"@.len());
        assert("SR3"@.len() != "PL"@.len());
        assert("SR3"@[0] != "MGC"@[0]);
        assert("SR3"@[1] != "SIL"@[1]);
        assert("SR3"@.len() != "ES"@.len());
        assert("SR3"@.len() != "NQ"@.len());
        assert("SR3"@[0] != "RTY"@[0]);
        assert("SR3"@.len() != "YM"@.len());
        assert("SR3"@[0] != "MES"@[0]);
        assert("SR3"@[0] != "MNQ"@[0]);
        assert("SR3"@[0] != "M2K"@[0]);
        assert("SR3"@[0] != "MYM"@[0]);
        assert("SR3"@.len() != "ZN"@.len());
        assert("SR3"@.len() != "ZF"@.len());
        assert("SR3"@.len() != "ZB"@.len());
        assert("SR3"@.len() != "ZT"@.len());
        assert("SR3"@.len() != "UB"@.len());
    }
}

/// Crude oil futures (standard, micro and E-mini) are listed monthly and roll on the 18th.
pub proof fn law_crude_oil_products_roll_monthly_on_the_eighteenth()
    ensures
        spec_contract_spec("CL"@) == Some(ContractSpec { rollover_day: 18, is_quarterly: false }),
        spec_contract_spec("MCL"@) == Some(ContractSpec { rollover_day: 18, is_quarterly: false }),
        spec_contract_spec("QM"@) == Some(ContractSpec { rollover_day: 18, is_quarterly: false }),
{
    reveal_strlit("CL");
    reveal_strlit("HO");
    reveal_strlit("RB");
    reveal_strlit("NG");
    reveal_strlit("MCL");
    reveal_strlit("QM");
    assert(spec_contract_spec("CL"@) == Some(ContractSpec { rollover_day: 18, is_quarterly: false })) by {
    }
    assert(spec_contract_spec("MCL"@) == Some(ContractSpec { rollover_day: 18, is_quarterly: false })) by {
        assert("MCL"@.len() != "CL"@.len());
        assert("MCL"@.len() != "HO"@.len());
        assert("MCL"@.len() != "RB"@.len());
        assert("MCL"@.len() != "NG"@.len());
    }
    assert(spec_contract_spec("QM"@) == Some(ContractSpec { rollover_day: 18, is_quarterly: false })) by {
        assert("QM"@[0] != "CL"@[0]);
        assert("QM"@[0] != "HO"@[0]);
        assert("QM"@[0] != "RB"@[0]);
        assert("QM"@[0] != "NG"@[0]);
        assert("QM"@.len() != "MCL"@.len());
    }
}

/// Heating oil, gasoline, silver (standard and micro), palladium and platinum are listed
/// monthly and roll on the 25th.
pub proof fn law_products_rolling_monthly_on_the_twenty_fifth()
    ensures
        spec_contract_spec("HO"@) == Some(ContractSpec { rollover_day: 25, is_quarterly: false }),
        spec_contract_spec("RB"@) == Some(ContractSpec { rollover_day: 25, is_quarterly: false }),
        spec_contract_spec("SI"@) == Some(ContractSpec { rollover_day: 25, is_quarterly: false }),
        spec_contract_spec("SIL"@) == Some(ContractSpec { rollover_day: 25, is_quarterly: false }),
        spec_contract_spec("PA"@) == Some(ContractSpec { rollover_day: 25, is_quarterly: false }),
        spec_contract_spec("PL"@) == Some(ContractSpec { rollover_day: 25, is_quarterly: false }),
{
    reveal_strlit("CL");
    reveal_strlit("HO");
    reveal_strlit("RB");
    reveal_strlit("NG");
    reveal_strlit("MCL");
    reveal_strlit("QM");
    reveal_strlit("QG");
    reveal_strlit("GC");
    reveal_strlit("SI");
    reveal_strlit("HG");
    reveal_strlit("PA");
    reveal_strlit("PL");
    reveal_strlit("MGC");
    reveal_strlit("SIL");
    assert(spec_contract_spec("HO"@) == Some(ContractSpec { rollover_day: 25, is_quarterly: false })) by {
        assert("HO"@[0] != "CL"@[0]);
    }
    assert(spec_contract_spec("RB"@) == Some(ContractSpec { rollover_day: 25, is_quarterly: false })) by {
        assert("RB"@[0] != "CL"@[0]);
        assert("RB"@[0] != "HO"@[0]);
    }
    assert(spec_contract_spec("SI"@) == Some(ContractSpec { rollover_day: 25, is_quarterly: false })) by {
        assert("SI"@[0] != "CL"@[0]);
        assert("SI"@[0] != "HO"@[0]);
        assert("SI"@[0] != "RB"@[0]);
        assert("SI"@[0] != "NG"@[0]);
        assert("SI"@.len() != "MCL"@.len());
        assert("SI"@[0] != "QM"@[0]);
        assert("SI"@[0] != "QG"@[0]);
        assert("SI"@[0] != "GC"@[0]);
    }
    assert(spec_contract_spec("SIL"@) == Some(ContractSpec { rollover_day: 25, is_quarterly: false })) by {
        assert("SIL"@.len() != "CL"@.len());
        assert("SIL"@.len() != "HO"@.len());
        assert("SIL"@.len() != "RB"@.len());
        assert("SIL"@.len() != "NG"@.len());
        assert("SIL"@[0] != "MCL"@[0]);
        assert("SIL"@.len() != "QM"@.len());
        assert("SIL"@.len() != "QG"@.len());
        assert("SIL"@.len() != "GC"@.len());
        assert("SIL"@.len() != "SI"@.len());
        assert("SIL"@.len() != "HG"@.len());
        assert("SIL"@.len() != "PA"@.len());
        assert("SIL"@.len() != "PL"@.len());
        assert("SIL"@[0] != "MGC"@[0]);
    }
    assert(spec_contract_spec("PA"@) == Some(ContractSpec { rollover_day: 25, is_quarterly: false })) by {
        assert("PA"@[0] != "CL"@[0]);
        assert("PA"@[0] != "HO"@[0]);
        assert("PA"@[0] != "RB"@[0]);
        assert("PA"@[0] != "NG"@[0]);
        assert("PA"@.len() != "MCL"@.len());
        assert("PA"@[0] != "QM"@[0]);
        assert("PA"@[0] != "QG"@[0]);
        assert("PA"@[0] != "GC"@[0]);
        assert("PA"@[0] != "SI"@[0]);
        assert("PA"@[0] != "HG"@[0]);
    }
    assert(spec_contract_spec("PL"@) == Some(ContractSpec { rollover_day: 25, is_quarterly: false })) by {
        assert("PL"@[0] != "CL"@[0]);
        assert("PL"@[0] != "HO"@[0]);
        assert("PL"@[0] != "RB"@[0]);
        assert("PL"@[0] != "NG"@[0]);
        assert("PL"@.len() != "MCL"@.len());
        assert("PL"@[0] != "QM"@[0]);
        assert("PL"@[0] != "QG"@[0]);
        assert("PL"@[0] != "GC"@[0]);
        assert("PL"@[0] != "SI"@[0]);
        assert("PL"@[0] != "HG"@[0]);
        assert("PL"@[1] != "PA"@[1]);
    }
}

/// Natural gas (standard and E-mini) and copper are listed monthly and roll on the 28th.
pub proof fn law_products_rolling_monthly_on_the_twenty_eighth()
    ensures
        spec_contract_spec("NG"@) == Some(ContractSpec { rollover_day: 28, is_quarterly: false }),
        spec_contract_spec("QG"@) == Some(ContractSpec { rollover_day: 28, is_quarterly: false }),
        spec_contract_spec("HG"@) == Some(ContractSpec { rollover_day: 28, is_quarterly: false }),
{
    reveal_strlit("CL");
    reveal_strlit("HO");
    reveal_strlit("RB");
    reveal_strlit("NG");
    reveal_strlit("MCL");
    reveal_strlit("QM");
    reveal_strlit("QG");
    reveal_strlit("GC");
    reveal_strlit("SI");
    reveal_strlit("HG");
    assert(spec_contract_spec("NG"@) == Some(ContractSpec { rollover_day: 28, is_quarterly: false })) by {
        assert("NG"@[0] != "CL"@[0]);
        assert("NG"@[0] != "HO"@[0]);
        assert("NG"@[0] != "RB"@[0]);
    }
    assert(spec_contract_spec("QG"@) == Some(ContractSpec { rollover_day: 28, is_quarterly: false })) by {
        assert("QG"@[0] != "CL"@[0]);
        assert("QG"@[0] != "HO"@[0]);
        assert("QG"@[0] != "RB"@[0]);
        assert("QG"@[0] != "NG"@[0]);
        assert("QG"@.len() != "MCL"@.len());
        assert("QG"@[1] != "QM"@[1]);
    }
    assert(spec_contract_spec("HG"@) == Some(ContractSpec { rollover_day: 28, is_quarterly: false })) by {
        assert("HG"@[0] != "CL"@[0]);
        assert("HG"@[1] != "HO"@[1]);
        assert("HG"@[0] != "RB"@[0]);
        assert("HG"@[0] != "NG"@[0]);
        assert("HG"@.len() != "MCL"@.len());
        assert("HG"@[0] != "QM"@[0]);
        assert("HG"@[0] != "QG"@[0]);
        assert("HG"@[0] != "GC"@[0]);
        assert("HG"@[0] != "SI"@[0]);
    }
}

/// Gold (standard and micro) is listed monthly and rolls on the 26th.
pub proof fn law_gold_rolls_monthly_on_the_twenty_sixth()
    ensures
        spec_contract_spec("GC"@) == Some(ContractSpec { rollover_day: 26, is_quarterly: false }),
        spec_contract_spec("MGC"@) == Some(ContractSpec { rollover_day: 26, is_quarterly: false }),
{
    reveal_strlit("CL");
    reveal_strlit("HO");
    reveal_strlit("RB");
    reveal_strlit("NG");
    reveal_strlit("MCL");
    reveal_strlit("QM");
    reveal_strlit("QG");
    reveal_strlit("GC");
    reveal_strlit("SI");
    reveal_strlit("HG");
    reveal_strlit("PA");
    reveal_strlit("PL");
    reveal_strlit("MGC");
    assert(spec_contract_spec("GC"@) == Some(ContractSpec { rollover_day: 26, is_quarterly: false })) by {
        assert("GC"@[0] != "CL"@[0]);
        assert("GC"@[0] != "HO"@[0]);
        assert("GC"@[0] != "RB"@[0]);
        assert("GC"@[0] != "NG"@[0]);
        assert("GC"@.len() != "MCL"@.len());
        assert("GC"@[0] != "QM"@[0]);
        assert("GC"@[0] != "QG"@[0]);
    }
    assert(spec_contract_spec("MGC"@) == Some(ContractSpec { rollover_day: 26, is_quarterly: false })) by {
        assert("MGC"@.len() != "CL"@.len());
        assert("MGC"@.len() != "HO"@.len());
        assert("MGC"@.len() != "RB"@.len());
        assert("MGC"@.len() != "NG"@.len());
        assert("MGC"@[1] != "MCL"@[1]);
        assert("MGC"@.len() != "QM"@.len());
        assert("MGC"@.len() != "QG"@.len());
        assert("MGC"@.len() != "GC"@.len());
        assert("MGC"@.len() != "SI"@.len());
        assert("MGC"@.len() != "HG"@.len());
        assert("MGC"@.len() != "PA"@.len());
        assert("MGC"@.len() != "PL"@.len());
    }
}

/// The grain and oilseed futures (corn, wheat, KC wheat, soybeans, meal and oil) are listed
/// monthly and roll on the 15th.
pub proof fn law_grain_products_roll_monthly_on_the_fifteenth()
    ensures
        spec_contract_spec("ZC"@) == Some(ContractSpec { rollover_day: 15, is_quarterly: false }),
        spec_contract_spec("ZW"@) == Some(ContractSpec { rollover_day: 15, is_quarterly: false }),
        spec_contract_spec("ZS"@) == Some(ContractSpec { rollover_day: 15, is_quarterly: false }),
        spec_contract_spec("ZM"@) == Some(ContractSpec { rollover_day: 15, is_quarterly: false }),
        spec_contract_spec("ZL"@) == Some(ContractSpec { rollover_day: 15, is_quarterly: false }),
        spec_contract_spec("KE"@) == Some(ContractSpec { rollover_day: 15, is_quarterly: false }),
{
    reveal_strlit("CL");
    reveal_strlit("HO");
    reveal_strlit("RB");
    reveal_strlit("NG");
    reveal_strlit("MCL");
    reveal_strlit("QM");
    reveal_strlit("QG");
    reveal_strlit("GC");
    reveal_strlit("SI");
    reveal_strlit("HG");
    reveal_strlit("PA");
    reveal_strlit("PL");
    reveal_strlit("MGC");
    reveal_strlit("SIL");
    reveal_strlit("ES");
    reveal_strlit("NQ");
    reveal_strlit("RTY");
    reveal_strlit("YM");
    reveal_strlit("MES");
    reveal_strlit("MNQ");
    reveal_strlit("M2K");
    reveal_strlit("MYM");
    reveal_strlit("ZN");
    reveal_strlit("ZF");
    reveal_strlit("ZB");
    reveal_strlit("ZT");
    reveal_strlit("UB");
    reveal_strlit("SR3");
    reveal_strlit("6E");
    reveal_strlit("6B");
    reveal_strlit("6J");
    reveal_strlit("6C");
    reveal_strlit("6A");
    reveal_strlit("6N");
    reveal_strlit("6S");
    reveal_strlit("M6E");
    reveal_strlit("M6A");
    reveal_strlit("ZC");
    reveal_strlit("ZW");
    reveal_strlit("ZS");
    reveal_strlit("ZM");
    reveal_strlit("ZL");
    reveal_strlit("KE");
    assert(spec_contract_spec("ZC"@) == Some(ContractSpec { rollover_day: 15, is_quarterly: false })) by {
        assert("ZC"@[0] != "CL"@[0]);
        assert("ZC"@[0] != "HO"@[0]);
        assert("ZC"@[0] != "RB"@[0]);
        assert("ZC"@[0] != "NG"@[0]);
        assert("ZC"@.len() != "MCL"@.len());
        assert("ZC"@[0] != "QM"@[0]);
        assert("ZC"@[0] != "QG"@[0]);
        assert("ZC"@[0] != "GC"@[0]);
        assert("ZC"@[0] != "SI"@[0]);
        assert("ZC"@[0] != "HG"@[0]);
        assert("ZC"@[0] != "PA"@[0]);
        assert("ZC"@[0] != "PL"@[0]);
        assert("ZC"@.len() != "MGC"@.len());
        assert("ZC"@.len() != "SIL"@.len());
        assert("ZC"@[0] != "ES"@[0]);
        assert("ZC"@[0] != "NQ"@[0]);
        assert("ZC"@.len() != "RTY"@.len());
        assert("ZC"@[0] != "YM"@[0]);
        assert("ZC"@.len() != "MES"@.len());
        assert("ZC"@.len() != "MNQ"@.len());
        assert("ZC"@.len() != "M2K"@.len());
        assert("ZC"@.len() != "MYM"@.len());
        assert("ZC"@[1] != "ZN"@[1]);
        assert("ZC"@[1] != "ZF"@[1]);
        assert("ZC"@[1] != "ZB"@[1]);
        assert("ZC"@[1] != "ZT"@[1]);
        assert("ZC"@[0] != "UB"@[0]);
        assert("ZC"@.len() != "SR3"@.len());
        assert("ZC"@[0] != "6E"@[0]);
        assert("ZC"@[0] != "6B"@[0]);
        assert("ZC"@[0] != "6J"@[0]);
        assert("ZC"@[0] != "6C"@[0]);
        assert("ZC"@[0] != "6A"@[0]);
        assert("ZC"@[0] != "6N"@[0]);
        assert("ZC"@[0] != "6S"@[0]);
        assert("ZC"@.len() != "M6E"@.len());
        assert("ZC"@.len() != "M6A"@.len());
    }
    assert(spec_contract_spec("ZW"@) == Some(ContractSpec { rollover_day: 15, is_quarterly: false })) by {
        assert("ZW"@[0] != "CL"@[0]);
        assert("ZW"@[0] != "HO"@[0]);
        assert("ZW"@[0] != "RB"@[0]);
        assert("ZW"@[0] != "NG"@[0]);
        assert("ZW"@.len() != "MCL"@.len());
        assert("ZW"@[0] != "QM"@[0]);
        assert("ZW"@[0] != "QG"@[0]);
        assert("ZW"@[0] != "GC"@[0]);
        assert("ZW"@[0] != "SI"@[0]);
        assert("ZW"@[0] != "HG"@[0]);
        assert("ZW"@[0] != "PA"@[0]);
        assert("ZW"@[0] != "PL"@[0]);
        assert("ZW"@.len() != "MGC"@.len());
        assert("ZW"@.len() != "SIL"@.len());
        assert("ZW"@[0] != "ES"@[0]);
        assert("ZW"@[0] != "NQ"@[0]);
        assert("ZW"@.len() != "RTY"@.len());
        assert("ZW"@[0] != "YM"@[0]);
        assert("ZW"@.len() != "MES"@.len());
        assert("ZW"@.len() != "MNQ"@.len());
        assert("ZW"@.len() != "M2K"@.len());
        assert("ZW"@.len() != "MYM"@.len());
        assert("ZW"@[1] != "ZN"@[1]);
        assert("ZW"@[1] != "ZF"@[1]);
        assert("ZW"@[1] != "ZB"@[1]);
        assert("ZW"@[1] != "ZT"@[1]);
        assert("ZW"@[0] != "UB"@[0]);
        assert("ZW"@.len() != "SR3"@.len());
        assert("ZW"@[0] != "6E"@[0]);
        assert("ZW"@[0] != "6B"@[0]);
        assert("ZW"@[0] != "6J"@[0]);
        assert("ZW"@[0] != "6C"@[0]);
        assert("ZW"@[0] != "6A"@[0]);
        assert("ZW"@[0] != "6N"@[0]);
        assert("ZW"@[0] != "6S"@[0]);
        assert("ZW"@.len() != "M6E"@.len());
        assert("ZW"@.len() != "M6A"@.len());
        assert("ZW"@[1] != "ZC"@[1]);
    }
    assert(spec_contract_spec("ZS"@) == Some(ContractSpec { rollover_day: 15, is_quarterly: false })) by {
        assert("ZS"@[0] != "CL"@[0]);
        assert("ZS"@[0] != "HO"@[0]);
        assert("ZS"@[0] != "RB"@[0]);
        assert("ZS"@[0] != "NG"@[0]);
        assert("ZS"@.len() != "MCL"@.len());
        assert("ZS"@[0] != "QM"@[0]);
        assert("ZS"@[0] != "QG"@[0]);
        assert("ZS"@[0] != "GC"@[0]);
        assert("ZS"@[0] != "SI"@[0]);
        assert("ZS"@[0] != "HG"@[0]);
        assert("ZS"@[0] != "PA"@[0]);
        assert("ZS"@[0] != "PL"@[0]);
        assert("ZS"@.len() != "MGC"@.len());
        assert("ZS"@.len() != "SIL"@.len());
        assert("ZS"@[0] != "ES"@[0]);
        assert("ZS"@[0] != "NQ"@[0]);
        assert("ZS"@.len() != "RTY"@.len());
        assert("ZS"@[0] != "YM"@[0]);
        assert("ZS"@.len() != "MES"@.len());
        assert("ZS"@.len() != "MNQ"@.len());
        assert("ZS"@.len() != "M2K"@.len());
        assert("ZS"@.len() != "MYM"@.len());
        assert("ZS"@[1] != "ZN"@[1]);
        assert("ZS"@[1] != "ZF"@[1]);
        assert("ZS"@[1] != "ZB"@[1]);
        assert("ZS"@[1] != "ZT"@[1]);
        assert("ZS"@[0] != "UB"@[0]);
        assert("ZS"@.len() != "SR3"@.len());
        assert("ZS"@[0] != "6E"@[0]);
        assert("ZS"@[0] != "6B"@[0]);
        assert("ZS"@[0] != "6J"@[0]);
        assert("ZS"@[0] != "6C"@[0]);
        assert("ZS"@[0] != "6A"@[0]);
        assert("ZS"@[0] != "6N"@[0]);
        assert("ZS"@[0] != "6S"@[0]);
        assert("ZS"@.len() != "M6E"@.len());
        assert("ZS"@.len() != "M6A"@.len());
        assert("ZS"@[1] != "ZC"@[1]);
        assert("ZS"@[1] != "ZW"@[1]);
    }
    assert(spec_contract_spec("ZM"@) == Some(ContractSpec { rollover_day: 15, is_quarterly: false })) by {
        assert("ZM"@[0] != "CL"@[0]);
        assert("ZM"@[0] != "HO"@[0]);
        assert("ZM"@[0] != "RB"@[0]);
        assert("ZM"@[0] != "NG"@[0]);
        assert("ZM"@.len() != "MCL"@.len());
        assert("ZM"@[0] != "QM"@[0]);
        assert("ZM"@[0] != "QG"@[0]);
        assert("ZM"@[0] != "GC"@[0]);
        assert("ZM"@[0] != "SI"@[0]);
        assert("ZM"@[0] != "HG"@[0]);
        assert("ZM"@[0] != "PA"@[0]);
        assert("ZM"@[0] != "PL"@[0]);
        assert("ZM"@.len() != "MGC"@.len());
        assert("ZM"@.len() != "SIL"@.len());
        assert("ZM"@[0] != "ES"@[0]);
        assert("ZM"@[0] != "NQ"@[0]);
        assert("ZM"@.len() != "RTY"@.len());
        assert("ZM"@[0] != "YM"@[0]);
        assert("ZM"@.len() != "MES"@.len());
        assert("ZM"@.len() != "MNQ"@.len());
        assert("ZM"@.len() != "M2K"@.len());
        assert("ZM"@.len() != "MYM"@.len());
        assert("ZM"@[1] != "ZN"@[1]);
        assert("ZM"@[1] != "ZF"@[1]);
        assert("ZM"@[1] != "ZB"@[1]);
        assert("ZM"@[1] != "ZT"@[1]);
        assert("ZM"@[0] != "UB"@[0]);
        assert("ZM"@.len() != "SR3"@.len());
        assert("ZM"@[0] != "6E"@[0]);
        assert("ZM"@[0] != "6B"@[0]);
        assert("ZM"@[0] != "6J"@[0]);
        assert("ZM"@[0] != "6C"@[0]);
        assert("ZM"@[0] != "6A"@[0]);
        assert("ZM"@[0] != "6N"@[0]);
        assert("ZM"@[0] != "6S"@[0]);
        assert("ZM"@.len() != "M6E"@.len());
        assert("ZM"@.len() != "M6A"@.len());
        assert("ZM"@[1] != "ZC"@[1]);
        assert("ZM"@[1] != "ZW"@[1]);
        assert("ZM"@[1] != "ZS"@[1]);
    }
    assert(spec_contract_spec("ZL"@) == Some(ContractSpec { rollover_day: 15, is_quarterly: false })) by {
        assert("ZL"@[0] != "CL"@[0]);
        assert("ZL"@[0] != "HO"@[0]);
        assert("ZL"@[0] != "RB"@[0]);
        assert("ZL"@[0] != "NG"@[0]);
        assert("ZL"@.len() != "MCL"@.len());
        assert("ZL"@[0] != "QM"@[0]);
        assert("ZL"@[0] != "QG"@[0]);
        assert("ZL"@[0] != "GC"@[0]);
        assert("ZL"@[0] != "SI"@[0]);
        assert("ZL"@[0] != "HG"@[0]);
        assert("ZL"@[0] != "PA"@[0]);
        assert("ZL"@[0] != "PL"@[0]);
        assert("ZL"@.len() != "MGC"@.len());
        assert("ZL"@.len() != "SIL"@.len());
        assert("ZL"@[0] != "ES"@[0]);
        assert("ZL"@[0] != "NQ"@[0]);
        assert("ZL"@.len() != "RTY"@.len());
        assert("ZL"@[0] != "YM"@[0]);
        assert("ZL"@.len() != "MES"@.len());
        assert("ZL"@.len() != "MNQ"@.len());
        assert("ZL"@.len() != "M2K"@.len());
        assert("ZL"@.len() != "MYM"@.len());
        assert("ZL"@[1] != "ZN"@[1]);
        assert("ZL"@[1] != "ZF"@[1]);
        assert("ZL"@[1] != "ZB"@[1]);
        assert("ZL"@[1] != "ZT"@[1]);
        assert("ZL"@[0] != "UB"@[0]);
        assert("ZL"@.len() != "SR3"@.len());
        assert("ZL"@[0] != "6E"@[0]);
        assert("ZL"@[0] != "6B"@[0]);
        assert("ZL"@[0] != "6J"@[0]);
        assert("ZL"@[0] != "6C"@[0]);
        assert("ZL"@[0] != "6A"@[0]);
        assert("ZL"@[0] != "6N"@[0]);
        assert("ZL"@[0] != "6S"@[0]);
        assert("ZL"@.len() != "M6E"@.len());
        assert("ZL"@.len() != "M6A"@.len());
        assert("ZL"@[1] != "ZC"@[1]);
        assert("ZL"@[1] != "ZW"@[1]);
        assert("ZL"@[1] != "ZS"@[1]);
        assert("ZL"@[1] != "ZM"@[1]);
    }
    assert(spec_contract_spec("KE"@) == Some(ContractSpec { rollover_day: 15, is_quarterly: false })) by {
        assert("KE"@[0] != "CL"@[0]);
        assert("KE"@[0] != "HO"@[0]);
        assert("KE"@[0] != "RB"@[0]);
        assert("KE"@[0] != "NG"@[0]);
        assert("KE"@.len() != "MCL"@.len());
        assert("KE"@[0] != "QM"@[0]);
        assert("KE"@[0] != "QG"@[0]);
        assert("KE"@[0] != "GC"@[0]);
        assert("KE"@[0] != "SI"@[0]);
        assert("KE"@[0] != "HG"@[0]);
        assert("KE"@[0] != "PA"@[0]);
        assert("KE"@[0] != "PL"@[0]);
        assert("KE"@.len() != "MGC"@.len());
        assert("KE"@.len() != "SIL"@.len());
        assert("KE"@[0] != "ES"@[0]);
        assert("KE"@[0] != "NQ"@[0]);
        assert("KE"@.len() != "RTY"@.len());
        assert("KE"@[0] != "YM"@[0]);
        assert("KE"@.len() != "MES"@.len());
        assert("KE"@.len() != "MNQ"@.len());
        assert("KE"@.len() != "M2K"@.len());
        assert("KE"@.len() != "MYM"@.len());
        assert("KE"@[0] != "ZN"@[0]);
        assert("KE"@[0] != "ZF"@[0]);
        assert("KE"@[0] != "ZB"@[0]);
        assert("KE"@[0] != "ZT"@[0]);
        assert("KE"@[0] != "UB"@[0]);
        assert("KE"@.len() != "SR3"@.len());
        assert("KE"@[0] != "6E"@[0]);
        assert("KE"@[0] != "6B"@[0]);
        assert("KE"@[0] != "6J"@[0]);
        assert("KE"@[0] != "6C"@[0]);
        assert("KE"@[0] != "6A"@[0]);
        assert("KE"@[0] != "6N"@[0]);
        assert("KE"@[0] != "6S"@[0]);
        assert("KE"@.len() != "M6E"@.len());
        assert("KE"@.len() != "M6A"@.len());
        assert("KE"@[0] != "ZC"@[0]);
        assert("KE"@[0] != "ZW"@[0]);
        assert("KE"@[0] != "ZS"@[0]);
        assert("KE"@[0] != "ZM"@[0]);
        assert("KE"@[0] != "ZL"@[0]);
    }
}

/// Cotton is listed monthly and rolls on the 7th.
pub proof fn law_cotton_rolls_monthly_on_the_seventh()
    ensures
        spec_contract_spec("CT"@) == Some(ContractSpec { rollover_day: 7, is_quarterly: false }),
{
    reveal_strlit("CL");
    reveal_strlit("HO");
    reveal_strlit("RB");
    reveal_strlit("NG");
    reveal_strlit("MCL");
    reveal_strlit("QM");
    reveal_strlit("QG");
    reveal_strlit("GC");
    reveal_strlit("SI");
    reveal_strlit("HG");
    reveal_strlit("PA");
    reveal_strlit("PL");
    reveal_strlit("MGC");
    reveal_strlit("SIL");
    reveal_strlit("ES");
    reveal_strlit("NQ");
    reveal_strlit("RTY");
    reveal_strlit("YM");
    reveal_strlit("MES");
    reveal_strlit("MNQ");
    reveal_strlit("M2K");
    reveal_strlit("MYM");
    reveal_strlit("ZN");
    reveal_strlit("ZF");
    reveal_strlit("ZB");
    reveal_strlit("ZT");
    reveal_strlit("UB");
    reveal_strlit("SR3");
    reveal_strlit("6E");
    reveal_strlit("6B");
    reveal_strlit("6J");
    reveal_strlit("6C");
    reveal_strlit("6A");
    reveal_strlit("6N");
    reveal_strlit("6S");
    reveal_strlit("M6E");
    reveal_strlit("M6A");
    reveal_strlit("ZC");
    reveal_strlit("ZW");
    reveal_strlit("ZS");
    reveal_strlit("ZM");
    reveal_strlit("ZL");
    reveal_strlit("KE");
    reveal_strlit("CT");
    assert(spec_contract_spec("CT"@) == Some(ContractSpec { rollover_day: 7, is_quarterly: false })) by {
        assert("CT"@[1] != "CL"@[1]);
        assert("CT"@[0] != "HO"@[0]);
        assert("CT"@[0] != "RB"@[0]);
        assert("CT"@[0] != "NG"@[0]);
        assert("CT"@.len() != "MCL"@.len());
        assert("CT"@[0] != "QM"@[0]);
        assert("CT"@[0] != "QG"@[0]);
        assert("CT"@[0] != "GC"@[0]);
        assert("CT"@[0] != "SI"@[0]);
        assert("CT"@[0] != "HG"@[0]);
        assert("CT"@[0] != "PA"@[0]);
        assert("CT"@[0] != "PL"@[0]);
        assert("CT"@.len() != "MGC"@.len());
        assert("CT"@.len() != "SIL"@.len());
        assert("CT"@[0] != "ES"@[0]);
        assert("CT"@[0] != "NQ"@[0]);
        assert("CT"@.len() != "RTY"@.len());
        assert("CT"@[0] != "YM"@[0]);
        assert("CT"@.len() != "MES"@.len());
        assert("CT"@.len() != "MNQ"@.len());
        assert("CT"@.len() != "M2K"@.len());
        assert("CT"@.len() != "MYM"@.len());
        assert("CT"@[0] != "ZN"@[0]);
        assert("CT"@[0] != "ZF"@[0]);
        assert("CT"@[0] != "ZB"@[0]);
        assert("CT"@[0] != "ZT"@[0]);
        assert("CT"@[0] != "UB"@[0]);
        assert("CT"@.len() != "SR3"@.len());
        assert("CT"@[0] != "6E"@[0]);
        assert("CT"@[0] != "6B"@[0]);
        assert("CT"@[0] != "6J"@[0]);
        assert("CT"@[0] != "6C"@[0]);
        assert("CT"@[0] != "6A"@[0]);
        assert("CT"@[0] != "6N"@[0]);
        assert("CT"@[0] != "6S"@[0]);
        assert("CT"@.len() != "M6E"@.len());
        assert("CT"@.len() != "M6A"@.len());
        assert("CT"@[0] != "ZC"@[0]);
        assert("CT"@[0] != "ZW"@[0]);
        assert("CT"@[0] != "ZS"@[0]);
        assert("CT"@[0] != "ZM"@[0]);
        assert("CT"@[0] != "ZL"@[0]);
        assert("CT"@[0] != "KE"@[0]);
    }
}

/// VIX futures are listed monthly and roll on the 9th.
pub proof fn law_vix_rolls_monthly_on_the_ninth()
    ensures
        spec_contract_spec("VX"@) == Some(ContractSpec { rollover_day: 9, is_quarterly: false }),
{
    reveal_strlit("CL");
    reveal_strlit("HO");
    reveal_strlit("RB");
    reveal_strlit("NG");
    reveal_strlit("MCL");
    reveal_strlit("QM");
    reveal_strlit("QG");
    reveal_strlit("GC");
    reveal_strlit("SI");
    reveal_strlit("HG");
    reveal_strlit("PA");
    reveal_strlit("PL");
    reveal_strlit("MGC");
    reveal_strlit("SIL");
    reveal_strlit("ES");
    reveal_strlit("NQ");
    reveal_strlit("RTY");
    reveal_strlit("YM");
    reveal_strlit("MES");
    reveal_strlit("MNQ");
    reveal_strlit("M2K");
    reveal_strlit("MYM");
    reveal_strlit("ZN");
    reveal_strlit("ZF");
    reveal_strlit("ZB");
    reveal_strlit("ZT");
    reveal_strlit("UB");
    reveal_strlit("SR3");
    reveal_strlit("6E");
    reveal_strlit("6B");
    reveal_strlit("6J");
    reveal_strlit("6C");
    reveal_strlit("6A");
    reveal_strlit("6N");
    reveal_strlit("6S");
    reveal_strlit("M6E");
    reveal_strlit("M6A");
    reveal_strlit("ZC");
    reveal_strlit("ZW");
    reveal_strlit("ZS");
    reveal_strlit("ZM");
    reveal_strlit("ZL");
    reveal_strlit("KE");
    reveal_strlit("CT");
    reveal_strlit("VX");
    assert(spec_contract_spec("VX"@) == Some(ContractSpec { rollover_day: 9, is_quarterly: false })) by {
        assert("VX"@[0] != "CL"@[0]);
        assert("VX"@[0] != "HO"@[0]);
        assert("VX"@[0] != "RB"@[0]);
        assert("VX"@[0] != "NG"@[0]);
        assert("VX"@.len() != "MCL"@.len());
        assert("VX"@[0] != "QM"@[0]);
        assert("VX"@[0] != "QG"@[0]);
        assert("VX"@[0] != "GC"@[0]);
        assert("VX"@[0] != "SI"@[0]);
        assert("VX"@[0] != "HG"@[0]);
        assert("VX"@[0] != "PA"@[0]);
        assert("VX"@[0] != "PL"@[0]);
        assert("VX"@.len() != "MGC"@.len());
        assert("VX"@.len() != "SIL"@.len());
        assert("VX"@[0] != "ES"@[0]);
        assert("VX"@[0] != "NQ"@[0]);
        assert("VX"@.len() != "RTY"@.len());
        assert("VX"@[0] != "YM"@[0]);
        assert("VX"@.len() != "MES"@.len());
        assert("VX"@.len() != "MNQ"@.len());
        assert("VX"@.len() != "M2K"@.len());
        assert("VX"@.len() != "MYM"@.len());
        assert("VX"@[0] != "ZN"@[0]);
        assert("VX"@[0] != "ZF"@[0]);
        assert("VX"@[0] != "ZB"@[0]);
        assert("VX"@[0] != "ZT"@[0]);
        assert("VX"@[0] != "UB"@[0]);
        assert("VX"@.len() != "SR3"@.len());
        assert("VX"@[0] != "6E"@[0]);
        assert("VX"@[0] != "6B"@[0]);
        assert("VX"@[0] != "6J"@[0]);
        assert("VX"@[0] != "6C"@[0]);
        assert("VX"@[0] != "6A"@[0]);
        assert("VX"@[0] != "6N"@[0]);
        assert("VX"@[0] != "6S"@[0]);
        assert("VX"@.len() != "M6E"@.len());
        assert("VX"@.len() != "M6A"@.len());
        assert("VX"@[0] != "ZC"@[0]);
        assert("VX"@[0] != "ZW"@[0]);
        assert("VX"@[0] != "ZS"@[0]);
        assert("VX"@[0] != "ZM"@[0]);
        assert("VX"@[0] != "ZL"@[0]);
        assert("VX"@[0] != "KE"@[0]);
        assert("VX"@[0] != "CT"@[0]);
    }
}

/// The products with a rollover specification.
pub open spec fn listed_products() -> Set<Seq<char>> {
    set!["CL"@, "HO"@, "RB"@, "NG"@, "MCL"@, "QM"@, "QG"@, "GC"@, "SI"@, "HG"@, "PA"@, "PL"@, "MGC"@, "SIL"@, "ES"@, "NQ"@, "RTY"@, "YM"@, "MES"@, "MNQ"@, "M2K"@, "MYM"@, "ZN"@, "ZF"@, "ZB"@, "ZT"@, "UB"@, "SR3"@, "6E"@, "6B"@, "6J"@, "6C"@, "6A"@, "6N"@, "6S"@, "M6E"@, "M6A"@, "ZC"@, "ZW"@, "ZS"@, "ZM"@, "ZL"@, "KE"@, "CT"@, "VX"@]
}

/// Only the listed products have a rollover specification.
pub proof fn law_only_listed_products_roll(symbol: Seq<char>)
    requires
        !listed_products().contains(symbol),
    ensures
        spec_contract_spec(symbol) is None,
{
}

/// The front contract of a quarterly product is always a quarter month: its month code,
/// the character right after the symbol in its name, is H, M, U or Z.
pub proof fn law_quarterly_front_month_is_a_quarter_month(symbol: Seq<char>, year: int, month: int, day: int)
    requires
        1 <= month <= 12,
        spec_contract_spec(symbol) matches Some(spec) && spec.is_quarterly,
    ensures
        spec_front_month(symbol, year, month, day) matches Some(name) && (name[symbol.len() as int] == 'H'
            || name[symbol.len() as int] == 'M' || name[symbol.len() as int] == 'U'
            || name[symbol.len() as int] == 'Z'),
{
    let spec = spec_contract_spec(symbol)->0;
    law_front_month_ahead(spec, year, month, day);
    let (y, m) = front_year_month(spec, year, month, day);
    let code = spec_month_code(m)->0;
    let name = symbol + seq![code] + two_digit_text(trunc_rem(y, 100));
    assert(name[symbol.len() as int] == code);
}

/// The front contract of a monthly product is one or two months after the date's month.
pub proof fn law_monthly_front_month_is_one_or_two_months_ahead(spec: ContractSpec, year: int, month: int, day: int)
    requires
        1 <= month <= 12,
        !spec.is_quarterly,
    ensures
        ({
            let (y, m) = front_year_month(spec, year, month, day);
            1 <= months_between(year, month, y, m) <= 2
        }),
{
    law_front_month_ahead(spec, year, month, day);
}

/// The equity index futures.
pub open spec fn equity_index_products() -> Set<Seq<char>> {
    set!["ES"@, "NQ"@, "RTY"@, "YM"@, "MES"@, "MNQ"@, "M2K"@, "MYM"@]
}

/// The front contract of an equity index future is always a March, June, September or
/// December contract: its month code is H, M, U or Z.
pub proof fn law_equity_index_front_month_is_a_quarter_month(symbol: Seq<char>, year: int, month: int, day: int)
    requires
        equity_index_products().contains(symbol),
        1 <= month <= 12,
    ensures
        spec_front_month(symbol, year, month, day) matches Some(name) && (name[symbol.len() as int] == 'H'
            || name[symbol.len() as int] == 'M' || name[symbol.len() as int] == 'U'
            || name[symbol.len() as int] == 'Z'),
{
    law_equity_index_products_roll_quarterly_on_the_ninth();
    law_quarterly_front_month_is_a_quarter_month(symbol, year, month, day);
}

/// Where the front contract of a quarterly product lies: in a quarter month it is that
/// month's contract before the rollover day and the next quarter's (three months on) from
/// the rollover day; in any other month it is the next quarter month's, one or two months
/// on.
pub proof fn law_quarterly_rollover_day(spec: ContractSpec, year: int, month: int, day: int)
    requires
        1 <= month <= 12,
        spec.is_quarterly,
    ensures
        ({
            let (y, m) = front_year_month(spec, year, month, day);
            let ahead = months_between(year, month, y, m);
            &&& (month % 3 == 0 && day < spec.rollover_day) ==> ahead == 0
            &&& (month % 3 == 0 && day >= spec.rollover_day) ==> ahead == 3
            &&& month % 3 != 0 ==> ahead == 3 - month % 3
            &&& m % 3 == 0
        }),
{
}

/// Where the front contract of a monthly product lies: the next month's contract before
/// the rollover day, the contract two months on from the rollover day.
pub proof fn law_monthly_rollover_day(spec: ContractSpec, year: int, month: int, day: int)
    requires
        1 <= month <= 12,
        !spec.is_quarterly,
    ensures
        ({
            let (y, m) = front_year_month(spec, year, month, day);
            let ahead = months_between(year, month, y, m);
            &&& day < spec.rollover_day ==> ahead == 1
            &&& (day >= spec.rollover_day && month != 12) ==> ahead == 2
            &&& (day >= spec.rollover_day && month == 12) ==> ahead == 1
            &&& 1 <= m <= 12
        }),
{
}

/// The month codes are the CME letters: F, G, H, J, K, M, N, Q, U, V, X, Z for January
/// to December, each month its own letter; there is none for other numbers.
pub proof fn law_month_codes(month: int)
    ensures
        (1 <= month <= 12) <==> spec_month_code(month) is Some,
        spec_month_code(3) == Some('H') && spec_month_code(6) == Some('M') && spec_month_code(9)
            == Some('U') && spec_month_code(12) == Some('Z'),
        spec_month_code(1) == Some('F') && spec_month_code(2) == Some('G') && spec_month_code(4)
            == Some('J') && spec_month_code(5) == Some('K') && spec_month_code(7) == Some('N')
            && spec_month_code(8) == Some('Q') && spec_month_code(10) == Some('V')
            && spec_month_code(11) == Some('X'),
        forall|a: int, b: int|
            1 <= a <= 12 && 1 <= b <= 12 && a != b ==> spec_month_code(a) != spec_month_code(b),
{
}

} // verus!
