//! Turning a compose health check into the health configuration Docker takes:
//! the command as a list, and every duration in nanoseconds.
use crate::cli_errors::CliErrors;
use crate::compose::{ComposeHealthcheck, HealthcheckTest, HealthcheckTestView, HealthcheckView};
use crate::text::{copy_names, str_eq};
use vstd::prelude::*;

verus! {

/// What `humantime::parse_duration` gives for a text: the duration in
/// nanoseconds, or the text of its error.
pub uninterp spec fn humantime_duration(input: Seq<char>) -> Result<int, Seq<char>>;

/// A cap on the counts below, above `u64::MAX`: a count that reaches it only
/// says "too large".
pub open spec fn scan_cap() -> int {
    0x1_0000_0000_0000_0000
}

/// A count, cut at `scan_cap()`.
pub open spec fn capped(x: int) -> int {
    if x > scan_cap() {
        scan_cap()
    } else {
        x
    }
}

/// An ASCII digit.
pub open spec fn is_ascii_digit(c: char) -> bool {
    '0' <= c && c <= '9'
}

/// A character of a unit word, as humantime reads them.
pub open spec fn is_unit_char(c: char) -> bool {
    ('a' <= c && c <= 'z') || ('A' <= c && c <= 'Z') || c == '\u{b5}'
}

/// The value of a digit.
pub open spec fn digit_of(c: char) -> int {
    (c as int) - ('0' as int)
}

/// An upper bound on the whole seconds that a number `n` followed by the unit
/// word `unit` adds to a duration, counting a fractional part and the carry of
/// nanoseconds into seconds. Any word that is not a unit humantime knows is
/// counted as years, the largest unit.
pub open spec fn unit_seconds(n: int, unit: Seq<char>) -> int {
    if unit == "ns"@ || unit == "nsec"@ || unit == "nanos"@ {
        n / 1_000_000_000 + 2
    } else if unit == "us"@ || unit == "usec"@ || unit == "\u{b5}s"@ {
        n / 1_000_000 + 2
    } else if unit == "ms"@ || unit == "msec"@ || unit == "millis"@ {
        n / 1000 + 2
    } else if unit == "seconds"@ || unit == "second"@ || unit == "secs"@ || unit == "sec"@ || unit
        == "s"@ {
        n + 1
    } else if unit == "minutes"@ || unit == "minute"@ || unit == "min"@ || unit == "mins"@ || unit
        == "m"@ {
        (n + 1) * 60
    } else if unit == "hours"@ || unit == "hour"@ || unit == "hr"@ || unit == "hrs"@ || unit
        == "h"@ {
        (n + 1) * 3600
    } else if unit == "days"@ || unit == "day"@ || unit == "d"@ {
        (n + 1) * 86400
    } else if unit == "weeks"@ || unit == "week"@ || unit == "wk"@ || unit == "wks"@ || unit
        == "w"@ {
        (n + 1) * 604800
    } else if unit == "months"@ || unit == "month"@ || unit == "M"@ {
        (n + 1) * 2630016
    } else {
        (n + 1) * 31557600
    }
}

/// Where a scan of a duration text stands: between terms, in a number, in its
/// fractional part, or in a unit word that began at `start`.
pub enum DurationPhase {
    Idle,
    Num(int),
    Frac(int),
    Unit(int, int),
}

/// The seconds counted so far, and where the scan stands.
pub struct DurationScan {
    pub total: int,
    pub phase: DurationPhase,
}

/// One character of the scan. A number runs over digits and anything that is
/// neither a unit character nor `.` (so that digits humantime joins across
/// whitespace are joined here too); a unit word ends at any other character,
/// and its term is then counted.
pub open spec fn scan_step(st: DurationScan, text: Seq<char>, i: int) -> DurationScan {
    let c = text[i];
    match st.phase {
        DurationPhase::Idle => if is_ascii_digit(c) {
            DurationScan { total: st.total, phase: DurationPhase::Num(digit_of(c)) }
        } else {
            st
        },
        DurationPhase::Num(n) => if is_ascii_digit(c) {
            DurationScan { total: st.total, phase: DurationPhase::Num(capped(n * 10 + digit_of(c))) }
        } else if is_unit_char(c) {
            DurationScan { total: st.total, phase: DurationPhase::Unit(n, i) }
        } else if c == '.' {
            DurationScan { total: st.total, phase: DurationPhase::Frac(n) }
        } else {
            st
        },
        DurationPhase::Frac(n) => if is_unit_char(c) {
            DurationScan { total: st.total, phase: DurationPhase::Unit(n, i) }
        } else {
            st
        },
        DurationPhase::Unit(n, start) => if is_unit_char(c) {
            st
        } else {
            let t = capped(st.total + unit_seconds(n, text.subrange(start, i)));
            if is_ascii_digit(c) {
                DurationScan { total: t, phase: DurationPhase::Num(digit_of(c)) }
            } else {
                DurationScan { total: t, phase: DurationPhase::Idle }
            }
        },
    }
}

/// The scan of the first `i` characters.
pub open spec fn scan_prefix(text: Seq<char>, i: int) -> DurationScan
    decreases i,
{
    if i <= 0 {
        DurationScan { total: 0, phase: DurationPhase::Idle }
    } else {
        scan_step(scan_prefix(text, i - 1), text, i - 1)
    }
}

/// An upper bound on the whole seconds of every partial sum humantime forms
/// while it reads a text (capped at `scan_cap()`).
pub open spec fn duration_seconds_bound(text: Seq<char>) -> int {
    let st = scan_prefix(text, text.len() as int);
    match st.phase {
        DurationPhase::Idle => st.total,
        DurationPhase::Num(n) => capped(st.total + unit_seconds(n, Seq::empty())),
        DurationPhase::Frac(n) => capped(st.total + unit_seconds(n, Seq::empty())),
        DurationPhase::Unit(n, start) => capped(
            st.total + unit_seconds(n, text.subrange(start, text.len() as int)),
        ),
    }
}

/// A duration text whose seconds, counted term by term against their units,
/// stay below `u64::MAX`. humantime panics only when its running seconds reach
/// `u64::MAX` and a carry of nanoseconds is added to them
/// (`Duration::new(u64::MAX, 1_000_000_000)`); a text in range never gets
/// there. A text out of range is one humantime refuses as too large, or one
/// whose seconds come within a unit or two of `u64::MAX`.
pub open spec fn duration_in_range(input: Seq<char>) -> bool {
    duration_seconds_bound(input) < 18446744073709551615
}

fn capped_u128(x: u128) -> (res: u128)
    ensures
        res as int == capped(x as int),
{
    if x > 18446744073709551616u128 {
        18446744073709551616u128
    } else {
        x
    }
}

fn unit_seconds_exec(n: u128, unit: &str) -> (res: u128)
    requires
        n <= scan_cap(),
    ensures
        res as int == unit_seconds(n as int, unit@),
{
    if str_eq(unit, "ns") || str_eq(unit, "nsec") || str_eq(unit, "nanos") {
        n / 1_000_000_000 + 2
    } else if str_eq(unit, "us") || str_eq(unit, "usec") || str_eq(unit, "\u{b5}s") {
        n / 1_000_000 + 2
    } else if str_eq(unit, "ms") || str_eq(unit, "msec") || str_eq(unit, "millis") {
        n / 1000 + 2
    } else if str_eq(unit, "seconds") || str_eq(unit, "second") || str_eq(unit, "secs") || str_eq(
        unit,
        "sec",
    ) || str_eq(unit, "s") {
        n + 1
    } else if str_eq(unit, "minutes") || str_eq(unit, "minute") || str_eq(unit, "min") || str_eq(
        unit,
        "mins",
    ) || str_eq(unit, "m") {
        (n + 1) * 60
    } else if str_eq(unit, "hours") || str_eq(unit, "hour") || str_eq(unit, "hr") || str_eq(
        unit,
        "hrs",
    ) || str_eq(unit, "h") {
        (n + 1) * 3600
    } else if str_eq(unit, "days") || str_eq(unit, "day") || str_eq(unit, "d") {
        (n + 1) * 86400
    } else if str_eq(unit, "weeks") || str_eq(unit, "week") || str_eq(unit, "wk") || str_eq(
        unit,
        "wks",
    ) || str_eq(unit, "w") {
        (n + 1) * 604800
    } else if str_eq(unit, "months") || str_eq(unit, "month") || str_eq(unit, "M") {
        (n + 1) * 2630016
    } else {
        (n + 1) * 31557600
    }
}

/// The spec form of the scan state kept by `is_duration_in_range`.
pub open spec fn phase_of(phase: u8, n: u128, start: usize) -> DurationPhase {
    if phase == 0 {
        DurationPhase::Idle
    } else if phase == 1 {
        DurationPhase::Num(n as int)
    } else if phase == 2 {
        DurationPhase::Frac(n as int)
    } else {
        DurationPhase::Unit(n as int, start as int)
    }
}

/// Whether a duration text is one `duration_to_nanos` takes.
pub fn is_duration_in_range(input: &str) -> (res: bool)
    ensures
        res == duration_in_range(input@),
{
    let len = input.unicode_len();
    let mut total: u128 = 0;
    let mut phase: u8 = 0;
    let mut n: u128 = 0;
    let mut start: usize = 0;
    let mut i: usize = 0;
    while i < len
        invariant
            0 <= i <= len,
            len == input@.len(),
            total <= scan_cap(),
            n <= scan_cap(),
            phase <= 3,
            start <= i,
            scan_prefix(input@, i as int) == (DurationScan {
                total: total as int,
                phase: phase_of(phase, n, start),
            }),
        decreases len - i,
    {
        let c = input.get_char(i);
        let is_digit = '0' <= c && c <= '9';
        let is_unit = ('a' <= c && c <= 'z') || ('A' <= c && c <= 'Z') || c == '\u{b5}';
        let d: u128 = if is_digit {
            ((c as u32) - ('0' as u32)) as u128
        } else {
            0
        };
        if phase == 0 {
            if is_digit {
                phase = 1;
                n = d;
            }
        } else if phase == 1 {
            if is_digit {
                n = capped_u128(n * 10 + d);
            } else if is_unit {
                phase = 3;
                start = i;
            } else if c == '.' {
                phase = 2;
            }
        } else if phase == 2 {
            if is_unit {
                phase = 3;
                start = i;
            }
        } else {
            if !is_unit {
                let secs = unit_seconds_exec(n, input.substring_char(start, i));
                total = capped_u128(total + secs);
                if is_digit {
                    phase = 1;
                    n = d;
                } else {
                    phase = 0;
                }
            }
        }
        i = i + 1;
    }
    proof {
        reveal_strlit("");
        assert(""@ =~= Seq::<char>::empty());
    }
    let bound: u128 = if phase == 0 {
        total
    } else if phase == 3 {
        capped_u128(total + unit_seconds_exec(n, input.substring_char(start, len)))
    } else {
        capped_u128(total + unit_seconds_exec(n, ""))
    };
    assert(bound as int == duration_seconds_bound(input@));
    bound < 18446744073709551615u128
}

/// Calls `humantime::parse_duration` and gives the duration as a whole number of
/// nanoseconds (`Duration::as_nanos`), or the error's text.
///
/// The contract claims only that the result is a function of the input text,
/// named `humantime_duration`; the duration grammar itself is humantime's.
/// Texts out of `duration_in_range` are left out: on some of them (such as
/// `18446744073709551615s 1000ms`) humantime's `Duration::new` panics.
#[verifier::external_body]
fn parse_duration_nanos(input: &str) -> (res: Result<u128, String>)
    requires
        duration_in_range(input@),
    ensures
        match res {
            Ok(n) => humantime_duration(input@) == Ok::<int, Seq<char>>(n as int),
            Err(e) => humantime_duration(input@) == Err::<int, Seq<char>>(e@),
        },
{
    match humantime::parse_duration(input) {
        Ok(d) => Ok(d.as_nanos()),
        Err(e) => Err(e.to_string()),
    }
}

/// Nanoseconds as Docker's signed count, cut to 64 bits as `as i64` does.
pub open spec fn nanos_i64(n: int) -> i64 {
    n as i64
}

/// What a parsed duration becomes: its nanoseconds as an `i64`, or an error
/// carrying the parser's message.
pub fn nanos_from_parsed(parsed: Result<u128, String>) -> (res: Result<i64, CliErrors>)
    ensures
        match parsed {
            Ok(n) => res == Ok::<i64, CliErrors>(nanos_i64(n as int)),
            Err(e) => res is Err && res->Err_0.message@ == e@,
        },
{
    match parsed {
        Ok(n) => Ok(n as i64),
        Err(e) => Err(CliErrors::new(e)),
    }
}

/// A duration text in nanoseconds, or the parser's message.
pub open spec fn spec_duration_to_nanos(input: Seq<char>) -> Result<i64, Seq<char>> {
    match humantime_duration(input) {
        Ok(n) => Ok(nanos_i64(n)),
        Err(e) => Err(e),
    }
}

/// Converts a duration text such as `5s` or `1m 30s` to nanoseconds.
pub fn duration_to_nanos(input: &str) -> (res: Result<i64, CliErrors>)
    requires
        duration_in_range(input@),
    ensures
        match spec_duration_to_nanos(input@) {
            Ok(n) => res == Ok::<i64, CliErrors>(n),
            Err(e) => res is Err && res->Err_0.message@ == e,
        },
{
    nanos_from_parsed(parse_duration_nanos(input))
}

/// The health configuration handed to Docker.
pub struct HealthConfig {
    pub test: Option<Vec<String>>,
    pub interval: Option<i64>,
    pub timeout: Option<i64>,
    pub retries: Option<i64>,
    pub start_period: Option<i64>,
    pub start_interval: Option<i64>,
}

/// The text form of `HealthConfig`.
pub struct HealthConfigView {
    pub test: Option<Seq<Seq<char>>>,
    pub interval: Option<i64>,
    pub timeout: Option<i64>,
    pub retries: Option<i64>,
    pub start_period: Option<i64>,
    pub start_interval: Option<i64>,
}

impl View for HealthConfig {
    type V = HealthConfigView;

    open spec fn view(&self) -> HealthConfigView {
        HealthConfigView {
            test: match self.test {
                Some(v) => Some(crate::text::names(v@)),
                None => None,
            },
            interval: self.interval,
            timeout: self.timeout,
            retries: self.retries,
            start_period: self.start_period,
            start_interval: self.start_interval,
        }
    }
}

/// The command as a list: one command is a list of one.
pub open spec fn spec_test_list(test: Option<HealthcheckTestView>) -> Option<Seq<Seq<char>>> {
    match test {
        Some(HealthcheckTestView::Single(s)) => Some(seq![s]),
        Some(HealthcheckTestView::Multiple(v)) => Some(v),
        None => None,
    }
}

/// An optional duration text in nanoseconds.
pub open spec fn spec_opt_nanos(d: Option<Seq<char>>) -> Result<Option<i64>, Seq<char>> {
    match d {
        None => Ok(None),
        Some(s) => match spec_duration_to_nanos(s) {
            Ok(n) => Ok(Some(n)),
            Err(e) => Err(e),
        },
    }
}

/// The health configuration of a health check, or the message of the first
/// duration that does not parse, in the order interval, timeout, start
/// interval, start period.
pub open spec fn spec_health_config(h: HealthcheckView) -> Result<HealthConfigView, Seq<char>> {
    match spec_opt_nanos(h.interval) {
        Err(e) => Err(e),
        Ok(interval) => match spec_opt_nanos(h.timeout) {
            Err(e) => Err(e),
            Ok(timeout) => match spec_opt_nanos(h.start_interval) {
                Err(e) => Err(e),
                Ok(start_interval) => match spec_opt_nanos(h.start_period) {
                    Err(e) => Err(e),
                    Ok(start_period) => Ok(
                        HealthConfigView {
                            test: spec_test_list(h.test),
                            interval,
                            timeout,
                            retries: Some(h.retries),
                            start_period,
                            start_interval,
                        },
                    ),
                },
            },
        },
    }
}

fn opt_nanos(d: &Option<String>) -> (res: Result<Option<i64>, CliErrors>)
    requires
        opt_duration_in_range(crate::text::opt_text(*d)),
    ensures
        match spec_opt_nanos(crate::text::opt_text(*d)) {
            Ok(o) => res == Ok::<Option<i64>, CliErrors>(o),
            Err(e) => res is Err && res->Err_0.message@ == e,
        },
{
    match d {
        Some(s) => Ok(Some(duration_to_nanos(s.as_str())?)),
        None => Ok(None),
    }
}

/// An optional duration text that is absent or in range.
pub open spec fn opt_duration_in_range(d: Option<Seq<char>>) -> bool {
    match d {
        Some(s) => duration_in_range(s),
        None => true,
    }
}

/// Every duration of a health check is in range.
pub open spec fn health_in_range(h: HealthcheckView) -> bool {
    &&& opt_duration_in_range(h.interval)
    &&& opt_duration_in_range(h.timeout)
    &&& opt_duration_in_range(h.start_interval)
    &&& opt_duration_in_range(h.start_period)
}

fn opt_is_in_range(d: &Option<String>) -> (res: bool)
    ensures
        res == opt_duration_in_range(crate::text::opt_text(*d)),
{
    match d {
        Some(s) => is_duration_in_range(s.as_str()),
        None => true,
    }
}

/// Whether every duration of a health check is one `get_health_config` takes.
pub fn health_check_in_range(health_check: &ComposeHealthcheck) -> (res: bool)
    ensures
        res == health_in_range(health_check@),
{
    opt_is_in_range(&health_check.interval) && opt_is_in_range(&health_check.timeout)
        && opt_is_in_range(&health_check.start_interval) && opt_is_in_range(
        &health_check.start_period,
    )
}

/// The health configuration Docker takes for a compose health check.
pub fn get_health_config(health_check: &ComposeHealthcheck) -> (res: Result<HealthConfig, CliErrors>)
    requires
        health_in_range(health_check@),
    ensures
        match spec_health_config(health_check@) {
            Ok(c) => res is Ok && res->Ok_0@ == c,
            Err(e) => res is Err && res->Err_0.message@ == e,
        },
{
    let test = match &health_check.test {
        Some(HealthcheckTest::Single(s)) => {
            let mut v: Vec<String> = Vec::new();
            v.push(s.clone());
            proof {
                assert(crate::text::names(v@) =~= seq![s@]);
            }
            Some(v)
        },
        Some(HealthcheckTest::Multiple(vec_tests)) => Some(copy_names(vec_tests)),
        None => None,
    };
    let interval = opt_nanos(&health_check.interval)?;
    let timeout = opt_nanos(&health_check.timeout)?;
    let start_interval = opt_nanos(&health_check.start_interval)?;
    let start_period = opt_nanos(&health_check.start_period)?;
    let retries = Some(health_check.retries);
    Ok(HealthConfig { test, interval, timeout, retries, start_period, start_interval })
}

/// A duration field of the configuration holds what the compose field says:
/// nothing when the compose field is absent, and its text in nanoseconds
/// otherwise.
pub open spec fn field_in_nanos(compose_field: Option<Seq<char>>, config_field: Option<i64>) -> bool {
    match compose_field {
        None => config_field is None,
        Some(t) => spec_duration_to_nanos(t) matches Ok(n) && config_field == Some(n),
    }
}

/// A compose duration field that is absent or parses.
pub open spec fn field_parses(compose_field: Option<Seq<char>>) -> bool {
    match compose_field {
        None => true,
        Some(t) => spec_duration_to_nanos(t) is Ok,
    }
}

/// Each field of the health configuration comes from the same field of the
/// compose health check: every duration in nanoseconds (absent exactly when
/// the compose field is), the retries as they are, and the command as a list.
/// The configuration is made exactly when every duration parses, and the
/// first that does not (interval, timeout, start interval, start period) gives
/// the error.
pub proof fn law_health_config_fields(h: HealthcheckView)
    ensures
        spec_health_config(h) matches Ok(c) ==> {
            &&& field_in_nanos(h.interval, c.interval)
            &&& field_in_nanos(h.timeout, c.timeout)
            &&& field_in_nanos(h.start_interval, c.start_interval)
            &&& field_in_nanos(h.start_period, c.start_period)
            &&& c.retries == Some(h.retries)
            &&& c.test == match h.test {
                Some(HealthcheckTestView::Single(t)) => Some(seq![t]),
                Some(HealthcheckTestView::Multiple(v)) => Some(v),
                None => None,
            }
        },
        spec_health_config(h) is Ok <==> (field_parses(h.interval) && field_parses(h.timeout)
            && field_parses(h.start_interval) && field_parses(h.start_period)),
        h.interval matches Some(t) ==> (spec_duration_to_nanos(t) matches Err(e)
            ==> spec_health_config(h) == Err::<HealthConfigView, Seq<char>>(e)),
        field_parses(h.interval) ==> (h.timeout matches Some(t) ==> (spec_duration_to_nanos(t) matches Err(
            e,
        ) ==> spec_health_config(h) == Err::<HealthConfigView, Seq<char>>(e))),
        field_parses(h.interval) && field_parses(h.timeout) ==> (h.start_interval matches Some(t)
            ==> (spec_duration_to_nanos(t) matches Err(e) ==> spec_health_config(h) == Err::<
            HealthConfigView,
            Seq<char>,
        >(e))),
        field_parses(h.interval) && field_parses(h.timeout) && field_parses(h.start_interval) ==> (
        h.start_period matches Some(t) ==> (spec_duration_to_nanos(t) matches Err(e)
            ==> spec_health_config(h) == Err::<HealthConfigView, Seq<char>>(e))),
{
}

} // verus!
