//! The outcome of a run: how many records were loaded, how many passed the
//! window, and the two lines that say so.

use vstd::prelude::*;
use vstd::string::*;
use crate::filter::{lemma_no_window_keeps_all, selected};
use crate::location::{
    is_first_refusal, loaded_records, well_formed, LoadError, Locations, RawLocation,
};
use crate::period::Period;
use crate::timestamp::{all_digits, decimal_value, is_digit};

verus! {

/// The two counts of a run.
#[derive(Clone, Copy, Debug, PartialEq, Eq)]
pub struct Report {
    /// The number of records in the history.
    pub loaded: usize,
    /// The number of those records that passed the window.
    pub filtered: usize,
}

/// The character that writes the digit `d`.
pub open spec fn digit_char(d: nat) -> char
    recommends
        d < 10,
{
    if d == 0 {
        '0'
    } else if d == 1 {
        '1'
    } else if d == 2 {
        '2'
    } else if d == 3 {
        '3'
    } else if d == 4 {
        '4'
    } else if d == 5 {
        '5'
    } else if d == 6 {
        '6'
    } else if d == 7 {
        '7'
    } else if d == 8 {
        '8'
    } else {
        '9'
    }
}

/// The number `n` written in base ten, without leading zeros.
pub open spec fn decimal_text(n: nat) -> Seq<char>
    decreases n,
{
    if n < 10 {
        seq![digit_char(n)]
    } else {
        decimal_text(n / 10).push(digit_char(n % 10))
    }
}

/// The line that reports how many records were loaded.
pub open spec fn loaded_text(n: nat) -> Seq<char> {
    "Loaded "@ + decimal_text(n) + " locations"@
}

/// The line that reports how many records passed the window.
pub open spec fn filtered_text(n: nat) -> Seq<char> {
    "Filtered "@ + decimal_text(n) + " locations"@
}

/// A number written in base ten reads back as itself: the text is made of
/// digits only, and the number those digits write is `n`.
pub proof fn lemma_decimal_text_reads_back(n: nat)
    ensures
        decimal_text(n).len() > 0,
        all_digits(decimal_text(n)),
        decimal_value(decimal_text(n)) == n,
    decreases n,
{
    if n < 10 {
        let text = decimal_text(n);
        assert(text.drop_last() =~= Seq::<char>::empty());
        assert(decimal_value(text.drop_last()) == 0);
        assert(is_digit(text[0]));
    } else {
        lemma_decimal_text_reads_back(n / 10);
        let front = decimal_text(n / 10);
        let text = front.push(digit_char(n % 10));
        assert(text.drop_last() =~= front);
        assert(text.last() == digit_char(n % 10));
        assert forall|i: int| 0 <= i < text.len() implies is_digit(#[trigger] text[i]) by {
            if i < front.len() {
                assert(text[i] == front[i]);
            }
        }
    }
}

/// The one-character string that writes the digit `d`.
fn digit_str(d: usize) -> (s: &'static str)
    requires
        d < 10,
    ensures
        s@ == seq![digit_char(d as nat)],
{
    proof {
        reveal_strlit("0");
        reveal_strlit("1");
        reveal_strlit("2");
        reveal_strlit("3");
        reveal_strlit("4");
        reveal_strlit("5");
        reveal_strlit("6");
        reveal_strlit("7");
        reveal_strlit("8");
        reveal_strlit("9");
    }
    let s = if d == 0 {
        "0"
    } else if d == 1 {
        "1"
    } else if d == 2 {
        "2"
    } else if d == 3 {
        "3"
    } else if d == 4 {
        "4"
    } else if d == 5 {
        "5"
    } else if d == 6 {
        "6"
    } else if d == 7 {
        "7"
    } else if d == 8 {
        "8"
    } else {
        "9"
    };
    assert(s@ =~= seq![digit_char(d as nat)]);
    s
}

/// Writes a count in base ten.
pub fn decimal_string(n: usize) -> (s: String)
    ensures
        s@ == decimal_text(n as nat),
    decreases n,
{
    if n < 10 {
        String::from_str(digit_str(n))
    } else {
        let front = decimal_string(n / 10);
        let s = front.concat(digit_str(n % 10));
        assert(s@ =~= decimal_text(n as nat));
        s
    }
}

impl Report {
    /// The first line of a report: `Loaded`, the number of records in the
    /// history, `locations`.
    pub fn loaded_line(&self) -> (line: String)
        ensures
            line@ == loaded_text(self.loaded as nat),
    {
        let number = decimal_string(self.loaded);
        String::from_str("Loaded ").concat(number.as_str()).concat(" locations")
    }

    /// The second line of a report: `Filtered`, the number of records that
    /// passed the window, `locations`.
    pub fn filtered_line(&self) -> (line: String)
        ensures
            line@ == filtered_text(self.filtered as nat),
    {
        let number = decimal_string(self.filtered);
        String::from_str("Filtered ").concat(number.as_str()).concat(" locations")
    }
}

/// Counts a history against a window: all its records, and those that pass.
pub fn summarize(locations: &Locations, window: &Option<Period>) -> (report: Report)
    ensures
        report.loaded == locations@.len(),
        report.filtered == selected(locations@, *window).len(),
        report.filtered <= report.loaded,
        *window is None ==> report.filtered == report.loaded,
{
    proof {
        lemma_no_window_keeps_all(locations@);
    }
    Report { loaded: locations.len(), filtered: locations.count_filtered(window) }
}

/// One whole run on the wire records of a history: loads them, and counts
/// them against the window.
///
/// It fails exactly when a record is refused, with the error of the load,
/// and nothing is counted then.
pub fn run(raw: &[RawLocation], window: &Option<Period>) -> (r: Result<Report, LoadError>)
    ensures
        r is Ok <==> well_formed(raw@),
        match r {
            Ok(report) => {
                &&& report.loaded == raw@.len()
                &&& report.filtered == selected(loaded_records(raw@), *window).len()
                &&& report.filtered <= report.loaded
                &&& *window is None ==> report.filtered == report.loaded
            },
            Err(e) => is_first_refusal(raw@, e),
        },
{
    match Locations::load(raw) {
        Ok(locations) => {
            let report = summarize(&locations, window);
            Ok(report)
        },
        Err(e) => Err(e),
    }
}

} // verus!
