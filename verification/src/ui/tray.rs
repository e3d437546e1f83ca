//! System tray / menu bar: menu actions, configuration and status text.
use vstd::prelude::*;

verus! {

/// Tray menu item identifiers.
#[derive(Debug, Clone, Copy, PartialEq, Eq, Structural)]
pub enum TrayMenuAction {
    ToggleCapture,
    OpenSettings,
    ShowStatus,
    Quit,
}

/// Configuration for building the tray menu.
#[derive(Debug, Clone)]
pub struct TrayConfig {
    pub tooltip: String,
    pub icon_path: Option<String>,
}

impl Default for TrayConfig {
    /// The idle tooltip and no custom icon.
    fn default() -> (r: TrayConfig)
        ensures
            r.tooltip@ == idle_text(),
            r.icon_path is None,
    {
        TrayConfig { tooltip: String::from_str("steno-core — idle"), icon_path: None }
    }
}

/// Build the tray configuration that the shell attaches.
pub fn setup_tray() -> (r: TrayConfig)
    ensures
        r.tooltip@ == idle_text(),
        r.icon_path is None,
{
    TrayConfig::default()
}

/// The status text while not capturing.
pub open spec fn idle_text() -> Seq<char> {
    "steno-core — idle"@
}

/// The status text while capturing, with no elapsed time known.
pub open spec fn recording_text() -> Seq<char> {
    "steno-core — recording"@
}

/// The character of a decimal digit.
pub open spec fn digit_char(d: int) -> char {
    if d == 0 { '0' } else if d == 1 { '1' } else if d == 2 { '2' } else if d == 3 { '3' }
    else if d == 4 { '4' } else if d == 5 { '5' } else if d == 6 { '6' } else if d == 7 { '7' }
    else if d == 8 { '8' } else { '9' }
}

/// The decimal digits of `n`, most significant first, without leading zeros.
pub open spec fn decimal(n: nat) -> Seq<char>
    decreases n,
{
    if n < 10 {
        seq![digit_char(n as int)]
    } else {
        decimal(n / 10) + seq![digit_char((n % 10) as int)]
    }
}

/// `n` in decimal, padded with a leading zero to at least two digits.
pub open spec fn two_digits(n: nat) -> Seq<char> {
    if n < 10 {
        seq!['0'] + decimal(n)
    } else {
        decimal(n)
    }
}

/// The status text for a capture state and, while capturing, the whole
/// seconds elapsed: minutes and seconds, each at least two digits.
pub open spec fn status_text_spec(is_capturing: bool, elapsed_secs: Option<u64>) -> Seq<char> {
    if is_capturing {
        match elapsed_secs {
            Some(secs) => "steno-core — recording ["@ + two_digits((secs / 60) as nat) + ":"@
                + two_digits((secs % 60) as nat) + "]"@,
            None => recording_text(),
        }
    } else {
        idle_text()
    }
}

/// What `Duration::as_secs` returns for a duration: its whole seconds.
pub uninterp spec fn duration_secs(d: std::time::Duration) -> u64;

/// `std::time::Duration::as_secs`: the number of whole seconds in `d`,
/// named `duration_secs`.
#[verifier::external_body]
fn as_secs(d: &std::time::Duration) -> (r: u64)
    ensures
        r == duration_secs(*d),
{
    d.as_secs()
}

/// The one-character string of a decimal digit.
fn digit_str(d: u64) -> (r: &'static str)
    requires
        d < 10,
    ensures
        r@ == seq![digit_char(d as int)],
{
    proof {
        reveal_strlit("0");
        reveal_strlit("1");
        reveal_strlit("2");
        reveal_strlit("3");
        reveal_strlit("4");
        reveal_strlit("5");
        reveal_strlit("6");
        reveal_strlit("7");
        reveal_strlit("8");
        reveal_strlit("9");
    }
    if d == 0 { "0" } else if d == 1 { "1" } else if d == 2 { "2" } else if d == 3 { "3" }
    else if d == 4 { "4" } else if d == 5 { "5" } else if d == 6 { "6" } else if d == 7 { "7" }
    else if d == 8 { "8" } else { "9" }
}

/// Append the decimal digits of `n` to `s`.
fn append_decimal(s: &mut String, n: u64)
    ensures
        final(s)@ == old(s)@ + decimal(n as nat),
    decreases n,
{
    if n >= 10 {
        append_decimal(s, n / 10);
    }
    s.append(digit_str(n % 10));
    proof {
        if n >= 10 {
            assert(decimal(n as nat) == decimal((n / 10) as nat) + seq![digit_char((n % 10) as int)]);
        }
    }
}

/// Append `n` padded to at least two digits to `s`.
fn append_two_digits(s: &mut String, n: u64)
    ensures
        final(s)@ == old(s)@ + two_digits(n as nat),
{
    if n < 10 {
        proof { reveal_strlit("0"); }
        s.append("0");
        append_decimal(s, n);
    } else {
        append_decimal(s, n);
    }
}

/// The status text for a capture state and, while capturing, the number of
/// whole seconds elapsed (if known).
pub fn status_text_for_secs(is_capturing: bool, elapsed_secs: Option<u64>) -> (r: String)
    ensures
        r@ == status_text_spec(is_capturing, elapsed_secs),
{
    if is_capturing {
        match elapsed_secs {
            Some(secs) => {
                let mm = secs / 60;
                let ss = secs % 60;
                let mut text = String::from_str("steno-core — recording [");
                append_two_digits(&mut text, mm);
                text.append(":");
                append_two_digits(&mut text, ss);
                text.append("]");
                text
            },
            None => String::from_str("steno-core — recording"),
        }
    } else {
        String::from_str("steno-core — idle")
    }
}

/// Get the status text for a given capture state and duration.
pub fn status_text(is_capturing: bool, elapsed: Option<std::time::Duration>) -> (r: String)
    ensures
        r@ == status_text_spec(
            is_capturing,
            match elapsed { Some(d) => Some(duration_secs(d)), None => None },
        ),
{
    let secs = match elapsed {
        Some(d) => Some(as_secs(&d)),
        None => None,
    };
    status_text_for_secs(is_capturing, secs)
}

/// The number a character stands for as a decimal digit.
pub open spec fn digit_value(c: char) -> int {
    (c as int) - ('0' as int)
}

/// The number a run of decimal digits stands for, most significant first.
pub open spec fn decimal_value(s: Seq<char>) -> int
    decreases s.len(),
{
    if s.len() == 0 {
        0
    } else {
        decimal_value(s.drop_last()) * 10 + digit_value(s.last())
    }
}

/// Each digit character stands for its digit.
proof fn lemma_digit_char(d: int)
    requires
        0 <= d < 10,
    ensures
        digit_value(digit_char(d)) == d,
        '0' <= digit_char(d) <= '9',
        d != 0 ==> digit_char(d) != '0',
{
    assert('0' as int == 48);
    assert('9' as int == 57);
    assert('5' as int == 53);
}

/// The decimal form of a number is made of digit characters only, has no
/// leading zero (unless it is "0"), and stands for the number itself.
pub proof fn lemma_decimal_is_the_number(n: nat)
    ensures
        decimal_value(decimal(n)) == n,
        forall|i: int| 0 <= i < decimal(n).len() ==> '0' <= #[trigger] decimal(n)[i] <= '9',
        decimal(n).len() >= 1,
        decimal(n).len() > 1 ==> decimal(n)[0] != '0',
    decreases n,
{
    if n < 10 {
        lemma_digit_char(n as int);
        assert(decimal(n).drop_last() =~= Seq::<char>::empty());
        assert(decimal_value(Seq::<char>::empty()) == 0);
    } else {
        let q = n / 10;
        let d = n % 10;
        lemma_decimal_is_the_number(q);
        lemma_digit_char(d as int);
        let s = decimal(n);
        assert(s == decimal(q) + seq![digit_char(d as int)]);
        assert(s.drop_last() =~= decimal(q));
        assert(q * 10 + d == n);
        assert forall|i: int| 0 <= i < s.len() implies '0' <= #[trigger] s[i] <= '9' by {
            if i < decimal(q).len() {
                assert(s[i] == decimal(q)[i]);
            }
        }
        if q < 10 {
            lemma_digit_char(q as int);
            assert(decimal(q)[0] == digit_char(q as int));
        } else {
            lemma_decimal_at_least_two(q);
        }
        assert(s[0] == decimal(q)[0]);
    }
}

/// Two-digit padding keeps the number: the padded form stands for it, is
/// digits only, and is exactly two characters below 100.
pub proof fn lemma_two_digits_is_the_number(n: nat)
    ensures
        decimal_value(two_digits(n)) == n,
        forall|i: int| 0 <= i < two_digits(n).len() ==> '0' <= #[trigger] two_digits(n)[i] <= '9',
        n < 100 ==> two_digits(n).len() == 2,
        two_digits(n).len() >= 2,
{
    lemma_decimal_is_the_number(n);
    if n < 10 {
        let s = two_digits(n);
        assert(s == seq!['0'] + decimal(n));
        assert(decimal(n).len() == 1);
        assert(s.drop_last() =~= seq!['0']);
        assert(seq!['0'].drop_last() =~= Seq::<char>::empty());
        assert(decimal_value(Seq::<char>::empty()) == 0);
        assert(seq!['0'].last() == '0');
        assert(decimal_value(seq!['0']) == 0);
        assert(s.last() == decimal(n).last());
        assert(decimal(n).drop_last() =~= Seq::<char>::empty());
        assert forall|i: int| 0 <= i < s.len() implies '0' <= #[trigger] s[i] <= '9' by {
            if i > 0 {
                assert(s[i] == decimal(n)[i - 1]);
            }
        }
    } else {
        lemma_decimal_at_least_two(n);
        if n < 100 {
            assert(decimal(n) == decimal(n / 10) + seq![digit_char((n % 10) as int)]);
            assert(decimal(n / 10).len() == 1);
        }
    }
}

/// The tray starts with the idle status text as its tooltip, and the status
/// text while not capturing is the idle text whatever time is given.
pub proof fn lemma_tray_starts_idle(elapsed_secs: Option<u64>)
    ensures
        status_text_spec(false, elapsed_secs) == idle_text(),
{
}

/// A single decimal digit is one character.
proof fn lemma_decimal_one_digit(n: nat)
    requires
        n < 10,
    ensures
        decimal(n).len() == 1,
{
}

/// While capturing, the elapsed whole seconds are shown as minutes and the
/// remaining seconds: the seconds always with exactly two digits and below
/// 60, the minutes with at least two, and minutes and seconds together make
/// up the elapsed time.
pub proof fn lemma_recording_text_fields(secs: u64)
    ensures
        status_text_spec(true, Some(secs)) == "steno-core — recording ["@ + two_digits((secs / 60) as nat) + ":"@
            + two_digits((secs % 60) as nat) + "]"@,
        secs % 60 < 60,
        (secs / 60) * 60 + secs % 60 == secs,
        two_digits((secs % 60) as nat).len() == 2,
        two_digits((secs / 60) as nat).len() >= 2,
{
    let ss = (secs % 60) as nat;
    if ss < 10 {
        lemma_decimal_one_digit(ss);
    } else {
        assert(decimal(ss) == decimal(ss / 10) + seq![digit_char((ss % 10) as int)]);
        lemma_decimal_one_digit(ss / 10);
    }
    let mm = (secs / 60) as nat;
    if mm < 10 {
        lemma_decimal_one_digit(mm);
    } else {
        lemma_decimal_at_least_two(mm);
    }
}

/// A number of 10 or more has at least two decimal digits.
proof fn lemma_decimal_at_least_two(n: nat)
    requires
        n >= 10,
    ensures
        decimal(n).len() >= 2,
    decreases n,
{
    assert(decimal(n) == decimal(n / 10) + seq![digit_char((n % 10) as int)]);
    assert(decimal(n / 10).len() >= 1) by {
        if n / 10 < 10 {
        } else {
            lemma_decimal_at_least_two(n / 10);
        }
    }
}

} // verus!
