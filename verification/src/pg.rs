use std::time::{Duration, Instant};
use vstd::prelude::*;
use vstd::string::{is_ascii_spec_bytes, StringExecFns, StringSliceAdditionalSpecFns};
use vstd::utf8::is_ascii_chars;

verus! {

/// `std::time::Instant`, a moment on the machine's monotonic clock. Nothing
/// is known of what it holds.
#[verifier::external_type_specification]
#[verifier::external_body]
pub struct ExInstant(std::time::Instant);

/// `Instant::now`: the present moment. Nothing is claimed of it.
#[verifier::external_body]
fn now() -> Instant {
    Instant::now()
}

/// `Instant::elapsed`: the time that has passed since `since`. Nothing is
/// claimed of it.
#[verifier::external_body]
fn elapsed(since: &Instant) -> Duration {
    since.elapsed()
}

/// `Duration::as_nanos`: the duration in whole nanoseconds. Nothing is
/// claimed of the number.
#[verifier::external_body]
fn as_nanos(duration: &Duration) -> u128 {
    duration.as_nanos()
}

/// The nanoseconds after which a line that is shown is written anew.
pub const REFRESH_NANOS: u128 = 500_000_000;

/// The character for the decimal digit `d`.
pub open spec fn digit_char(d: nat) -> char {
    (d + '0' as nat) as char
}

/// `n` in decimal, without leading zeros.
pub open spec fn decimal(n: nat) -> Seq<char>
    decreases n,
{
    if n < 10 {
        seq![digit_char(n)]
    } else {
        decimal(n / 10).push(digit_char(n % 10))
    }
}

/// `len` spaces.
pub open spec fn spaces(len: nat) -> Seq<char> {
    Seq::new(len, |i: int| ' ')
}

/// What a progress counter holds, but for the moment of its last line.
pub struct ProgressState {
    /// How far the work has come.
    pub value: u64,
    /// Where the work ends; zero where only the count matters.
    pub max: u64,
    /// Whether a line has been written.
    pub shown: bool,
    /// The length of the line written last.
    pub last_line_len: nat,
}

impl ProgressState {
    /// The line for this state: value, a slash, and the end.
    pub open spec fn line(self) -> Seq<char> {
        decimal(self.value as nat) + seq!['/'] + decimal(self.max as nat)
    }

    /// What is written to show the line: a carriage return, then the line.
    pub open spec fn line_text(self) -> Seq<char> {
        seq!['\r'] + self.line()
    }

    /// What is written to wipe the last line: a carriage return, a space for
    /// each of its characters, and a carriage return.
    pub open spec fn clear_text(self) -> Seq<char> {
        seq!['\r'] + spaces(self.last_line_len) + seq!['\r']
    }

    /// The state after its line was written.
    pub open spec fn refreshed(self) -> ProgressState {
        ProgressState { shown: true, last_line_len: self.line().len(), ..self }
    }

    /// The state with `value` as how far the work has come.
    pub open spec fn at(self, value: u64) -> ProgressState {
        ProgressState { value, ..self }
    }

    /// Whether going from this state to `after` with `text` to write is a
    /// step of the counter: it writes its line, or, where one is shown
    /// already, it may keep still.
    pub open spec fn steps_to(self, after: ProgressState, text: Option<String>) -> bool {
        match text {
            Some(t) => t@ == self.line_text() && after == self.refreshed(),
            None => self.shown && after == self,
        }
    }
}

/// A counter of work done that says when its line is to be written, and what
/// the line is. Writing is left to the caller.
#[derive(Debug)]
pub struct Progress {
    value: u64,
    max: u64,  // Max of zero means just to display the count.
    last_line_time: Option<Instant>,
    last_line_len: usize,
}

impl View for Progress {
    type V = ProgressState;

    closed spec fn view(&self) -> ProgressState {
        ProgressState {
            value: self.value,
            max: self.max,
            shown: self.last_line_time is Some,
            last_line_len: self.last_line_len as nat,
        }
    }
}

/// Ten to the power `k`.
spec fn pow10(k: nat) -> nat
    decreases k,
{
    if k == 0 {
        1
    } else {
        10 * pow10((k - 1) as nat)
    }
}

/// The decimal digits are ASCII.
proof fn lemma_decimal_ascii(n: nat)
    ensures
        is_ascii_chars(decimal(n)),
    decreases n,
{
    if n >= 10 {
        lemma_decimal_ascii(n / 10);
    }
}

/// A number below ten to the power `k` has at most `k` digits.
proof fn lemma_decimal_len(n: nat, k: nat)
    requires
        k >= 1,
        n < pow10(k),
    ensures
        1 <= decimal(n).len() <= k,
    decreases k,
{
    if n >= 10 {
        if k == 1 {
            assert(pow10(1) == 10 * pow10(0));
        } else {
            lemma_decimal_len(n / 10, (k - 1) as nat);
        }
    }
}

/// A 64-bit number has at most twenty digits.
proof fn lemma_decimal_len_u64(n: u64)
    ensures
        1 <= decimal(n as nat).len() <= 20,
{
    assert(pow10(20) == 100_000_000_000_000_000_000) by {
        reveal_with_fuel(pow10, 21);
    }
    lemma_decimal_len(n as nat, 20);
}

fn digit_str(d: u8) -> (s: &'static str)
    requires
        d < 10,
    ensures
        s@ == seq![digit_char(d as nat)],
{
    proof {
        reveal_strlit("0");
        reveal_strlit("1");
        reveal_strlit("2");
        reveal_strlit("3");
        reveal_strlit("4");
        reveal_strlit("5");
        reveal_strlit("6");
        reveal_strlit("7");
        reveal_strlit("8");
        reveal_strlit("9");
    }
    let s = match d {
        0 => "0",
        1 => "1",
        2 => "2",
        3 => "3",
        4 => "4",
        5 => "5",
        6 => "6",
        7 => "7",
        8 => "8",
        _ => "9",
    };
    assert(s@ =~= seq![digit_char(d as nat)]);
    s
}

/// Appends `n` in decimal to `text`.
fn push_decimal(text: &mut String, n: u64)
    ensures
        final(text)@ == old(text)@ + decimal(n as nat),
    decreases n,
{
    if n >= 10 {
        push_decimal(text, n / 10);
    }
    text.append(digit_str((n % 10) as u8));
    proof {
        let before = old(text)@;
        if n >= 10 {
            assert((before + decimal((n / 10) as nat)) + seq![digit_char((n % 10) as nat)] =~= before
                + decimal(n as nat));
        }
    }
}

/// Whether a line that was written `nanos` nanoseconds ago is to be written
/// anew.
pub fn refresh_due(nanos: u128) -> (r: bool)
    ensures
        r == (nanos > REFRESH_NANOS),
{
    nanos > REFRESH_NANOS
}

impl Progress {
    /// A counter at zero that has written nothing.
    pub fn new(max: u64) -> (r: Progress)
        ensures
            r@ == (ProgressState { value: 0, max, shown: false, last_line_len: 0 }),
    {
        Progress { max, value: 0, last_line_len: 0, last_line_time: None }
    }

    /// How far the work has come.
    pub fn value(&self) -> (r: u64)
        ensures
            r == self@.value,
    {
        self.value
    }

    /// Counts one more, and gives what is to be written, if anything.
    pub fn inc(&mut self) -> (text: Option<String>)
        requires
            old(self)@.value < u64::MAX,
        ensures
            old(self)@.at((old(self)@.value + 1) as u64).steps_to(final(self)@, text),
    {
        self.value += 1;
        self.check_update()
    }

    /// Sets how far the work has come, and gives what is to be written, if
    /// anything.
    pub fn set(&mut self, val: u64) -> (text: Option<String>)
        ensures
            old(self)@.at(val).steps_to(final(self)@, text),
    {
        self.value = val;
        self.check_update()
    }

    /// Gives the line to write where none is shown yet or the last one is
    /// older than half a second by the machine's clock, and nothing otherwise.
    pub fn check_update(&mut self) -> (text: Option<String>)
        ensures
            old(self)@.steps_to(final(self)@, text),
    {
        let nanos = match &self.last_line_time {
            None => 0,
            Some(last) => {
                let since = elapsed(last);
                as_nanos(&since)
            },
        };
        self.check_update_after(nanos)
    }

    /// Gives the line to write where none is shown yet or the last one was
    /// written more than half a second before, `nanos` being the nanoseconds
    /// since then; and nothing otherwise.
    pub fn check_update_after(&mut self, nanos: u128) -> (text: Option<String>)
        ensures
            old(self)@.steps_to(final(self)@, text),
            text is Some <==> !old(self)@.shown || nanos > REFRESH_NANOS,
    {
        if self.last_line_time.is_none() || refresh_due(nanos) {
            Some(self.update())
        } else {
            None
        }
    }

    /// Gives the line to write, whenever the last one was written.
    pub fn force_update(&mut self) -> (text: String)
        ensures
            text@ == old(self)@.line_text(),
            final(self)@ == old(self)@.refreshed(),
    {
        self.update()
    }

    fn update(&mut self) -> (text: String)
        ensures
            text@ == old(self)@.line_text(),
            final(self)@ == old(self)@.refreshed(),
    {
        self.last_line_time = Some(now());
        let mut line = String::new();
        push_decimal(&mut line, self.value);
        line.append("/");
        push_decimal(&mut line, self.max);
        let line_str = line.as_str();
        proof {
            reveal_strlit("/");
            reveal_strlit("\r");
            assert("/"@ =~= seq!['/']);
            assert("\r"@ =~= seq!['\r']);
            lemma_decimal_ascii(self.value as nat);
            lemma_decimal_ascii(self.max as nat);
            lemma_decimal_len_u64(self.value);
            lemma_decimal_len_u64(self.max);
            assert(line@ =~= old(self)@.line());
            assert(is_ascii_chars(line@));
            is_ascii_spec_bytes(line_str);
        }
        self.last_line_len = line_str.len();
        let mut text = String::new();
        text.append("\r");
        text.append(line_str);
        assert(text@ =~= old(self)@.line_text());
        text
    }

    /// Gives what wipes the line that is shown, where one is.
    pub fn finish_and_clear(&mut self) -> (text: Option<String>)
        ensures
            final(self)@ == old(self)@,
            match text {
                Some(t) => old(self)@.shown && t@ == old(self)@.clear_text(),
                None => !old(self)@.shown,
            },
    {
        if self.last_line_time.is_some() {
            proof {
                reveal_strlit("\r");
                reveal_strlit(" ");
                assert("\r"@ =~= seq!['\r']);
                assert(" "@ =~= seq![' ']);
            }
            let mut text = String::new();
            text.append("\r");
            let mut i: usize = 0;
            while i < self.last_line_len
                invariant
                    i <= self.last_line_len,
                    " "@ == seq![' '],
                    text@ == seq!['\r'] + spaces(i as nat),
                decreases self.last_line_len - i,
            {
                text.append(" ");
                i += 1;
                assert(text@ =~= seq!['\r'] + spaces(i as nat));
            }
            text.append("\r");
            Some(text)
        } else {
            None
        }
    }
}

} // verus!
