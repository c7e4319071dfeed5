//! Status lines: one line per terminated run, `exit|<code>|<command>` or
//! `signal|<number>|<command>`, each ended by a newline.
use vstd::prelude::*;

verus! {

/// How one run of the command ended.
#[derive(Clone, Copy, Debug, PartialEq, Eq, Structural)]
pub enum Termination {
    /// The process ran to completion with this exit code.
    Exited(i32),
    /// The process was killed by this signal.
    Signaled(i32),
}

/// The decimal digits of `n`, most significant first; zero is `"0"`.
pub open spec fn decimal_digits(n: nat) -> Seq<char>
    decreases n,
{
    if n < 10 {
        seq![digit_char(n)]
    } else {
        decimal_digits(n / 10).push(digit_char(n % 10))
    }
}

/// The decimal digit for `d`, which is below ten.
pub open spec fn digit_char(d: nat) -> char {
    if d == 0 { '0' }
    else if d == 1 { '1' }
    else if d == 2 { '2' }
    else if d == 3 { '3' }
    else if d == 4 { '4' }
    else if d == 5 { '5' }
    else if d == 6 { '6' }
    else if d == 7 { '7' }
    else if d == 8 { '8' }
    else { '9' }
}

/// `n` written in decimal, with a leading `-` when it is negative.
pub open spec fn decimal(n: int) -> Seq<char> {
    if n < 0 {
        seq!['-'] + decimal_digits((-n) as nat)
    } else {
        decimal_digits(n as nat)
    }
}

/// The line that reports `outcome` of a run of `command`, newline included.
pub open spec fn status_line_of(outcome: Termination, command: Seq<char>) -> Seq<char> {
    match outcome {
        Termination::Exited(code) => "exit|"@ + decimal(code as int) + seq!['|'] + command + seq!['\n'],
        Termination::Signaled(sig) => "signal|"@ + decimal(sig as int) + seq!['|'] + command + seq!['\n'],
    }
}

/// Why a status line could not be written.
#[derive(Clone, Copy, Debug, PartialEq, Eq, Structural)]
pub enum StatusError {
    /// The command text holds a newline, which would split the line.
    EmbeddedNewline,
}

fn digit_str(d: u32) -> (r: &'static str)
    requires
        d < 10,
    ensures
        r@ == seq![digit_char(d as nat)],
{
    proof {
        reveal_strlit("0");
        reveal_strlit("1");
        reveal_strlit("2");
        reveal_strlit("3");
        reveal_strlit("4");
        reveal_strlit("5");
        reveal_strlit("6");
        reveal_strlit("7");
        reveal_strlit("8");
        reveal_strlit("9");
    }
    match d {
        0 => "0",
        1 => "1",
        2 => "2",
        3 => "3",
        4 => "4",
        5 => "5",
        6 => "6",
        7 => "7",
        8 => "8",
        _ => "9",
    }
}

fn append_digits(s: &mut String, n: u32)
    ensures
        final(s)@ == old(s)@ + decimal_digits(n as nat),
    decreases n,
{
    if n >= 10 {
        append_digits(s, n / 10);
    }
    s.append(digit_str(n % 10));
    assert(final(s)@ =~= old(s)@ + decimal_digits(n as nat));
}

/// Appends `n` in decimal to `s`.
pub fn append_decimal(s: &mut String, n: i32)
    ensures
        final(s)@ == old(s)@ + decimal(n as int),
{
    if n < 0 {
        proof {
            reveal_strlit("-");
        }
        s.append("-");
        let magnitude: u32 = (-(n as i64)) as u32;
        append_digits(s, magnitude);
        assert(final(s)@ =~= old(s)@ + decimal(n as int));
    } else {
        append_digits(s, n as u32);
    }
}

/// Whether `text` holds a newline character.
pub fn has_newline(text: &str) -> (r: bool)
    ensures
        r == text@.contains('\n'),
{
    let len = text.unicode_len();
    let mut i: usize = 0;
    while i < len
        invariant
            len == text@.len(),
            i <= len,
            forall|j: int| 0 <= j < i ==> text@[j] != '\n',
        decreases len - i,
    {
        if text.get_char(i) == '\n' {
            return true;
        }
        i = i + 1;
    }
    false
}

/// Writes the status line for `outcome` of a run of `command`; a command
/// text with a newline in it is refused.
pub fn status_line(outcome: Termination, command: &str) -> (r: Result<String, StatusError>)
    ensures
        command@.contains('\n') <==> r is Err,
        r matches Ok(line) ==> line@ == status_line_of(outcome, command@),
{
    if has_newline(command) {
        return Err(StatusError::EmbeddedNewline);
    }
    proof {
        reveal_strlit("exit|");
        reveal_strlit("signal|");
        reveal_strlit("|");
        reveal_strlit("\n");
    }
    let mut line = String::new();
    match outcome {
        Termination::Exited(code) => {
            line.append("exit|");
            append_decimal(&mut line, code);
        },
        Termination::Signaled(sig) => {
            line.append("signal|");
            append_decimal(&mut line, sig);
        },
    }
    line.append("|");
    line.append(command);
    line.append("\n");
    assert(line@ =~= status_line_of(outcome, command@));
    Ok(line)
}

/// Tells how a process ended from what the operating system reports: an
/// exit code when it ran to completion, else the signal that killed it.
pub fn classify_termination(code: Option<i32>, signal: Option<i32>) -> (r: Option<Termination>)
    ensures
        code matches Some(c) ==> r == Some(Termination::Exited(c)),
        (code is None && signal is Some) ==> r == Some(Termination::Signaled(signal.unwrap())),
        code is None && signal is None ==> r is None,
{
    match code {
        Some(c) => Some(Termination::Exited(c)),
        None => match signal {
            Some(g) => Some(Termination::Signaled(g)),
            None => None,
        },
    }
}

} // verus!
