use vstd::prelude::*;

verus! {

/// The character of a decimal digit.
pub open spec fn digit_char(d: nat) -> char {
    if d == 0 { '0' }
    else if d == 1 { '1' }
    else if d == 2 { '2' }
    else if d == 3 { '3' }
    else if d == 4 { '4' }
    else if d == 5 { '5' }
    else if d == 6 { '6' }
    else if d == 7 { '7' }
    else if d == 8 { '8' }
    else { '9' }
}

/// Decimal digits of `n`, most significant first, without leading zeros.
pub open spec fn decimal(n: nat) -> Seq<char>
    decreases n,
{
    if n < 10 {
        seq![digit_char(n)]
    } else {
        decimal(n / 10) + seq![digit_char(n % 10)]
    }
}

/// Decimal digits of `n`, padded with a leading zero to at least two.
pub open spec fn two_digits(n: nat) -> Seq<char> {
    if n < 10 {
        seq!['0'] + decimal(n)
    } else {
        decimal(n)
    }
}

/// `MM:SS` for a number of whole seconds; minutes grow past two digits.
pub open spec fn clock_text(secs: nat) -> Seq<char> {
    two_digits(secs / 60) + seq![':'] + two_digits(secs % 60)
}

/// `MM:SS / MM:SS` for a position and a total, both in milliseconds and
/// truncated to whole seconds.
pub open spec fn position_text(pos_ms: nat, total_ms: nat) -> Seq<char> {
    clock_text(pos_ms / 1000) + " / "@ + clock_text(total_ms / 1000)
}

/// The live status line: it starts with a carriage return and ends
/// without a newline, so that each render overwrites the last.
pub open spec fn status_line_text(paused: bool, pos_ms: nat, total_ms: nat) -> Seq<char> {
    "\rStatus: "@ + (if paused { "Paused"@ } else { "Playing"@ }) + " | Position: "@
        + position_text(pos_ms, total_ms)
        + " | Controls: [Space] Pause/Play, [<-] Rewind 10s, [->] Forward 10s, [q] Quit  "@
}

fn digit_str(d: u64) -> (r: &'static str)
    requires
        d < 10,
    ensures
        r@ == seq![digit_char(d as nat)],
{
    proof {
        reveal_strlit("0");
        reveal_strlit("1");
        reveal_strlit("2");
        reveal_strlit("3");
        reveal_strlit("4");
        reveal_strlit("5");
        reveal_strlit("6");
        reveal_strlit("7");
        reveal_strlit("8");
        reveal_strlit("9");
    }
    if d == 0 { "0" }
    else if d == 1 { "1" }
    else if d == 2 { "2" }
    else if d == 3 { "3" }
    else if d == 4 { "4" }
    else if d == 5 { "5" }
    else if d == 6 { "6" }
    else if d == 7 { "7" }
    else if d == 8 { "8" }
    else { "9" }
}

fn push_decimal(s: &mut String, n: u64)
    ensures
        final(s)@ == old(s)@ + decimal(n as nat),
    decreases n,
{
    if n >= 10 {
        push_decimal(s, n / 10);
    }
    s.append(digit_str(n % 10));
    assert(final(s)@ =~= old(s)@ + decimal(n as nat));
}

fn push_two_digits(s: &mut String, n: u64)
    ensures
        final(s)@ == old(s)@ + two_digits(n as nat),
{
    if n < 10 {
        s.append("0");
        proof { reveal_strlit("0"); }
    }
    push_decimal(s, n);
    assert(final(s)@ =~= old(s)@ + two_digits(n as nat));
}

fn push_clock(s: &mut String, secs: u64)
    ensures
        final(s)@ == old(s)@ + clock_text(secs as nat),
{
    push_two_digits(s, secs / 60);
    s.append(":");
    proof { reveal_strlit(":"); }
    push_two_digits(s, secs % 60);
    assert(final(s)@ =~= old(s)@ + clock_text(secs as nat));
}

/// Formats a position against a total as `MM:SS / MM:SS`.
pub fn format_position(pos_ms: u64, total_ms: u64) -> (r: String)
    ensures
        r@ == position_text(pos_ms as nat, total_ms as nat),
{
    let mut s = String::new();
    push_clock(&mut s, pos_ms / 1000);
    s.append(" / ");
    push_clock(&mut s, total_ms / 1000);
    assert(s@ =~= position_text(pos_ms as nat, total_ms as nat));
    s
}

/// Formats the whole status line for the given state and position.
pub fn status_line(paused: bool, pos_ms: u64, total_ms: u64) -> (r: String)
    ensures
        r@ == status_line_text(paused, pos_ms as nat, total_ms as nat),
{
    let mut s = String::from_str("\rStatus: ");
    if paused {
        s.append("Paused");
    } else {
        s.append("Playing");
    }
    s.append(" | Position: ");
    let p = format_position(pos_ms, total_ms);
    s.append(p.as_str());
    s.append(" | Controls: [Space] Pause/Play, [<-] Rewind 10s, [->] Forward 10s, [q] Quit  ");
    assert(s@ =~= status_line_text(paused, pos_ms as nat, total_ms as nat));
    s
}

} // verus!
