use vstd::prelude::*;

verus! {

/// The decimal digit character for `d < 10`.
pub open spec fn digit_char(d: nat) -> char {
    if d == 0 { '0' }
    else if d == 1 { '1' }
    else if d == 2 { '2' }
    else if d == 3 { '3' }
    else if d == 4 { '4' }
    else if d == 5 { '5' }
    else if d == 6 { '6' }
    else if d == 7 { '7' }
    else if d == 8 { '8' }
    else { '9' }
}

/// The decimal representation of `n`, without leading zeros.
pub open spec fn dec(n: nat) -> Seq<char>
    decreases n,
{
    if n < 10 {
        seq![digit_char(n)]
    } else {
        dec(n / 10) + seq![digit_char(n % 10)]
    }
}

/// Truecolor foreground escape.
pub open spec fn fg_seq(r: u8, g: u8, b: u8) -> Seq<char> {
    "\x1b[38;2;"@ + dec(r as nat) + ";"@ + dec(g as nat) + ";"@ + dec(b as nat) + "m"@
}

/// Truecolor background escape.
pub open spec fn bg_seq(r: u8, g: u8, b: u8) -> Seq<char> {
    "\x1b[48;2;"@ + dec(r as nat) + ";"@ + dec(g as nat) + ";"@ + dec(b as nat) + "m"@
}

pub open spec fn reset_seq() -> Seq<char> {
    "\x1b[0m"@
}

pub open spec fn black_bg_seq() -> Seq<char> {
    "\x1b[40m"@
}

/// `s` repeated `n` times.
pub open spec fn repeat(s: Seq<char>, n: nat) -> Seq<char>
    decreases n,
{
    if n == 0 {
        Seq::empty()
    } else {
        repeat(s, (n - 1) as nat) + s
    }
}

fn digit_str(d: u64) -> (r: &'static str)
    requires
        d < 10,
    ensures
        r@ == seq![digit_char(d as nat)],
{
    proof {
        reveal_strlit("0");
        reveal_strlit("1");
        reveal_strlit("2");
        reveal_strlit("3");
        reveal_strlit("4");
        reveal_strlit("5");
        reveal_strlit("6");
        reveal_strlit("7");
        reveal_strlit("8");
        reveal_strlit("9");
    }
    if d == 0 { "0" }
    else if d == 1 { "1" }
    else if d == 2 { "2" }
    else if d == 3 { "3" }
    else if d == 4 { "4" }
    else if d == 5 { "5" }
    else if d == 6 { "6" }
    else if d == 7 { "7" }
    else if d == 8 { "8" }
    else { "9" }
}

/// Appends the decimal representation of `n`.
pub fn push_dec(out: &mut String, n: u64)
    ensures
        final(out)@ == old(out)@ + dec(n as nat),
    decreases n,
{
    if n >= 10 {
        push_dec(out, n / 10);
    }
    out.append(digit_str(n % 10));
    proof {
        assert(final(out)@ =~= old(out)@ + dec(n as nat));
    }
}

/// Appends `s` to `out`, `n` times.
pub fn push_repeat(out: &mut String, s: &str, n: usize)
    ensures
        final(out)@ == old(out)@ + repeat(s@, n as nat),
{
    let mut i: usize = 0;
    while i < n
        invariant
            i <= n,
            out@ == old(out)@ + repeat(s@, i as nat),
        decreases n - i,
    {
        out.append(s);
        i = i + 1;
        proof {
            assert(out@ =~= old(out)@ + repeat(s@, i as nat));
        }
    }
}

/// Appends the foreground escape of a colour.
pub fn push_fg(out: &mut String, r: u8, g: u8, b: u8)
    ensures
        final(out)@ == old(out)@ + fg_seq(r, g, b),
{
    out.append("\x1b[38;2;");
    push_dec(out, r as u64);
    out.append(";");
    push_dec(out, g as u64);
    out.append(";");
    push_dec(out, b as u64);
    out.append("m");
    proof {
        assert(final(out)@ =~= old(out)@ + fg_seq(r, g, b));
    }
}

/// Appends the background escape of a colour.
pub fn push_bg(out: &mut String, r: u8, g: u8, b: u8)
    ensures
        final(out)@ == old(out)@ + bg_seq(r, g, b),
{
    out.append("\x1b[48;2;");
    push_dec(out, r as u64);
    out.append(";");
    push_dec(out, g as u64);
    out.append(";");
    push_dec(out, b as u64);
    out.append("m");
    proof {
        assert(final(out)@ =~= old(out)@ + bg_seq(r, g, b));
    }
}

} // verus!
