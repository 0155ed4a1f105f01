//! Verified building blocks for emitting C source text: decimal and
//! hexadecimal rendering of integers and runs of spaces used for indentation.
use vstd::prelude::*;
use vstd::string::*;

verus! {

/// The character of a hexadecimal digit `d < 16`, upper case.
pub open spec fn hex_digit(d: nat) -> char {
    if d < 10 {
        ((48 + d) as u32) as char
    } else {
        ((55 + d) as u32) as char
    }
}

/// The decimal representation of `n`, without leading zeros ("0" for zero).
pub open spec fn dec(n: nat) -> Seq<char>
    decreases n,
{
    if n < 10 {
        seq![hex_digit(n)]
    } else {
        dec(n / 10).push(hex_digit(n % 10))
    }
}

/// The upper-case hexadecimal representation of `n`, without leading zeros.
pub open spec fn hex(n: nat) -> Seq<char>
    decreases n,
{
    if n < 16 {
        seq![hex_digit(n)]
    } else {
        hex(n / 16).push(hex_digit(n % 16))
    }
}

/// `n` space characters.
pub open spec fn spaces(n: nat) -> Seq<char> {
    Seq::new(n, |i: int| ' ')
}

/// The one-character string of digit `d`.
fn digit_str(d: u64) -> (s: &'static str)
    requires
        d < 16,
    ensures
        s@ == seq![hex_digit(d as nat)],
{
    proof {
        reveal_strlit("0");
        reveal_strlit("1");
        reveal_strlit("2");
        reveal_strlit("3");
        reveal_strlit("4");
        reveal_strlit("5");
        reveal_strlit("6");
        reveal_strlit("7");
        reveal_strlit("8");
        reveal_strlit("9");
        reveal_strlit("A");
        reveal_strlit("B");
        reveal_strlit("C");
        reveal_strlit("D");
        reveal_strlit("E");
        reveal_strlit("F");
    }
    match d {
        0 => "0",
        1 => "1",
        2 => "2",
        3 => "3",
        4 => "4",
        5 => "5",
        6 => "6",
        7 => "7",
        8 => "8",
        9 => "9",
        10 => "A",
        11 => "B",
        12 => "C",
        13 => "D",
        14 => "E",
        _ => "F",
    }
}

/// Decimal text of `n`, as Rust's `{}` formatting writes it.
pub fn dec_string(n: u64) -> (s: String)
    ensures
        s@ == dec(n as nat),
    decreases n,
{
    if n < 10 {
        let mut s = String::new();
        s.append(digit_str(n));
        s
    } else {
        let mut s = dec_string(n / 10);
        s.append(digit_str(n % 10));
        s
    }
}

/// Upper-case hexadecimal text of `n`, as Rust's `{:X}` formatting writes it.
pub fn hex_string(n: u64) -> (s: String)
    ensures
        s@ == hex(n as nat),
    decreases n,
{
    if n < 16 {
        let mut s = String::new();
        s.append(digit_str(n));
        s
    } else {
        let mut s = hex_string(n / 16);
        s.append(digit_str(n % 16));
        s
    }
}

/// A string of `n` spaces (the indentation unit of the generated code).
pub fn spaces_string(n: usize) -> (s: String)
    ensures
        s@ == spaces(n as nat),
{
    let mut s = String::new();
    let mut i: usize = 0;
    while i < n
        invariant
            i <= n,
            s@ == spaces(i as nat),
        decreases n - i,
    {
        proof {
            reveal_strlit(" ");
        }
        s.append(" ");
        i = i + 1;
        assert(s@ =~= spaces(i as nat));
    }
    s
}

/// The concatenation of `a` and `b`.
pub fn concat_str(a: &str, b: &str) -> (s: String)
    ensures
        s@ == a@ + b@,
{
    let mut s = String::new();
    s.append(a);
    s.append(b);
    s
}

/// Text `t` occurs somewhere in text `s`.
pub open spec fn contains_text(s: Seq<char>, t: Seq<char>) -> bool {
    exists|i: int| 0 <= i && i + t.len() <= s.len() && #[trigger] s.subrange(i, i + t.len()) == t
}

/// A prefix of `b` is a prefix of `b` followed by anything.
pub proof fn lemma_prefix_extends(a: Seq<char>, b: Seq<char>, c: Seq<char>)
    requires
        a.is_prefix_of(b),
    ensures
        a.is_prefix_of(b + c),
{
    assert((b + c).subrange(0, a.len() as int) =~= b.subrange(0, a.len() as int));
}

/// `p + t + q` contains `t`.
pub proof fn lemma_contains_middle(p: Seq<char>, t: Seq<char>, q: Seq<char>)
    ensures
        contains_text(p + t + q, t),
{
    let s = p + t + q;
    assert(s.subrange(p.len() as int, (p.len() + t.len()) as int) =~= t);
}

proof fn lemma_digit_injective(a: nat, b: nat)
    requires
        a < 10,
        b < 10,
        hex_digit(a) == hex_digit(b),
    ensures
        a == b,
{
    assert(hex_digit(a) as u32 == 48 + a);
    assert(hex_digit(b) as u32 == 48 + b);
}

proof fn lemma_dec_len(n: nat)
    ensures
        dec(n).len() >= 1,
        n >= 10 ==> dec(n).len() >= 2,
    decreases n,
{
    if n >= 10 {
        lemma_dec_len(n / 10);
    }
}

/// Distinct numbers have distinct decimal representations.
pub proof fn law_dec_injective(a: nat, b: nat)
    requires
        dec(a) == dec(b),
    ensures
        a == b,
    decreases a,
{
    lemma_dec_len(a);
    lemma_dec_len(b);
    if a < 10 && b < 10 {
        assert(dec(a)[0] == hex_digit(a));
        assert(dec(b)[0] == hex_digit(b));
        lemma_digit_injective(a, b);
    } else if a >= 10 && b >= 10 {
        assert(dec(a / 10) =~= dec(a).drop_last());
        assert(dec(b / 10) =~= dec(b).drop_last());
        law_dec_injective(a / 10, b / 10);
        assert(dec(a).last() == hex_digit(a % 10));
        assert(dec(b).last() == hex_digit(b % 10));
        lemma_digit_injective(a % 10, b % 10);
    }
}

/// What `str::to_uppercase` returns for a string: its characters mapped to
/// their Unicode upper case.
pub uninterp spec fn uppercase(s: Seq<char>) -> Seq<char>;

/// Calls std's `str::to_uppercase`. The contract claims only that the
/// result depends on `s` alone, under the name [`uppercase`]; the case
/// mapping itself is not stated.
#[verifier::external_body]
pub(crate) fn to_uppercase(s: &str) -> (r: String)
    ensures
        r@ == uppercase(s@),
{
    s.to_uppercase()
}

} // verus!
