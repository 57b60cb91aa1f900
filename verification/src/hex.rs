//! Hexadecimal numbers as text: the digits of a number, and the number of a
//! run of digits.

use crate::text::is_digit;
use vstd::prelude::*;

verus! {

/// Whether `c` is a hexadecimal digit, in either case.
pub open spec fn is_hex(c: char) -> bool {
    is_digit(c) || ('a' <= c && c <= 'f') || ('A' <= c && c <= 'F')
}

/// The number that the hexadecimal digit `c` stands for.
pub open spec fn hex_digit_value(c: char) -> nat
    recommends
        is_hex(c),
{
    if is_digit(c) {
        (c as u32 - '0' as u32) as nat
    } else if 'a' <= c && c <= 'f' {
        (c as u32 - 'a' as u32 + 10) as nat
    } else {
        (c as u32 - 'A' as u32 + 10) as nat
    }
}

/// The lower-case hexadecimal digit that stands for `d`, for `d` below
/// sixteen.
pub open spec fn hex_char(d: nat) -> char
    recommends
        d < 16,
{
    if d == 0 {
        '0'
    } else if d == 1 {
        '1'
    } else if d == 2 {
        '2'
    } else if d == 3 {
        '3'
    } else if d == 4 {
        '4'
    } else if d == 5 {
        '5'
    } else if d == 6 {
        '6'
    } else if d == 7 {
        '7'
    } else if d == 8 {
        '8'
    } else if d == 9 {
        '9'
    } else if d == 10 {
        'a'
    } else if d == 11 {
        'b'
    } else if d == 12 {
        'c'
    } else if d == 13 {
        'd'
    } else if d == 14 {
        'e'
    } else {
        'f'
    }
}

/// Whether every character of `s` is a hexadecimal digit.
pub open spec fn all_hex(s: Seq<char>) -> bool {
    forall|i: int| 0 <= i < s.len() ==> is_hex(#[trigger] s[i])
}

/// The number written by the hexadecimal digits `s`, most significant digit
/// first. The empty text is worth zero.
pub open spec fn hex_value(s: Seq<char>) -> nat
    decreases s.len(),
{
    if s.len() == 0 {
        0
    } else {
        hex_value(s.drop_last()) * 16 + hex_digit_value(s.last())
    }
}

/// The shortest lower-case hexadecimal text of `n`: no leading zero, and "0"
/// for zero.
pub open spec fn hex_digits(n: nat) -> Seq<char>
    decreases n,
{
    if n < 16 {
        seq![hex_char(n)]
    } else {
        hex_digits(n / 16).push(hex_char(n % 16))
    }
}

/// The first index at or after `i` at which `s` holds no hexadecimal digit.
pub open spec fn hex_end(s: Seq<char>, i: int) -> int
    decreases s.len() - i,
{
    if 0 <= i < s.len() && is_hex(s[i]) {
        hex_end(s, i + 1)
    } else {
        i
    }
}

/// A lower-case hexadecimal digit is a hexadecimal digit, and stands for its
/// number.
pub proof fn lemma_hex_char_value(d: nat)
    requires
        d < 16,
    ensures
        is_hex(hex_char(d)),
        hex_digit_value(hex_char(d)) == d,
        hex_char(d) != '.',
        hex_char(d) != ':',
{
}

/// The hexadecimal digits of a number are hexadecimal digits and write that
/// number.
pub proof fn lemma_hex_digits(n: nat)
    ensures
        hex_digits(n).len() >= 1,
        all_hex(hex_digits(n)),
        hex_value(hex_digits(n)) == n,
        n < 65536 ==> hex_digits(n).len() <= 4,
    decreases n,
{
    if n < 16 {
        lemma_hex_char_value(n);
        let s = hex_digits(n);
        assert(s.drop_last() =~= Seq::<char>::empty());
        assert(hex_value(s.drop_last()) == 0);
    } else {
        lemma_hex_digits(n / 16);
        lemma_hex_char_value(n % 16);
        let head = hex_digits(n / 16);
        let s = head.push(hex_char(n % 16));
        assert(s.drop_last() =~= head);
        assert forall|i: int| 0 <= i < s.len() implies is_hex(#[trigger] s[i]) by {
            if i < head.len() {
                assert(s[i] == head[i]);
            }
        }
        if n < 65536 {
            lemma_hex_digits_len(n);
        }
    }
}

/// How many hexadecimal digits a number below 65536 has.
pub proof fn lemma_hex_digits_len(n: nat)
    requires
        n < 65536,
    ensures
        hex_digits(n).len() <= 4,
{
    if n >= 16 {
        assert(hex_digits(n).len() == hex_digits(n / 16).len() + 1);
        if n / 16 >= 16 {
            assert(hex_digits(n / 16).len() == hex_digits(n / 16 / 16).len() + 1);
            if n / 16 / 16 >= 16 {
                assert(hex_digits(n / 16 / 16).len() == hex_digits(n / 16 / 16 / 16).len() + 1);
                assert(n / 16 / 16 / 16 < 16);
            }
        }
    }
}

/// A text of at most four hexadecimal digits is worth less than 65536.
pub proof fn lemma_hex_value_bound(s: Seq<char>)
    requires
        all_hex(s),
    ensures
        s.len() == 0 ==> hex_value(s) == 0,
        s.len() <= 1 ==> hex_value(s) < 16,
        s.len() <= 2 ==> hex_value(s) < 256,
        s.len() <= 3 ==> hex_value(s) < 4096,
        s.len() <= 4 ==> hex_value(s) < 65536,
    decreases s.len(),
{
    if s.len() > 0 {
        let head = s.drop_last();
        assert forall|i: int| 0 <= i < head.len() implies is_hex(#[trigger] head[i]) by {
            assert(head[i] == s[i]);
        }
        lemma_hex_value_bound(head);
        assert(is_hex(s.last()));
        assert(hex_digit_value(s.last()) < 16);
    }
}

/// A run of hexadecimal digits that is followed by the end of the text, or
/// by a character that is no hexadecimal digit, ends exactly there.
pub proof fn lemma_hex_end_run(s: Seq<char>, i: int, e: int)
    requires
        0 <= i <= e <= s.len(),
        all_hex(s.subrange(i, e)),
        e == s.len() || !is_hex(s[e]),
    ensures
        hex_end(s, i) == e,
    decreases e - i,
{
    if i < e {
        assert(s.subrange(i, e)[0] == s[i]);
        assert forall|k: int| 0 <= k < e - (i + 1) implies is_hex(
            #[trigger] s.subrange(i + 1, e)[k],
        ) by {
            assert(s.subrange(i + 1, e)[k] == s.subrange(i, e)[k + 1]);
        }
        lemma_hex_end_run(s, i + 1, e);
    }
}

/// Between a start and the end of its run, a text holds hexadecimal digits
/// only.
pub proof fn lemma_hex_end_bounds(s: Seq<char>, i: int)
    requires
        0 <= i <= s.len(),
    ensures
        i <= hex_end(s, i) <= s.len(),
        all_hex(s.subrange(i, hex_end(s, i))),
        hex_end(s, i) == s.len() || !is_hex(s[hex_end(s, i)]),
    decreases s.len() - i,
{
    if i < s.len() && is_hex(s[i]) {
        lemma_hex_end_bounds(s, i + 1);
        let e = hex_end(s, i);
        assert forall|k: int| 0 <= k < e - i implies is_hex(#[trigger] s.subrange(i, e)[k]) by {
            if k > 0 {
                assert(s.subrange(i, e)[k] == s.subrange(i + 1, e)[k - 1]);
            }
        }
    }
}

/// The number that the hexadecimal digit `c` stands for, or nothing when `c`
/// is no hexadecimal digit.
pub fn hex_digit_of(c: char) -> (d: Option<u32>)
    ensures
        d is Some <==> is_hex(c),
        d matches Some(v) ==> v == hex_digit_value(c) && v < 16,
{
    if c >= '0' && c <= '9' {
        Some(c as u32 - '0' as u32)
    } else if c >= 'a' && c <= 'f' {
        Some(c as u32 - 'a' as u32 + 10)
    } else if c >= 'A' && c <= 'F' {
        Some(c as u32 - 'A' as u32 + 10)
    } else {
        None
    }
}

/// The text of one lower-case hexadecimal digit.
fn hex_text(d: u32) -> (text: &'static str)
    requires
        d < 16,
    ensures
        text@ == seq![hex_char(d as nat)],
{
    proof {
        reveal_strlit("0");
        reveal_strlit("1");
        reveal_strlit("2");
        reveal_strlit("3");
        reveal_strlit("4");
        reveal_strlit("5");
        reveal_strlit("6");
        reveal_strlit("7");
        reveal_strlit("8");
        reveal_strlit("9");
        reveal_strlit("a");
        reveal_strlit("b");
        reveal_strlit("c");
        reveal_strlit("d");
        reveal_strlit("e");
        reveal_strlit("f");
    }
    let text = if d == 0 {
        "0"
    } else if d == 1 {
        "1"
    } else if d == 2 {
        "2"
    } else if d == 3 {
        "3"
    } else if d == 4 {
        "4"
    } else if d == 5 {
        "5"
    } else if d == 6 {
        "6"
    } else if d == 7 {
        "7"
    } else if d == 8 {
        "8"
    } else if d == 9 {
        "9"
    } else if d == 10 {
        "a"
    } else if d == 11 {
        "b"
    } else if d == 12 {
        "c"
    } else if d == 13 {
        "d"
    } else if d == 14 {
        "e"
    } else {
        "f"
    };
    assert(text@ =~= seq![hex_char(d as nat)]);
    text
}

/// Writes the lower-case hexadecimal digits of `n` at the end of `out`.
pub fn push_hex(out: &mut String, n: u32)
    ensures
        final(out)@ == old(out)@ + hex_digits(n as nat),
    decreases n,
{
    if n >= 16 {
        push_hex(out, n / 16);
    }
    out.append(hex_text(n % 16));
    proof {
        assert(out@ =~= old(out)@ + hex_digits(n as nat));
    }
}

/// Reads the hexadecimal digits `chars[from..to]`, at most four of them, as
/// a number.
pub fn read_hex(chars: &Vec<char>, from: usize, to: usize) -> (value: u16)
    requires
        from <= to <= chars.len(),
        to - from <= 4,
        all_hex(chars@.subrange(from as int, to as int)),
    ensures
        value == hex_value(chars@.subrange(from as int, to as int)),
{
    let ghost run = chars@.subrange(from as int, to as int);
    let mut acc: u32 = 0;
    let mut i: usize = from;
    proof {
        assert(run.subrange(0, 0) =~= Seq::<char>::empty());
    }
    while i < to
        invariant
            from <= i <= to <= chars.len(),
            to - from <= 4,
            run == chars@.subrange(from as int, to as int),
            all_hex(run),
            acc == hex_value(run.subrange(0, i - from)),
            acc < 65536,
        decreases to - i,
    {
        let ghost before = run.subrange(0, i - from);
        let ghost after = run.subrange(0, i - from + 1);
        proof {
            assert(after.drop_last() =~= before);
            assert(after.last() == chars@[i as int]);
            assert(run[i - from] == chars@[i as int]);
            assert forall|k: int| 0 <= k < after.len() implies is_hex(#[trigger] after[k]) by {
                assert(after[k] == run[k]);
            }
            lemma_hex_value_bound(after);
        }
        let digit = match hex_digit_of(chars[i]) {
            Some(d) => d,
            None => 0,
        };
        acc = acc * 16 + digit;
        i = i + 1;
    }
    proof {
        assert(run.subrange(0, to - from) =~= run);
    }
    acc as u16
}

} // verus!
