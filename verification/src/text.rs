//! Text building blocks: decimal numbers and separated lists.
use vstd::prelude::*;
use vstd::string::*;

verus! {

/// The character that stands for the decimal digit `d`.
pub open spec fn digit_char(d: nat) -> char {
    if d == 0 {
        '0'
    } else if d == 1 {
        '1'
    } else if d == 2 {
        '2'
    } else if d == 3 {
        '3'
    } else if d == 4 {
        '4'
    } else if d == 5 {
        '5'
    } else if d == 6 {
        '6'
    } else if d == 7 {
        '7'
    } else if d == 8 {
        '8'
    } else {
        '9'
    }
}

/// The decimal numeral of `n`: most significant digit first, no leading zeros.
pub open spec fn dec(n: nat) -> Seq<char>
    decreases n,
{
    if n < 10 {
        seq![digit_char(n)]
    } else {
        dec(n / 10).push(digit_char(n % 10))
    }
}

/// The parts one after another, with `sep` between neighbours.
pub open spec fn joined(parts: Seq<Seq<char>>, sep: Seq<char>) -> Seq<char>
    decreases parts.len(),
{
    if parts.len() == 0 {
        Seq::empty()
    } else {
        joined(parts.drop_last(), sep) + (if parts.len() > 1 {
            sep
        } else {
            Seq::empty()
        }) + parts.last()
    }
}

fn digit_str(d: u64) -> (r: &'static str)
    requires
        d < 10,
    ensures
        r@ == seq![digit_char(d as nat)],
{
    proof {
        reveal_strlit("0");
        reveal_strlit("1");
        reveal_strlit("2");
        reveal_strlit("3");
        reveal_strlit("4");
        reveal_strlit("5");
        reveal_strlit("6");
        reveal_strlit("7");
        reveal_strlit("8");
        reveal_strlit("9");
    }
    match d {
        0 => "0",
        1 => "1",
        2 => "2",
        3 => "3",
        4 => "4",
        5 => "5",
        6 => "6",
        7 => "7",
        8 => "8",
        _ => "9",
    }
}

/// Appends the decimal numeral of `n` to `out`.
pub fn push_dec(out: &mut String, n: u64)
    ensures
        final(out)@ == old(out)@ + dec(n as nat),
    decreases n,
{
    if n >= 10 {
        push_dec(out, n / 10);
    }
    out.append(digit_str(n % 10));
    assert(out@ =~= old(out)@ + dec(n as nat));
}

/// The decimal numeral of `n`.
pub fn dec_string(n: u64) -> (r: String)
    ensures
        r@ == dec(n as nat),
{
    let mut out = String::new();
    push_dec(&mut out, n);
    assert(out@ =~= dec(n as nat));
    out
}

/// `parts` written one after another with `sep` between neighbours.
pub fn join(parts: &Vec<String>, sep: &str) -> (r: String)
    ensures
        r@ == joined(parts.deep_view(), sep@),
{
    let ghost texts = parts.deep_view();
    let mut out = String::new();
    let mut i: usize = 0;
    assert(texts.take(0) =~= Seq::empty());
    while i < parts.len()
        invariant
            i <= parts.len(),
            texts == parts.deep_view(),
            out@ == joined(texts.take(i as int), sep@),
        decreases parts.len() - i,
    {
        assert(texts.take(i + 1).drop_last() =~= texts.take(i as int));
        if i > 0 {
            out.append(sep);
        }
        out.append(parts[i].as_str());
        assert(out@ =~= joined(texts.take(i + 1), sep@));
        i += 1;
    }
    assert(texts.take(i as int) =~= texts);
    out
}

/// A list of arguments as owned strings.
pub fn strings(parts: &[&str]) -> (r: Vec<String>)
    ensures
        r.deep_view() == parts.deep_view(),
{
    let mut out: Vec<String> = Vec::new();
    let mut i: usize = 0;
    while i < parts.len()
        invariant
            i <= parts.len(),
            out.len() == i,
            forall|k: int| 0 <= k < i ==> out@[k]@ == parts@[k]@,
        decreases parts.len() - i,
    {
        out.push(parts[i].to_string());
        i += 1;
    }
    assert(out.deep_view() =~= parts.deep_view());
    out
}

/// The bytes of a text that is all ASCII.
pub open spec fn ascii_bytes(text: Seq<char>) -> Seq<u8> {
    Seq::new(text.len(), |i: int| text[i] as u8)
}

/// Whether the bytes of `data` from `from` on begin with `text`.
pub fn ascii_at(data: &[u8], from: usize, text: &str) -> (r: bool)
    requires
        text.is_ascii(),
        from <= data@.len(),
    ensures
        r == (from + text@.len() <= data@.len() && data@.subrange(
            from as int,
            from + text@.len(),
        ) == ascii_bytes(text@)),
{
    let n: usize = text.unicode_len();
    if data.len() - from < n {
        return false;
    }
    let mut i: usize = 0;
    while i < n
        invariant
            i <= n,
            n == text@.len(),
            text.is_ascii(),
            from + n <= data.len(),
            forall|k: int| 0 <= k < i ==> data@[from + k] == ascii_bytes(text@)[k],
        decreases n - i,
    {
        if data[from + i] != text.get_ascii(i) {
            proof {
                assert(data@.subrange(from as int, from + n)[i as int] != ascii_bytes(
                    text@,
                )[i as int]);
            }
            return false;
        }
        i += 1;
    }
    assert(data@.subrange(from as int, from + n) =~= ascii_bytes(text@));
    true
}

/// Two numerals are the same text only if they stand for the same number.
pub proof fn dec_is_injective(a: nat, b: nat)
    ensures
        dec(a) == dec(b) ==> a == b,
    decreases a,
{
    if dec(a) == dec(b) {
        assert(dec(a).last() == dec(b).last());
        if a >= 10 && b >= 10 {
            assert(dec(a).drop_last() =~= dec(a / 10));
            assert(dec(b).drop_last() =~= dec(b / 10));
            dec_is_injective(a / 10, b / 10);
        } else if a >= 10 {
            dec_is_nonempty(a / 10);
            assert(dec(a).len() > 1);
        } else if b >= 10 {
            dec_is_nonempty(b / 10);
            assert(dec(b).len() > 1);
        }
    }
}

proof fn dec_is_nonempty(n: nat)
    ensures
        dec(n).len() > 0,
    decreases n,
{
    if n >= 10 {
        dec_is_nonempty(n / 10);
    }
}

/// The number that a row of decimal digits stands for.
pub open spec fn numeral_value(digits: Seq<char>) -> int
    decreases digits.len(),
{
    if digits.len() == 0 {
        0
    } else {
        numeral_value(digits.drop_last()) * 10 + (digits.last() as int - '0' as int)
    }
}

/// A numeral is made of decimal digits, does not begin with a zero unless it is the numeral of
/// zero, and reads back as the number that it was made of.
pub proof fn a_numeral_reads_back(n: nat)
    ensures
        numeral_value(dec(n)) == n,
        dec(n).len() > 0,
        forall|i: int| 0 <= i < dec(n).len() ==> '0' <= #[trigger] dec(n)[i] <= '9',
        dec(n)[0] == '0' ==> n == 0 && dec(n).len() == 1,
    decreases n,
{
    if n < 10 {
        reveal_with_fuel(numeral_value, 2);
        assert(dec(n).drop_last() =~= Seq::<char>::empty());
    } else {
        a_numeral_reads_back(n / 10);
        assert(dec(n).drop_last() =~= dec(n / 10));
    }
}

/// Joining no parts gives no text, joining one gives that part, and each further part is preceded
/// by the separator.
pub proof fn joining_adds_one_part_after_another(
    parts: Seq<Seq<char>>,
    part: Seq<char>,
    sep: Seq<char>,
)
    ensures
        joined(Seq::empty(), sep) == Seq::<char>::empty(),
        joined(seq![part], sep) == part,
        parts.len() > 0 ==> joined(parts.push(part), sep) == joined(parts, sep) + sep + part,
{
    reveal_with_fuel(joined, 2);
    assert(joined(seq![part], sep) =~= part);
    assert(parts.push(part).drop_last() =~= parts);
}

} // verus!
