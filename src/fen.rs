use vstd::prelude::*;

verus! {

/// Unicode white space, as FEN fields are separated.
pub open spec fn is_ws(c: char) -> bool {
    let x = c as u32;
    x == 0x20 || (0x09 <= x <= 0x0d) || x == 0x85 || x == 0xa0 || x == 0x1680 || (0x2000 <= x
        <= 0x200a) || x == 0x2028 || x == 0x2029 || x == 0x202f || x == 0x205f || x == 0x3000
}

/// An ASCII decimal digit.
pub open spec fn is_digit(c: char) -> bool {
    '0' <= c <= '9'
}

/// The value of an ASCII decimal digit.
pub open spec fn digit_value(c: char) -> int {
    c as int - '0' as int
}

/// `acc`, with the pending field `cur` added when it is not empty.
pub open spec fn flush(cur: Seq<char>, acc: Seq<Seq<char>>) -> Seq<Seq<char>> {
    if cur.len() > 0 {
        acc.push(cur)
    } else {
        acc
    }
}

/// Splits `rest` at runs of white space, continuing a split that has so far
/// produced the fields `acc` and the pending field `cur`.
pub open spec fn split_rest(rest: Seq<char>, cur: Seq<char>, acc: Seq<Seq<char>>) -> Seq<
    Seq<char>,
>
    decreases rest.len(),
{
    if rest.len() == 0 {
        flush(cur, acc)
    } else if is_ws(rest[0]) {
        split_rest(rest.drop_first(), Seq::empty(), flush(cur, acc))
    } else {
        split_rest(rest.drop_first(), cur.push(rest[0]), acc)
    }
}

/// The non-empty runs of non-white-space characters of `s`, in order.
pub open spec fn fields(s: Seq<char>) -> Seq<Seq<char>> {
    split_rest(s, Seq::empty(), Seq::empty())
}

/// The value of a string of decimal digits.
pub open spec fn digits_value(d: Seq<char>) -> int
    decreases d.len(),
{
    if d.len() == 0 {
        0
    } else {
        digits_value(d.drop_last()) * 10 + digit_value(d.last())
    }
}

/// The digits of an unsigned decimal: the text with one leading `+` removed.
pub open spec fn unsigned_digits(f: Seq<char>) -> Seq<char> {
    if f.len() > 0 && f[0] == '+' {
        f.drop_first()
    } else {
        f
    }
}

/// The `u32` written in `f` in decimal, with an optional leading `+`; `None`
/// when `f` is not such a number or the value does not fit.
pub open spec fn parse_u32(f: Seq<char>) -> Option<u32> {
    let d = unsigned_digits(f);
    if d.len() > 0 && (forall|i: int| 0 <= i < d.len() ==> is_digit(#[trigger] d[i]))
        && digits_value(d) <= u32::MAX {
        Some(digits_value(d) as u32)
    } else {
        None
    }
}

/// Whether `c` is Unicode white space.
pub fn is_whitespace(c: char) -> (r: bool)
    ensures
        r == is_ws(c),
{
    let x = c as u32;
    x == 0x20 || (0x09 <= x && x <= 0x0d) || x == 0x85 || x == 0xa0 || x == 0x1680 || (0x2000
        <= x && x <= 0x200a) || x == 0x2028 || x == 0x2029 || x == 0x202f || x == 0x205f || x
        == 0x3000
}

/// The fields of `s`: its runs of non-white-space characters.
pub fn split_fields(s: &str) -> (r: Vec<Vec<char>>)
    ensures
        r@.len() == fields(s@).len(),
        forall|j: int| 0 <= j < r@.len() ==> (#[trigger] r@[j])@ == fields(s@)[j],
{
    let n = s.unicode_len();
    let mut out: Vec<Vec<char>> = Vec::new();
    let mut cur: Vec<char> = Vec::new();
    let ghost mut acc: Seq<Seq<char>> = Seq::empty();
    let mut i: usize = 0;
    assert(s@.subrange(0, n as int) =~= s@);
    assert(cur@ =~= Seq::<char>::empty());
    while i < n
        invariant
            n == s@.len(),
            i <= n,
            split_rest(s@.subrange(i as int, n as int), cur@, acc) == fields(s@),
            out@.len() == acc.len(),
            forall|j: int| 0 <= j < out@.len() ==> (#[trigger] out@[j])@ == acc[j],
        decreases n - i,
    {
        let c = s.get_char(i);
        let ghost rest = s@.subrange(i as int, n as int);
        assert(rest.drop_first() =~= s@.subrange(i + 1, n as int));
        assert(rest[0] == c);
        if is_whitespace(c) {
            if cur.len() > 0 {
                proof {
                    acc = acc.push(cur@);
                }
                out.push(cur);
                cur = Vec::new();
            }
            assert(cur@ =~= Seq::<char>::empty());
        } else {
            cur.push(c);
        }
        i = i + 1;
    }
    assert(s@.subrange(n as int, n as int) =~= Seq::<char>::empty());
    if cur.len() > 0 {
        proof {
            acc = acc.push(cur@);
        }
        out.push(cur);
    }
    out
}

/// The `u32` written in `f` in decimal, with an optional leading `+`; `None`
/// when `f` is not such a number or the value does not fit.
pub fn parse_number(f: &Vec<char>) -> (r: Option<u32>)
    ensures
        r == parse_u32(f@),
{
    let mut start: usize = 0;
    if f.len() > 0 && f[0] == '+' {
        start = 1;
    }
    let ghost d = unsigned_digits(f@);
    assert(d =~= f@.subrange(start as int, f@.len() as int));
    if start >= f.len() {
        return None;
    }
    let mut v: u32 = 0;
    let mut over = false;
    let mut i: usize = start;
    while i < f.len()
        invariant
            start <= i <= f@.len(),
            d =~= f@.subrange(start as int, f@.len() as int),
            d == unsigned_digits(f@),
            forall|j: int| 0 <= j < i - start ==> is_digit(#[trigger] d[j]),
            !over ==> v == digits_value(d.subrange(0, i - start)),
            over ==> digits_value(d.subrange(0, i - start)) > u32::MAX,
        decreases f@.len() - i,
    {
        let c = f[i];
        let ghost pre = d.subrange(0, i - start);
        let ghost next = d.subrange(0, i + 1 - start);
        assert(next.drop_last() =~= pre);
        assert(next.last() == c);
        if !('0' <= c && c <= '9') {
            assert(d[i - start] == c);
            assert(!is_digit(d[i - start]));
            return None;
        }
        let dv: u32 = (c as u32) - ('0' as u32);
        if !over {
            if v > (u32::MAX - dv) / 10 {
                assert(v * 10 + dv > u32::MAX) by (nonlinear_arith)
                    requires
                        v > (u32::MAX - dv) / 10,
                        dv <= 9,
                ;
                over = true;
            } else {
                v = v * 10 + dv;
            }
        }
        i = i + 1;
    }
    assert(d.subrange(0, d.len() as int) =~= d);
    if over {
        None
    } else {
        Some(v)
    }
}

} // verus!
