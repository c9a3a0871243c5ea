//! Pieces of text: decimal numbers, repeated strings and white space.

use vstd::prelude::*;

verus! {

/// The character of a digit below ten.
pub open spec fn digit(d: nat) -> char {
    ('0' as nat + d) as char
}

/// The decimal digits of `n`, without leading zeros.
pub open spec fn decimal(n: nat) -> Seq<char>
    decreases n,
{
    if n < 10 {
        seq![digit(n)]
    } else {
        decimal(n / 10).push(digit(n % 10))
    }
}

/// The decimal digits of `n`, with zeros in front up to `width` characters.
pub open spec fn padded(n: nat, width: nat) -> Seq<char> {
    let digits = decimal(n);
    if digits.len() < width {
        Seq::new((width - digits.len()) as nat, |i: int| '0') + digits
    } else {
        digits
    }
}

/// `n` copies of `s`, one after the other.
pub open spec fn repeated(s: Seq<char>, n: nat) -> Seq<char> {
    Seq::new(n, |i: int| s).flatten()
}

/// The characters with the Unicode property `White_Space`.
pub open spec fn is_white_space(c: char) -> bool {
    let n = c as nat;
    ||| 0x9 <= n <= 0xd
    ||| n == 0x20
    ||| n == 0x85
    ||| n == 0xa0
    ||| n == 0x1680
    ||| 0x2000 <= n <= 0x200a
    ||| n == 0x2028
    ||| n == 0x2029
    ||| n == 0x202f
    ||| n == 0x205f
    ||| n == 0x3000
}

/// Whether `s` holds nothing but white space.
pub open spec fn is_blank(s: Seq<char>) -> bool {
    forall|i: int| 0 <= i < s.len() ==> is_white_space(#[trigger] s[i])
}

/// Whether `r` is `s` without the white space at either end.
pub open spec fn is_trimmed(s: Seq<char>, r: Seq<char>) -> bool {
    &&& r.len() > 0 ==> !is_white_space(r.first()) && !is_white_space(r.last())
    &&& exists|i: int, j: int|
        0 <= i <= j <= s.len() && r == #[trigger] s.subrange(i, j) && is_blank(s.take(i))
            && is_blank(s.skip(j))
}

/// `String::push` of std appends one character.
pub assume_specification[ String::push ](s: &mut String, c: char)
    ensures
        final(s)@ == old(s)@.push(c),
;

/// `str::trim` of std drops the white space, as Unicode defines it, from either end.
pub assume_specification[ str::trim ](s: &str) -> (r: &str)
    ensures
        is_trimmed(s@, r@),
;

/// Writes `n` in decimal.
pub fn decimal_string(n: usize) -> (r: String)
    ensures
        r@ == decimal(n as nat),
    decreases n,
{
    let d: u8 = (n % 10) as u8;
    let c: char = (48 + d) as char;
    let mut out = if n < 10 {
        String::new()
    } else {
        decimal_string(n / 10)
    };
    out.push(c);
    assert(out@ =~= decimal(n as nat));
    out
}

/// Writes `s` `n` times.
pub fn repeat_string(s: &str, n: usize) -> (r: String)
    ensures
        r@ == repeated(s@, n as nat),
{
    let mut out = String::new();
    let mut i: usize = 0;
    assert(out@ =~= repeated(s@, 0));
    while i < n
        invariant
            i <= n,
            out@ == repeated(s@, i as nat),
        decreases n - i,
    {
        out.append(s);
        proof {
            let before = Seq::new(i as nat, |k: int| s@);
            assert(Seq::new((i + 1) as nat, |k: int| s@) =~= before.push(s@));
            before.lemma_flatten_push(s@);
        }
        i += 1;
    }
    out
}

/// Whether `text` holds a character that is not white space.
pub fn has_content(text: &str) -> (r: bool)
    ensures
        r == !is_blank(text@),
{
    let inner = text.trim();
    let r = !inner.is_empty();
    proof {
        let s = text@;
        let (i, j) = choose|i: int, j: int|
            0 <= i <= j <= s.len() && inner@ == #[trigger] s.subrange(i, j) && is_blank(s.take(i))
                && is_blank(s.skip(j));
        if r {
            assert(!is_white_space(s[i]));
        } else {
            assert(i == j);
            assert forall|k: int| 0 <= k < s.len() implies is_white_space(#[trigger] s[k]) by {
                if k < i {
                    assert(s.take(i)[k] == s[k]);
                } else {
                    assert(s.skip(j)[k - j] == s[k]);
                }
            }
        }
    }
    r
}

/// The last digit and the digits before it make up the number again.
proof fn lemma_decimal_parts(n: nat)
    ensures
        decimal(n).len() >= 1,
        decimal(n).last() == digit(n % 10),
        n >= 10 ==> decimal(n).drop_last() == decimal(n / 10),
        n < 10 ==> decimal(n).len() == 1,
        n >= 10 ==> decimal(n).len() >= 2,
    decreases n,
{
    if n >= 10 {
        lemma_decimal_parts(n / 10);
        assert(decimal(n).drop_last() =~= decimal(n / 10));
    }
}

/// No two numbers are written alike.
pub proof fn law_decimal_injective(a: nat, b: nat)
    requires
        decimal(a) == decimal(b),
    ensures
        a == b,
    decreases a,
{
    lemma_decimal_parts(a);
    lemma_decimal_parts(b);
    assert(a % 10 == b % 10) by {
        assert(digit(a % 10) as nat == 48 + a % 10);
        assert(digit(b % 10) as nat == 48 + b % 10);
    }
    if a >= 10 {
        law_decimal_injective(a / 10, b / 10);
    }
}

/// A number below a hundred fills two places, one below a thousand three, and one below
/// ten thousand four.
pub(crate) proof fn lemma_padded_len(n: nat, width: nat)
    requires
        width == 2 && n < 100 || width == 3 && n < 1_000 || width == 4 && n < 10_000,
    ensures
        padded(n, width).len() == width,
{
    reveal_with_fuel(decimal, 4);
}

/// The number that a row of decimal digits is read as.
pub open spec fn numeral_value(digits: Seq<char>) -> int
    decreases digits.len(),
{
    if digits.len() == 0 {
        0
    } else {
        10 * numeral_value(digits.drop_last()) + (digits.last() as int - '0' as int)
    }
}

/// Whether `s` is nothing but decimal digits.
pub open spec fn all_digits(s: Seq<char>) -> bool {
    forall|i: int| 0 <= i < s.len() ==> '0' <= #[trigger] s[i] <= '9'
}

/// A number is read back from its digits, which have no zero in front.
pub proof fn law_decimal_reads_back(n: nat)
    ensures
        numeral_value(decimal(n)) == n,
        all_digits(decimal(n)),
        decimal(n).len() >= 1,
        decimal(n)[0] == '0' ==> decimal(n) == seq!['0'],
    decreases n,
{
    reveal_with_fuel(numeral_value, 2);
    lemma_decimal_parts(n);
    if n >= 10 {
        law_decimal_reads_back(n / 10);
        assert(numeral_value(decimal(n)) == 10 * numeral_value(decimal(n / 10)) + n % 10);
        assert(decimal(n)[0] == decimal(n / 10)[0]);
        if decimal(n)[0] == '0' {
            assert(decimal(n / 10) == seq!['0']);
            assert(numeral_value(seq!['0']) == 0) by {
                assert(seq!['0'].drop_last() =~= Seq::<char>::empty());
            }
        }
    } else {
        assert(decimal(n).drop_last() =~= Seq::<char>::empty());
        assert(decimal(n) =~= seq![digit(n)]);
    }
}

/// Zeros in front do not change what a number is read as.
proof fn lemma_value_of_padding(k: nat, digits: Seq<char>)
    ensures
        numeral_value(Seq::new(k, |i: int| '0') + digits) == numeral_value(digits),
    decreases k + digits.len(),
{
    let zeros = Seq::new(k, |i: int| '0');
    if digits.len() > 0 {
        lemma_value_of_padding(k, digits.drop_last());
        assert((zeros + digits).drop_last() =~= zeros + digits.drop_last());
    } else if k > 0 {
        lemma_value_of_padding((k - 1) as nat, digits);
        assert((zeros + digits).drop_last() =~= Seq::new((k - 1) as nat, |i: int| '0') + digits);
        assert((zeros + digits).last() == '0');
    } else {
        assert(zeros + digits =~= digits);
    }
}

/// A padded number is read back too, fills its width, and is only longer where its digits
/// are more.
pub proof fn law_padded_reads_back(n: nat, width: nat)
    ensures
        numeral_value(padded(n, width)) == n,
        all_digits(padded(n, width)),
        padded(n, width).len() >= width,
        padded(n, width).len() > width ==> padded(n, width) == decimal(n),
{
    law_decimal_reads_back(n);
    if decimal(n).len() < width {
        lemma_value_of_padding((width - decimal(n).len()) as nat, decimal(n));
    }
}

/// What `decimal_string` writes is read back as the number that it was given.
pub proof fn law_decimal_string_reads_back(n: usize, r: String)
    requires
        call_ensures(decimal_string, (n,), r),
    ensures
        numeral_value(r@) == n,
        all_digits(r@),
        r@.len() >= 1,
        r@[0] == '0' ==> r@.len() == 1,
{
    law_decimal_reads_back(n as nat);
}

/// Copies add up: none is nothing, one is the string itself, and `a + b` copies are `a`
/// copies and `b` more.
pub proof fn law_repeated_adds_up(s: Seq<char>, a: nat, b: nat)
    ensures
        repeated(s, 0) == Seq::<char>::empty(),
        repeated(s, 1) == s,
        repeated(s, a + b) == repeated(s, a) + repeated(s, b),
{
    assert(repeated(s, 0) =~= Seq::<char>::empty());
    assert(Seq::new(1, |i: int| s) =~= seq![s]);
    seq![s].lemma_flatten_one_element();
    assert(Seq::new(a + b, |i: int| s) =~= Seq::new(a, |i: int| s) + Seq::new(b, |i: int| s));
    vstd::seq_lib::lemma_flatten_concat(Seq::new(a, |i: int| s), Seq::new(b, |i: int| s));
}

/// Copies of one character are that character all along.
pub proof fn law_repeated_character(c: char, n: nat)
    ensures
        repeated(seq![c], n) == Seq::new(n, |i: int| c),
    decreases n,
{
    if n == 0 {
        law_repeated_adds_up(seq![c], 0, 0);
        assert(repeated(seq![c], 0) =~= Seq::new(0, |i: int| c));
    } else {
        law_repeated_character(c, (n - 1) as nat);
        law_repeated_adds_up(seq![c], (n - 1) as nat, 1);
        assert(repeated(seq![c], n) =~= Seq::new(n, |i: int| c));
    }
}

/// What `repeat_string` writes for two counts is what it writes for their sum.
pub proof fn law_repeat_string_adds_up(
    s: &str,
    a: usize,
    b: usize,
    c: usize,
    ra: String,
    rb: String,
    rc: String,
)
    requires
        a + b == c,
        call_ensures(repeat_string, (s, a), ra),
        call_ensures(repeat_string, (s, b), rb),
        call_ensures(repeat_string, (s, c), rc),
    ensures
        rc@ == ra@ + rb@,
        a == 1 ==> ra@ == s@,
{
    law_repeated_adds_up(s@, a as nat, b as nat);
}

/// The white space is these 25 characters.
pub proof fn law_white_space_listed(c: char)
    ensures
        is_white_space(c) <==> seq![
            '\u{9}',
            '\u{a}',
            '\u{b}',
            '\u{c}',
            '\u{d}',
            ' ',
            '\u{85}',
            '\u{a0}',
            '\u{1680}',
            '\u{2000}',
            '\u{2001}',
            '\u{2002}',
            '\u{2003}',
            '\u{2004}',
            '\u{2005}',
            '\u{2006}',
            '\u{2007}',
            '\u{2008}',
            '\u{2009}',
            '\u{200a}',
            '\u{2028}',
            '\u{2029}',
            '\u{202f}',
            '\u{205f}',
            '\u{3000}',
        ].contains(c),
{
    let listed = seq![
        '\u{9}',
        '\u{a}',
        '\u{b}',
        '\u{c}',
        '\u{d}',
        ' ',
        '\u{85}',
        '\u{a0}',
        '\u{1680}',
        '\u{2000}',
        '\u{2001}',
        '\u{2002}',
        '\u{2003}',
        '\u{2004}',
        '\u{2005}',
        '\u{2006}',
        '\u{2007}',
        '\u{2008}',
        '\u{2009}',
        '\u{200a}',
        '\u{2028}',
        '\u{2029}',
        '\u{202f}',
        '\u{205f}',
        '\u{3000}',
    ];
    let n = c as int;
    if is_white_space(c) {
        let k = if n <= 0xd {
            n - 9
        } else if n == 0x20 {
            5
        } else if n == 0x85 {
            6
        } else if n == 0xa0 {
            7
        } else if n == 0x1680 {
            8
        } else if n <= 0x200a {
            n - 0x2000 + 9
        } else if n == 0x2028 {
            20
        } else if n == 0x2029 {
            21
        } else if n == 0x202f {
            22
        } else if n == 0x205f {
            23
        } else {
            24
        };
        assert(listed[k] == c);
    }
}

/// A text is blank where all its parts are: nothing is, one character is where it is
/// white space, and two texts together are where both are.
pub proof fn law_blank_by_parts(a: Seq<char>, b: Seq<char>, c: char)
    ensures
        is_blank(Seq::empty()),
        is_blank(seq![c]) <==> is_white_space(c),
        is_blank(a + b) <==> is_blank(a) && is_blank(b),
{
    if is_blank(seq![c]) {
        assert(is_white_space(seq![c][0]));
    }
    if is_blank(a + b) {
        assert forall|i: int| 0 <= i < a.len() implies is_white_space(#[trigger] a[i]) by {
            assert((a + b)[i] == a[i]);
        }
        assert forall|i: int| 0 <= i < b.len() implies is_white_space(#[trigger] b[i]) by {
            assert((a + b)[i + a.len()] == b[i]);
        }
    }
}

/// `has_content` finds content wherever a character that is not white space stands, and
/// nowhere else.
pub proof fn law_content_is_found(text: &str, r: bool)
    requires
        call_ensures(has_content, (text,), r),
    ensures
        r <==> exists|i: int| 0 <= i < text@.len() && !is_white_space(#[trigger] text@[i]),
{
}

} // verus!
