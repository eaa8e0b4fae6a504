//! Text as sequences of characters: equality, code-point order, and the
//! decimal and hexadecimal forms of numbers.

use vstd::prelude::*;
use vstd::string::*;

verus! {

/// The decimal digit with value `d`, for `d < 10`.
pub open spec fn digit_char(d: nat) -> char {
    if d == 0 {
        '0'
    } else if d == 1 {
        '1'
    } else if d == 2 {
        '2'
    } else if d == 3 {
        '3'
    } else if d == 4 {
        '4'
    } else if d == 5 {
        '5'
    } else if d == 6 {
        '6'
    } else if d == 7 {
        '7'
    } else if d == 8 {
        '8'
    } else {
        '9'
    }
}

/// The lower-case hexadecimal digit with value `d`, for `d < 16`.
pub open spec fn hex_char(d: nat) -> char {
    if d < 10 {
        digit_char(d)
    } else if d == 10 {
        'a'
    } else if d == 11 {
        'b'
    } else if d == 12 {
        'c'
    } else if d == 13 {
        'd'
    } else if d == 14 {
        'e'
    } else {
        'f'
    }
}

/// The decimal text of `n`, without leading zeros.
pub open spec fn decimal(n: nat) -> Seq<char>
    decreases n,
{
    if n < 10 {
        seq![digit_char(n)]
    } else {
        decimal(n / 10).push(digit_char(n % 10))
    }
}

/// The decimal text of `n`, with a minus sign in front of a negative number.
pub open spec fn signed_decimal(n: int) -> Seq<char> {
    if n < 0 {
        seq!['-'] + decimal((-n) as nat)
    } else {
        decimal(n as nat)
    }
}

/// The last `width` lower-case hexadecimal digits of `n`, most significant first.
pub open spec fn hex_digits(n: nat, width: nat) -> Seq<char>
    decreases width,
{
    if width == 0 {
        Seq::empty()
    } else {
        hex_digits(n / 16, (width - 1) as nat).push(hex_char(n % 16))
    }
}

/// Two lower-case hexadecimal digits for each byte, in order.
pub open spec fn hex_text(bytes: Seq<u8>) -> Seq<char>
    decreases bytes.len(),
{
    if bytes.len() == 0 {
        Seq::empty()
    } else {
        hex_text(bytes.drop_last()) + hex_digits(bytes.last() as nat, 2)
    }
}

/// The hyphenated form of a 128-bit identifier: 32 hexadecimal digits in
/// groups of 8, 4, 4, 4 and 12.
pub open spec fn uuid_text(id: u128) -> Seq<char> {
    let digits = hex_digits(id as nat, 32);
    digits.subrange(0, 8) + seq!['-'] + digits.subrange(8, 12) + seq!['-'] + digits.subrange(12, 16)
        + seq!['-'] + digits.subrange(16, 20) + seq!['-'] + digits.subrange(20, 32)
}

/// Code-point order: `a` comes strictly before `b`.
pub open spec fn text_before(a: Seq<char>, b: Seq<char>) -> bool
    decreases a.len(),
{
    if b.len() == 0 {
        false
    } else if a.len() == 0 {
        true
    } else if a[0] != b[0] {
        a[0] < b[0]
    } else {
        text_before(a.drop_first(), b.drop_first())
    }
}

/// Code-point order is irreflexive.
pub proof fn lemma_text_before_irreflexive(a: Seq<char>)
    ensures
        !text_before(a, a),
    decreases a.len(),
{
    if a.len() > 0 {
        lemma_text_before_irreflexive(a.drop_first());
    }
}

/// Code-point order is asymmetric.
pub proof fn lemma_text_before_asymmetric(a: Seq<char>, b: Seq<char>)
    requires
        text_before(a, b),
    ensures
        !text_before(b, a),
    decreases a.len(),
{
    if a.len() > 0 && b.len() > 0 && a[0] == b[0] {
        lemma_text_before_asymmetric(a.drop_first(), b.drop_first());
    }
}

/// Code-point order is transitive.
pub proof fn lemma_text_before_transitive(a: Seq<char>, b: Seq<char>, c: Seq<char>)
    requires
        text_before(a, b),
        text_before(b, c),
    ensures
        text_before(a, c),
    decreases a.len(),
{
    if a.len() > 0 && a[0] == b[0] && b[0] == c[0] {
        lemma_text_before_transitive(a.drop_first(), b.drop_first(), c.drop_first());
    }
}

/// Code-point order is total on distinct texts.
pub proof fn lemma_text_before_total(a: Seq<char>, b: Seq<char>)
    ensures
        a == b || text_before(a, b) || text_before(b, a),
    decreases a.len(),
{
    if a.len() == 0 || b.len() == 0 {
        if a.len() == b.len() {
            assert(a =~= b);
        }
    } else if a[0] == b[0] {
        lemma_text_before_total(a.drop_first(), b.drop_first());
        if a.drop_first() == b.drop_first() {
            assert(a =~= seq![a[0]] + a.drop_first());
            assert(b =~= seq![b[0]] + b.drop_first());
        }
    }
}

/// A longer common prefix can be taken off both sides of a comparison.
proof fn lemma_text_before_skip(a: Seq<char>, b: Seq<char>, n: int)
    requires
        0 <= n <= a.len(),
        n <= b.len(),
        a.subrange(0, n) == b.subrange(0, n),
    ensures
        text_before(a, b) == text_before(
            a.subrange(n, a.len() as int),
            b.subrange(n, b.len() as int),
        ),
    decreases n,
{
    if n == 0 {
        assert(a.subrange(0, a.len() as int) =~= a);
        assert(b.subrange(0, b.len() as int) =~= b);
    } else {
        assert(a[0] == a.subrange(0, n)[0]);
        assert(b[0] == b.subrange(0, n)[0]);
        let a1 = a.drop_first();
        let b1 = b.drop_first();
        assert(a1.subrange(0, n - 1) =~= a.subrange(0, n).drop_first());
        assert(b1.subrange(0, n - 1) =~= b.subrange(0, n).drop_first());
        lemma_text_before_skip(a1, b1, n - 1);
        assert(a1.subrange(n - 1, a1.len() as int) =~= a.subrange(n, a.len() as int));
        assert(b1.subrange(n - 1, b1.len() as int) =~= b.subrange(n, b.len() as int));
    }
}

/// The characters of `s`, in order.
pub fn chars_of(s: &str) -> (r: Vec<char>)
    ensures
        r@ == s@,
{
    let mut out: Vec<char> = Vec::new();
    for c in it: s.chars()
        invariant
            it.seq() == s@,
            out@ == s@.subrange(0, it.index()),
    {
        out.push(c);
        assert(out@ =~= s@.subrange(0, it.index() + 1));
    }
    assert(out@ =~= s@);
    out
}

/// Whether two texts hold the same characters.
pub fn text_eq(a: &str, b: &str) -> (r: bool)
    ensures
        r == (a@ == b@),
{
    let x: Vec<char> = chars_of(a);
    let y: Vec<char> = chars_of(b);
    if x.len() != y.len() {
        return false;
    }
    let mut i: usize = 0;
    while i < x.len()
        invariant
            x.len() == y.len(),
            x@ == a@,
            y@ == b@,
            i <= x.len(),
            forall|j: int| 0 <= j < i ==> a@[j] == b@[j],
        decreases x.len() - i,
    {
        if x[i] != y[i] {
            return false;
        }
        i = i + 1;
    }
    assert(a@ =~= b@);
    true
}

/// Whether `a` comes strictly before `b` in code-point order.
pub fn text_less(a: &str, b: &str) -> (r: bool)
    ensures
        r == text_before(a@, b@),
{
    let x: Vec<char> = chars_of(a);
    let y: Vec<char> = chars_of(b);
    let mut i: usize = 0;
    while i < x.len() && i < y.len()
        invariant
            x@ == a@,
            y@ == b@,
            i <= x.len(),
            i <= y.len(),
            a@.subrange(0, i as int) == b@.subrange(0, i as int),
        decreases x.len() - i,
    {
        if x[i] != y[i] {
            proof {
                lemma_text_before_skip(a@, b@, i as int);
            }
            return x[i] < y[i];
        }
        assert(a@.subrange(0, i + 1) =~= a@.subrange(0, i as int).push(a@[i as int]));
        assert(b@.subrange(0, i + 1) =~= b@.subrange(0, i as int).push(b@[i as int]));
        i = i + 1;
    }
    proof {
        lemma_text_before_skip(a@, b@, i as int);
    }
    i < y.len()
}

/// The decimal digit with value `d`.
fn digit(d: u64) -> (r: &'static str)
    requires
        d < 10,
    ensures
        r@ == seq![digit_char(d as nat)],
{
    proof {
        reveal_strlit("0");
        reveal_strlit("1");
        reveal_strlit("2");
        reveal_strlit("3");
        reveal_strlit("4");
        reveal_strlit("5");
        reveal_strlit("6");
        reveal_strlit("7");
        reveal_strlit("8");
        reveal_strlit("9");
        assert("0"@ =~= seq!['0']);
        assert("1"@ =~= seq!['1']);
        assert("2"@ =~= seq!['2']);
        assert("3"@ =~= seq!['3']);
        assert("4"@ =~= seq!['4']);
        assert("5"@ =~= seq!['5']);
        assert("6"@ =~= seq!['6']);
        assert("7"@ =~= seq!['7']);
        assert("8"@ =~= seq!['8']);
        assert("9"@ =~= seq!['9']);
    }
    if d == 0 {
        "0"
    } else if d == 1 {
        "1"
    } else if d == 2 {
        "2"
    } else if d == 3 {
        "3"
    } else if d == 4 {
        "4"
    } else if d == 5 {
        "5"
    } else if d == 6 {
        "6"
    } else if d == 7 {
        "7"
    } else if d == 8 {
        "8"
    } else {
        "9"
    }
}

/// The decimal text of `n`.
pub fn u64_text(n: u64) -> (r: String)
    ensures
        r@ == decimal(n as nat),
    decreases n,
{
    if n < 10 {
        let mut out: String = String::new();
        out.append(digit(n));
        assert(out@ =~= seq![digit_char(n as nat)]);
        out
    } else {
        let mut out: String = u64_text(n / 10);
        out.append(digit(n % 10));
        assert(out@ =~= decimal(n as nat / 10).push(digit_char(n as nat % 10)));
        out
    }
}

/// The decimal text of `n`, with its sign.
pub fn i64_text(n: i64) -> (r: String)
    ensures
        r@ == signed_decimal(n as int),
{
    if n < 0 {
        let magnitude: u64 = (-(n as i128)) as u64;
        let mut out: String = "-".to_owned();
        proof {
            reveal_strlit("-");
            assert("-"@ =~= seq!['-']);
        }
        out.append(u64_text(magnitude).as_str());
        out
    } else {
        u64_text(n as u64)
    }
}

/// The concatenation of two texts.
pub fn join(a: &str, b: &str) -> (r: String)
    ensures
        r@ == a@ + b@,
{
    let mut out: String = a.to_owned();
    out.append(b);
    out
}

/// Hexadecimal texts of the same width differ when their numbers differ.
proof fn lemma_hex_digits_injective(a: nat, b: nat, width: nat)
    requires
        hex_digits(a, width) == hex_digits(b, width),
        a < pow16(width),
        b < pow16(width),
    ensures
        a == b,
    decreases width,
{
    if width > 0 {
        let x = hex_digits(a, width);
        let y = hex_digits(b, width);
        assert(x.last() == hex_char(a % 16));
        assert(y.last() == hex_char(b % 16));
        assert(x.drop_last() =~= hex_digits(a / 16, (width - 1) as nat));
        assert(y.drop_last() =~= hex_digits(b / 16, (width - 1) as nat));
        assert(a % 16 == b % 16);
        assert(a / 16 < pow16((width - 1) as nat));
        assert(b / 16 < pow16((width - 1) as nat));
        lemma_hex_digits_injective(a / 16, b / 16, (width - 1) as nat);
    }
}

/// The `n`-th power of sixteen.
spec fn pow16(n: nat) -> nat
    decreases n,
{
    if n == 0 {
        1
    } else {
        16 * pow16((n - 1) as nat)
    }
}

/// Hexadecimal texts are as long as they are wide.
pub proof fn lemma_hex_digits_len(n: nat, width: nat)
    ensures
        hex_digits(n, width).len() == width,
    decreases width,
{
    if width > 0 {
        lemma_hex_digits_len(n / 16, (width - 1) as nat);
    }
}

proof fn lemma_pow16_add(a: nat, b: nat)
    ensures
        pow16(a + b) == pow16(a) * pow16(b),
    decreases a,
{
    if a == 0 {
        assert(pow16(0) == 1);
    } else {
        lemma_pow16_add((a - 1) as nat, b);
        assert((a + b - 1) as nat == (a - 1) as nat + b);
        assert(16 * (pow16((a - 1) as nat) * pow16(b)) == (16 * pow16((a - 1) as nat)) * pow16(b))
            by (nonlinear_arith);
    }
}

/// The hyphenated form tells identifiers apart.
pub proof fn uuid_text_is_injective(a: u128, b: u128)
    requires
        uuid_text(a) == uuid_text(b),
    ensures
        a == b,
{
    let x = hex_digits(a as nat, 32);
    let y = hex_digits(b as nat, 32);
    lemma_hex_digits_len(a as nat, 32);
    lemma_hex_digits_len(b as nat, 32);
    let s = uuid_text(a);
    let t = uuid_text(b);
    assert forall|i: int| 0 <= i < 32 implies x[i] == y[i] by {
        let k = if i < 8 {
            i
        } else if i < 12 {
            i + 1
        } else if i < 16 {
            i + 2
        } else if i < 20 {
            i + 3
        } else {
            i + 4
        };
        assert(s[k] == x[i]);
        assert(t[k] == y[i]);
    }
    assert(x =~= y);
    reveal_with_fuel(pow16, 5);
    assert(pow16(4) == 65536);
    lemma_pow16_add(4, 4);
    lemma_pow16_add(8, 8);
    lemma_pow16_add(16, 16);
    assert(pow16(32) == 0x1_0000_0000_0000_0000_0000_0000_0000_0000) by (nonlinear_arith)
        requires
            pow16(4) == 65536,
            pow16(8) == pow16(4) * pow16(4),
            pow16(16) == pow16(8) * pow16(8),
            pow16(32) == pow16(16) * pow16(16),
    ;
    lemma_hex_digits_injective(a as nat, b as nat, 32);
}

/// A decimal digit.
pub open spec fn is_digit(c: char) -> bool {
    '0' <= c <= '9'
}

/// The text does not go on with a digit.
pub open spec fn no_digit_first(text: Seq<char>) -> bool {
    text.len() == 0 || !is_digit(text[0])
}

proof fn lemma_decimal_digits(n: nat)
    ensures
        decimal(n).len() > 0,
        forall|i: int| 0 <= i < decimal(n).len() ==> is_digit(#[trigger] decimal(n)[i]),
    decreases n,
{
    if n >= 10 {
        lemma_decimal_digits(n / 10);
    }
}

proof fn lemma_decimal_injective(a: nat, b: nat)
    requires
        decimal(a) == decimal(b),
    ensures
        a == b,
    decreases a,
{
    lemma_decimal_digits(a);
    lemma_decimal_digits(b);
    if a >= 10 {
        lemma_decimal_digits(a / 10);
    }
    if b >= 10 {
        lemma_decimal_digits(b / 10);
    }
    assert(decimal(a).last() == digit_char(a % 10));
    assert(decimal(b).last() == digit_char(b % 10));
    if a >= 10 && b >= 10 {
        assert(decimal(a).drop_last() =~= decimal(a / 10));
        assert(decimal(b).drop_last() =~= decimal(b / 10));
        lemma_decimal_injective(a / 10, b / 10);
    }
}

/// A number in front of anything but a digit tells where it ends.
pub proof fn numbers_delimit_themselves(a: int, b: int, x: Seq<char>, y: Seq<char>)
    requires
        signed_decimal(a) + x == signed_decimal(b) + y,
        no_digit_first(x),
        no_digit_first(y),
    ensures
        a == b,
        x == y,
{
    let s = signed_decimal(a) + x;
    let t = signed_decimal(b) + y;
    let m = if a < 0 { (-a) as nat } else { a as nat };
    let n = if b < 0 { (-b) as nat } else { b as nat };
    lemma_decimal_digits(m);
    lemma_decimal_digits(n);
    assert(s[0] == signed_decimal(a)[0]);
    assert(t[0] == signed_decimal(b)[0]);
    if a >= 0 {
        assert(s[0] == decimal(m)[0]);
    }
    if b >= 0 {
        assert(t[0] == decimal(n)[0]);
    }
    assert((a < 0) == (b < 0));
    let k: int = if a < 0 { 1 } else { 0 };
    let la = k + decimal(m).len();
    let lb = k + decimal(n).len();
    assert forall|i: int| k <= i < la implies is_digit(#[trigger] s[i]) by {
        assert(s[i] == decimal(m)[i - k]);
    }
    assert forall|i: int| k <= i < lb implies is_digit(#[trigger] t[i]) by {
        assert(t[i] == decimal(n)[i - k]);
    }
    if la < lb {
        assert(is_digit(t[la]));
        assert(s[la] == x[0]);
    } else if lb < la {
        assert(is_digit(s[lb]));
        assert(t[lb] == y[0]);
    }
    assert(decimal(m) =~= s.subrange(k, la));
    assert(decimal(n) =~= t.subrange(k, lb));
    lemma_decimal_injective(m, n);
    assert(x =~= s.subrange(la, s.len() as int));
    assert(y =~= t.subrange(lb, t.len() as int));
}

/// Text is ordered by its first difference: one text comes before another
/// exactly where, behind a common beginning, it ends and the other goes on,
/// or it goes on with the lower character.
pub proof fn text_is_ordered_by_its_first_difference(a: Seq<char>, b: Seq<char>)
    ensures
        text_before(a, b) <==> exists|n: int|
            {
                &&& 0 <= n <= a.len()
                &&& n < b.len()
                &&& #[trigger] a.subrange(0, n) == b.subrange(0, n)
                &&& n == a.len() || a[n] < b[n]
            },
    decreases a.len(),
{
    if b.len() > 0 && a.len() == 0 {
        assert(a.subrange(0, 0) =~= b.subrange(0, 0));
    } else if b.len() > 0 && a[0] != b[0] {
        if a[0] < b[0] {
            assert(a.subrange(0, 0) =~= b.subrange(0, 0));
        } else if exists|n: int|
            {
                &&& 0 <= n <= a.len()
                &&& n < b.len()
                &&& #[trigger] a.subrange(0, n) == b.subrange(0, n)
                &&& n == a.len() || a[n] < b[n]
            } {
            let n = choose|n: int|
                {
                    &&& 0 <= n <= a.len()
                    &&& n < b.len()
                    &&& #[trigger] a.subrange(0, n) == b.subrange(0, n)
                    &&& n == a.len() || a[n] < b[n]
                };
            if n > 0 {
                assert(a.subrange(0, n)[0] == b.subrange(0, n)[0]);
            }
        }
    } else if b.len() > 0 {
        let x = a.drop_first();
        let y = b.drop_first();
        text_is_ordered_by_its_first_difference(x, y);
        if text_before(x, y) {
            let n = choose|n: int|
                {
                    &&& 0 <= n <= x.len()
                    &&& n < y.len()
                    &&& #[trigger] x.subrange(0, n) == y.subrange(0, n)
                    &&& n == x.len() || x[n] < y[n]
                };
            assert forall|i: int| 0 <= i < n + 1 implies a[i] == b[i] by {
                if i > 0 {
                    assert(x.subrange(0, n)[i - 1] == y.subrange(0, n)[i - 1]);
                }
            }
            assert(a.subrange(0, n + 1) =~= b.subrange(0, n + 1));
        }
        if exists|n: int|
            {
                &&& 0 <= n <= a.len()
                &&& n < b.len()
                &&& #[trigger] a.subrange(0, n) == b.subrange(0, n)
                &&& n == a.len() || a[n] < b[n]
            } {
            let n = choose|n: int|
                {
                    &&& 0 <= n <= a.len()
                    &&& n < b.len()
                    &&& #[trigger] a.subrange(0, n) == b.subrange(0, n)
                    &&& n == a.len() || a[n] < b[n]
                };
            assert forall|i: int| 0 <= i < n - 1 implies x[i] == y[i] by {
                assert(a.subrange(0, n)[i + 1] == b.subrange(0, n)[i + 1]);
            }
            assert(x.subrange(0, n - 1) =~= y.subrange(0, n - 1));
        }
    }
}

/// A number is written with the digits from 0 to 9, without a leading zero,
/// and reads as what it is, each digit worth ten times the next.
pub proof fn numbers_read_as_they_are_written(n: nat)
    ensures
        decimal(n).len() > 0,
        decimal(n).len() > 1 ==> decimal(n)[0] != '0',
        forall|i: int| 0 <= i < decimal(n).len() ==> '0' <= #[trigger] decimal(n)[i] <= '9',
        decimal(n).fold_left(0int, |value: int, c: char| 10 * value + (c as int - 48)) == n,
    decreases n,
{
    let f = |value: int, c: char| 10 * value + (c as int - 48);
    let text = decimal(n);
    if n < 10 {
        assert(text.drop_last() =~= Seq::<char>::empty());
        assert(text.drop_last().fold_left(0int, f) == 0);
    } else {
        let front = decimal(n / 10);
        numbers_read_as_they_are_written(n / 10);
        assert(text.drop_last() =~= front);
        assert forall|i: int| 0 <= i < text.len() implies '0' <= #[trigger] text[i] <= '9' by {
            if i < front.len() {
                assert(text[i] == front[i]);
            }
        }
        assert(text[0] == front[0]);
        if front.len() == 1 {
            reveal_with_fuel(decimal, 2);
        }
    }
}

/// A negative number is written as a minus sign before its amount, any other
/// as it is.
pub proof fn signs_come_first(n: int)
    ensures
        n >= 0 ==> signed_decimal(n) == decimal(n as nat),
        n < 0 ==> signed_decimal(n).len() == decimal((-n) as nat).len() + 1 && signed_decimal(n)[0]
            == '-' && signed_decimal(n).drop_first() == decimal((-n) as nat),
{
    if n < 0 {
        assert(signed_decimal(n).drop_first() =~= decimal((-n) as nat));
    }
}

/// The character stands for the value in hexadecimal: the digits first, then
/// the small letters from `a` on.
pub open spec fn stands_for(c: char, value: int) -> bool {
    c as int == if value < 10 {
        48 + value
    } else {
        87 + value
    }
}

proof fn lemma_hex_char(d: nat)
    requires
        d < 16,
    ensures
        stands_for(hex_char(d), d as int),
{
}

proof fn lemma_hex_digit_at(n: nat, width: nat, k: int)
    requires
        0 <= k < width,
    ensures
        hex_digits(n, width).len() == width,
        stands_for(
            hex_digits(n, width)[k],
            (n as int / vstd::arithmetic::power::pow(16, (width - 1 - k) as nat)) % 16,
        ),
    decreases width,
{
    lemma_hex_digits_len(n, width);
    lemma_hex_digits_len(n / 16, (width - 1) as nat);
    if k == width - 1 {
        vstd::arithmetic::power::lemma_pow0(16);
        lemma_hex_char(n % 16);
    } else {
        let e = (width - 2 - k) as nat;
        lemma_hex_digit_at(n / 16, (width - 1) as nat, k);
        reveal(vstd::arithmetic::power::pow);
        vstd::arithmetic::power::lemma_pow_positive(16, e);
        assert(vstd::arithmetic::power::pow(16, (width - 1 - k) as nat) == 16
            * vstd::arithmetic::power::pow(16, e));
        vstd::arithmetic::div_mod::lemma_div_denominator(
            n as int,
            16,
            vstd::arithmetic::power::pow(16, e),
        );
    }
}

/// Every byte is written as two hexadecimal digits, the higher half first, in
/// the order of the bytes.
pub proof fn bytes_are_written_as_two_digits(bytes: Seq<u8>)
    ensures
        hex_text(bytes).len() == 2 * bytes.len(),
        forall|i: int|
            0 <= i < bytes.len() ==> stands_for(
                hex_text(bytes)[2 * i],
                #[trigger] bytes[i] as int / 16,
            ) && stands_for(hex_text(bytes)[2 * i + 1], bytes[i] as int % 16),
    decreases bytes.len(),
{
    if bytes.len() > 0 {
        let front = bytes.drop_last();
        let n = bytes.len() - 1;
        bytes_are_written_as_two_digits(front);
        let last = bytes[n] as nat;
        lemma_hex_digits_len(last, 2);
        reveal_with_fuel(hex_digits, 3);
        lemma_hex_char(last % 16);
        lemma_hex_char((last / 16) % 16);
        assert forall|i: int| 0 <= i < bytes.len() implies stands_for(
            hex_text(bytes)[2 * i],
            #[trigger] bytes[i] as int / 16,
        ) && stands_for(hex_text(bytes)[2 * i + 1], bytes[i] as int % 16) by {
            if i < n {
                assert(front[i] == bytes[i]);
                assert(hex_text(bytes)[2 * i] == hex_text(front)[2 * i]);
                assert(hex_text(bytes)[2 * i + 1] == hex_text(front)[2 * i + 1]);
            } else {
                assert(hex_text(bytes)[2 * i] == hex_digits(last, 2)[0]);
                assert(hex_text(bytes)[2 * i + 1] == hex_digits(last, 2)[1]);
            }
        }
    }
}

/// The place of the digit `k` of an identifier among its groups.
pub open spec fn grouped_place(k: int) -> int {
    if k < 8 {
        k
    } else if k < 12 {
        k + 1
    } else if k < 16 {
        k + 2
    } else if k < 20 {
        k + 3
    } else {
        k + 4
    }
}

/// An identifier is written as its thirty-two hexadecimal digits, the highest
/// first, with hyphens behind the eighth, the twelfth, the sixteenth and the
/// twentieth.
pub proof fn identifiers_are_written_in_groups(id: u128)
    ensures
        ({
            let text = uuid_text(id);
            &&& text.len() == 36
            &&& text[8] == '-' && text[13] == '-' && text[18] == '-' && text[23] == '-'
            &&& forall|k: int|
                0 <= k < 32 ==> stands_for(
                    text[#[trigger] grouped_place(k)],
                    (id as int / vstd::arithmetic::power::pow(16, (31 - k) as nat)) % 16,
                )
        }),
{
    let text = uuid_text(id);
    lemma_hex_digits_len(id as nat, 32);
    assert forall|k: int| 0 <= k < 32 implies stands_for(
        text[#[trigger] grouped_place(k)],
        (id as int / vstd::arithmetic::power::pow(16, (31 - k) as nat)) % 16,
    ) by {
        lemma_hex_digit_at(id as nat, 32, k);
    }
}

}
