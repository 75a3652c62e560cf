//! Text that reports, keys and identifiers are made of.

use vstd::prelude::*;
use vstd::string::*;

verus! {

/// Unicode's `White_Space` property.
pub open spec fn white_space(c: char) -> bool {
    let point = c as int;
    ||| 0x09 <= point <= 0x0d
    ||| point == 0x20
    ||| point == 0x85
    ||| point == 0xa0
    ||| point == 0x1680
    ||| 0x2000 <= point <= 0x200a
    ||| point == 0x2028
    ||| point == 0x2029
    ||| point == 0x202f
    ||| point == 0x205f
    ||| point == 0x3000
}

/// Nothing but white space: what trimming leaves empty.
pub open spec fn blank(s: Seq<char>) -> bool {
    forall|i: int| 0 <= i < s.len() ==> white_space(#[trigger] s[i])
}

fn is_white_space(c: char) -> (r: bool)
    ensures
        r == white_space(c),
{
    let point: u32 = c as u32;
    (0x09 <= point && point <= 0x0d) || point == 0x20 || point == 0x85 || point == 0xa0 || point
        == 0x1680 || (0x2000 <= point && point <= 0x200a) || point == 0x2028 || point == 0x2029
        || point == 0x202f || point == 0x205f || point == 0x3000
}

/// The characters of a string.
pub fn characters(s: &str) -> (r: Vec<char>)
    ensures
        r@ == s@,
{
    let mut r: Vec<char> = Vec::new();
    for c in it: s.chars()
        invariant
            r@ == it.seq().take(it.index()),
            it.seq() == s@,
    {
        r.push(c);
    }
    r
}

/// Whether trimming leaves nothing.
pub fn is_blank(s: &str) -> (r: bool)
    ensures
        r == blank(s@),
{
    let chars = characters(s);
    let mut i: usize = 0;
    while i < chars.len()
        invariant
            i <= chars.len(),
            chars@ == s@,
            forall|j: int| 0 <= j < i ==> white_space(#[trigger] s@[j]),
        decreases chars.len() - i,
    {
        if !is_white_space(chars[i]) {
            return false;
        }
        i = i + 1;
    }
    true
}

/// A digit in bases up to sixteen, letters in lower case.
pub open spec fn digit_char(d: int) -> char {
    if d < 10 {
        (0x30 + d) as char
    } else {
        (0x57 + d) as char
    }
}

fn digit(d: u64) -> (r: &'static str)
    requires
        d < 16,
    ensures
        r@ == seq![digit_char(d as int)],
{
    proof {
        reveal_strlit("0");
        reveal_strlit("1");
        reveal_strlit("2");
        reveal_strlit("3");
        reveal_strlit("4");
        reveal_strlit("5");
        reveal_strlit("6");
        reveal_strlit("7");
        reveal_strlit("8");
        reveal_strlit("9");
        reveal_strlit("a");
        reveal_strlit("b");
        reveal_strlit("c");
        reveal_strlit("d");
        reveal_strlit("e");
        reveal_strlit("f");
    }
    match d {
        0 => "0",
        1 => "1",
        2 => "2",
        3 => "3",
        4 => "4",
        5 => "5",
        6 => "6",
        7 => "7",
        8 => "8",
        9 => "9",
        10 => "a",
        11 => "b",
        12 => "c",
        13 => "d",
        14 => "e",
        _ => "f",
    }
}

/// Decimal digits without leading zeros.
pub open spec fn decimal(n: int) -> Seq<char>
    decreases n,
{
    if n < 10 {
        seq![digit_char(n)]
    } else {
        decimal(n / 10).push(digit_char(n % 10))
    }
}

/// Appends the decimal digits of a number.
pub fn push_decimal(out: &mut String, n: u64)
    ensures
        final(out)@ == old(out)@ + decimal(n as int),
    decreases n,
{
    if n >= 10 {
        push_decimal(out, n / 10);
    }
    out.append(digit(n % 10));
}

/// `width` digits of a number in base sixteen.
pub open spec fn hex(n: int, width: nat) -> Seq<char>
    decreases width,
{
    if width == 0 {
        Seq::empty()
    } else {
        hex(n / 16, (width - 1) as nat).push(digit_char(n % 16))
    }
}

/// Appends `width` digits of a number in base sixteen.
pub fn push_hex(out: &mut String, n: u64, width: u32)
    ensures
        final(out)@ == old(out)@ + hex(n as int, width as nat),
    decreases width,
{
    if width > 0 {
        push_hex(out, n / 16, width - 1);
        out.append(digit(n % 16));
    }
}

/// `count` zeros.
pub open spec fn zeros(count: int) -> Seq<char> {
    Seq::new(if count > 0 { count as nat } else { 0 }, |i: int| '0')
}

/// Decimal digits padded with zeros on the left to at least `width`.
pub open spec fn padded(n: int, width: int) -> Seq<char> {
    zeros(width - decimal(n).len()) + decimal(n)
}

fn decimal_width(n: u64) -> (r: u32)
    ensures
        r == decimal(n as int).len(),
        r <= 20,
{
    let mut rest: u64 = n;
    let mut width: u32 = 1;
    let ghost mut scale: int = 1;
    while rest >= 10
        invariant
            decimal(n as int).len() == decimal(rest as int).len() + width - 1,
            1 <= width <= 20,
            scale * rest <= n,
            scale >= 1,
            scale == pow10((width - 1) as nat),
        decreases rest,
    {
        proof {
            assert(decimal(rest as int).len() == decimal(rest as int / 10).len() + 1);
            assert(scale * 10 * (rest / 10) <= scale * rest) by (nonlinear_arith)
                requires
                    scale >= 1,
                    10 * (rest / 10) <= rest,
            ;
            if width == 20 {
                reveal_with_fuel(pow10, 21);
                assert(scale == 10_000_000_000_000_000_000);
                assert(scale * rest >= 10 * scale) by (nonlinear_arith)
                    requires
                        scale >= 1,
                        rest >= 10,
                ;
            }
            scale = scale * 10;
        }
        rest = rest / 10;
        width = width + 1;
    }
    width
}

spec fn pow10(n: nat) -> int
    decreases n,
{
    if n == 0 {
        1
    } else {
        pow10((n - 1) as nat) * 10
    }
}

/// Appends decimal digits padded with zeros on the left to at least `width`.
pub fn push_padded(out: &mut String, n: u64, width: u32)
    ensures
        final(out)@ == old(out)@ + padded(n as int, width as int),
{
    let used = decimal_width(n);
    let mut missing: u32 = if width > used { width - used } else { 0 };
    let ghost start = out@;
    let ghost total = missing;
    proof {
        reveal_strlit("0");
    }
    while missing > 0
        invariant
            missing <= total,
            out@ == start + zeros(total - missing),
        decreases missing,
    {
        proof {
            reveal_strlit("0");
            assert(zeros(total - missing + 1) =~= zeros(total - missing) + "0"@);
        }
        out.append("0");
        missing = missing - 1;
    }
    push_decimal(out, n);
}

/// Two strings joined.
pub fn joined(a: &str, b: &str) -> (r: String)
    ensures
        r@ == a@ + b@,
{
    let mut r: String = a.to_owned();
    r.append(b);
    r
}

/// Path of one element of a list, or of a field of it.
pub open spec fn element(base: Seq<char>, index: int, tail: Seq<char>) -> Seq<char> {
    base + "["@ + decimal(index) + "]"@ + tail
}

/// Path of one element of a list, or of a field of it.
pub fn element_path(base: &str, index: usize, tail: &str) -> (r: String)
    ensures
        r@ == element(base@, index as int, tail@),
{
    let mut r: String = base.to_owned();
    r.append("[");
    push_decimal(&mut r, index as u64);
    r.append("]");
    r.append(tail);
    r
}

/// `part` occurs in `whole` at `at`.
pub open spec fn occurs_at(whole: Seq<char>, part: Seq<char>, at: int) -> bool {
    &&& 0 <= at <= whole.len() - part.len()
    &&& whole.subrange(at, at + part.len()) == part
}

/// `part` occurs somewhere in `whole`.
pub open spec fn occurs(whole: Seq<char>, part: Seq<char>) -> bool {
    exists|at: int| occurs_at(whole, part, at)
}

fn found_at(whole: &Vec<char>, part: &Vec<char>, at: usize) -> (r: bool)
    requires
        at + part.len() <= whole.len(),
    ensures
        r == occurs_at(whole@, part@, at as int),
{
    let mut i: usize = 0;
    while i < part.len()
        invariant
            i <= part.len(),
            at + part.len() <= whole.len(),
            forall|j: int| 0 <= j < i ==> whole@[at + j] == #[trigger] part@[j],
        decreases part.len() - i,
    {
        if whole[at + i] != part[i] {
            assert(whole@.subrange(at as int, at + part.len())[i as int] != part@[i as int]);
            return false;
        }
        i = i + 1;
    }
    assert(whole@.subrange(at as int, at + part.len()) =~= part@);
    true
}

/// Whether `part` occurs in `whole`.
pub fn contains(whole: &str, part: &str) -> (r: bool)
    ensures
        r == occurs(whole@, part@),
{
    let w = characters(whole);
    let p = characters(part);
    if p.len() > w.len() {
        return false;
    }
    let mut at: usize = 0;
    while at <= w.len() - p.len()
        invariant
            w@ == whole@,
            p@ == part@,
            p.len() <= w.len(),
            at <= w.len() - p.len() + 1,
            forall|j: int| 0 <= j < at ==> !occurs_at(whole@, part@, j),
        decreases w.len() - p.len() + 1 - at,
    {
        if found_at(&w, &p, at) {
            return true;
        }
        if at == w.len() - p.len() {
            assert(forall|j: int| #[trigger] occurs_at(whole@, part@, j) ==> j <= at);
            return false;
        }
        at = at + 1;
    }
    false
}

/// Whether two strings hold the same characters.
pub fn same_text(a: &str, b: &str) -> (r: bool)
    ensures
        r == (a@ == b@),
{
    let x = characters(a);
    let y = characters(b);
    if x.len() != y.len() {
        return false;
    }
    let mut i: usize = 0;
    while i < x.len()
        invariant
            x@ == a@,
            y@ == b@,
            x.len() == y.len(),
            i <= x.len(),
            forall|j: int| 0 <= j < i ==> x@[j] == #[trigger] y@[j],
        decreases x.len() - i,
    {
        if x[i] != y[i] {
            return false;
        }
        i = i + 1;
    }
    assert(a@ =~= b@);
    true
}

/// A path that leaves the directory it is resolved in: absolute, or with a `..` segment.
pub open spec fn escapes(path: Seq<char>) -> bool {
    ||| path.len() > 0 && path[0] == '/'
    ||| exists|i: int| parent_segment(path, i)
}

/// A `..` segment of a path starts at `i`.
pub open spec fn parent_segment(path: Seq<char>, i: int) -> bool {
    &&& 0 <= i
    &&& i + 2 <= path.len()
    &&& path[i] == '.'
    &&& path[i + 1] == '.'
    &&& i == 0 || path[i - 1] == '/'
    &&& i + 2 == path.len() || path[i + 2] == '/'
}

/// Whether a path leaves the directory it is resolved in.
pub fn path_escapes(path: &str) -> (r: bool)
    ensures
        r == escapes(path@),
{
    let p = characters(path);
    if p.len() > 0 && p[0] == '/' {
        return true;
    }
    let mut i: usize = 0;
    while p.len() >= 2 && i < p.len() - 1
        invariant
            p@ == path@,
            i <= p.len(),
            p.len() == 0 || p@[0] != '/',
            forall|j: int| 0 <= j < i ==> !parent_segment(path@, j),
        decreases p.len() - i,
    {
        if p[i] == '.' && p[i + 1] == '.' && (i == 0 || p[i - 1] == '/') && (i + 2 == p.len() || p[i
            + 2] == '/') {
            assert(parent_segment(path@, i as int));
            return true;
        }
        i = i + 1;
    }
    false
}

/// `a` and `b` agree before `at`, where `a` ends or holds the smaller character.
pub open spec fn precedes_at(a: Seq<char>, b: Seq<char>, at: int) -> bool {
    &&& 0 <= at <= a.len()
    &&& at < b.len()
    &&& a.take(at) == b.take(at)
    &&& at == a.len() || (a[at] as int) < (b[at] as int)
}

/// Lexicographic order.
pub open spec fn precedes(a: Seq<char>, b: Seq<char>) -> bool {
    exists|at: int| precedes_at(a, b, at)
}

/// Every text precedes the one after it.
pub open spec fn ascending(texts: Seq<Seq<char>>) -> bool {
    forall|i: int| 0 <= i < texts.len() - 1 ==> precedes(#[trigger] texts[i], texts[i + 1])
}

proof fn lemma_precedes_transitive(a: Seq<char>, b: Seq<char>, c: Seq<char>)
    requires
        precedes(a, b),
        precedes(b, c),
    ensures
        precedes(a, c),
{
    let i = choose|at: int| precedes_at(a, b, at);
    let j = choose|at: int| precedes_at(b, c, at);
    if i <= j {
        assert(c.take(i) =~= c.take(j).take(i));
        assert(b.take(i) =~= b.take(j).take(i));
        if i < j && i < a.len() {
            assert(b[i] == b.take(j)[i]);
            assert(c[i] == c.take(j)[i]);
        }
        assert(precedes_at(a, c, i));
    } else {
        assert(a.take(j) =~= a.take(i).take(j));
        assert(b.take(j) =~= b.take(i).take(j));
        assert(a[j] == a.take(i)[j]);
        assert(b[j] == b.take(i)[j]);
        assert(precedes_at(a, c, j));
    }
}

proof fn lemma_ascending(texts: Seq<Seq<char>>, i: int, j: int)
    requires
        ascending(texts),
        0 <= i < j < texts.len(),
    ensures
        precedes(texts[i], texts[j]),
    decreases j - i,
{
    if i + 1 < j {
        lemma_ascending(texts, i, j - 1);
        assert(precedes(texts[j - 1], texts[j - 1 + 1]));
        lemma_precedes_transitive(texts[i], texts[j - 1], texts[j]);
    } else {
        assert(precedes(texts[i], texts[i + 1]));
    }
}

/// In a list that ascends no text occurs twice.
pub proof fn ascending_texts_differ(texts: Seq<Seq<char>>, i: int, j: int)
    requires
        ascending(texts),
        0 <= i < j < texts.len(),
    ensures
        texts[i] != texts[j],
{
    lemma_ascending(texts, i, j);
    let at = choose|at: int| precedes_at(texts[i], texts[j], at);
}

/// Exactly `width` decimal digits, for a number that has no more.
spec fn fixed(n: int, width: nat) -> Seq<char>
    decreases width,
{
    if width == 0 {
        Seq::empty()
    } else {
        fixed(n / 10, (width - 1) as nat).push(digit_char(n % 10))
    }
}

proof fn lemma_fixed_zeros(width: nat)
    ensures
        fixed(0, width) == zeros(width as int),
    decreases width,
{
    if width > 0 {
        lemma_fixed_zeros((width - 1) as nat);
        assert(fixed(0, width) =~= zeros(width as int));
    } else {
        assert(fixed(0, width) =~= zeros(width as int));
    }
}

proof fn lemma_padded_is_fixed(n: int, width: nat)
    requires
        0 <= n < pow10(width),
        width > 0,
    ensures
        padded(n, width as int) == fixed(n, width),
        decimal(n).len() <= width,
    decreases width,
{
    let below = (width - 1) as nat;
    if n < 10 {
        lemma_fixed_zeros(below);
        assert(decimal(n) =~= seq![digit_char(n)]);
        assert(padded(n, width as int) =~= fixed(n, width));
    } else {
        assert(n / 10 < pow10(below));
        if below == 0 {
            assert(pow10(width) == 10) by {
                reveal_with_fuel(pow10, 2);
            }
        } else {
            lemma_padded_is_fixed(n / 10, below);
            assert(padded(n, width as int) =~= padded(n / 10, below as int).push(
                digit_char(n % 10),
            ));
        }
    }
}

proof fn lemma_fixed_sorts(a: int, b: int, width: nat)
    requires
        0 <= a < b < pow10(width),
    ensures
        precedes(fixed(a, width), fixed(b, width)),
        fixed(a, width).len() == width,
        fixed(b, width).len() == width,
    decreases width,
{
    if width == 0 {
    } else {
        let below = (width - 1) as nat;
        let (x, y) = (fixed(a / 10, below), fixed(b / 10, below));
        lemma_fixed_length(a, width);
        lemma_fixed_length(b, width);
        lemma_fixed_length(a / 10, below);
        lemma_fixed_length(b / 10, below);
        if a / 10 < b / 10 {
            lemma_fixed_sorts(a / 10, b / 10, below);
            let at = choose|at: int| precedes_at(x, y, at);
            assert(fixed(a, width).take(at) =~= x.take(at));
            assert(fixed(b, width).take(at) =~= y.take(at));
            assert(precedes_at(fixed(a, width), fixed(b, width), at));
        } else {
            assert(a / 10 == b / 10);
            assert(a % 10 < b % 10);
            assert(fixed(a, width).take(below as int) =~= x);
            assert(fixed(b, width).take(below as int) =~= x);
            assert(precedes_at(fixed(a, width), fixed(b, width), below as int));
        }
    }
}

proof fn lemma_fixed_length(n: int, width: nat)
    ensures
        fixed(n, width).len() == width,
    decreases width,
{
    if width > 0 {
        lemma_fixed_length(n / 10, (width - 1) as nat);
    }
}

/// Zero-padded numbers of up to six digits sort as the numbers do.
pub proof fn padded_numbers_sort(a: int, b: int, width: int)
    requires
        0 <= a < b < 1_000_000,
        width == 6,
    ensures
        precedes(padded(a, width), padded(b, width)),
{
    reveal_with_fuel(pow10, 7);
    lemma_padded_is_fixed(a, 6);
    lemma_padded_is_fixed(b, 6);
    lemma_fixed_sorts(a, b, 6);
}

/// The number that decimal digits spell.
spec fn spelled(digits: Seq<char>) -> int
    decreases digits.len(),
{
    if digits.len() == 0 {
        0
    } else {
        spelled(digits.drop_last()) * 10 + (digits.last() as int - 0x30)
    }
}

proof fn lemma_spelled_decimal(n: int)
    requires
        n >= 0,
    ensures
        spelled(decimal(n)) == n,
    decreases n,
{
    reveal_with_fuel(spelled, 2);
    if n < 10 {
        assert(decimal(n).drop_last() =~= Seq::<char>::empty());
    } else {
        lemma_spelled_decimal(n / 10);
        assert(decimal(n).drop_last() =~= decimal(n / 10));
    }
}

proof fn lemma_spelled_zeros(count: int, digits: Seq<char>)
    ensures
        spelled(zeros(count) + digits) == spelled(digits),
    decreases digits.len(), count,
{
    let all = zeros(count) + digits;
    if digits.len() > 0 {
        assert(all.drop_last() =~= zeros(count) + digits.drop_last());
        lemma_spelled_zeros(count, digits.drop_last());
    } else if count > 0 {
        assert(all.drop_last() =~= zeros(count - 1) + digits);
        lemma_spelled_zeros(count - 1, digits);
    } else {
        assert(all =~= digits);
    }
}

/// Zero-padded numbers tell the numbers apart, however many digits they have.
pub proof fn padded_numbers_differ(a: int, b: int, width: int)
    requires
        a >= 0,
        b >= 0,
        a != b,
    ensures
        padded(a, width) != padded(b, width),
{
    lemma_spelled_decimal(a);
    lemma_spelled_decimal(b);
    lemma_spelled_zeros(width - decimal(a).len(), decimal(a));
    lemma_spelled_zeros(width - decimal(b).len(), decimal(b));
}

} // verus!
