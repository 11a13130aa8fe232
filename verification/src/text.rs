//! Text helpers shared by the key, query and guard code.
//!
//! Every function here speaks of text through its view, a `Seq<char>`.

use vstd::prelude::*;

verus! {

/// `String::push` appends one character to the end of the text.
pub assume_specification[ String::push ](s: &mut String, ch: char)
    ensures
        final(s)@ == old(s)@.push(ch),
;

/// What `str::trim` leaves of a text: the text without its leading and
/// trailing Unicode white space.
pub uninterp spec fn trimmed(s: Seq<char>) -> Seq<char>;

/// `str::trim` returns the slice named by [`trimmed`].
pub assume_specification[ str::trim ](s: &str) -> (r: &str)
    ensures
        r@ == trimmed(s@),
;

/// What `str::to_lowercase` makes of a text: its Unicode lower-case form.
pub uninterp spec fn lowercased(s: Seq<char>) -> Seq<char>;

/// `str::to_lowercase` returns the text named by [`lowercased`].
pub assume_specification[ str::to_lowercase ](s: &str) -> (r: String)
    ensures
        r@ == lowercased(s@),
;

/// The view of an optional borrowed text.
pub open spec fn opt_text(text: Option<&str>) -> Option<Seq<char>> {
    match text {
        Some(value) => Some(value@),
        None => None,
    }
}

/// The view of an optional owned text.
pub open spec fn opt_view(text: Option<String>) -> Option<Seq<char>> {
    match text {
        Some(value) => Some(value@),
        None => None,
    }
}

/// The views of a list of texts.
pub open spec fn texts(v: Seq<String>) -> Seq<Seq<char>> {
    v.map_values(|s: String| s@)
}

/// The decimal digit for `d`, which is taken modulo ten.
pub open spec fn digit(d: int) -> char {
    let d = d % 10;
    if d == 0 {
        '0'
    } else if d == 1 {
        '1'
    } else if d == 2 {
        '2'
    } else if d == 3 {
        '3'
    } else if d == 4 {
        '4'
    } else if d == 5 {
        '5'
    } else if d == 6 {
        '6'
    } else if d == 7 {
        '7'
    } else if d == 8 {
        '8'
    } else {
        '9'
    }
}

/// Decimal digits of a natural number, most significant first, no padding.
pub open spec fn natural_text(n: nat) -> Seq<char>
    decreases n,
{
    if n < 10 {
        seq![digit(n as int)]
    } else {
        natural_text(n / 10).push(digit(n as int))
    }
}

/// Decimal rendering of an integer: a minus sign for negatives, then the
/// digits of the magnitude.
pub open spec fn decimal_text(n: int) -> Seq<char> {
    if n < 0 {
        seq!['-'] + natural_text((-n) as nat)
    } else {
        natural_text(n as nat)
    }
}

/// `s` cut at every occurrence of `sep`. A text without `sep` gives one
/// piece; an empty text gives one empty piece.
pub open spec fn split_on(s: Seq<char>, sep: char) -> Seq<Seq<char>>
    decreases s.len(),
{
    if s.len() == 0 {
        seq![Seq::<char>::empty()]
    } else {
        let before = split_on(s.drop_last(), sep);
        if s.last() == sep {
            before.push(Seq::<char>::empty())
        } else {
            before.drop_last().push(before.last().push(s.last()))
        }
    }
}

/// `pieces` written one after another with `sep` between neighbours.
pub open spec fn joined(pieces: Seq<Seq<char>>, sep: Seq<char>) -> Seq<char>
    decreases pieces.len(),
{
    if pieces.len() == 0 {
        Seq::<char>::empty()
    } else if pieces.len() == 1 {
        pieces[0]
    } else {
        joined(pieces.drop_last(), sep) + sep + pieces.last()
    }
}

/// `s` with a backslash put before each character that `special` marks.
pub open spec fn escaped(s: Seq<char>, special: spec_fn(char) -> bool) -> Seq<char>
    decreases s.len(),
{
    if s.len() == 0 {
        Seq::<char>::empty()
    } else if special(s.last()) {
        escaped(s.drop_last(), special).push('\\').push(s.last())
    } else {
        escaped(s.drop_last(), special).push(s.last())
    }
}

/// Whether `c` is a decimal digit.
pub open spec fn is_digit(c: char) -> bool {
    c == '0' || c == '1' || c == '2' || c == '3' || c == '4' || c == '5' || c == '6' || c == '7'
        || c == '8' || c == '9'
}

/// Whether `sep` occurs nowhere in `s`.
pub open spec fn free_of(s: Seq<char>, sep: char) -> bool {
    forall|i: int| 0 <= i < s.len() ==> s[i] != sep
}

/// What stands for one character in an escaped text: the character itself,
/// after a backslash if it is special.
pub open spec fn escaped_char(c: char, special: spec_fn(char) -> bool) -> Seq<char> {
    if special(c) {
        seq!['\\', c]
    } else {
        seq![c]
    }
}

/// The digits of a natural number are digits, and there is at least one; a
/// number below ten has exactly one, any other has more.
pub proof fn natural_text_is_digits(n: nat)
    ensures
        natural_text(n).len() >= 1,
        n < 10 <==> natural_text(n).len() == 1,
        forall|i: int| 0 <= i < natural_text(n).len() ==> is_digit(#[trigger] natural_text(n)[i]),
    decreases n,
{
    if n >= 10 {
        natural_text_is_digits(n / 10);
    }
}

/// Different natural numbers have different digits.
pub proof fn natural_text_is_injective(a: nat, b: nat)
    requires
        natural_text(a) == natural_text(b),
    ensures
        a == b,
    decreases a,
{
    natural_text_is_digits(a);
    natural_text_is_digits(b);
    if a < 10 {
        assert(natural_text(a)[0] == digit(a as int));
        assert(natural_text(b)[0] == digit(b as int));
    } else {
        let x = natural_text(a / 10);
        let y = natural_text(b / 10);
        assert(x =~= natural_text(a).drop_last());
        assert(y =~= natural_text(b).drop_last());
        natural_text_is_injective(a / 10, b / 10);
        assert(natural_text(a).last() == digit(a as int));
        assert(natural_text(b).last() == digit(b as int));
        assert(a % 10 == b % 10);
    }
}

/// A decimal rendering holds digits and at most a leading minus sign, so it
/// is free of every other character.
pub proof fn decimal_text_is_free_of(n: int, sep: char)
    requires
        !is_digit(sep),
        sep != '-',
    ensures
        free_of(decimal_text(n), sep),
        decimal_text(n).len() >= 1,
{
    if n < 0 {
        natural_text_is_digits((-n) as nat);
        let digits = natural_text((-n) as nat);
        assert forall|i: int| 0 <= i < decimal_text(n).len() implies decimal_text(n)[i] != sep by {
            if i > 0 {
                assert(decimal_text(n)[i] == digits[i - 1]);
            }
        }
    } else {
        natural_text_is_digits(n as nat);
    }
}

/// Different integers have different decimal renderings.
pub proof fn decimal_text_is_injective(a: int, b: int)
    requires
        decimal_text(a) == decimal_text(b),
    ensures
        a == b,
{
    natural_text_is_digits(if a < 0 { (-a) as nat } else { a as nat });
    natural_text_is_digits(if b < 0 { (-b) as nat } else { b as nat });
    if a < 0 && b < 0 {
        assert(natural_text((-a) as nat) =~= decimal_text(a).subrange(
            1,
            decimal_text(a).len() as int,
        ));
        assert(natural_text((-b) as nat) =~= decimal_text(b).subrange(
            1,
            decimal_text(b).len() as int,
        ));
        natural_text_is_injective((-a) as nat, (-b) as nat);
    } else if a >= 0 && b >= 0 {
        natural_text_is_injective(a as nat, b as nat);
    } else if a < 0 {
        assert(decimal_text(a)[0] == '-');
        assert(is_digit(natural_text(b as nat)[0]));
    } else {
        assert(decimal_text(b)[0] == '-');
        assert(is_digit(natural_text(a as nat)[0]));
    }
}

/// Two texts that are free of a separator, each followed by a rest that
/// begins with it: if the wholes are equal, so are the parts.
pub proof fn split_at_first(u: Seq<char>, v: Seq<char>, r1: Seq<char>, r2: Seq<char>, sep: char)
    requires
        u + r1 == v + r2,
        free_of(u, sep),
        free_of(v, sep),
        r1.len() > 0,
        r2.len() > 0,
        r1[0] == sep,
        r2[0] == sep,
    ensures
        u == v,
        r1 == r2,
{
    let whole = u + r1;
    if u.len() < v.len() {
        assert(whole[u.len() as int] == r1[0]);
        assert((v + r2)[u.len() as int] == v[u.len() as int]);
    } else if v.len() < u.len() {
        assert((v + r2)[v.len() as int] == r2[0]);
        assert(whole[v.len() as int] == u[v.len() as int]);
    }
    assert(u =~= whole.subrange(0, u.len() as int));
    assert(v =~= (v + r2).subrange(0, v.len() as int));
    assert(r1 =~= whole.subrange(u.len() as int, whole.len() as int));
    assert(r2 =~= (v + r2).subrange(v.len() as int, whole.len() as int));
}

/// Two texts that are free of a separator, each preceded by a lead that
/// ends with it: if the wholes are equal, so are the parts.
pub proof fn split_at_last(l1: Seq<char>, l2: Seq<char>, u: Seq<char>, v: Seq<char>, sep: char)
    requires
        l1 + u == l2 + v,
        free_of(u, sep),
        free_of(v, sep),
        l1.len() > 0,
        l2.len() > 0,
        l1.last() == sep,
        l2.last() == sep,
    ensures
        u == v,
        l1 == l2,
{
    let whole = l1 + u;
    assert(whole.len() == l1.len() + u.len());
    assert((l2 + v).len() == l2.len() + v.len());
    if l1.len() < l2.len() {
        assert((l2 + v)[l2.len() - 1] == l2.last());
        assert(whole[l2.len() - 1] == u[l2.len() - 1 - l1.len()]);
    } else if l2.len() < l1.len() {
        assert(whole[l1.len() - 1] == l1.last());
        assert((l2 + v)[l1.len() - 1] == v[l1.len() - 1 - l2.len()]);
    }
    assert(l1 =~= whole.subrange(0, l1.len() as int));
    assert(l2 =~= (l2 + v).subrange(0, l2.len() as int));
    assert(u =~= whole.subrange(l1.len() as int, whole.len() as int));
    assert(v =~= (l2 + v).subrange(l2.len() as int, whole.len() as int));
}

/// An escaped text begins with what stands for its first character, and
/// goes on with the rest escaped.
pub proof fn escaped_unfolds_from_the_left(s: Seq<char>, special: spec_fn(char) -> bool)
    requires
        s.len() > 0,
    ensures
        escaped(s, special) == escaped_char(s[0], special) + escaped(s.drop_first(), special),
    decreases s.len(),
{
    if s.len() == 1 {
        assert(s.drop_last() =~= Seq::<char>::empty());
        assert(s.drop_first() =~= Seq::<char>::empty());
        assert(escaped(s, special) =~= escaped_char(s[0], special) + escaped(
            s.drop_first(),
            special,
        ));
    } else {
        let front = s.drop_last();
        escaped_unfolds_from_the_left(front, special);
        assert(front[0] == s[0]);
        assert(front.drop_first() =~= s.drop_first().drop_last());
        assert(s.drop_first().last() == s.last());
        assert(escaped(s, special) =~= escaped_char(s[0], special) + escaped(
            s.drop_first(),
            special,
        ));
    }
}

/// Two escaped texts, each followed by a rest that begins with a special
/// character other than the backslash: if the wholes are equal, so are the
/// texts and the rests. An escaped text can be told from what follows it.
pub proof fn escaped_ends_where_it_ends(
    x: Seq<char>,
    y: Seq<char>,
    r1: Seq<char>,
    r2: Seq<char>,
    special: spec_fn(char) -> bool,
)
    requires
        escaped(x, special) + r1 == escaped(y, special) + r2,
        special('\\'),
        r1.len() > 0,
        r2.len() > 0,
        special(r1[0]),
        special(r2[0]),
        r1[0] != '\\',
        r2[0] != '\\',
    ensures
        x == y,
        r1 == r2,
    decreases x.len() + y.len(),
{
    let left = escaped(x, special) + r1;
    let right = escaped(y, special) + r2;
    if x.len() == 0 && y.len() == 0 {
        assert(left =~= r1);
        assert(right =~= r2);
        assert(x =~= y);
    } else if x.len() == 0 {
        escaped_unfolds_from_the_left(y, special);
        assert(left =~= r1);
        assert(left[0] == r1[0]);
        assert(right[0] == escaped_char(y[0], special)[0]);
    } else if y.len() == 0 {
        escaped_unfolds_from_the_left(x, special);
        assert(right =~= r2);
        assert(right[0] == r2[0]);
        assert(left[0] == escaped_char(x[0], special)[0]);
    } else {
        escaped_unfolds_from_the_left(x, special);
        escaped_unfolds_from_the_left(y, special);
        let a = escaped_char(x[0], special);
        let b = escaped_char(y[0], special);
        let rest_x = escaped(x.drop_first(), special);
        let rest_y = escaped(y.drop_first(), special);
        assert(left =~= a + (rest_x + r1));
        assert(right =~= b + (rest_y + r2));
        assert(left[0] == a[0]);
        assert(right[0] == b[0]);
        if special(x[0]) != special(y[0]) {
            assert(a[0] != b[0]);
        }
        assert(a.len() == b.len());
        if special(x[0]) {
            assert(left[1] == a[1]);
            assert(right[1] == b[1]);
        }
        assert(x[0] == y[0]);
        assert(rest_x + r1 =~= left.subrange(a.len() as int, left.len() as int));
        assert(rest_y + r2 =~= right.subrange(b.len() as int, right.len() as int));
        escaped_ends_where_it_ends(x.drop_first(), y.drop_first(), r1, r2, special);
        assert(x =~= seq![x[0]] + x.drop_first());
        assert(y =~= seq![y[0]] + y.drop_first());
    }
}

/// The characters of `s`, in order.
pub fn chars_of(s: &str) -> (out: Vec<char>)
    ensures
        out@ == s@,
{
    let mut out: Vec<char> = Vec::new();
    for c in it: s.chars()
        invariant
            out@ == it.seq().take(it.index() as int),
            it.seq() == s@,
    {
        out.push(c);
    }
    out
}

/// Whether two texts hold the same characters.
pub fn same_text(a: &str, b: &str) -> (r: bool)
    ensures
        r == (a@ == b@),
{
    let x = a.to_owned();
    let y = b.to_owned();
    x == y
}

/// Whether `s` begins with `prefix`.
pub fn starts_with(s: &str, prefix: &str) -> (r: bool)
    ensures
        r == prefix@.is_prefix_of(s@),
{
    let text = chars_of(s);
    let head = chars_of(prefix);
    if head.len() > text.len() {
        return false;
    }
    let mut i: usize = 0;
    while i < head.len()
        invariant
            i <= head.len() <= text.len(),
            head@ == prefix@,
            text@ == s@,
            forall|k: int| 0 <= k < i ==> head@[k] == text@[k],
        decreases head.len() - i,
    {
        if head[i] != text[i] {
            return false;
        }
        i += 1;
    }
    assert(prefix@ =~= s@.subrange(0, prefix@.len() as int));
    true
}

/// The part of `s` from character `from` to the end.
pub fn tail_from(s: &str, from: usize) -> (out: String)
    requires
        from <= s@.len(),
    ensures
        out@ == s@.subrange(from as int, s@.len() as int),
{
    let text = chars_of(s);
    let mut out = String::new();
    let mut i: usize = from;
    while i < text.len()
        invariant
            from <= i <= text.len(),
            text@ == s@,
            out@ == s@.subrange(from as int, i as int),
        decreases text.len() - i,
    {
        out.push(text[i]);
        i += 1;
        assert(out@ =~= s@.subrange(from as int, i as int));
    }
    out
}

/// The character that stands for the digit `d`.
fn digit_char(d: u128) -> (c: char)
    requires
        d < 10,
    ensures
        c == digit(d as int),
{
    if d == 0 {
        '0'
    } else if d == 1 {
        '1'
    } else if d == 2 {
        '2'
    } else if d == 3 {
        '3'
    } else if d == 4 {
        '4'
    } else if d == 5 {
        '5'
    } else if d == 6 {
        '6'
    } else if d == 7 {
        '7'
    } else if d == 8 {
        '8'
    } else {
        '9'
    }
}

/// Appends the decimal digits of `n` to `out`.
pub fn push_natural(out: &mut String, n: u128)
    ensures
        final(out)@ == old(out)@ + natural_text(n as nat),
    decreases n,
{
    if n >= 10 {
        push_natural(out, n / 10);
    }
    out.push(digit_char(n % 10));
    assert(final(out)@ =~= old(out)@ + natural_text(n as nat));
}

/// Appends the decimal rendering of `n` to `out`.
pub fn push_decimal(out: &mut String, n: i64)
    ensures
        final(out)@ == old(out)@ + decimal_text(n as int),
{
    if n < 0 {
        out.push('-');
        let magnitude: u128 = (-(n + 1)) as u128 + 1;
        push_natural(out, magnitude);
        assert(final(out)@ =~= old(out)@ + decimal_text(n as int));
    } else {
        push_natural(out, n as u128);
    }
}

/// The decimal rendering of `n`.
pub fn decimal(n: i64) -> (out: String)
    ensures
        out@ == decimal_text(n as int),
{
    let mut out = String::new();
    push_decimal(&mut out, n);
    assert(out@ =~= decimal_text(n as int));
    out
}

/// Appends `pieces`, separated by `sep`, to an empty text.
pub fn join(pieces: &Vec<String>, sep: &str) -> (out: String)
    ensures
        out@ == joined(texts(pieces@), sep@),
{
    let mut out = String::new();
    let mut i: usize = 0;
    while i < pieces.len()
        invariant
            i <= pieces.len(),
            out@ == joined(texts(pieces@).take(i as int), sep@),
        decreases pieces.len() - i,
    {
        let ghost before = texts(pieces@).take(i as int);
        let ghost after = texts(pieces@).take(i + 1);
        if i > 0 {
            out.append(sep);
        }
        out.append(pieces[i].as_str());
        proof {
            assert(after.drop_last() =~= before);
            assert(after.last() == pieces@[i as int]@);
            if i > 0 {
                assert(out@ =~= joined(before, sep@) + sep@ + after.last());
            } else {
                assert(out@ =~= after.last());
                assert(after[0] == after.last());
            }
        }
        i += 1;
    }
    assert(texts(pieces@).take(pieces.len() as int) =~= texts(pieces@));
    out
}

} // verus!
