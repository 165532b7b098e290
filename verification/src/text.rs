//! Text building blocks of the generator: decimal numerals, identifier
//! transliteration and the order in which names are kept.
use vstd::prelude::*;
use vstd::string::*;

verus! {

/// The character that writes the digit `d`; meaningful for `d < 10`.
pub open spec fn digit(d: nat) -> char {
    if d == 0 {
        '0'
    } else if d == 1 {
        '1'
    } else if d == 2 {
        '2'
    } else if d == 3 {
        '3'
    } else if d == 4 {
        '4'
    } else if d == 5 {
        '5'
    } else if d == 6 {
        '6'
    } else if d == 7 {
        '7'
    } else if d == 8 {
        '8'
    } else {
        '9'
    }
}

/// The decimal numeral of `n`: most significant digit first, no sign, no
/// leading zero except for zero itself.
pub open spec fn decimal(n: nat) -> Seq<char>
    decreases n,
{
    if n < 10 {
        seq![digit(n)]
    } else {
        decimal(n / 10).push(digit(n % 10))
    }
}

/// A numeral has at least one digit, and more than one from ten on.
pub proof fn lemma_decimal_len(n: nat)
    ensures
        decimal(n).len() >= 1,
        n >= 10 ==> decimal(n).len() >= 2,
    decreases n,
{
    if n >= 10 {
        lemma_decimal_len(n / 10);
    }
}

/// Different numbers have different numerals.
pub proof fn lemma_decimal_injective(a: nat, b: nat)
    requires
        decimal(a) == decimal(b),
    ensures
        a == b,
    decreases a,
{
    lemma_decimal_len(a);
    lemma_decimal_len(b);
    if a < 10 && b < 10 {
        assert(decimal(a)[0] == digit(a));
        assert(decimal(b)[0] == digit(b));
    } else if a >= 10 && b >= 10 {
        let x = decimal(a / 10);
        let y = decimal(b / 10);
        assert(x.push(digit(a % 10)).drop_last() == x);
        assert(y.push(digit(b % 10)).drop_last() == y);
        assert(x.push(digit(a % 10)).last() == digit(a % 10));
        assert(y.push(digit(b % 10)).last() == digit(b % 10));
        lemma_decimal_injective(a / 10, b / 10);
    }
}

/// `String::push`: the text grows by exactly the character given.
#[verifier::external_body]
pub(crate) fn push_char(text: &mut String, c: char)
    ensures
        final(text)@ == old(text)@.push(c),
{
    text.push(c)
}

fn digit_char(d: u8) -> (c: char)
    requires
        d < 10,
    ensures
        c == digit(d as nat),
{
    if d == 0 {
        '0'
    } else if d == 1 {
        '1'
    } else if d == 2 {
        '2'
    } else if d == 3 {
        '3'
    } else if d == 4 {
        '4'
    } else if d == 5 {
        '5'
    } else if d == 6 {
        '6'
    } else if d == 7 {
        '7'
    } else if d == 8 {
        '8'
    } else {
        '9'
    }
}

/// Appends the decimal numeral of `n` to `text`.
pub fn push_decimal(text: &mut String, n: u128)
    ensures
        final(text)@ == old(text)@ + decimal(n as nat),
    decreases n,
{
    if n >= 10 {
        push_decimal(text, n / 10);
    }
    let d: u8 = (n % 10) as u8;
    push_char(text, digit_char(d));
}

/// Whether `c` is an upper-case letter of the basic Latin alphabet.
pub open spec fn is_upper(c: char) -> bool {
    'A' <= c && c <= 'Z'
}

/// Whether `c` ends a lower-case run: a basic lower-case letter or a digit.
pub open spec fn ends_word(c: char) -> bool {
    ('a' <= c && c <= 'z') || ('0' <= c && c <= '9')
}

/// The lower-case form of a basic upper-case letter; any other character
/// is left as it is.
pub open spec fn lower(c: char) -> char {
    if is_upper(c) {
        ((c as u8 + 32) as u8) as char
    } else {
        c
    }
}

/// The identifier that a metadata name is written as: every basic
/// upper-case letter becomes lower-case, and an underscore separates it from
/// a preceding lower-case letter or digit. All other characters are kept.
pub open spec fn snake(name: Seq<char>) -> Seq<char>
    decreases name.len(),
{
    if name.len() == 0 {
        Seq::<char>::empty()
    } else {
        let head = snake(name.drop_last());
        let c = name.last();
        if is_upper(c) && name.len() >= 2 && ends_word(name[name.len() - 2]) {
            head.push('_').push(lower(c))
        } else {
            head.push(lower(c))
        }
    }
}

fn lower_char(c: char) -> (r: char)
    ensures
        r == lower(c),
{
    if 'A' <= c && c <= 'Z' {
        let b: u8 = c as u8;
        (b + 32) as char
    } else {
        c
    }
}

/// Transliterates a metadata field name into the identifier it is declared
/// under, before any collision is resolved.
pub fn to_snake(name: &str) -> (id: String)
    ensures
        id@ == snake(name@),
{
    let n = name.unicode_len();
    let mut id = String::new();
    let mut after_word = false;
    let mut i: usize = 0;
    while i < n
        invariant
            n == name@.len(),
            i <= n,
            id@ == snake(name@.take(i as int)),
            after_word == (i > 0 && ends_word(name@[i - 1])),
        decreases n - i,
    {
        let c = name.get_char(i);
        proof {
            let upto = name@.take(i + 1);
            assert(upto.drop_last() == name@.take(i as int));
            assert(upto.last() == c);
            assert(i > 0 ==> upto[upto.len() - 2] == name@[i - 1]);
        }
        if after_word && 'A' <= c && c <= 'Z' {
            push_char(&mut id, '_');
        }
        push_char(&mut id, lower_char(c));
        after_word = ('a' <= c && c <= 'z') || ('0' <= c && c <= '9');
        i = i + 1;
    }
    proof {
        assert(name@.take(n as int) == name@);
    }
    id
}

/// Whether `text` begins with an underscore, the mark of a name that the
/// metadata producer made up for a type without one.
pub open spec fn is_generated_name(text: Seq<char>) -> bool {
    text.len() > 0 && text[0] == '_'
}

/// Tells whether a metadata name is a made-up one.
pub fn starts_with_underscore(text: &str) -> (r: bool)
    ensures
        r == is_generated_name(text@),
{
    if text.unicode_len() == 0 {
        false
    } else {
        text.get_char(0) == '_'
    }
}

/// The order names are kept in: character by character, a proper prefix
/// first. It is the order `str` values have under `<`.
pub open spec fn name_lt(a: Seq<char>, b: Seq<char>) -> bool
    decreases a.len(),
{
    if b.len() == 0 {
        false
    } else if a.len() == 0 {
        true
    } else if a[0] != b[0] {
        a[0] < b[0]
    } else {
        name_lt(a.drop_first(), b.drop_first())
    }
}

/// No name comes before itself.
pub proof fn lemma_name_lt_irreflexive(a: Seq<char>)
    ensures
        !name_lt(a, a),
    decreases a.len(),
{
    if a.len() > 0 {
        lemma_name_lt_irreflexive(a.drop_first());
    }
}

/// Of two different names one comes before the other.
pub proof fn lemma_name_lt_total(a: Seq<char>, b: Seq<char>)
    ensures
        name_lt(a, b) || name_lt(b, a) || a == b,
    decreases a.len(),
{
    if a.len() > 0 && b.len() > 0 && a[0] == b[0] {
        lemma_name_lt_total(a.drop_first(), b.drop_first());
        if a.drop_first() == b.drop_first() {
            assert(a =~= seq![a[0]] + a.drop_first());
            assert(b =~= seq![b[0]] + b.drop_first());
        }
    } else if a.len() == 0 && b.len() == 0 {
        assert(a =~= b);
    }
}

/// The order is transitive.
pub proof fn lemma_name_lt_transitive(a: Seq<char>, b: Seq<char>, c: Seq<char>)
    requires
        name_lt(a, b),
        name_lt(b, c),
    ensures
        name_lt(a, c),
    decreases a.len(),
{
    if a.len() > 0 && b.len() > 0 && c.len() > 0 {
        if a[0] == b[0] && b[0] == c[0] {
            lemma_name_lt_transitive(a.drop_first(), b.drop_first(), c.drop_first());
        }
    }
}

/// Decides the order of two names.
pub fn name_less(a: &str, b: &str) -> (r: bool)
    ensures
        r == name_lt(a@, b@),
{
    let n = a.unicode_len();
    let m = b.unicode_len();
    let mut i: usize = 0;
    proof {
        assert(a@.skip(0) == a@);
        assert(b@.skip(0) == b@);
    }
    while i < n && i < m
        invariant
            n == a@.len(),
            m == b@.len(),
            i <= n,
            i <= m,
            name_lt(a@, b@) == name_lt(a@.skip(i as int), b@.skip(i as int)),
        decreases n - i,
    {
        let x = a.get_char(i);
        let y = b.get_char(i);
        proof {
            let ra = a@.skip(i as int);
            let rb = b@.skip(i as int);
            assert(ra[0] == x && rb[0] == y);
            assert(ra.drop_first() == a@.skip(i + 1));
            assert(rb.drop_first() == b@.skip(i + 1));
        }
        if x != y {
            return x < y;
        }
        i = i + 1;
    }
    i < m
}

} // verus!
