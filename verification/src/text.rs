//! String building blocks shared by the query builders, the messages and the cookies.
use vstd::prelude::*;
use vstd::string::*;

verus! {

/// Decimal digits of a natural number, most significant first, without leading zeros.
pub open spec fn decimal_nat(n: nat) -> Seq<char>
    decreases n,
{
    if n < 10 {
        seq![digit_char(n)]
    } else {
        decimal_nat(n / 10).push(digit_char(n % 10))
    }
}

pub open spec fn digit_char(d: nat) -> char {
    if d == 0 { '0' } else if d == 1 { '1' } else if d == 2 { '2' } else if d == 3 { '3' }
    else if d == 4 { '4' } else if d == 5 { '5' } else if d == 6 { '6' } else if d == 7 { '7' }
    else if d == 8 { '8' } else { '9' }
}

/// Decimal text of an integer as Rust's `Display` writes it: a leading `-` for negatives.
pub open spec fn decimal_int(i: int) -> Seq<char> {
    if i < 0 {
        seq!['-'] + decimal_nat((-i) as nat)
    } else {
        decimal_nat(i as nat)
    }
}

/// Appends one character.
#[verifier::external_body]
pub(crate) fn push_char(s: &mut String, c: char)
    ensures
        final(s)@ == old(s)@.push(c),
{
    s.push(c);
}

fn digit_of(d: u64) -> (c: char)
    requires
        d < 10,
    ensures
        c == digit_char(d as nat),
{
    if d == 0 { '0' } else if d == 1 { '1' } else if d == 2 { '2' } else if d == 3 { '3' }
    else if d == 4 { '4' } else if d == 5 { '5' } else if d == 6 { '6' } else if d == 7 { '7' }
    else if d == 8 { '8' } else { '9' }
}

/// Appends the decimal digits of `n`.
pub fn append_u64(s: &mut String, n: u64)
    ensures
        final(s)@ == old(s)@ + decimal_nat(n as nat),
    decreases n,
{
    if n < 10 {
        push_char(s, digit_of(n));
    } else {
        append_u64(s, n / 10);
        push_char(s, digit_of(n % 10));
    }
}

/// Appends the decimal text of `i`.
pub fn append_i64(s: &mut String, i: i64)
    ensures
        final(s)@ == old(s)@ + decimal_int(i as int),
{
    if i < 0 {
        push_char(s, '-');
        let m: u64 = if i == i64::MIN { 9223372036854775808u64 } else { (-i) as u64 };
        append_u64(s, m);
        assert(old(s)@ + decimal_int(i as int) =~= old(s)@.push('-') + decimal_nat(m as nat));
    } else {
        append_u64(s, i as u64);
    }
}

/// The characters of a string slice, in order.
pub fn chars_of(s: &str) -> (r: Vec<char>)
    ensures
        r@ == s@,
{
    let mut r: Vec<char> = Vec::new();
    for c in it: s.chars()
        invariant
            r@ == it.seq().take(it.index() as int),
            it.seq() == s@,
    {
        r.push(c);
    }
    r
}

} // verus!

verus! {

/// The text inside an optional string.
pub open spec fn opt_view(o: Option<String>) -> Option<Seq<char>> {
    match o {
        Some(s) => Some(s@),
        None => None,
    }
}

/// A copy of an optional string.
pub fn clone_opt(o: &Option<String>) -> (r: Option<String>)
    ensures
        r == *o,
{
    match o {
        Some(s) => Some(s.clone()),
        None => None,
    }
}

/// A string with the text of `s`.
pub fn string_of(s: &str) -> (r: String)
    ensures
        r@ == s@,
{
    String::from_str(s)
}

} // verus!

verus! {

/// The parts written one after another with `sep` between each two, as `join` does.
pub open spec fn join(parts: Seq<Seq<char>>, sep: Seq<char>) -> Seq<char>
    decreases parts.len(),
{
    if parts.len() == 0 {
        Seq::empty()
    } else if parts.len() == 1 {
        parts[0]
    } else {
        join(parts.drop_last(), sep) + sep + parts.last()
    }
}

/// `parts.join(sep)` for string slices.
pub fn join_strs(parts: &[&str], sep: &str) -> (r: String)
    ensures
        r@ == join(parts@.map_values(|p: &str| p@), sep@),
{
    let ghost views = parts@.map_values(|p: &str| p@);
    let mut r = String::new();
    let mut i: usize = 0;
    while i < parts.len()
        invariant
            i <= parts@.len(),
            views == parts@.map_values(|p: &str| p@),
            r@ == join(views.take(i as int), sep@),
        decreases parts@.len() - i,
    {
        assert(views.take(i + 1).drop_last() =~= views.take(i as int));
        if i == 0 {
            r.append(parts[i]);
        } else {
            r.append(sep);
            r.append(parts[i]);
        }
        i = i + 1;
    }
    assert(views.take(parts@.len() as int) =~= views);
    r
}

/// `parts.join(sep)` for owned strings.
pub fn join_strings(parts: &Vec<String>, sep: &str) -> (r: String)
    ensures
        r@ == join(parts@.map_values(|p: String| p@), sep@),
{
    let ghost views = parts@.map_values(|p: String| p@);
    let mut r = String::new();
    let mut i: usize = 0;
    while i < parts.len()
        invariant
            i <= parts@.len(),
            views == parts@.map_values(|p: String| p@),
            r@ == join(views.take(i as int), sep@),
        decreases parts@.len() - i,
    {
        assert(views.take(i + 1).drop_last() =~= views.take(i as int));
        if i == 0 {
            r.append(parts[i].as_str());
        } else {
            r.append(sep);
            r.append(parts[i].as_str());
        }
        i = i + 1;
    }
    assert(views.take(parts@.len() as int) =~= views);
    r
}

} // verus!

verus! {

/// Position of the first `c` in `s`, or the length of `s` where there is none.
pub open spec fn first_index(s: Seq<char>, c: char) -> nat
    decreases s.len(),
{
    if s.len() == 0 {
        0
    } else if s[0] == c {
        0
    } else {
        1 + first_index(s.drop_first(), c)
    }
}

pub proof fn lemma_first_index(s: Seq<char>, c: char)
    ensures
        first_index(s, c) <= s.len(),
        first_index(s, c) < s.len() ==> s[first_index(s, c) as int] == c,
        forall|k: int| 0 <= k < first_index(s, c) ==> s[k] != c,
    decreases s.len(),
{
    if s.len() > 0 && s[0] != c {
        lemma_first_index(s.drop_first(), c);
        assert forall|k: int| 0 <= k < first_index(s, c) implies s[k] != c by {
            if k > 0 {
                assert(s[k] == s.drop_first()[k - 1]);
            }
        }
    }
}

/// `first_index` of a text that is a part free of `c`, then `c`, then anything, is the
/// length of that part.
pub proof fn lemma_first_index_after_free(a: Seq<char>, c: char, b: Seq<char>)
    requires
        !a.contains(c),
    ensures
        first_index(a + seq![c] + b, c) == a.len(),
    decreases a.len(),
{
    let s = a + seq![c] + b;
    if a.len() > 0 {
        assert(s.drop_first() =~= a.drop_first() + seq![c] + b);
        assert(!a.drop_first().contains(c)) by {
            if a.drop_first().contains(c) {
                let k = choose|k: int| 0 <= k < a.drop_first().len() && a.drop_first()[k] == c;
                assert(a[k + 1] == c);
            }
        }
        assert(s[0] == a[0]);
        lemma_first_index_after_free(a.drop_first(), c, b);
    }
}

/// `first_index` of a text free of `c` is its length.
pub proof fn lemma_first_index_free(a: Seq<char>, c: char)
    requires
        !a.contains(c),
    ensures
        first_index(a, c) == a.len(),
    decreases a.len(),
{
    if a.len() > 0 {
        assert(!a.drop_first().contains(c)) by {
            if a.drop_first().contains(c) {
                let k = choose|k: int| 0 <= k < a.drop_first().len() && a.drop_first()[k] == c;
                assert(a[k + 1] == c);
            }
        }
        lemma_first_index_free(a.drop_first(), c);
    }
}

/// The position of the first `c` in `chars` at or after `from`, or the length.
pub fn find_char(chars: &Vec<char>, from: usize, c: char) -> (r: usize)
    requires
        from <= chars@.len(),
    ensures
        r == from + first_index(chars@.subrange(from as int, chars@.len() as int), c),
{
    let mut i = from;
    proof {
        lemma_first_index(chars@.subrange(from as int, chars@.len() as int), c);
    }
    while i < chars.len()
        invariant
            from <= i <= chars@.len(),
            forall|k: int| from <= k < i ==> chars@[k] != c,
        ensures
            from <= i <= chars@.len(),
            forall|k: int| from <= k < i ==> chars@[k] != c,
            i < chars@.len() ==> chars@[i as int] == c,
        decreases chars@.len() - i,
    {
        if chars[i] == c {
            break;
        }
        i = i + 1;
    }
    proof {
        let s = chars@.subrange(from as int, chars@.len() as int);
        let t = chars@.subrange(from as int, i as int);
        let u = chars@.subrange(i as int, chars@.len() as int);
        assert(!t.contains(c)) by {
            if t.contains(c) {
                let k = choose|k: int| 0 <= k < t.len() && t[k] == c;
                assert(chars@[from + k] == c);
            }
        }
        if i < chars.len() {
            assert(s =~= t + seq![c] + u.drop_first());
            lemma_first_index_after_free(t, c, u.drop_first());
        } else {
            assert(s =~= t);
            lemma_first_index_free(t, c);
        }
    }
    i
}

/// A string of the characters `chars[from..to]`.
pub fn substring(chars: &Vec<char>, from: usize, to: usize) -> (r: String)
    requires
        from <= to <= chars@.len(),
    ensures
        r@ == chars@.subrange(from as int, to as int),
{
    let mut r = String::new();
    let mut i = from;
    while i < to
        invariant
            from <= i <= to <= chars@.len(),
            r@ == chars@.subrange(from as int, i as int),
        decreases to - i,
    {
        push_char(&mut r, chars[i]);
        assert(chars@.subrange(from as int, i + 1) =~= chars@.subrange(from as int, i as int).push(
            chars@[i as int],
        ));
        i = i + 1;
    }
    r
}

/// What `split_once(c)` gives: the parts before and after the first `c`, where there is
/// one.
pub open spec fn split_once_spec(s: Seq<char>, c: char) -> Option<(Seq<char>, Seq<char>)> {
    let i = first_index(s, c);
    if i < s.len() {
        Some((s.subrange(0, i as int), s.subrange((i + 1) as int, s.len() as int)))
    } else {
        None
    }
}

/// `s.split_once(c)`, the parts as owned strings.
pub fn split_once(s: &str, c: char) -> (r: Option<(String, String)>)
    ensures
        match r {
            Some((a, b)) => split_once_spec(s@, c) == Some((a@, b@)),
            None => split_once_spec(s@, c) is None,
        },
{
    let chars = chars_of(s);
    let i = find_char(&chars, 0, c);
    assert(chars@.subrange(0, chars@.len() as int) =~= chars@);
    if i < chars.len() {
        let a = substring(&chars, 0, i);
        let b = substring(&chars, i + 1, chars.len());
        Some((a, b))
    } else {
        None
    }
}

/// Splitting `a + c + b` at the first `c` gives back `a` and `b` when `a` holds no `c`.
pub proof fn lemma_split_once_roundtrip(a: Seq<char>, c: char, b: Seq<char>)
    requires
        !a.contains(c),
    ensures
        split_once_spec(a + seq![c] + b, c) == Some((a, b)),
{
    let s = a + seq![c] + b;
    lemma_first_index_after_free(a, c, b);
    assert(s.subrange(0, a.len() as int) =~= a);
    assert(s.subrange((a.len() + 1) as int, s.len() as int) =~= b);
}

} // verus!

verus! {

/// What `str::to_lowercase` gives: the Unicode lower-case mapping of each character.
pub uninterp spec fn unicode_lowercase(s: Seq<char>) -> Seq<char>;

/// `s.to_lowercase()`, std's Unicode lower-casing; the result is the named
/// `unicode_lowercase` of the text.
#[verifier::external_body]
pub(crate) fn to_lowercase(s: &str) -> (r: String)
    ensures
        r@ == unicode_lowercase(s@),
{
    s.to_lowercase()
}

/// Whether two strings hold the same text.
pub fn str_eq(a: &str, b: &str) -> (r: bool)
    ensures
        r == (a@ == b@),
{
    let x = String::from_str(a);
    let y = String::from_str(b);
    x == y
}

} // verus!

verus! {

/// What `split(c).nth(1)` gives: the text between the first `c` and the next one (or the
/// end), where there is a first `c`.
pub open spec fn second_field(s: Seq<char>, c: char) -> Option<Seq<char>> {
    let i = first_index(s, c);
    if i < s.len() {
        let rest = s.subrange((i + 1) as int, s.len() as int);
        Some(rest.subrange(0, first_index(rest, c) as int))
    } else {
        None
    }
}

/// `s.split(c).nth(1)`, as an owned string.
pub fn split_second(s: &str, c: char) -> (r: Option<String>)
    ensures
        opt_view(r) == second_field(s@, c),
{
    let chars = chars_of(s);
    let i = find_char(&chars, 0, c);
    assert(chars@.subrange(0, chars@.len() as int) =~= chars@);
    if i < chars.len() {
        let j = find_char(&chars, i + 1, c);
        proof {
            let rest = chars@.subrange(i + 1, chars@.len() as int);
            lemma_first_index(rest, c);
            assert(rest.subrange(0, first_index(rest, c) as int) =~= chars@.subrange(
                i + 1,
                j as int,
            ));
        }
        Some(substring(&chars, i + 1, j))
    } else {
        None
    }
}

/// Reading `name=value` back at `=` gives the value, where neither part holds `=`.
pub proof fn lemma_second_field_of_pair(name: Seq<char>, value: Seq<char>)
    requires
        !name.contains('='),
        !value.contains('='),
    ensures
        second_field(name + seq!['='] + value, '=') == Some(value),
{
    let s = name + seq!['='] + value;
    lemma_first_index_after_free(name, '=', value);
    let rest = s.subrange((name.len() + 1) as int, s.len() as int);
    assert(rest =~= value);
    lemma_first_index_free(value, '=');
    assert(rest.subrange(0, value.len() as int) =~= value);
}

/// `String::from_utf8`: the text the bytes encode, where they are valid UTF-8.
#[verifier::external_body]
pub(crate) fn utf8_to_string(bytes: &Vec<u8>) -> (r: Option<String>)
    ensures
        r is Some <==> vstd::utf8::valid_utf8(bytes@),
        r matches Some(s) ==> s@ == vstd::utf8::decode_utf8(bytes@),
{
    String::from_utf8(bytes.clone()).ok()
}

} // verus!
