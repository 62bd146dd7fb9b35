//! The grammar of the auth token.
//!
//! A token is `user-<digits>.<expiration>.<signature>`, three segments parted
//! by two dots, and nothing else:
//!
//! * `<digits>` is one or more decimal digits, the user id;
//! * `<expiration>` and `<signature>` are not empty and hold neither a dot
//!   nor a line feed;
//! * nothing stands in front of `user-` and nothing behind the signature.
//!
//! So a token holds exactly two dots and no line feed, and writing its three
//! fields out again gives the token back. Expiration and signature are
//! carried as they stand: neither is checked.

use vstd::prelude::*;
use vstd::std_specs::iter::IteratorSpec;

verus! {

/// The five characters every token starts with.
pub open spec fn token_prefix() -> Seq<char> {
    seq!['u', 's', 'e', 'r', '-']
}

/// The separator between the three segments of a token.
pub open spec fn dot() -> Seq<char> {
    seq!['.']
}

/// Whether `c` is one of `0` to `9`.
pub open spec fn is_digit(c: char) -> bool {
    '0' <= c && c <= '9'
}

/// The number a decimal digit stands for.
pub open spec fn digit_value(c: char) -> nat
    recommends
        is_digit(c),
{
    (c as nat - '0' as nat) as nat
}

/// Whether every character of `s` is a decimal digit.
pub open spec fn all_digits(s: Seq<char>) -> bool {
    forall|i: int| 0 <= i < s.len() ==> is_digit(#[trigger] s[i])
}

/// Whether `s` holds no line feed.
pub open spec fn no_line_feed(s: Seq<char>) -> bool {
    forall|i: int| 0 <= i < s.len() ==> #[trigger] s[i] != '\n'
}

/// Whether `s` holds no dot.
pub open spec fn no_dot(s: Seq<char>) -> bool {
    forall|i: int| 0 <= i < s.len() ==> #[trigger] s[i] != '.'
}

/// Whether `s` can be the second or the third segment of a token: it is not
/// empty and holds neither a dot nor a line feed.
pub open spec fn is_segment(s: Seq<char>) -> bool {
    s.len() > 0 && no_dot(s) && no_line_feed(s)
}

/// The number that a sequence of decimal digits denotes, most significant
/// digit first. Leading zeros do not count.
pub open spec fn decimal_value(digits: Seq<char>) -> nat
    decreases digits.len(),
{
    if digits.len() == 0 {
        0
    } else {
        10 * decimal_value(digits.drop_last()) + digit_value(digits.last())
    }
}

/// The decimal digits of `n` without leading zeros.
pub open spec fn decimal_digits(n: nat) -> Seq<char>
    decreases n,
{
    if n < 10 {
        seq![('0' as nat + n) as char]
    } else {
        decimal_digits(n / 10).push(('0' as nat + n % 10) as char)
    }
}

/// The text `user-<digits>.<expiration>.<signature>`.
pub open spec fn token_text(digits: Seq<char>, expiration: Seq<char>, signature: Seq<char>) -> Seq<
    char,
> {
    token_prefix() + digits + dot() + expiration + dot() + signature
}

/// Whether `token` is the text of `digits`, `expiration` and `signature`,
/// and these are what the three segments of a token may be.
pub open spec fn token_shape(
    token: Seq<char>,
    digits: Seq<char>,
    expiration: Seq<char>,
    signature: Seq<char>,
) -> bool {
    &&& token =~= token_text(digits, expiration, signature)
    &&& digits.len() > 0
    &&& all_digits(digits)
    &&& is_segment(expiration)
    &&& is_segment(signature)
}

/// Whether `token` follows the grammar, whatever the size of its user id.
pub open spec fn is_token(token: Seq<char>) -> bool {
    exists|digits: Seq<char>, expiration: Seq<char>, signature: Seq<char>|
        token_shape(token, digits, expiration, signature)
}

/// The digits, expiration and signature of a token that follows the grammar.
pub open spec fn token_fields(token: Seq<char>) -> (Seq<char>, Seq<char>, Seq<char>) {
    choose|digits: Seq<char>, expiration: Seq<char>, signature: Seq<char>|
        token_shape(token, digits, expiration, signature)
}

/// What parsing `token` gives: user id, expiration and signature where the
/// token follows the grammar and its user id fits 64 bits, nothing otherwise.
pub open spec fn parse_token_spec(token: Seq<char>) -> Option<(u64, Seq<char>, Seq<char>)> {
    let (digits, expiration, signature) = token_fields(token);
    if is_token(token) && decimal_value(digits) <= u64::MAX {
        Some((decimal_value(digits) as u64, expiration, signature))
    } else {
        None
    }
}

/// The user id that parsing `token` gives, where it gives anything.
pub open spec fn user_id_of_token(token: Seq<char>) -> Option<u64> {
    match parse_token_spec(token) {
        Some(fields) => Some(fields.0),
        None => None,
    }
}

/// Where the dot behind `digits` stands in a token.
pub open spec fn first_dot_at(digits: Seq<char>) -> int {
    5 + digits.len() as int
}

/// Where the dot behind `expiration` stands in a token.
pub open spec fn second_dot_at(digits: Seq<char>, expiration: Seq<char>) -> int {
    first_dot_at(digits) + 1 + expiration.len() as int
}

/// The grammar by positions: `d` is the index of the dot behind the digits
/// and `k` that of the dot behind the expiration; the signature runs from
/// there to the end.
pub open spec fn shape_at(t: Seq<char>, d: int, k: int) -> bool {
    &&& 5 < d && d + 1 < k && k + 1 < t.len()
    &&& t.subrange(0, 5) =~= token_prefix()
    &&& forall|i: int| 5 <= i < d ==> is_digit(#[trigger] t[i])
    &&& t[d] == '.'
    &&& t[k] == '.'
    &&& forall|i: int| d < i < t.len() ==> #[trigger] t[i] != '\n'
    &&& forall|i: int| d < i < t.len() && i != k ==> #[trigger] t[i] != '.'
}

/// A token whose dots stand at `d` and `k` has the characters between them
/// as its fields.
pub proof fn lemma_shape_at_gives_shape(t: Seq<char>, d: int, k: int)
    requires
        shape_at(t, d, k),
    ensures
        token_shape(
            t,
            t.subrange(5, d),
            t.subrange(d + 1, k),
            t.subrange(k + 1, t.len() as int),
        ),
{
    let l = t.len() as int;
    let digits = t.subrange(5, d);
    let expiration = t.subrange(d + 1, k);
    let signature = t.subrange(k + 1, l);
    let text = token_text(digits, expiration, signature);
    assert(text.len() == l);
    assert(t =~= text) by {
        assert forall|i: int| 0 <= i < l implies t[i] == text[i] by {
            if i < 5 {
                assert(t.subrange(0, 5)[i] == t[i]);
            }
        }
    }
    assert forall|i: int| 0 <= i < signature.len() implies #[trigger] signature[i] != '.'
        && signature[i] != '\n' by {
        assert(signature[i] == t[k + 1 + i]);
    }
    assert forall|i: int| 0 <= i < expiration.len() implies #[trigger] expiration[i] != '.'
        && expiration[i] != '\n' by {
        assert(expiration[i] == t[d + 1 + i]);
    }
}

/// The fields of a token fix the positions of its dots.
pub proof fn lemma_shape_gives_shape_at(
    t: Seq<char>,
    digits: Seq<char>,
    expiration: Seq<char>,
    signature: Seq<char>,
)
    requires
        token_shape(t, digits, expiration, signature),
    ensures
        shape_at(t, first_dot_at(digits), second_dot_at(digits, expiration)),
        t.len() == second_dot_at(digits, expiration) + 1 + signature.len(),
        digits =~= t.subrange(5, first_dot_at(digits)),
        expiration =~= t.subrange(
            first_dot_at(digits) + 1,
            second_dot_at(digits, expiration),
        ),
        signature =~= t.subrange(second_dot_at(digits, expiration) + 1, t.len() as int),
{
    let d = first_dot_at(digits);
    let k = second_dot_at(digits, expiration);
    let l = t.len() as int;
    assert forall|i: int| 5 <= i < d implies is_digit(#[trigger] t[i]) by {
        assert(t[i] == digits[i - 5]);
    }
    assert forall|i: int| d < i < l implies #[trigger] t[i] != '\n' by {
        if i < k {
            assert(t[i] == expiration[i - d - 1]);
        } else if i > k {
            assert(t[i] == signature[i - k - 1]);
        }
    }
    assert forall|i: int| d < i < l && i != k implies #[trigger] t[i] != '.' by {
        if i < k {
            assert(t[i] == expiration[i - d - 1]);
        } else {
            assert(t[i] == signature[i - k - 1]);
        }
    }
    assert(t.subrange(0, 5) =~= token_prefix());
}

/// A character sequence has its dots at one place at most.
pub proof fn lemma_shape_at_unique(t: Seq<char>, d1: int, k1: int, d2: int, k2: int)
    requires
        shape_at(t, d1, k1),
        shape_at(t, d2, k2),
    ensures
        d1 == d2,
        k1 == k2,
{
    if d1 < d2 {
        assert(is_digit(t[d1]));
    }
    if d2 < d1 {
        assert(is_digit(t[d2]));
    }
    if k1 != k2 {
        assert(t[k2] != '.');
    }
}

/// A token has one reading: its digits, expiration and signature are fixed
/// by its characters.
pub proof fn lemma_token_shape_unique(
    token: Seq<char>,
    digits1: Seq<char>,
    expiration1: Seq<char>,
    signature1: Seq<char>,
    digits2: Seq<char>,
    expiration2: Seq<char>,
    signature2: Seq<char>,
)
    requires
        token_shape(token, digits1, expiration1, signature1),
        token_shape(token, digits2, expiration2, signature2),
    ensures
        digits1 == digits2,
        expiration1 == expiration2,
        signature1 == signature2,
{
    lemma_shape_gives_shape_at(token, digits1, expiration1, signature1);
    lemma_shape_gives_shape_at(token, digits2, expiration2, signature2);
    lemma_shape_at_unique(
        token,
        first_dot_at(digits1),
        second_dot_at(digits1, expiration1),
        first_dot_at(digits2),
        second_dot_at(digits2, expiration2),
    );
}

/// What parsing gives for a token whose reading is known: its fields, with
/// the digits as a number, unless that number is beyond 64 bits.
pub proof fn lemma_parse_of_shape(
    token: Seq<char>,
    digits: Seq<char>,
    expiration: Seq<char>,
    signature: Seq<char>,
)
    requires
        token_shape(token, digits, expiration, signature),
    ensures
        is_token(token),
        token_fields(token) == (digits, expiration, signature),
        decimal_value(digits) <= u64::MAX ==> parse_token_spec(token) == Some(
            (decimal_value(digits) as u64, expiration, signature),
        ),
        decimal_value(digits) > u64::MAX ==> parse_token_spec(token) is None,
{
    let (d, e, s) = token_fields(token);
    lemma_token_shape_unique(token, d, e, s, digits, expiration, signature);
}

/// A sequence of characters that does not follow the grammar parses to
/// nothing.
pub proof fn lemma_parse_of_malformed(token: Seq<char>)
    requires
        !is_token(token),
    ensures
        parse_token_spec(token) is None,
{
}

/// Digits in front of a number never make it smaller: the value of a prefix
/// of a digit sequence is at most the value of the whole.
pub proof fn lemma_decimal_value_prefix(digits: Seq<char>, n: int)
    requires
        0 <= n <= digits.len(),
    ensures
        decimal_value(digits.take(n)) <= decimal_value(digits),
    decreases digits.len(),
{
    if n == digits.len() {
        assert(digits.take(n) =~= digits);
    } else {
        lemma_decimal_value_prefix(digits.drop_last(), n);
        assert(digits.drop_last().take(n) =~= digits.take(n));
    }
}

/// Appending one digit multiplies the value by ten and adds the digit.
pub proof fn lemma_decimal_value_push(digits: Seq<char>, c: char)
    ensures
        decimal_value(digits.push(c)) == 10 * decimal_value(digits) + digit_value(c),
{
    assert(digits.push(c).drop_last() =~= digits);
}

/// The decimal digits of a number are digits, at least one, and denote that
/// number.
pub proof fn lemma_decimal_digits(n: nat)
    ensures
        decimal_digits(n).len() > 0,
        all_digits(decimal_digits(n)),
        decimal_value(decimal_digits(n)) == n,
    decreases n,
{
    if n < 10 {
        let s = decimal_digits(n);
        assert(s.drop_last() =~= Seq::<char>::empty());
        assert(decimal_value(s.drop_last()) == 0);
    } else {
        lemma_decimal_digits(n / 10);
        let c = ('0' as nat + n % 10) as char;
        lemma_decimal_value_push(decimal_digits(n / 10), c);
        assert(is_digit(c));
    }
}

/// Whether `c` is one of `0` to `9`.
pub fn is_decimal_digit(c: char) -> (b: bool)
    ensures
        b == is_digit(c),
{
    '0' <= c && c <= '9'
}

/// The characters of `s`, one by one.
pub fn chars_of(s: &str) -> (chars: Vec<char>)
    ensures
        chars@ == s@,
{
    let mut chars: Vec<char> = Vec::new();
    let source = s.chars();
    proof {
        vstd::string::axiom_spec_iter(s);
    }
    for c in it: source
        invariant
            it.seq() == s@,
            chars@ == s@.take(it.index()),
    {
        chars.push(c);
        assert(s@.take(it.index() + 1) =~= s@.take(it.index()).push(c));
    }
    assert(s@.take(s@.len() as int) =~= s@);
    chars
}

/// Where the two dots of a token stand in `t`, with its user id.
///
/// Gives the user id, the index of the dot behind the digits and the index
/// of the dot behind the expiration; nothing where `t` does not follow the
/// grammar or the user id is beyond 64 bits.
pub fn locate_fields(t: &Vec<char>) -> (r: Option<(u64, usize, usize)>)
    ensures
        match r {
            Some((id, d, k)) => shape_at(t@, d as int, k as int) && decimal_value(
                t@.subrange(5, d as int),
            ) == id,
            None => parse_token_spec(t@) is None,
        },
{
    let n = t.len();
    if n < 5 || t[0] != 'u' || t[1] != 's' || t[2] != 'e' || t[3] != 'r' || t[4] != '-' {
        proof {
            lemma_no_prefix(t@);
        }
        return None;
    }
    assert(t@.subrange(0, 5) =~= token_prefix());
    let mut i: usize = 5;
    let mut id: u64 = 0;
    assert(t@.subrange(5, 5) =~= Seq::<char>::empty());
    while i < n && is_decimal_digit(t[i])
        invariant
            n == t.len(),
            5 <= i <= n,
            forall|j: int| 5 <= j < i ==> is_digit(#[trigger] t@[j]),
            id == decimal_value(t@.subrange(5, i as int)),
        decreases n - i,
    {
        let digit: u64 = (t[i] as u32 - '0' as u32) as u64;
        proof {
            assert(t@.subrange(5, i + 1).drop_last() =~= t@.subrange(5, i as int));
            assert(decimal_value(t@.subrange(5, i + 1)) == 10 * id + digit);
        }
        let next = match id.checked_mul(10) {
            Some(tens) => tens.checked_add(digit),
            None => None,
        };
        match next {
            Some(v) => {
                id = v;
            },
            None => {
                proof {
                    lemma_overflowing_digits(t@, i + 1);
                }
                return None;
            },
        }
        i += 1;
    }
    if i == 5 || i >= n || t[i] != '.' {
        proof {
            lemma_no_first_dot(t@, i as int);
        }
        return None;
    }
    let d = i;
    // Index of the one dot seen behind `d`; `d` itself while none was seen.
    let mut k: usize = d;
    let mut j: usize = d + 1;
    while j < n
        invariant
            n == t.len(),
            5 < d < j <= n,
            d <= k < j,
            forall|m: int| 5 <= m < d ==> is_digit(#[trigger] t@[m]),
            t@[d as int] == '.',
            t@[k as int] == '.',
            forall|m: int| d < m < j ==> #[trigger] t@[m] != '\n',
            forall|m: int| d < m < j && m != k ==> #[trigger] t@[m] != '.',
        decreases n - j,
    {
        let c = t[j];
        if c == '\n' || (c == '.' && k != d) {
            proof {
                lemma_bad_rest(t@, d as int, k as int, j as int);
            }
            return None;
        }
        if c == '.' {
            k = j;
        }
        j += 1;
    }
    if k <= d + 1 || k + 1 >= n {
        proof {
            lemma_misplaced_second_dot(t@, d as int, k as int);
        }
        return None;
    }
    Some((id, d, k))
}

/// A sequence that does not start with the prefix is no token.
proof fn lemma_no_prefix(t: Seq<char>)
    requires
        t.len() < 5 || t.subrange(0, 5) != token_prefix(),
    ensures
        !is_token(t),
        parse_token_spec(t) is None,
{
    if is_token(t) {
        let (digits, expiration, signature) = token_fields(t);
        lemma_shape_gives_shape_at(t, digits, expiration, signature);
    }
}

/// A sequence whose digits, counted from index 5, end at `i` is no token
/// where there is no digit at all or no dot at `i`.
proof fn lemma_no_first_dot(t: Seq<char>, i: int)
    requires
        5 <= i <= t.len(),
        forall|j: int| 5 <= j < i ==> is_digit(#[trigger] t[j]),
        i == t.len() || !is_digit(t[i]),
        i == 5 || i == t.len() || t[i] != '.',
    ensures
        !is_token(t),
        parse_token_spec(t) is None,
{
    if is_token(t) {
        let (digits, expiration, signature) = token_fields(t);
        lemma_shape_gives_shape_at(t, digits, expiration, signature);
        let d = first_dot_at(digits);
        if d < i {
            assert(is_digit(t[d]));
        }
    }
}

/// Where the digits up to `i` already denote a number beyond 64 bits, there
/// is nothing to parse.
proof fn lemma_overflowing_digits(t: Seq<char>, i: int)
    requires
        5 <= i <= t.len(),
        forall|j: int| 5 <= j < i ==> is_digit(#[trigger] t[j]),
        decimal_value(t.subrange(5, i)) > u64::MAX,
    ensures
        parse_token_spec(t) is None,
{
    if is_token(t) {
        let (digits, expiration, signature) = token_fields(t);
        lemma_shape_gives_shape_at(t, digits, expiration, signature);
        let d = first_dot_at(digits);
        if d < i {
            assert(is_digit(t[d]));
        }
        lemma_decimal_value_prefix(digits, i - 5);
        assert(digits.take(i - 5) =~= t.subrange(5, i));
    }
}

/// With digits from index 5 and the first dot at `d`, the dot of a token's
/// reading stands at `d` too.
proof fn lemma_first_dot_is_fixed(t: Seq<char>, d: int, d2: int, k2: int)
    requires
        5 < d < t.len(),
        forall|j: int| 5 <= j < d ==> is_digit(#[trigger] t[j]),
        t[d] == '.',
        shape_at(t, d2, k2),
    ensures
        d2 == d,
{
    if d2 < d {
        assert(is_digit(t[d2]));
    }
    if d < d2 {
        assert(is_digit(t[d]));
    }
}

/// With the first dot at `d`, a sequence is no token where it holds a line
/// feed at `j`, or a dot at `j` beside another at `k`, both behind `d`.
proof fn lemma_bad_rest(t: Seq<char>, d: int, k: int, j: int)
    requires
        5 < d < j < t.len(),
        forall|m: int| 5 <= m < d ==> is_digit(#[trigger] t[m]),
        t[d] == '.',
        t[j] == '\n' || (t[j] == '.' && d < k < j && t[k] == '.'),
    ensures
        !is_token(t),
        parse_token_spec(t) is None,
{
    if is_token(t) {
        let (digits, expiration, signature) = token_fields(t);
        lemma_shape_gives_shape_at(t, digits, expiration, signature);
        let k2 = second_dot_at(digits, expiration);
        lemma_first_dot_is_fixed(t, d, first_dot_at(digits), k2);
        assert(t[j] != '\n');
        if k2 != j {
            assert(t[j] != '.');
        } else {
            assert(t[k] != '.');
        }
    }
}

/// With the first dot at `d`, a sequence is no token where its only other
/// dot, at `k`, stands right behind `d` or at the very end, or where there
/// is no other dot (`k` is `d` then).
proof fn lemma_misplaced_second_dot(t: Seq<char>, d: int, k: int)
    requires
        5 < d <= k < t.len(),
        forall|m: int| 5 <= m < d ==> is_digit(#[trigger] t[m]),
        t[d] == '.',
        forall|m: int| d < m < t.len() && m != k ==> #[trigger] t[m] != '.',
        k <= d + 1 || k + 1 >= t.len(),
    ensures
        !is_token(t),
        parse_token_spec(t) is None,
{
    if is_token(t) {
        let (digits, expiration, signature) = token_fields(t);
        lemma_shape_gives_shape_at(t, digits, expiration, signature);
        let k2 = second_dot_at(digits, expiration);
        lemma_first_dot_is_fixed(t, d, first_dot_at(digits), k2);
        if k2 != k {
            assert(t[k2] != '.');
        }
    }
}

/// The user id of a valid token is exactly the number that its digits
/// denote.
///
/// A token that follows the grammar and starts with `user-`, the digits
/// `digits` and a dot has `digits` as its first field. Parsing it gives the
/// value of `digits` as the user id, and nothing where that value is beyond
/// 64 bits.
pub proof fn lemma_valid_token_user_id(token: Seq<char>, digits: Seq<char>, rest: Seq<char>)
    requires
        is_token(token),
        all_digits(digits),
        token == token_prefix() + digits + dot() + rest,
    ensures
        token_fields(token).0 == digits,
        decimal_value(digits) <= u64::MAX ==> user_id_of_token(token) == Some(
            decimal_value(digits) as u64,
        ),
        decimal_value(digits) > u64::MAX ==> parse_token_spec(token) is None,
{
    let (ds, e, s) = token_fields(token);
    lemma_shape_gives_shape_at(token, ds, e, s);
    let d = first_dot_at(ds);
    let d0 = first_dot_at(digits);
    assert(token[d0] == '.');
    assert forall|i: int| 5 <= i < d0 implies is_digit(#[trigger] token[i]) by {
        assert(token[i] == digits[i - 5]);
    }
    if d < d0 {
        assert(is_digit(token[d]));
    }
    if d0 < d {
        assert(is_digit(token[d0]));
    }
    assert(ds =~= digits) by {
        assert forall|i: int| 0 <= i < ds.len() implies ds[i] == digits[i] by {
            assert(token.subrange(5, d)[i] == token[i + 5]);
        }
    }
}

/// Three segments make a token, and the token has them as its fields.
///
/// With at least one digit and an expiration and a signature that are not
/// empty and hold neither dot nor line feed,
/// `user-<digits>.<expiration>.<signature>` follows the grammar and parses
/// to the value of the digits, the expiration and the signature.
pub proof fn lemma_three_parts_make_a_token(
    digits: Seq<char>,
    expiration: Seq<char>,
    signature: Seq<char>,
)
    requires
        digits.len() > 0,
        all_digits(digits),
        is_segment(expiration),
        is_segment(signature),
    ensures
        is_token(token_text(digits, expiration, signature)),
        token_fields(token_text(digits, expiration, signature)) == (
            digits,
            expiration,
            signature,
        ),
        decimal_value(digits) <= u64::MAX ==> parse_token_spec(
            token_text(digits, expiration, signature),
        ) == Some((decimal_value(digits) as u64, expiration, signature)),
        decimal_value(digits) > u64::MAX ==> parse_token_spec(
            token_text(digits, expiration, signature),
        ) is None,
{
    let t = token_text(digits, expiration, signature);
    assert(token_shape(t, digits, expiration, signature));
    lemma_parse_of_shape(t, digits, expiration, signature);
}

/// Writing a token and parsing it gives back what was written.
///
/// For a user id `user_id` and an expiration and a signature that are not
/// empty and hold neither dot nor line feed, the text
/// `user-<user_id>.<expiration>.<signature>` parses to exactly these three.
pub proof fn lemma_parse_token_text(user_id: u64, expiration: Seq<char>, signature: Seq<char>)
    requires
        is_segment(expiration),
        is_segment(signature),
    ensures
        parse_token_spec(token_text(decimal_digits(user_id as nat), expiration, signature))
            == Some((user_id, expiration, signature)),
{
    lemma_decimal_digits(user_id as nat);
    lemma_three_parts_make_a_token(decimal_digits(user_id as nat), expiration, signature);
}

/// Parsing a token and writing it gives back the token.
///
/// Where parsing `token` gives a user id, an expiration and a signature,
/// the token is `user-<digits>.<expiration>.<signature>` for digits that
/// denote the user id: nothing of the token is dropped, and nothing is read
/// that is not in it.
pub proof fn lemma_parsed_token_is_its_text(token: Seq<char>)
    requires
        parse_token_spec(token) is Some,
    ensures
        ({
            let (user_id, expiration, signature) = parse_token_spec(token)->0;
            let digits = token_fields(token).0;
            &&& token == token_text(digits, expiration, signature)
            &&& digits.len() > 0
            &&& all_digits(digits)
            &&& decimal_value(digits) == user_id
        }),
{
}

/// A token holds two dots, one behind each of its first two segments, and
/// no line feed. A text with a third dot or with a line feed is no token.
pub proof fn lemma_token_has_two_dots_and_no_line_feed(token: Seq<char>)
    requires
        is_token(token),
    ensures
        ({
            let (digits, expiration, signature) = token_fields(token);
            forall|i: int|
                0 <= i < token.len() && #[trigger] token[i] == '.' ==> i == first_dot_at(digits)
                    || i == second_dot_at(digits, expiration)
        }),
        no_line_feed(token),
{
    let (digits, expiration, signature) = token_fields(token);
    lemma_shape_gives_shape_at(token, digits, expiration, signature);
    let d = first_dot_at(digits);
    assert forall|i: int| 0 <= i < d implies #[trigger] token[i] != '.' && token[i] != '\n' by {
        if i < 5 {
            assert(token.subrange(0, 5)[i] == token[i]);
        } else {
            assert(is_digit(token[i]));
        }
    }
}

} // verus!
