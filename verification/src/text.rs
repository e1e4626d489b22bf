use vstd::prelude::*;
use vstd::string::*;

verus! {

/// The white-space characters, as the standard library's `trim` and
/// `split_whitespace` treat them (the Unicode white-space set).
pub open spec fn is_space_char(c: char) -> bool {
    let u = c as u32;
    u == 0x20 || u == 0x09 || u == 0x0A || u == 0x0B || u == 0x0C || u == 0x0D || u == 0x85
        || u == 0xA0 || u == 0x1680 || (0x2000 <= u && u <= 0x200A) || u == 0x2028 || u == 0x2029
        || u == 0x202F || u == 0x205F || u == 0x3000
}

/// Decides [`is_space_char`].
pub fn is_space(c: char) -> (r: bool)
    ensures
        r == is_space_char(c),
{
    let u = c as u32;
    u == 0x20 || u == 0x09 || u == 0x0A || u == 0x0B || u == 0x0C || u == 0x0D || u == 0x85
        || u == 0xA0 || u == 0x1680 || (0x2000 <= u && u <= 0x200A) || u == 0x2028 || u == 0x2029
        || u == 0x202F || u == 0x205F || u == 0x3000
}

/// The text with leading and trailing white space removed.
pub open spec fn trim_of(s: Seq<char>) -> Seq<char>
    decreases s.len(),
{
    if s.len() == 0 {
        s
    } else if is_space_char(s.first()) {
        trim_of(s.drop_first())
    } else if is_space_char(s.last()) {
        trim_of(s.drop_last())
    } else {
        s
    }
}

/// Trimming text that is entirely white space leaves nothing.
pub proof fn lemma_trim_of_all_space(s: Seq<char>)
    requires
        forall|j: int| 0 <= j < s.len() ==> is_space_char(s[j]),
    ensures
        trim_of(s) == Seq::<char>::empty(),
    decreases s.len(),
{
    if s.len() == 0 {
        assert(trim_of(s) =~= Seq::<char>::empty());
    } else {
        lemma_trim_of_all_space(s.drop_first());
    }
}

/// Trimming keeps exactly the segment from the first to the last character
/// that is not white space.
pub proof fn lemma_trim_of_subrange(s: Seq<char>, a: int, b: int)
    requires
        0 <= a < b <= s.len(),
        forall|j: int| 0 <= j < a ==> is_space_char(s[j]),
        forall|j: int| b <= j < s.len() ==> is_space_char(s[j]),
        !is_space_char(s[a]),
        !is_space_char(s[b - 1]),
    ensures
        trim_of(s) == s.subrange(a, b),
    decreases s.len(),
{
    if a > 0 {
        lemma_trim_of_subrange(s.drop_first(), a - 1, b - 1);
        assert(s.drop_first().subrange(a - 1, b - 1) =~= s.subrange(a, b));
    } else if b < s.len() {
        lemma_trim_of_subrange(s.drop_last(), a, b);
        assert(s.drop_last().subrange(a, b) =~= s.subrange(a, b));
    } else {
        assert(trim_of(s) =~= s.subrange(a, b));
    }
}

/// Removes leading and trailing white space, exactly as [`trim_of`] says.
pub fn trim(s: &str) -> (r: &str)
    ensures
        r@ == trim_of(s@),
{
    let n: usize = s.unicode_len();
    let mut a: usize = 0;
    while a < n && is_space(s.get_char(a))
        invariant
            a <= n,
            n == s@.len(),
            forall|j: int| 0 <= j < a ==> is_space_char(s@[j]),
        decreases n - a,
    {
        a = a + 1;
    }
    if a == n {
        proof {
            lemma_trim_of_all_space(s@);
        }
        let r = s.substring_char(n, n);
        proof {
            assert(r@ =~= Seq::<char>::empty());
        }
        r
    } else {
        let mut b: usize = n;
        while is_space(s.get_char(b - 1))
            invariant
                n == s@.len(),
                a < b <= n,
                !is_space_char(s@[a as int]),
                forall|j: int| b <= j < n ==> is_space_char(s@[j]),
            decreases b,
        {
            b = b - 1;
        }
        proof {
            lemma_trim_of_subrange(s@, a as int, b as int);
        }
        s.substring_char(a, b)
    }
}

/// The character for one decimal digit value.
pub open spec fn decimal_digit(d: nat) -> char {
    if d == 0 {
        '0'
    } else if d == 1 {
        '1'
    } else if d == 2 {
        '2'
    } else if d == 3 {
        '3'
    } else if d == 4 {
        '4'
    } else if d == 5 {
        '5'
    } else if d == 6 {
        '6'
    } else if d == 7 {
        '7'
    } else if d == 8 {
        '8'
    } else {
        '9'
    }
}

/// The decimal rendering of a number, most significant digit first, with no
/// sign and no leading zero except for the number zero itself.
pub open spec fn dec_str_of(n: nat) -> Seq<char>
    decreases n,
{
    if n < 10 {
        seq![decimal_digit(n)]
    } else {
        dec_str_of(n / 10).push(decimal_digit(n % 10))
    }
}

fn digit_str(d: usize) -> (r: &'static str)
    requires
        d < 10,
    ensures
        r@ == seq![decimal_digit(d as nat)],
{
    proof {
        reveal_strlit("0");
        reveal_strlit("1");
        reveal_strlit("2");
        reveal_strlit("3");
        reveal_strlit("4");
        reveal_strlit("5");
        reveal_strlit("6");
        reveal_strlit("7");
        reveal_strlit("8");
        reveal_strlit("9");
    }
    let r: &'static str = if d == 0 {
        "0"
    } else if d == 1 {
        "1"
    } else if d == 2 {
        "2"
    } else if d == 3 {
        "3"
    } else if d == 4 {
        "4"
    } else if d == 5 {
        "5"
    } else if d == 6 {
        "6"
    } else if d == 7 {
        "7"
    } else if d == 8 {
        "8"
    } else {
        "9"
    };
    proof {
        assert(r@ =~= seq![decimal_digit(d as nat)]);
    }
    r
}

/// Renders a number in decimal, as [`dec_str_of`] says.
pub fn usize_to_string(n: usize) -> (s: String)
    ensures
        s@ == dec_str_of(n as nat),
    decreases n,
{
    if n < 10 {
        String::from_str(digit_str(n))
    } else {
        let s = usize_to_string(n / 10);
        let s = s.concat(digit_str(n % 10));
        proof {
            assert(s@ =~= dec_str_of(n as nat));
        }
        s
    }
}

/// Whether a character is a decimal digit.
pub open spec fn is_digit_char(c: char) -> bool {
    0x30 <= c as u32 <= 0x39
}

/// The value of one decimal digit character.
pub open spec fn digit_val(c: char) -> nat {
    if is_digit_char(c) {
        (c as u32 - 0x30) as nat
    } else {
        0
    }
}

/// Whether every character of the text is a decimal digit.
pub open spec fn all_digits(s: Seq<char>) -> bool {
    forall|j: int| 0 <= j < s.len() ==> is_digit_char(s[j])
}

/// The numeric value of a digit string, most significant digit first.
pub open spec fn digits_val(s: Seq<char>) -> nat
    decreases s.len(),
{
    if s.len() == 0 {
        0
    } else {
        digits_val(s.drop_last()) * 10 + digit_val(s.last())
    }
}

/// A digit string is worth at least any of its prefixes.
pub proof fn lemma_digits_val_take(s: Seq<char>, k: int)
    requires
        0 <= k <= s.len(),
    ensures
        digits_val(s.take(k)) <= digits_val(s),
    decreases s.len(),
{
    if k == s.len() {
        assert(s.take(k) =~= s);
    } else {
        lemma_digits_val_take(s.drop_last(), k);
        assert(s.drop_last().take(k) =~= s.take(k));
    }
}

/// The digit part of an unsigned decimal text: everything after an optional
/// leading '+'.
pub open spec fn decimal_body_of(s: Seq<char>) -> Seq<char> {
    if s.len() > 0 && s.first() == '+' {
        s.drop_first()
    } else {
        s
    }
}

/// The number a text denotes under the standard library's unsigned decimal
/// grammar: an optional leading '+', then one or more digits, whose value
/// must fit the machine word; anything else does not parse.
pub open spec fn parse_usize_spec(s: Seq<char>) -> Option<nat> {
    let body = decimal_body_of(s);
    if body.len() > 0 && all_digits(body) && digits_val(body) <= usize::MAX as nat {
        Some(digits_val(body))
    } else {
        None
    }
}

/// Parses an unsigned decimal number, exactly as [`parse_usize_spec`] says:
/// `Some` if and only if the text is well-formed and its value fits.
pub fn parse_usize(s: &str) -> (r: Option<usize>)
    ensures
        match r {
            Some(v) => parse_usize_spec(s@) == Some(v as nat),
            None => parse_usize_spec(s@) is None,
        },
{
    let n: usize = s.unicode_len();
    let start: usize = if n > 0 && s.get_char(0) == '+' {
        1
    } else {
        0
    };
    let ghost body = decimal_body_of(s@);
    proof {
        assert(body =~= s@.subrange(start as int, n as int));
    }
    if start == n {
        return None;
    }
    let mut acc: usize = 0;
    let mut i: usize = start;
    proof {
        assert(s@.subrange(start as int, start as int) =~= Seq::<char>::empty());
    }
    while i < n
        invariant
            start <= i <= n,
            n == s@.len(),
            body == decimal_body_of(s@),
            body == s@.subrange(start as int, n as int),
            all_digits(s@.subrange(start as int, i as int)),
            acc == digits_val(s@.subrange(start as int, i as int)),
        decreases n - i,
    {
        let c = s.get_char(i);
        let u = c as u32;
        if u < 0x30 || u > 0x39 {
            proof {
                assert(body[i - start] == s@[i as int]);
                assert(!all_digits(body));
            }
            return None;
        }
        let d = (u - 0x30) as usize;
        proof {
            assert(s@.subrange(start as int, i as int + 1).drop_last() =~= s@.subrange(
                start as int,
                i as int,
            ));
            assert(s@.subrange(start as int, i as int + 1).last() == s@[i as int]);
        }
        if acc > (usize::MAX - d) / 10 {
            proof {
                assert(acc * 10 + d > usize::MAX as int);
                let pre = s@.subrange(start as int, i as int + 1);
                assert(digits_val(pre) == acc * 10 + d);
                if all_digits(body) {
                    lemma_digits_val_take(body, i + 1 - start);
                    assert(body.take(i + 1 - start) =~= pre);
                }
            }
            return None;
        }
        proof {
            let m = (usize::MAX - d) as int;
            assert(acc * 10 <= m / 10 * 10);
            assert(m / 10 * 10 <= m);
        }
        acc = acc * 10 + d;
        i = i + 1;
    }
    proof {
        assert(body =~= s@.subrange(start as int, n as int));
        assert(parse_usize_spec(s@) == Some(acc as nat));
    }
    Some(acc)
}

/// Decides whether two texts are the same character sequence.
pub fn str_equal(a: &str, b: &str) -> (r: bool)
    ensures
        r == (a@ == b@),
{
    let n: usize = a.unicode_len();
    if n != b.unicode_len() {
        return false;
    }
    let mut i: usize = 0;
    while i < n
        invariant
            i <= n,
            n == a@.len(),
            n == b@.len(),
            forall|j: int| 0 <= j < i ==> a@[j] == b@[j],
        decreases n - i,
    {
        if a.get_char(i) != b.get_char(i) {
            return false;
        }
        i = i + 1;
    }
    proof {
        assert(a@ =~= b@);
    }
    true
}

/// The views of a sequence of owned strings.
pub open spec fn strings_view(v: Seq<String>) -> Seq<Seq<char>> {
    v.map_values(|x: String| x@)
}

/// One pass of white-space splitting: `cur` is the word being read, `acc`
/// the words already read. A white-space character closes the current word;
/// anything else extends it.
pub open spec fn split_ws(s: Seq<char>, cur: Seq<char>, acc: Seq<Seq<char>>) -> Seq<Seq<char>>
    decreases s.len(),
{
    if s.len() == 0 {
        if cur.len() == 0 {
            acc
        } else {
            acc.push(cur)
        }
    } else if is_space_char(s.first()) {
        if cur.len() == 0 {
            split_ws(s.drop_first(), cur, acc)
        } else {
            split_ws(s.drop_first(), Seq::<char>::empty(), acc.push(cur))
        }
    } else {
        split_ws(s.drop_first(), cur.push(s.first()), acc)
    }
}

/// The white-space-separated words of a text, in order.
pub open spec fn words_of(s: Seq<char>) -> Seq<Seq<char>> {
    split_ws(s, Seq::<char>::empty(), Seq::<Seq<char>>::empty())
}

/// Reading a run of non-space characters extends the current word.
proof fn lemma_split_ws_word_prefix(s: Seq<char>, cur: Seq<char>, acc: Seq<Seq<char>>, k: int)
    requires
        0 <= k <= s.len(),
        forall|j: int| 0 <= j < k ==> !is_space_char(s[j]),
    ensures
        split_ws(s, cur, acc) == split_ws(s.skip(k), cur + s.take(k), acc),
    decreases k,
{
    if k == 0 {
        assert(s.skip(0) =~= s);
        assert(cur + s.take(0) =~= cur);
    } else {
        lemma_split_ws_word_prefix(s.drop_first(), cur.push(s.first()), acc, k - 1);
        assert(s.drop_first().skip(k - 1) =~= s.skip(k));
        assert(cur.push(s.first()) + s.drop_first().take(k - 1) =~= cur + s.take(k));
    }
}

/// At a word boundary, the current word moves into the accumulator.
proof fn lemma_split_ws_flush(s: Seq<char>, cur: Seq<char>, acc: Seq<Seq<char>>)
    requires
        cur.len() > 0,
        s.len() == 0 || is_space_char(s.first()),
    ensures
        split_ws(s, cur, acc) == split_ws(s, Seq::<char>::empty(), acc.push(cur)),
{
}

/// Splits a text into its white-space-separated words, as [`words_of`] says.
pub fn split_words(s: &str) -> (words: Vec<String>)
    ensures
        strings_view(words@) == words_of(s@),
{
    let n: usize = s.unicode_len();
    let mut out: Vec<String> = Vec::new();
    let mut i: usize = 0;
    proof {
        assert(s@.skip(0) =~= s@);
        assert(strings_view(out@) =~= Seq::<Seq<char>>::empty());
    }
    while i < n
        invariant
            i <= n,
            n == s@.len(),
            split_ws(s@.skip(i as int), Seq::<char>::empty(), strings_view(out@)) == words_of(
                s@,
            ),
        decreases n - i,
    {
        if is_space(s.get_char(i)) {
            proof {
                assert(s@.skip(i as int).drop_first() =~= s@.skip(i as int + 1));
            }
            i = i + 1;
        } else {
            let start = i;
            i = i + 1;
            while i < n && !is_space(s.get_char(i))
                invariant
                    start < i <= n,
                    n == s@.len(),
                    forall|j: int| start <= j < i ==> !is_space_char(s@[j]),
                    split_ws(s@.skip(start as int), Seq::<char>::empty(), strings_view(out@))
                        == words_of(s@),
                decreases n - i,
            {
                i = i + 1;
            }
            let w = String::from_str(s.substring_char(start, i));
            proof {
                let ghost word = s@.subrange(start as int, i as int);
                lemma_split_ws_word_prefix(
                    s@.skip(start as int),
                    Seq::<char>::empty(),
                    strings_view(out@),
                    i - start,
                );
                assert(s@.skip(start as int).skip(i - start) =~= s@.skip(i as int));
                assert(Seq::<char>::empty() + s@.skip(start as int).take(i - start) =~= word);
                lemma_split_ws_flush(s@.skip(i as int), word, strings_view(out@));
            }
            let ghost old_out = out@;
            out.push(w);
            proof {
                assert(strings_view(out@) =~= strings_view(old_out).push(w@));
            }
        }
    }
    proof {
        assert(s@.skip(n as int) =~= Seq::<char>::empty());
    }
    out
}

} // verus!
