//! What holds of the text helpers, said of the functions themselves.
use crate::text;
use vstd::prelude::*;

verus! {

/// A number is read back from its decimal notation, which is made of digits alone and has no leading
/// zero but for zero itself.
pub proof fn law_decimal(n: u64, written: String, s: &str, read: Option<u64>)
    requires
        call_ensures(text::decimal, (n,), written),
        s@ == written@,
        call_ensures(text::parse_u64, (s,), read),
    ensures
        read == Some(n),
        written@.len() > 0,
        forall|i: int| 0 <= i < written@.len() ==> '0' <= #[trigger] written@[i] <= '9',
        written@[0] == '0' ==> n == 0 && written@.len() == 1,
{
    text::law_decimal_reads_back(n);
    text::law_decimal_digits(n);
}

/// Numbers are read from an optional plus sign and digits, digit by digit, as far as they fit in 64
/// bits; nothing else is a number.
pub proof fn law_parse_u64(s: &str, r: Option<u64>)
    requires
        call_ensures(text::parse_u64, (s,), r),
    ensures
        r is Some <==> {
            &&& s@.len() > 0
            &&& s@[0] == '+' ==> s@.len() > 1
            &&& '0' <= s@[0] <= '9' || s@[0] == '+'
            &&& forall|i: int| 1 <= i < s@.len() ==> '0' <= #[trigger] s@[i] <= '9'
            &&& value_of(s@) <= u64::MAX
        },
        r is Some ==> r->0 == value_of(s@),
{
    let digits = text::unsigned_digits(s@);
    if s@.len() > 0 && s@[0] == '+' {
        lemma_plus(s@);
        assert(forall|i: int| 0 <= i < digits.len() ==> digits[i] == s@[i + 1]);
        assert(forall|i: int| 1 <= i < s@.len() ==> s@[i] == digits[i - 1]);
    } else if s@.len() > 0 {
        lemma_value(s@);
        assert(digits == s@);
    }
    if r is Some {
        assert(forall|i: int| 0 <= i < digits.len() ==> text::is_digit(digits[i]));
        if s@[0] != '+' {
            assert(text::is_digit(digits[0]));
        }
    }
}

/// The value of the digits of a text; a plus sign in front counts for nothing.
pub open spec fn value_of(s: Seq<char>) -> int
    decreases s.len(),
{
    if s.len() == 0 || (s.len() == 1 && s[0] == '+') {
        0
    } else {
        10 * value_of(s.drop_last()) + (s.last() as int - '0' as int)
    }
}

proof fn lemma_value(s: Seq<char>)
    requires
        s.len() == 0 || s[0] != '+',
    ensures
        (forall|i: int| 0 <= i < s.len() ==> text::is_digit(#[trigger] s[i])) ==> value_of(s)
            == text::digits_value(s),
    decreases s.len(),
{
    if s.len() > 0 {
        lemma_value(s.drop_last());
        if forall|i: int| 0 <= i < s.len() ==> text::is_digit(#[trigger] s[i]) {
            assert forall|i: int| 0 <= i < s.drop_last().len() implies text::is_digit(
                #[trigger] s.drop_last()[i],
            ) by {
                assert(text::is_digit(s[i]));
            }
            assert(text::is_digit(s[s.len() - 1]));
        }
    }
}

proof fn lemma_plus(s: Seq<char>)
    requires
        s.len() > 0,
        s[0] == '+',
    ensures
        (forall|i: int| 0 <= i < s.skip(1).len() ==> text::is_digit(#[trigger] s.skip(1)[i]))
            ==> value_of(s) == text::digits_value(s.skip(1)),
    decreases s.len(),
{
    if s.len() > 1 {
        lemma_plus(s.drop_last());
        assert(s.drop_last().skip(1) =~= s.skip(1).drop_last());
        if forall|i: int| 0 <= i < s.skip(1).len() ==> text::is_digit(#[trigger] s.skip(1)[i]) {
            assert forall|i: int| 0 <= i < s.drop_last().skip(1).len() implies text::is_digit(
                #[trigger] s.drop_last().skip(1)[i],
            ) by {
                assert(text::is_digit(s.skip(1)[i]));
            }
            assert(text::is_digit(s.skip(1)[s.len() - 2]));
        }
    }
}

/// Trimming cuts white space from both ends and nothing else: what is left stands in the text as it
/// is, begins and ends with no white space, and has nothing but white space around it.
pub proof fn law_trim(s: &str, r: String)
    requires
        call_ensures(text::trim, (s,), r),
    ensures
        exists|from: int, to: int| #[trigger] is_core(s@, from, to) && r@ == s@.subrange(from, to),
        r@.len() > 0 ==> !is_white(r@[0]) && !is_white(r@.last()),
{
    assert(forall|c: char| #[trigger] text::is_space(c) <==> is_white(c));
    lemma_start(s@);
    let a = choose|from: int| #[trigger] starts_at(s@, from) && text::trimmed_start(s@) == s@.skip(
        from,
    );
    let rest = s@.skip(a);
    lemma_end(rest);
    let n = choose|n: int|
        0 <= n <= rest.len() && text::trimmed_end(rest) == rest.take(n) && #[trigger] ends_at(
            rest,
            n,
        );
    assert(s@.subrange(a, a + n) =~= rest.take(n));
    assert forall|i: int| a + n <= i < s@.len() implies text::is_space(#[trigger] s@[i]) by {
        assert(rest[i - a] == s@[i]);
    }
    assert forall|i: int| 0 <= i < s@.len() && (i < a || a + n <= i) implies is_white(
        #[trigger] s@[i],
    ) by {
        assert(text::is_space(s@[i]));
    }
    assert(is_core(s@, a, a + n));
    if n > 0 {
        assert(r@[0] == rest[0] && rest[0] == s@[a]);
        assert(r@.last() == rest[n - 1]);
    }
}

/// Whether a character is one of the 25 that Unicode gives the property `White_Space`: tab, line feed,
/// line tabulation, form feed and carriage return, space, next line, no-break space, ogham space mark,
/// the spaces from en quad to hair space, line and paragraph separator, narrow no-break space, medium
/// mathematical space and ideographic space.
pub open spec fn is_white(c: char) -> bool {
    let n = c as u32;
    9 <= n <= 13 || n == 32 || n == 133 || n == 160 || n == 5760 || 8192 <= n <= 8202 || n == 8232
        || n == 8233 || n == 8239 || n == 8287 || n == 12288
}

/// Whether all that lies outside of a part of a text is white space.
pub open spec fn is_core(s: Seq<char>, from: int, to: int) -> bool {
    &&& 0 <= from <= to <= s.len()
    &&& forall|i: int| 0 <= i < from ==> is_white(#[trigger] s[i])
    &&& forall|i: int| to <= i < s.len() ==> is_white(#[trigger] s[i])
}

spec fn starts_at(s: Seq<char>, from: int) -> bool {
    &&& 0 <= from <= s.len()
    &&& forall|i: int| 0 <= i < from ==> text::is_space(#[trigger] s[i])
    &&& from < s.len() ==> !text::is_space(s[from])
}

spec fn ends_at(s: Seq<char>, n: int) -> bool {
    &&& 0 <= n <= s.len()
    &&& forall|i: int| n <= i < s.len() ==> text::is_space(#[trigger] s[i])
    &&& n > 0 ==> !text::is_space(s[n - 1])
}

proof fn lemma_start(s: Seq<char>)
    ensures
        exists|from: int| #[trigger] starts_at(s, from) && text::trimmed_start(s) == s.skip(from),
    decreases s.len(),
{
    if s.len() > 0 && text::is_space(s[0]) {
        lemma_start(s.skip(1));
        let f = choose|from: int|
            #[trigger] starts_at(s.skip(1), from) && text::trimmed_start(s.skip(1)) == s.skip(
                1,
            ).skip(from);
        assert(s.skip(1).skip(f) =~= s.skip(f + 1));
        assert forall|i: int| 0 <= i < f + 1 implies text::is_space(#[trigger] s[i]) by {
            if i > 0 {
                assert(s.skip(1)[i - 1] == s[i]);
            }
        }
        assert(starts_at(s, f + 1));
    } else {
        assert(s.skip(0) =~= s);
        assert(starts_at(s, 0));
    }
}

proof fn lemma_end(s: Seq<char>)
    ensures
        exists|n: int|
            0 <= n <= s.len() && text::trimmed_end(s) == s.take(n) && #[trigger] ends_at(s, n),
    decreases s.len(),
{
    if s.len() > 0 && text::is_space(s.last()) {
        lemma_end(s.drop_last());
        let n = choose|n: int|
            0 <= n <= s.drop_last().len() && text::trimmed_end(s.drop_last()) == s.drop_last().take(
                n,
            ) && #[trigger] ends_at(s.drop_last(), n);
        assert(s.drop_last().take(n) =~= s.take(n));
        assert forall|i: int| n <= i < s.len() implies text::is_space(#[trigger] s[i]) by {
            if i < s.len() - 1 {
                assert(s.drop_last()[i] == s[i]);
            }
        }
        assert(ends_at(s, n));
    } else {
        assert(s.take(s.len() as int) =~= s);
        assert(ends_at(s, s.len() as int));
    }
}

/// Slashes at the end are cut, all of them and nothing else.
pub proof fn law_trim_end_slashes(s: &str, r: String)
    requires
        call_ensures(text::trim_end_slashes, (s,), r),
    ensures
        r@.len() <= s@.len(),
        r@ == s@.take(r@.len() as int),
        forall|i: int| r@.len() <= i < s@.len() ==> #[trigger] s@[i] == '/',
        r@.len() > 0 ==> r@.last() != '/',
{
    lemma_slashes(s@);
}

proof fn lemma_slashes(s: Seq<char>)
    ensures
        ({
            let r = text::without_trailing_slashes(s);
            &&& r.len() <= s.len()
            &&& r == s.take(r.len() as int)
            &&& forall|i: int| r.len() <= i < s.len() ==> #[trigger] s[i] == '/'
            &&& r.len() > 0 ==> r.last() != '/'
        }),
    decreases s.len(),
{
    let r = text::without_trailing_slashes(s);
    if s.len() > 0 && s.last() == '/' {
        lemma_slashes(s.drop_last());
        assert(s.drop_last().take(r.len() as int) =~= s.take(r.len() as int));
        assert forall|i: int| r.len() <= i < s.len() implies #[trigger] s[i] == '/' by {
            if i < s.len() - 1 {
                assert(s.drop_last()[i] == s[i]);
            }
        }
    } else {
        assert(s.take(s.len() as int) =~= s);
    }
}

/// A path is what stands before the first question mark, all of it.
pub proof fn law_path_only(s: &str, r: String)
    requires
        call_ensures(text::path_only, (s,), r),
    ensures
        r@.len() <= s@.len(),
        r@ == s@.take(r@.len() as int),
        forall|i: int| 0 <= i < r@.len() ==> #[trigger] r@[i] != '?',
        r@.len() < s@.len() ==> s@[r@.len() as int] == '?',
{
    lemma_path(s@);
}

proof fn lemma_path(s: Seq<char>)
    ensures
        ({
            let r = text::before_question_mark(s);
            &&& r.len() <= s.len()
            &&& r == s.take(r.len() as int)
            &&& forall|i: int| 0 <= i < r.len() ==> #[trigger] r[i] != '?'
            &&& r.len() < s.len() ==> s[r.len() as int] == '?'
        }),
    decreases s.len(),
{
    let r = text::before_question_mark(s);
    if s.len() > 0 && s[0] != '?' {
        lemma_path(s.skip(1));
        let t = text::before_question_mark(s.skip(1));
        assert(r =~= s.take(r.len() as int)) by {
            assert forall|i: int| 0 <= i < r.len() implies r[i] == s[i] by {
                if i > 0 {
                    assert(t[i - 1] == s.skip(1)[i - 1]);
                }
            }
        }
        assert forall|i: int| 0 <= i < r.len() implies #[trigger] r[i] != '?' by {
            if i > 0 {
                assert(r[i] == t[i - 1]);
            }
        }
    } else {
        assert(r =~= s.take(0));
    }
}

/// Prefixes and equality go by every character.
pub proof fn law_comparing(a: &str, b: &str, starts: bool, same: bool)
    requires
        call_ensures(text::starts_with, (a, b), starts),
        call_ensures(text::same, (a, b), same),
    ensures
        starts <==> b@.len() <= a@.len() && forall|i: int|
            0 <= i < b@.len() ==> #[trigger] a@[i] == b@[i],
        same <==> a@.len() == b@.len() && forall|i: int|
            0 <= i < b@.len() ==> #[trigger] a@[i] == b@[i],
{
    if b@.len() <= a@.len() && forall|i: int| 0 <= i < b@.len() ==> #[trigger] a@[i] == b@[i] {
        assert(b@ =~= a@.subrange(0, b@.len() as int));
    }
    if starts {
        assert(b@ == a@.subrange(0, b@.len() as int));
        assert forall|i: int| 0 <= i < b@.len() implies #[trigger] a@[i] == b@[i] by {
            assert(a@.subrange(0, b@.len() as int)[i] == a@[i]);
        }
    }
    if a@.len() == b@.len() && forall|i: int| 0 <= i < b@.len() ==> #[trigger] a@[i] == b@[i] {
        assert(a@ =~= b@);
    }
}

/// Characters and bytes of a text are all of them, in order.
pub proof fn law_characters_and_bytes(
    s: &str,
    chars: Vec<char>,
    bytes: Vec<u8>,
    part: &[char],
    from: usize,
    to: usize,
    cut: String,
)
    requires
        from <= to <= part@.len(),
    ensures
        call_ensures(text::chars_of, (s,), chars) ==> chars@ == s@,
        call_ensures(text::bytes_of, (s,), bytes) ==> bytes@ == vstd::utf8::encode_utf8(s@),
        call_ensures(text::string_of, (part, from, to), cut) ==> cut@ == part@.subrange(
            from as int,
            to as int,
        ),
{
}

} // verus!
