//! What the text functions promise of their results, character by character.

use vstd::prelude::*;
use vstd::utf8::{decode_utf8, encode_utf8, valid_utf8};

use crate::text::{concat2, concat3, decimal_text, join_texts, split_nul};

verus! {

use crate::text::{
    ascii_lower, ascii_lowercase, decimal, digit, is_blank, is_white_space, joined, nul_parts,
    occurs_in, opt_text, result_text, texts, trimmed, trimmed_end, trimmed_start, utf8_text,
};

// ---------------------------------------------------------------------------
// White space
// ---------------------------------------------------------------------------
/// White space is made of exactly these characters.
pub proof fn law_white_space_characters(c: char)
    ensures
        is_white_space(c) <==> {
            ||| c == '\t'
            ||| c == '\n'
            ||| c == '\u{b}'
            ||| c == '\u{c}'
            ||| c == '\r'
            ||| c == ' '
            ||| c == '\u{85}'
            ||| c == '\u{a0}'
            ||| c == '\u{1680}'
            ||| c == '\u{2000}'
            ||| c == '\u{2001}'
            ||| c == '\u{2002}'
            ||| c == '\u{2003}'
            ||| c == '\u{2004}'
            ||| c == '\u{2005}'
            ||| c == '\u{2006}'
            ||| c == '\u{2007}'
            ||| c == '\u{2008}'
            ||| c == '\u{2009}'
            ||| c == '\u{200a}'
            ||| c == '\u{2028}'
            ||| c == '\u{2029}'
            ||| c == '\u{202f}'
            ||| c == '\u{205f}'
            ||| c == '\u{3000}'
        },
{
}

/// The characters of `s` from `from` up to `to` are white space.
pub open spec fn blank_between(s: Seq<char>, from: int, to: int) -> bool {
    forall|i: int| from <= i < to ==> is_white_space(#[trigger] s[i])
}

/// `core` is what stands in `s` between its leading and its trailing white space.
pub open spec fn is_core_of(core: Seq<char>, s: Seq<char>) -> bool {
    exists|a: int, b: int|
        {
            &&& 0 <= a <= b <= s.len()
            &&& core == #[trigger] s.subrange(a, b)
            &&& blank_between(s, 0, a)
            &&& blank_between(s, b, s.len() as int)
            &&& a < b ==> !is_white_space(s[a]) && !is_white_space(s[b - 1])
        }
}

proof fn lemma_start_skips(s: Seq<char>, a: int)
    requires
        0 <= a <= s.len(),
        blank_between(s, 0, a),
        a < s.len() ==> !is_white_space(s[a]),
    ensures
        trimmed_start(s) == s.skip(a),
    decreases a,
{
    if a == 0 {
        assert(s.skip(0) =~= s);
    } else {
        assert(is_white_space(s[0]));
        let rest = s.drop_first();
        assert forall|i: int| 0 <= i < a - 1 implies is_white_space(#[trigger] rest[i]) by {
            assert(rest[i] == s[i + 1]);
        }
        lemma_start_skips(rest, a - 1);
        assert(rest.skip(a - 1) =~= s.skip(a));
    }
}

proof fn lemma_end_takes(s: Seq<char>, b: int)
    requires
        0 <= b <= s.len(),
        blank_between(s, b, s.len() as int),
        b > 0 ==> !is_white_space(s[b - 1]),
    ensures
        trimmed_end(s) == s.take(b),
    decreases s.len() - b,
{
    if b == s.len() {
        assert(s.take(b) =~= s);
    } else {
        assert(is_white_space(s[s.len() - 1]));
        let rest = s.drop_last();
        assert(blank_between(rest, b, rest.len() as int));
        lemma_end_takes(rest, b);
        assert(rest.take(b) =~= s.take(b));
    }
}

proof fn lemma_first_visible(s: Seq<char>) -> (a: int)
    ensures
        0 <= a <= s.len(),
        blank_between(s, 0, a),
        a < s.len() ==> !is_white_space(s[a]),
    decreases s.len(),
{
    if s.len() == 0 || !is_white_space(s[0]) {
        0
    } else {
        let rest = s.drop_first();
        let a = lemma_first_visible(rest) + 1;
        assert forall|i: int| 0 <= i < a implies is_white_space(#[trigger] s[i]) by {
            if i > 0 {
                assert(rest[i - 1] == s[i]);
            }
        }
        a
    }
}

proof fn lemma_last_visible(s: Seq<char>) -> (b: int)
    ensures
        0 <= b <= s.len(),
        blank_between(s, b, s.len() as int),
        b > 0 ==> !is_white_space(s[b - 1]),
    decreases s.len(),
{
    if s.len() == 0 || !is_white_space(s[s.len() - 1]) {
        s.len() as int
    } else {
        let rest = s.drop_last();
        let b = lemma_last_visible(rest);
        assert forall|i: int| b <= i < s.len() implies is_white_space(#[trigger] s[i]) by {
            if i < rest.len() {
                assert(rest[i] == s[i]);
            }
        }
        b
    }
}

proof fn lemma_core_bounds(s: Seq<char>, a: int, b: int)
    requires
        0 <= a <= b <= s.len(),
        blank_between(s, 0, a),
        blank_between(s, b, s.len() as int),
        a < b ==> !is_white_space(s[a]) && !is_white_space(s[b - 1]),
    ensures
        trimmed(s) == s.subrange(a, b),
{
    if a == b {
        let n = s.len() as int;
        assert forall|i: int| 0 <= i < n implies is_white_space(#[trigger] s[i]) by {}
        lemma_start_skips(s, n);
        assert(s.skip(n) =~= Seq::empty());
        assert(s.subrange(a, b) =~= Seq::empty());
    } else {
        lemma_start_skips(s, a);
        let rest = s.skip(a);
        assert forall|i: int| b - a <= i < rest.len() implies is_white_space(#[trigger] rest[i]) by {
            assert(rest[i] == s[i + a]);
        }
        assert(rest[b - a - 1] == s[b - 1]);
        lemma_end_takes(rest, b - a);
        assert(rest.take(b - a) =~= s.subrange(a, b));
    }
}

/// Trimming leaves exactly what stands between the leading and the trailing white
/// space: all of that white space goes, and nothing else does.
pub proof fn law_trimming_leaves_the_core(s: Seq<char>, core: Seq<char>)
    ensures
        is_core_of(core, s) <==> core == trimmed(s),
{
    let a = lemma_first_visible(s);
    let b = lemma_last_visible(s);
    if a >= b {
        assert forall|i: int| 0 <= i < s.len() implies is_white_space(#[trigger] s[i]) by {}
        lemma_core_bounds(s, b, b);
        assert(s.subrange(b, b) == trimmed(s));
    } else {
        lemma_core_bounds(s, a, b);
        assert(s.subrange(a, b) == trimmed(s));
    }
    if is_core_of(core, s) {
        let (x, y) = choose|x: int, y: int|
            {
                &&& 0 <= x <= y <= s.len()
                &&& core == #[trigger] s.subrange(x, y)
                &&& blank_between(s, 0, x)
                &&& blank_between(s, y, s.len() as int)
                &&& x < y ==> !is_white_space(s[x]) && !is_white_space(s[y - 1])
            };
        lemma_core_bounds(s, x, y);
    }
}

/// A text is blank exactly where all its characters are white space.
pub proof fn law_blank_is_white_space_alone(s: Seq<char>)
    ensures
        is_blank(s) <==> blank_between(s, 0, s.len() as int),
{
    let a = lemma_first_visible(s);
    let b = lemma_last_visible(s);
    if a >= b {
        assert forall|i: int| 0 <= i < s.len() implies is_white_space(#[trigger] s[i]) by {}
        lemma_core_bounds(s, b, b);
    } else {
        lemma_core_bounds(s, a, b);
    }
}

// ---------------------------------------------------------------------------
// ASCII case and substrings
// ---------------------------------------------------------------------------
/// Lower-casing changes the letters A to Z to the letters 32 places later, and no
/// other character; it keeps every place.
pub proof fn law_lower_case_changes_ascii_capitals_alone(s: Seq<char>)
    ensures
        ascii_lowercase(s).len() == s.len(),
        forall|i: int|
            0 <= i < s.len() ==> (#[trigger] ascii_lowercase(s)[i]) as u32 == if 65 <= s[i] as u32
                <= 90 {
                s[i] as u32 + 32
            } else {
                s[i] as u32 as int
            },
{
    assert forall|i: int| 0 <= i < s.len() implies (#[trigger] ascii_lowercase(s)[i]) as u32 == if 65
        <= s[i] as u32 <= 90 {
        s[i] as u32 + 32
    } else {
        s[i] as u32 as int
    } by {
        assert(ascii_lowercase(s)[i] == ascii_lower(s[i]));
    }
}

/// One text occurs in another exactly where the other can be cut around it.
pub proof fn law_occurring_is_standing_between_two_parts(needle: Seq<char>, haystack: Seq<char>)
    ensures
        occurs_in(needle, haystack) <==> exists|before: Seq<char>, after: Seq<char>|
            haystack == #[trigger] (before + needle + after),
{
    if occurs_in(needle, haystack) {
        let i = choose|i: int|
            0 <= i <= haystack.len() - needle.len() && #[trigger] haystack.subrange(
                i,
                i + needle.len(),
            ) == needle;
        let before = haystack.take(i);
        let after = haystack.skip(i + needle.len());
        assert(haystack =~= before + needle + after) by {
            assert forall|j: int| 0 <= j < haystack.len() implies haystack[j] == #[trigger] (before
                + needle + after)[j] by {
                if i <= j < i + needle.len() {
                    assert(haystack.subrange(i, i + needle.len())[j - i] == haystack[j]);
                }
            }
        }
    }
    if exists|before: Seq<char>, after: Seq<char>|
        haystack == #[trigger] (before + needle + after) {
        let (before, after) = choose|before: Seq<char>, after: Seq<char>|
            haystack == #[trigger] (before + needle + after);
        let i = before.len() as int;
        assert(haystack.subrange(i, i + needle.len()) =~= needle);
    }
}

// ---------------------------------------------------------------------------
// UTF-8
// ---------------------------------------------------------------------------
/// Bytes have a text exactly where they are UTF-8, and the text encodes to them.
pub proof fn law_text_encodes_to_its_bytes(bytes: Seq<u8>)
    ensures
        utf8_text(bytes) is Some <==> valid_utf8(bytes),
        utf8_text(bytes) matches Some(text) ==> encode_utf8(text) == bytes && text == decode_utf8(
            bytes,
        ),
{
    if valid_utf8(bytes) {
        vstd::utf8::decode_utf8_encode_utf8(bytes);
    }
}

/// The text of an optional string, of a result and of a list is that of each
/// string in its place.
pub proof fn law_texts_keep_every_string(
    s: Option<String>,
    r: Result<u32, String>,
    list: Seq<String>,
)
    ensures
        s is Some <==> opt_text(s) is Some,
        s matches Some(t) ==> opt_text(s) == Some(t@),
        r matches Ok(v) ==> result_text(r) == Ok::<u32, Seq<char>>(v),
        r matches Err(e) ==> result_text(r) == Err::<u32, Seq<char>>(e@),
        texts(list).len() == list.len(),
        forall|i: int| 0 <= i < list.len() ==> (#[trigger] texts(list)[i]) == list[i]@,
{
}

// ---------------------------------------------------------------------------
// Joining and splitting
// ---------------------------------------------------------------------------
/// Joining nothing gives nothing, joining one text gives that text, and joining two
/// lists gives what each gives, with one separator between.
pub proof fn law_joining_puts_separators_between(
    first: Seq<Seq<char>>,
    second: Seq<Seq<char>>,
    text: Seq<char>,
    separator: Seq<char>,
)
    requires
        first.len() > 0,
        second.len() > 0,
    ensures
        joined(Seq::empty(), separator) == Seq::<char>::empty(),
        joined(seq![text], separator) == text,
        joined(first + second, separator) == joined(first, separator) + separator + joined(
            second,
            separator,
        ),
    decreases second.len(),
{
    let all = first + second;
    assert(all.drop_last() =~= first + second.drop_last());
    if second.len() == 1 {
        assert(all.drop_last() =~= first);
        assert(joined(all, separator) =~= joined(first, separator) + separator + joined(
            second,
            separator,
        ));
    } else {
        law_joining_puts_separators_between(first, second.drop_last(), text, separator);
        assert(joined(all, separator) =~= joined(first, separator) + separator + joined(
            second,
            separator,
        ));
    }
}

proof fn lemma_joined_push(list: Seq<Seq<char>>, last: Seq<char>, separator: Seq<char>)
    requires
        list.len() > 0,
    ensures
        joined(list.push(last), separator) == joined(list, separator) + separator + last,
{
    assert(list.push(last).drop_last() =~= list);
}

proof fn lemma_joined_extends(list: Seq<Seq<char>>, c: char, separator: Seq<char>)
    requires
        list.len() > 0,
    ensures
        joined(list.drop_last().push(list.last().push(c)), separator) == joined(
            list,
            separator,
        ).push(c),
{
    let longer = list.drop_last().push(list.last().push(c));
    assert(longer.drop_last() =~= list.drop_last());
    if list.len() == 1 {
        assert(longer[0] == list[0].push(c));
    } else {
        assert(joined(longer, separator) =~= joined(list, separator).push(c));
    }
}

/// The parts of a text between its NUL characters hold none of them, and joined
/// with NUL characters they make up the text again.
pub proof fn law_parts_make_up_the_text(s: Seq<char>)
    ensures
        nul_parts(s).len() > 0,
        forall|i: int|
            0 <= i < nul_parts(s).len() ==> !(#[trigger] nul_parts(s)[i]).contains('\0'),
        joined(nul_parts(s), seq!['\0']) == s,
    decreases s.len(),
{
    let separator = seq!['\0'];
    if s.len() > 0 {
        let front = s.drop_last();
        let before = nul_parts(front);
        law_parts_make_up_the_text(front);
        if s.last() == '\0' {
            lemma_joined_push(before, Seq::empty(), separator);
            assert(joined(nul_parts(s), separator) =~= s);
        } else {
            lemma_joined_extends(before, s.last(), separator);
            assert(front.push(s.last()) =~= s);
            assert forall|i: int| 0 <= i < nul_parts(s).len() implies !(#[trigger] nul_parts(
                s,
            )[i]).contains('\0') by {
                if i < before.len() - 1 {
                    assert(nul_parts(s)[i] == before[i]);
                } else {
                    let part = nul_parts(s)[i];
                    assert(part == before.last().push(s.last()));
                    if part.contains('\0') {
                        let j = choose|j: int| 0 <= j < part.len() && part[j] == '\0';
                        assert(before.last()[j] == '\0');
                        assert(before[before.len() - 1].contains('\0'));
                    }
                }
            }
        }
    } else {
        assert(nul_parts(s)[0] =~= Seq::empty());
    }
}

/// Splitting at NUL gives parts without NUL that make up the text again.
pub proof fn law_splitting_and_joining(s: &str, parts: Vec<String>)
    requires
        call_ensures(split_nul, (s,), parts),
    ensures
        parts@.len() > 0,
        forall|i: int| 0 <= i < parts@.len() ==> !(#[trigger] parts@[i])@.contains('\0'),
        joined(texts(parts@), seq!['\0']) == s@,
{
    law_parts_make_up_the_text(s@);
    assert forall|i: int| 0 <= i < parts@.len() implies !(#[trigger] parts@[i])@.contains(
        '\0',
    ) by {
        assert(texts(parts@)[i] == parts@[i]@);
        assert(!nul_parts(s@)[i].contains('\0'));
    }
}

/// Messages hold their parts whole and in order.
pub proof fn law_messages_hold_their_parts(
    a: &str,
    b: &str,
    c: &str,
    list: Vec<String>,
    two: String,
    three: String,
    many: String,
)
    requires
        call_ensures(concat2, (a, b), two),
        call_ensures(concat3, (a, b, c), three),
        call_ensures(join_texts, (&list, a), many),
        list@.len() == 2,
    ensures
        two@ == a@ + b@,
        three@ == a@ + b@ + c@,
        many@ == list@[0]@ + a@ + list@[1]@,
{
    reveal_with_fuel(joined, 3);
    let both = texts(list@);
    assert(both.drop_last() =~= seq![list@[0]@]);
}

// ---------------------------------------------------------------------------
// Decimal numbers
// ---------------------------------------------------------------------------
/// The number that a row of decimal digits stands for.
pub open spec fn number_of(digits: Seq<char>) -> int
    decreases digits.len(),
{
    if digits.len() == 0 {
        0
    } else {
        10 * number_of(digits.drop_last()) + (digits.last() as u32 - 48)
    }
}

proof fn lemma_decimal_reads_back(n: nat)
    ensures
        number_of(decimal(n)) == n,
        decimal(n).len() > 0,
        n > 0 ==> decimal(n)[0] != '0',
        forall|i: int| 0 <= i < decimal(n).len() ==> '0' <= #[trigger] decimal(n)[i] <= '9',
    decreases n,
{
    reveal_with_fuel(number_of, 2);
    if n < 10 {
        assert(decimal(n).drop_last() =~= Seq::empty());
        assert(decimal(n).last() == digit(n));
    } else {
        lemma_decimal_reads_back(n / 10);
        assert(decimal(n).drop_last() =~= decimal(n / 10));
        assert(decimal(n)[0] == decimal(n / 10)[0]);
    }
}

/// A number is written with decimal digits that stand for it, without leading
/// zeros.
pub proof fn law_decimal_text_stands_for_the_number(n: u32, text: String)
    requires
        call_ensures(decimal_text, (n,), text),
    ensures
        number_of(text@) == n,
        text@.len() > 0,
        forall|i: int| 0 <= i < text@.len() ==> '0' <= #[trigger] text@[i] <= '9',
        text@[0] == '0' ==> n == 0 && text@.len() == 1,
{
    lemma_decimal_reads_back(n as nat);
}

} // verus!
