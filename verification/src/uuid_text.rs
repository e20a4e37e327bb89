//! UUIDs in their textual forms.

use vstd::prelude::*;

verus! {

/// Whether `c` is a hexadecimal digit in either case.
pub open spec fn is_hex_digit(c: char) -> bool {
    '0' <= c <= '9' || 'a' <= c <= 'f' || 'A' <= c <= 'F'
}

/// Whether the character at `i` of a hyphenated UUID is a hyphen.
pub open spec fn is_hyphen_place(i: int) -> bool {
    i == 8 || i == 13 || i == 18 || i == 23
}

/// Whether `text` is 32 hexadecimal digits.
pub open spec fn is_simple(text: Seq<char>) -> bool {
    text.len() == 32 && forall|i: int| 0 <= i < 32 ==> is_hex_digit(#[trigger] text[i])
}

/// Whether `text` is 32 hexadecimal digits in groups of 8, 4, 4, 4 and 12 with a hyphen between
/// each two.
pub open spec fn is_hyphenated(text: Seq<char>) -> bool {
    &&& text.len() == 36
    &&& forall|i: int|
        0 <= i < 36 ==> if is_hyphen_place(i) {
            #[trigger] text[i] == '-'
        } else {
            is_hex_digit(text[i])
        }
}

/// Whether `text` is a hyphenated UUID in braces.
pub open spec fn is_braced(text: Seq<char>) -> bool {
    text.len() == 38 && text[0] == '{' && text[37] == '}' && is_hyphenated(text.subrange(1, 37))
}

/// The lower-case form of an ASCII letter; any other character stays.
pub open spec fn ascii_lower(c: char) -> int {
    if 'A' <= c <= 'Z' {
        c as int + 32
    } else {
        c as int
    }
}

/// Whether `text` is a hyphenated UUID after `urn:uuid:`, which may be in any ASCII case.
pub open spec fn is_urn(text: Seq<char>) -> bool {
    &&& text.len() == 45
    &&& forall|i: int| 0 <= i < 9 ==> ascii_lower(#[trigger] text[i]) == "urn:uuid:"@[i] as int
    &&& is_hyphenated(text.skip(9))
}

/// Whether `text` is a UUID in one of its four textual forms.
pub open spec fn is_uuid(text: Seq<char>) -> bool {
    is_simple(text) || is_hyphenated(text) || is_braced(text) || is_urn(text)
}

/// Whether `text` is a hyphenated random (version 4) UUID in lower case.
pub open spec fn is_random_uuid(text: Seq<char>) -> bool {
    &&& is_hyphenated(text)
    &&& forall|i: int| 0 <= i < 36 ==> !('A' <= #[trigger] text[i] <= 'F')
    &&& text[14] == '4'
    &&& text[19] == '8' || text[19] == '9' || text[19] == 'a' || text[19] == 'b'
}

/// Calls `uuid::Uuid::new_v4` and writes the UUID out with its `Display`.
///
/// What is claimed holds of every random number that the call may draw: the text is hyphenated
/// and in lower case, and it carries the version and the variant of a random UUID. That two calls
/// give different texts is likely, not certain, and is not claimed. The call panics where the
/// operating system has no random bytes to give.
#[verifier::external_body]
pub(crate) fn random_uuid() -> (text: String)
    ensures
        is_random_uuid(text@),
{
    uuid::Uuid::new_v4().to_string()
}

/// Whether the random source of UUIDs gave `text` in a call.
///
/// Nothing but such a call gives this of a text, so a text made up here, or written down in
/// advance, does not have it.
pub closed spec fn was_drawn(text: Seq<char>) -> bool {
    exists|drawn: String| #[trigger] call_ensures(random_uuid, (), drawn) && drawn@ == text
}

/// Calls `source` once, and returns what it gave.
fn draw<F: Fn() -> String>(source: F) -> (text: String)
    requires
        call_requires(source, ()),
    ensures
        call_ensures(source, (), text),
{
    source()
}

/// Draws the text of a UUID from the random source.
pub(crate) fn draw_uuid() -> (text: String)
    ensures
        is_random_uuid(text@),
        was_drawn(text@),
{
    draw(random_uuid)
}

/// A text was drawn exactly if some call of the random source returned it.
pub(crate) proof fn law_drawn_texts_come_from_the_random_source(text: Seq<char>)
    ensures
        was_drawn(text) <==> exists|drawn: String| #[trigger]
            call_ensures(random_uuid, (), drawn) && drawn@ == text,
        was_drawn(text) ==> is_random_uuid(text),
{
}

/// Calls `uuid::Uuid::try_parse` and tells whether it succeeded.
///
/// The claim is that it succeeds on the four textual forms of a UUID and on nothing else.
#[verifier::external_body]
pub(crate) fn parses_as_uuid(text: &str) -> (parses: bool)
    ensures
        parses == is_uuid(text@),
{
    uuid::Uuid::try_parse(text).is_ok()
}

/// Whether each character of `digits` is a hexadecimal digit.
pub open spec fn all_hex(digits: Seq<char>) -> bool {
    forall|i: int| 0 <= i < digits.len() ==> is_hex_digit(#[trigger] digits[i])
}

/// The hyphenated form of 32 digits.
pub open spec fn hyphenate(digits: Seq<char>) -> Seq<char> {
    digits.subrange(0, 8) + seq!['-'] + digits.subrange(8, 12) + seq!['-'] + digits.subrange(
        12,
        16,
    ) + seq!['-'] + digits.subrange(16, 20) + seq!['-'] + digits.subrange(20, 32)
}

/// The digits of a hyphenated UUID.
spec fn unhyphenate(text: Seq<char>) -> Seq<char> {
    text.subrange(0, 8) + text.subrange(9, 13) + text.subrange(14, 18) + text.subrange(19, 23)
        + text.subrange(24, 36)
}

/// A character is a hexadecimal digit exactly if it stands for one of the numbers 0 to 15, the
/// letters in either case.
pub proof fn law_hex_digits(c: char)
    ensures
        is_hex_digit(c) <==> "0123456789abcdefABCDEF"@.contains(c),
{
    let digits = "0123456789abcdefABCDEF"@;
    reveal_strlit("0123456789abcdefABCDEF");
    if is_hex_digit(c) {
        let i: int = if '0' <= c <= '9' {
            c as int - '0' as int
        } else if 'a' <= c <= 'f' {
            c as int - 'a' as int + 10
        } else {
            c as int - 'A' as int + 16
        };
        assert(digits[i] == c);
    }
    if digits.contains(c) {
        let i = choose|i: int| 0 <= i < digits.len() && digits[i] == c;
        assert(0 <= i < 22);
    }
}

/// A hyphenated UUID is 32 hexadecimal digits with a hyphen after the 8th, 12th, 16th and 20th.
pub proof fn law_hyphenated_is_digits_with_hyphens(digits: Seq<char>, text: Seq<char>)
    ensures
        digits.len() == 32 ==> (is_hyphenated(hyphenate(digits)) <==> all_hex(digits)),
        digits.len() == 32 ==> (is_simple(digits) <==> all_hex(digits)),
        is_hyphenated(text) ==> exists|d: Seq<char>|
            d.len() == 32 && #[trigger] all_hex(d) && text == hyphenate(d),
{
    if digits.len() == 32 {
        let joined = hyphenate(digits);
        assert(joined.len() == 36);
        assert forall|i: int| 0 <= i < 32 implies digits[i] == #[trigger] joined[place(i)] by {}
        if is_hyphenated(joined) {
            assert forall|i: int| 0 <= i < 32 implies is_hex_digit(#[trigger] digits[i]) by {
                assert(digits[i] == joined[place(i)]);
                assert(!is_hyphen_place(place(i)));
            }
        }
    }
    if is_hyphenated(text) {
        let d = unhyphenate(text);
        assert forall|i: int| 0 <= i < 32 implies is_hex_digit(#[trigger] d[i]) by {
            assert(d[i] == text[place(i)]);
            assert(!is_hyphen_place(place(i)));
        }
        assert(all_hex(d));
        assert(text =~= hyphenate(d));
    }
}

/// Where the digit at `i` stands in a hyphenated UUID.
spec fn place(i: int) -> int {
    if i < 8 {
        i
    } else if i < 12 {
        i + 1
    } else if i < 16 {
        i + 2
    } else if i < 20 {
        i + 3
    } else {
        i + 4
    }
}

/// The same UUID is accepted in each of its four forms: its digits alone, hyphenated, hyphenated
/// in braces, and hyphenated after `urn:uuid:`.
pub proof fn law_every_form_of_a_uuid_is_accepted(digits: Seq<char>)
    requires
        digits.len() == 32,
        all_hex(digits),
    ensures
        is_uuid(digits),
        is_uuid(hyphenate(digits)),
        is_uuid(seq!['{'] + hyphenate(digits) + seq!['}']),
        is_uuid("urn:uuid:"@ + hyphenate(digits)),
{
    law_hyphenated_is_digits_with_hyphens(digits, digits);
    let text = hyphenate(digits);
    let braced = seq!['{'] + text + seq!['}'];
    assert(braced.subrange(1, 37) =~= text);
    reveal_strlit("urn:uuid:");
    let urn = "urn:uuid:"@ + text;
    assert(urn.skip(9) =~= text);
    assert(is_urn(urn));
}

/// Nothing but the four forms of 32 hexadecimal digits is accepted. The nine characters before a
/// UUID in its longest form are those of `urn:uuid:`, each letter in either case.
pub proof fn law_only_uuids_are_accepted(text: Seq<char>)
    requires
        is_uuid(text),
    ensures
        exists|digits: Seq<char>|
            {
                &&& digits.len() == 32
                &&& #[trigger] all_hex(digits)
                &&& {
                    ||| text == digits
                    ||| text == hyphenate(digits)
                    ||| text == seq!['{'] + hyphenate(digits) + seq!['}']
                    ||| text.len() == 45 && text.skip(9) == hyphenate(digits)
                }
            },
        text.len() == 45 ==> {
            &&& text[0] == 'u' || text[0] == 'U'
            &&& text[1] == 'r' || text[1] == 'R'
            &&& text[2] == 'n' || text[2] == 'N'
            &&& text[3] == ':'
            &&& text[4] == 'u' || text[4] == 'U'
            &&& text[5] == 'u' || text[5] == 'U'
            &&& text[6] == 'i' || text[6] == 'I'
            &&& text[7] == 'd' || text[7] == 'D'
            &&& text[8] == ':'
        },
{
    reveal_strlit("urn:uuid:");
    law_hyphenated_is_digits_with_hyphens(text, text);
    if is_simple(text) {
        assert(all_hex(text));
    } else if is_braced(text) {
        let inner = text.subrange(1, 37);
        law_hyphenated_is_digits_with_hyphens(inner, inner);
        assert(text =~= seq!['{'] + inner + seq!['}']);
    } else if is_urn(text) {
        law_hyphenated_is_digits_with_hyphens(text.skip(9), text.skip(9));
        assert(ascii_lower(text[0]) == 'u' as int);
        assert(ascii_lower(text[1]) == 'r' as int);
        assert(ascii_lower(text[2]) == 'n' as int);
        assert(ascii_lower(text[3]) == ':' as int);
        assert(ascii_lower(text[4]) == 'u' as int);
        assert(ascii_lower(text[5]) == 'u' as int);
        assert(ascii_lower(text[6]) == 'i' as int);
        assert(ascii_lower(text[7]) == 'd' as int);
        assert(ascii_lower(text[8]) == ':' as int);
    }
}

/// The case of the letters of a UUID does not matter.
pub proof fn law_letter_case_does_not_matter(a: Seq<char>, b: Seq<char>)
    requires
        a.len() == b.len(),
        forall|i: int| 0 <= i < a.len() ==> ascii_lower(#[trigger] a[i]) == ascii_lower(b[i]),
    ensures
        is_uuid(a) <==> is_uuid(b),
{
    if is_uuid(a) {
        lemma_letter_case(a, b);
    }
    if is_uuid(b) {
        assert forall|i: int| 0 <= i < a.len() implies ascii_lower(#[trigger] b[i]) == ascii_lower(
            a[i],
        ) by {
            assert(ascii_lower(a[i]) == ascii_lower(b[i]));
        }
        lemma_letter_case(b, a);
    }
}

/// A UUID stays one when the case of letters changes.
proof fn lemma_letter_case(a: Seq<char>, b: Seq<char>)
    requires
        is_uuid(a),
        a.len() == b.len(),
        forall|i: int| 0 <= i < a.len() ==> ascii_lower(#[trigger] a[i]) == ascii_lower(b[i]),
    ensures
        is_uuid(b),
{
    assert forall|i: int| 0 <= i < a.len() implies is_hex_digit(#[trigger] b[i]) == is_hex_digit(
        a[i],
    ) && (a[i] == '-' ==> b[i] == '-') && (a[i] == '{' ==> b[i] == '{') && (a[i] == '}' ==> b[i]
        == '}') by {
        assert(ascii_lower(a[i]) == ascii_lower(b[i]));
    }
    if is_simple(a) {
        assert(is_simple(b));
    } else if is_hyphenated(a) {
        lemma_hyphenated_case(a, b);
    } else if is_braced(a) {
        assert(b[0] == '{' && b[37] == '}');
        lemma_hyphenated_case(a.subrange(1, 37), b.subrange(1, 37));
    } else {
        lemma_hyphenated_case(a.skip(9), b.skip(9));
        assert forall|i: int| 0 <= i < 9 implies ascii_lower(#[trigger] b[i]) == "urn:uuid:"@[i]
            as int by {
            assert(ascii_lower(a[i]) == ascii_lower(b[i]));
        }
        assert(is_urn(b));
    }
}

/// A hyphenated UUID stays one when the case of letters changes.
proof fn lemma_hyphenated_case(a: Seq<char>, b: Seq<char>)
    requires
        is_hyphenated(a),
        a.len() == b.len(),
        forall|i: int| 0 <= i < a.len() ==> ascii_lower(#[trigger] a[i]) == ascii_lower(b[i]),
    ensures
        is_hyphenated(b),
{
    assert forall|i: int| 0 <= i < 36 implies if is_hyphen_place(i) {
        #[trigger] b[i] == '-'
    } else {
        is_hex_digit(b[i])
    } by {
        assert(ascii_lower(a[i]) == ascii_lower(b[i]));
    }
}

/// A random UUID is a UUID in hyphenated form and lower case that says of itself that it is
/// random: its 13th digit is 4, and its 17th is 8, 9, a or b.
pub proof fn law_random_uuids_say_that_they_are_random(text: Seq<char>)
    requires
        is_random_uuid(text),
    ensures
        is_uuid(text),
        text.len() == 36,
        forall|i: int| 0 <= i < 36 ==> ascii_lower(#[trigger] text[i]) == text[i] as int,
        text[14] == '4',
        "89ab"@.contains(text[19]),
{
    reveal_strlit("89ab");
    assert("89ab"@[0] == '8' && "89ab"@[1] == '9' && "89ab"@[2] == 'a' && "89ab"@[3] == 'b');
    assert forall|i: int| 0 <= i < 36 implies ascii_lower(#[trigger] text[i]) == text[i] as int by {
        if !is_hyphen_place(i) {
            assert(is_hex_digit(text[i]));
        } else {
            assert(text[i] == '-');
        }
    }
}

} // verus!
