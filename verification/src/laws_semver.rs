//! What semantic versions and decimal numbers are, by the characters that they are made of.

use crate::semver::{
    all_digits, build, halves, identifier, identifier_char, is_digit, is_semver,
    law_semver_is_what_is_written, lemma_find_is_within, lemma_halves_make_the_text,
    lemma_halves_of_marked, marked, numeric, pieces, pre_identifier, pre_release, semver,
    version_parts, written,
};
use crate::text::{decimal, decimal_text, digit};
use vstd::prelude::*;

verus! {

/// The number that some decimal digits stand for.
pub open spec fn value(s: Seq<char>) -> int
    decreases s.len(),
{
    if s.len() == 0 {
        0
    } else {
        value(s.drop_last()) * 10 + (s.last() as int - '0' as int)
    }
}

/// A number in decimal is made of digits that stand for it, and starts with a zero only where it
/// is zero.
pub proof fn law_decimals_stand_for_their_number(n: nat)
    ensures
        value(decimal(n)) == n,
        decimal(n).len() > 0,
        forall|i: int| 0 <= i < decimal(n).len() ==> '0' <= #[trigger] decimal(n)[i] <= '9',
        decimal(n)[0] == '0' ==> n == 0 && decimal(n).len() == 1,
    decreases n,
{
    if n < 10 {
        assert(decimal(n) == seq![digit(n)]);
        assert(decimal(n).drop_last() =~= Seq::<char>::empty());
        assert(value(decimal(n).drop_last()) == 0);
    } else {
        law_decimals_stand_for_their_number(n / 10);
        let head = decimal(n / 10);
        assert(decimal(n).drop_last() =~= head);
        assert(decimal(n).last() == digit(n % 10));
        assert forall|i: int| 0 <= i < decimal(n).len() implies '0' <= #[trigger] decimal(n)[i]
            <= '9' by {
            if i < head.len() {
                assert(decimal(n)[i] == head[i]);
            }
        }
        assert(decimal(n)[0] == head[0]);
    }
}

proof fn lemma_numbers_are_decimals(s: Seq<char>)
    requires
        s.len() > 0,
        forall|i: int| 0 <= i < s.len() ==> '0' <= #[trigger] s[i] <= '9',
        s[0] == '0' ==> s.len() == 1,
    ensures
        value(s) >= 0,
        s[0] != '0' ==> value(s) > 0,
        s == decimal(value(s) as nat),
    decreases s.len(),
{
    if s.len() == 1 {
        assert(value(s.drop_last()) == 0);
        assert(value(s) == s[0] as int - 48);
        assert(s =~= seq![digit(value(s) as nat)]);
    } else {
        let head = s.drop_last();
        assert forall|i: int| 0 <= i < head.len() implies '0' <= #[trigger] head[i] <= '9' by {
            assert(head[i] == s[i]);
        }
        assert(head[0] == s[0]);
        lemma_numbers_are_decimals(head);
        let n = value(s) as nat;
        assert('0' <= s[s.len() - 1] <= '9');
        assert(n / 10 == value(head) && n % 10 == s.last() as int - 48);
        assert(s =~= decimal(n / 10).push(digit(n % 10)));
    }
}

/// A text is a number of a version exactly where it is some number in decimal.
pub proof fn law_version_numbers_are_decimals(s: Seq<char>)
    ensures
        numeric(s) <==> exists|n: nat| s == #[trigger] decimal(n),
{
    if numeric(s) {
        assert forall|i: int| 0 <= i < s.len() implies '0' <= #[trigger] s[i] <= '9' by {
            assert(is_digit(s[i]));
        }
        lemma_numbers_are_decimals(s);
    }
    if exists|n: nat| s == #[trigger] decimal(n) {
        let n = choose|n: nat| s == #[trigger] decimal(n);
        law_decimals_stand_for_their_number(n);
    }
}

/// Some texts with dots between them.
pub open spec fn dotted(parts: Seq<Seq<char>>) -> Seq<char>
    decreases parts.len(),
{
    if parts.len() == 0 {
        Seq::empty()
    } else if parts.len() == 1 {
        parts[0]
    } else {
        parts[0] + seq!['.'] + dotted(parts.drop_first())
    }
}

/// Whether a text is made of ASCII letters, digits and hyphens, one at least.
pub open spec fn plain_word(s: Seq<char>) -> bool {
    &&& s.len() > 0
    &&& forall|i: int|
        0 <= i < s.len() ==> '0' <= #[trigger] s[i] <= '9' || 'a' <= s[i] <= 'z' || 'A' <= s[i]
            <= 'Z' || s[i] == '-'
}

/// Whether a text is made of digits.
pub open spec fn digits(s: Seq<char>) -> bool {
    forall|i: int| 0 <= i < s.len() ==> '0' <= #[trigger] s[i] <= '9'
}

/// Whether a text is words with dots between them.
pub open spec fn dotted_words(s: Seq<char>, parts: Seq<Seq<char>>) -> bool {
    &&& parts.len() > 0
    &&& s == dotted(parts)
    &&& forall|i: int| 0 <= i < parts.len() ==> plain_word(#[trigger] parts[i])
}

/// Whether the words that are numbers are so without leading zeros.
pub open spec fn plain_numbers(parts: Seq<Seq<char>>) -> bool {
    forall|i: int|
        0 <= i < parts.len() && digits(#[trigger] parts[i]) ==> exists|n: nat|
            parts[i] == #[trigger] decimal(n)
}

proof fn lemma_pieces(s: Seq<char>)
    ensures
        pieces(s, '.').len() > 0,
        dotted(pieces(s, '.')) == s,
    decreases s.len(),
{
    lemma_halves_make_the_text(s, '.');
    lemma_find_is_within(s, '.');
    match halves(s, '.') {
        (piece, Some(rest)) => {
            lemma_pieces(rest);
            let all = pieces(s, '.');
            assert(all == seq![piece] + pieces(rest, '.'));
            assert(all.drop_first() =~= pieces(rest, '.'));
            assert(s =~= piece + seq!['.'] + rest);
        },
        (piece, None) => {
            assert(pieces(s, '.') == seq![s]);
        },
    }
}

proof fn lemma_pieces_of_dotted(parts: Seq<Seq<char>>)
    requires
        parts.len() > 0,
        forall|i: int| 0 <= i < parts.len() ==> plain_word(#[trigger] parts[i]),
    ensures
        pieces(dotted(parts), '.') == parts,
    decreases parts.len(),
{
    let first = parts[0];
    assert(plain_word(first));
    if parts.len() == 1 {
        lemma_halves_of_marked(first, '.', None);
        assert(first + marked('.', None) =~= first);
        assert(pieces(first, '.') =~= parts);
    } else {
        let rest = parts.drop_first();
        assert forall|i: int| 0 <= i < rest.len() implies plain_word(#[trigger] rest[i]) by {
            assert(rest[i] == parts[i + 1]);
        }
        lemma_pieces_of_dotted(rest);
        lemma_halves_of_marked(first, '.', Some(dotted(rest)));
        assert(first + marked('.', Some(dotted(rest))) =~= dotted(parts));
        assert(pieces(dotted(parts), '.') =~= parts);
    }
}

proof fn lemma_words(s: Seq<char>)
    ensures
        identifier(s) <==> plain_word(s),
        pre_identifier(s) <==> plain_word(s) && (digits(s) ==> exists|n: nat|
            s == #[trigger] decimal(n)),
{
    law_version_numbers_are_decimals(s);
    if identifier(s) {
        assert forall|i: int| 0 <= i < s.len() implies '0' <= #[trigger] s[i] <= '9' || 'a' <= s[i]
            <= 'z' || 'A' <= s[i] <= 'Z' || s[i] == '-' by {
            assert(identifier_char(s[i]));
        }
    }
    if all_digits(s) {
        assert forall|i: int| 0 <= i < s.len() implies '0' <= #[trigger] s[i] <= '9' by {
            assert(is_digit(s[i]));
        }
    }
}

/// A text is a build exactly where it is words with dots between them.
pub proof fn law_builds_are_dotted_words(s: Seq<char>)
    ensures
        build(s) <==> exists|parts: Seq<Seq<char>>| #[trigger] dotted_words(s, parts),
{
    if build(s) {
        lemma_pieces(s);
        let parts = pieces(s, '.');
        assert forall|i: int| 0 <= i < parts.len() implies plain_word(#[trigger] parts[i]) by {
            assert(identifier(pieces(s, '.')[i]));
            lemma_words(parts[i]);
        }
        assert(dotted_words(s, parts));
    }
    if exists|parts: Seq<Seq<char>>| #[trigger] dotted_words(s, parts) {
        let parts = choose|parts: Seq<Seq<char>>| #[trigger] dotted_words(s, parts);
        lemma_pieces_of_dotted(parts);
        assert forall|i: int| 0 <= i < pieces(s, '.').len() implies identifier(
            #[trigger] pieces(s, '.')[i],
        ) by {
            lemma_words(parts[i]);
        }
    }
}

/// A text is a pre-release exactly where it is words with dots between them, of which the numbers
/// have no leading zeros.
pub proof fn law_pre_releases_are_dotted_words(s: Seq<char>)
    ensures
        pre_release(s) <==> exists|parts: Seq<Seq<char>>| #[trigger]
            dotted_words(s, parts) && plain_numbers(parts),
{
    if pre_release(s) {
        lemma_pieces(s);
        let parts = pieces(s, '.');
        assert forall|i: int| 0 <= i < parts.len() implies plain_word(#[trigger] parts[i]) && (
        digits(parts[i]) ==> exists|n: nat| parts[i] == #[trigger] decimal(n)) by {
            assert(pre_identifier(pieces(s, '.')[i]));
            lemma_words(parts[i]);
        }
        assert(dotted_words(s, parts) && plain_numbers(parts));
    }
    if exists|parts: Seq<Seq<char>>| #[trigger] dotted_words(s, parts) && plain_numbers(parts) {
        let parts = choose|parts: Seq<Seq<char>>| #[trigger]
            dotted_words(s, parts) && plain_numbers(parts);
        lemma_pieces_of_dotted(parts);
        assert forall|i: int| 0 <= i < pieces(s, '.').len() implies pre_identifier(
            #[trigger] pieces(s, '.')[i],
        ) by {
            lemma_words(parts[i]);
        }
    }
}

/// A version of three numbers, with the label of a pre-release behind a hyphen and the metadata of
/// a build behind a plus, where there are such.
pub open spec fn version_of(
    major: nat,
    minor: nat,
    patch: nat,
    label: Option<Seq<char>>,
    metadata: Option<Seq<char>>,
) -> Seq<char> {
    let core = decimal(major) + seq!['.'] + decimal(minor) + seq!['.'] + decimal(patch);
    match (label, metadata) {
        (None, None) => core,
        (Some(l), None) => core + seq!['-'] + l,
        (None, Some(m)) => core + seq!['+'] + m,
        (Some(l), Some(m)) => core + seq!['-'] + l + seq!['+'] + m,
    }
}

proof fn lemma_version_of(
    major: nat,
    minor: nat,
    patch: nat,
    label: Option<Seq<char>>,
    metadata: Option<Seq<char>>,
)
    ensures
        version_of(major, minor, patch, label, metadata) == written(
            decimal(major),
            decimal(minor),
            decimal(patch),
            label,
            metadata,
        ),
{
    assert(version_of(major, minor, patch, label, metadata) =~= written(
        decimal(major),
        decimal(minor),
        decimal(patch),
        label,
        metadata,
    ));
}

/// A text is a semantic version exactly where it is three numbers with dots between them, then
/// perhaps a pre-release, then perhaps a build.
pub proof fn law_semantic_versions_are_numbers_label_and_metadata(s: Seq<char>)
    ensures
        semver(s) <==> exists|
            major: nat,
            minor: nat,
            patch: nat,
            label: Option<Seq<char>>,
            metadata: Option<Seq<char>>,
        |
            #![trigger version_of(major, minor, patch, label, metadata)]
            {
                &&& s == version_of(major, minor, patch, label, metadata)
                &&& label matches Some(l) ==> pre_release(l)
                &&& metadata matches Some(m) ==> build(m)
            },
{
    law_semver_is_what_is_written(s);
    if semver(s) {
        let (a, b, c, label, metadata) = choose|
            a: Seq<char>,
            b: Seq<char>,
            c: Seq<char>,
            label: Option<Seq<char>>,
            metadata: Option<Seq<char>>,
        |
            #![trigger written(a, b, c, label, metadata)]
            version_parts(a, b, c, label, metadata) && s == written(a, b, c, label, metadata);
        law_version_numbers_are_decimals(a);
        law_version_numbers_are_decimals(b);
        law_version_numbers_are_decimals(c);
        let major = choose|n: nat| a == #[trigger] decimal(n);
        let minor = choose|n: nat| b == #[trigger] decimal(n);
        let patch = choose|n: nat| c == #[trigger] decimal(n);
        lemma_version_of(major, minor, patch, label, metadata);
        assert(s == version_of(major, minor, patch, label, metadata));
    }
    assert forall|
        major: nat,
        minor: nat,
        patch: nat,
        label: Option<Seq<char>>,
        metadata: Option<Seq<char>>,
    |
        #![trigger version_of(major, minor, patch, label, metadata)]
        s == version_of(major, minor, patch, label, metadata) && (label matches Some(l)
            ==> pre_release(l)) && (metadata matches Some(m) ==> build(m)) implies semver(s) by {
        lemma_version_of(major, minor, patch, label, metadata);
        law_version_numbers_are_decimals(decimal(major));
        law_version_numbers_are_decimals(decimal(minor));
        law_version_numbers_are_decimals(decimal(patch));
        assert(version_parts(decimal(major), decimal(minor), decimal(patch), label, metadata));
    }
}

/// The test for semantic versions answers yes to exactly these, and a number is written as the
/// digits that stand for it.
pub proof fn law_versions_and_numbers_by_call(s: &str, n: u32)
    ensures
        forall|r: bool| #[trigger] call_ensures(is_semver, (s,), r) ==> r == semver(s@),
        forall|r: String| #[trigger]
            call_ensures(decimal_text, (n,), r) ==> value(r@) == n && r@ == decimal(n as nat),
{
    law_decimals_stand_for_their_number(n as nat);
}

} // verus!
