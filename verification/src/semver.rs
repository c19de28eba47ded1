//! Semantic versions, such as `1.0.0`, `2.1.0-beta.3` or `1.0.0+20130313144700`.

use crate::text::str_views;
use vstd::prelude::*;

verus! {

/// Where `c` first stands in `s`; the length of `s` where it does not occur.
pub open spec fn find(s: Seq<char>, c: char) -> nat
    decreases s.len(),
{
    if s.len() == 0 || s[0] == c {
        0
    } else {
        1 + find(s.drop_first(), c)
    }
}

proof fn lemma_find(s: Seq<char>, c: char, n: int)
    requires
        0 <= n <= s.len(),
        forall|i: int| 0 <= i < n ==> #[trigger] s[i] != c,
        n < s.len() ==> s[n] == c,
    ensures
        find(s, c) == n,
    decreases n,
{
    if n > 0 {
        assert(s[0] != c);
        assert forall|i: int| 0 <= i < n - 1 implies #[trigger] s.drop_first()[i] != c by {
            assert(s[i + 1] != c);
        }
        lemma_find(s.drop_first(), c, n - 1);
    }
}

pub(crate) proof fn lemma_find_is_within(s: Seq<char>, c: char)
    ensures
        find(s, c) <= s.len(),
        find(s, c) < s.len() ==> s[find(s, c) as int] == c,
    decreases s.len(),
{
    if s.len() > 0 && s[0] != c {
        lemma_find_is_within(s.drop_first(), c);
    }
}

/// What stands before the first `c`, and what stands behind it where there is one.
pub open spec fn halves(s: Seq<char>, c: char) -> (Seq<char>, Option<Seq<char>>) {
    if find(s, c) < s.len() {
        (s.take(find(s, c) as int), Some(s.skip(find(s, c) as int + 1)))
    } else {
        (s, None)
    }
}

/// The pieces between the `c`s of a text.
pub open spec fn pieces(s: Seq<char>, c: char) -> Seq<Seq<char>>
    decreases s.len(),
{
    match halves(s, c) {
        (piece, Some(rest)) => seq![piece] + pieces(rest, c),
        (piece, None) => seq![piece],
    }
}

/// Whether a character is a decimal digit.
pub open spec fn is_digit(c: char) -> bool {
    '0' <= c <= '9'
}

/// Whether a text is made of digits alone.
pub open spec fn all_digits(s: Seq<char>) -> bool {
    forall|i: int| 0 <= i < s.len() ==> is_digit(#[trigger] s[i])
}

/// Whether a text is a number without leading zeros.
pub open spec fn numeric(s: Seq<char>) -> bool {
    &&& s.len() > 0
    &&& all_digits(s)
    &&& s[0] == '0' ==> s.len() == 1
}

/// Whether a character can stand in an identifier: an ASCII letter, a digit or a hyphen.
pub open spec fn identifier_char(c: char) -> bool {
    is_digit(c) || 'a' <= c <= 'z' || 'A' <= c <= 'Z' || c == '-'
}

/// Whether a text is an identifier, as it stands in the build part of a version.
pub open spec fn identifier(s: Seq<char>) -> bool {
    &&& s.len() > 0
    &&& forall|i: int| 0 <= i < s.len() ==> identifier_char(#[trigger] s[i])
}

/// Whether a text is an identifier of a pre-release, where numbers have no leading zeros.
pub open spec fn pre_identifier(s: Seq<char>) -> bool {
    identifier(s) && (all_digits(s) ==> numeric(s))
}

/// Whether a text is three numbers with dots between them.
pub open spec fn three_numbers(s: Seq<char>) -> bool {
    let parts = pieces(s, '.');
    parts.len() == 3 && numeric(parts[0]) && numeric(parts[1]) && numeric(parts[2])
}

/// Whether a text is identifiers of a pre-release with dots between them.
pub open spec fn pre_release(s: Seq<char>) -> bool {
    forall|i: int| 0 <= i < pieces(s, '.').len() ==> pre_identifier(#[trigger] pieces(s, '.')[i])
}

/// Whether a text is identifiers with dots between them.
pub open spec fn build(s: Seq<char>) -> bool {
    forall|i: int| 0 <= i < pieces(s, '.').len() ==> identifier(#[trigger] pieces(s, '.')[i])
}

/// Whether a text is a semantic version: `MAJOR.MINOR.PATCH`, numbers without leading zeros, then
/// an optional `-` with a pre-release and an optional `+` with a build.
pub open spec fn semver(s: Seq<char>) -> bool {
    let (version, metadata) = halves(s, '+');
    let (core, label) = halves(version, '-');
    &&& three_numbers(core)
    &&& label matches Some(l) ==> pre_release(l)
    &&& metadata matches Some(m) ==> build(m)
}

/// Cuts a text at the first `c`.
fn cut<'a>(s: &'a str, c: char) -> (r: (&'a str, Option<&'a str>))
    ensures
        (r.0@, match r.1 {
            Some(rest) => Some(rest@),
            None => None,
        }) == halves(s@, c),
        r.1 matches Some(rest) ==> rest@.len() < s@.len(),
{
    let n: usize = s.unicode_len();
    let mut i: usize = 0;
    while i < n && s.get_char(i) != c
        invariant
            i <= n,
            n == s@.len(),
            forall|j: int| 0 <= j < i ==> #[trigger] s@[j] != c,
        decreases n - i,
    {
        i = i + 1;
    }
    proof {
        lemma_find(s@, c, i as int);
    }
    if i < n {
        let head = s.substring_char(0, i);
        let rest = s.substring_char(i + 1, n);
        proof {
            assert(head@ =~= s@.take(i as int));
            assert(rest@ =~= s@.skip(i + 1));
        }
        (head, Some(rest))
    } else {
        (s, None)
    }
}

/// Cuts a text at every `c`.
fn split<'a>(s: &'a str, c: char) -> (r: Vec<&'a str>)
    ensures
        str_views(r@) == pieces(s@, c),
{
    let mut parts: Vec<&'a str> = Vec::new();
    let mut left: &'a str = s;
    proof {
        assert(str_views(parts@) + pieces(s@, c) =~= pieces(s@, c));
    }
    loop
        invariant
            str_views(parts@) + pieces(left@, c) == pieces(s@, c),
        decreases left@.len(),
    {
        let ghost before = parts@;
        let (piece, rest) = cut(left, c);
        parts.push(piece);
        proof {
            assert(str_views(parts@) =~= str_views(before).push(piece@));
        }
        match rest {
            Some(next) => {
                proof {
                    assert(str_views(parts@) + pieces(next@, c) =~= str_views(before) + pieces(
                        left@,
                        c,
                    ));
                }
                left = next;
            },
            None => {
                proof {
                    assert(str_views(parts@) =~= str_views(before) + pieces(left@, c));
                }
                return parts;
            },
        }
    }
}

fn has_digits_alone(s: &str) -> (r: bool)
    ensures
        r == all_digits(s@),
{
    let n: usize = s.unicode_len();
    let mut i: usize = 0;
    while i < n
        invariant
            i <= n,
            n == s@.len(),
            forall|j: int| 0 <= j < i ==> is_digit(#[trigger] s@[j]),
        decreases n - i,
    {
        let c = s.get_char(i);
        if !('0' <= c && c <= '9') {
            return false;
        }
        i = i + 1;
    }
    true
}

fn is_numeric(s: &str) -> (r: bool)
    ensures
        r == numeric(s@),
{
    let n: usize = s.unicode_len();
    n > 0 && has_digits_alone(s) && (n == 1 || s.get_char(0) != '0')
}

fn is_identifier(s: &str) -> (r: bool)
    ensures
        r == identifier(s@),
{
    let n: usize = s.unicode_len();
    let mut i: usize = 0;
    while i < n
        invariant
            i <= n,
            n == s@.len(),
            forall|j: int| 0 <= j < i ==> identifier_char(#[trigger] s@[j]),
        decreases n - i,
    {
        let c = s.get_char(i);
        if !('0' <= c && c <= '9' || 'a' <= c && c <= 'z' || 'A' <= c && c <= 'Z' || c == '-') {
            return false;
        }
        i = i + 1;
    }
    n > 0
}

fn is_three_numbers(s: &str) -> (r: bool)
    ensures
        r == three_numbers(s@),
{
    let parts = split(s, '.');
    proof {
        assert(str_views(parts@).len() == parts@.len());
    }
    parts.len() == 3 && is_numeric(parts[0]) && is_numeric(parts[1]) && is_numeric(parts[2])
}

fn is_pre_release(s: &str) -> (r: bool)
    ensures
        r == pre_release(s@),
{
    let parts = split(s, '.');
    let mut i: usize = 0;
    while i < parts.len()
        invariant
            i <= parts@.len(),
            str_views(parts@) == pieces(s@, '.'),
            forall|j: int| 0 <= j < i ==> pre_identifier(#[trigger] pieces(s@, '.')[j]),
        decreases parts@.len() - i,
    {
        proof {
            assert(pieces(s@, '.')[i as int] == parts@[i as int]@);
        }
        if !is_identifier(parts[i]) || has_digits_alone(parts[i]) && !is_numeric(parts[i]) {
            return false;
        }
        i = i + 1;
    }
    true
}

fn is_build(s: &str) -> (r: bool)
    ensures
        r == build(s@),
{
    let parts = split(s, '.');
    let mut i: usize = 0;
    while i < parts.len()
        invariant
            i <= parts@.len(),
            str_views(parts@) == pieces(s@, '.'),
            forall|j: int| 0 <= j < i ==> identifier(#[trigger] pieces(s@, '.')[j]),
        decreases parts@.len() - i,
    {
        proof {
            assert(pieces(s@, '.')[i as int] == parts@[i as int]@);
        }
        if !is_identifier(parts[i]) {
            return false;
        }
        i = i + 1;
    }
    true
}

/// Whether a text is a semantic version.
pub fn is_semver(s: &str) -> (r: bool)
    ensures
        r == semver(s@),
{
    let (version, metadata) = cut(s, '+');
    let (core, label) = cut(version, '-');
    if !is_three_numbers(core) {
        return false;
    }
    if let Some(l) = label {
        if !is_pre_release(l) {
            return false;
        }
    }
    match metadata {
        Some(m) => is_build(m),
        None => true,
    }
}

/// A text behind a mark, where there is one.
pub open spec fn marked(mark: char, text: Option<Seq<char>>) -> Seq<char> {
    match text {
        Some(t) => seq![mark] + t,
        None => Seq::empty(),
    }
}

/// How a version is put together.
pub open spec fn written(
    major: Seq<char>,
    minor: Seq<char>,
    patch: Seq<char>,
    label: Option<Seq<char>>,
    metadata: Option<Seq<char>>,
) -> Seq<char> {
    major + seq!['.'] + minor + seq!['.'] + patch + marked('-', label) + marked('+', metadata)
}

/// Whether these can be the parts of a version.
pub open spec fn version_parts(
    major: Seq<char>,
    minor: Seq<char>,
    patch: Seq<char>,
    label: Option<Seq<char>>,
    metadata: Option<Seq<char>>,
) -> bool {
    &&& numeric(major) && numeric(minor) && numeric(patch)
    &&& label matches Some(l) ==> pre_release(l)
    &&& metadata matches Some(m) ==> build(m)
}

pub(crate) proof fn lemma_halves_of_marked(head: Seq<char>, c: char, text: Option<Seq<char>>)
    requires
        forall|i: int| 0 <= i < head.len() ==> #[trigger] head[i] != c,
    ensures
        halves(head + marked(c, text), c) == (head, text),
{
    let s = head + marked(c, text);
    assert forall|i: int| 0 <= i < head.len() implies #[trigger] s[i] != c by {
        assert(s[i] == head[i]);
    }
    lemma_find(s, c, head.len() as int);
    match text {
        Some(t) => {
            assert(s.take(head.len() as int) =~= head);
            assert(s.skip(head.len() as int + 1) =~= t);
        },
        None => {
            assert(s =~= head);
        },
    }
}

pub(crate) proof fn lemma_halves_make_the_text(s: Seq<char>, c: char)
    ensures
        s == halves(s, c).0 + marked(c, halves(s, c).1),
{
    lemma_find_is_within(s, c);
    let n = find(s, c) as int;
    if n < s.len() {
        assert(s =~= s.take(n) + (seq![c] + s.skip(n + 1)));
    } else {
        assert(s =~= s + Seq::<char>::empty());
    }
}

proof fn lemma_three_pieces(a: Seq<char>, b: Seq<char>, p: Seq<char>)
    requires
        numeric(a),
        numeric(b),
        numeric(p),
    ensures
        pieces(a + seq!['.'] + b + seq!['.'] + p, '.') == seq![a, b, p],
{
    let rest = b + seq!['.'] + p;
    assert(a + seq!['.'] + b + seq!['.'] + p =~= a + marked('.', Some(rest)));
    assert(rest =~= b + marked('.', Some(p)));
    assert(p =~= p + marked('.', None));
    lemma_halves_of_marked(a, '.', Some(rest));
    lemma_halves_of_marked(b, '.', Some(p));
    lemma_halves_of_marked(p, '.', None);
    assert(pieces(p, '.') =~= seq![p]);
    assert(pieces(rest, '.') =~= seq![b, p]);
    assert(pieces(a + seq!['.'] + b + seq!['.'] + p, '.') =~= seq![a, b, p]);
}

proof fn lemma_pieces_make_three(s: Seq<char>)
    requires
        pieces(s, '.').len() == 3,
    ensures
        s == pieces(s, '.')[0] + seq!['.'] + pieces(s, '.')[1] + seq!['.'] + pieces(s, '.')[2],
{
    lemma_halves_make_the_text(s, '.');
    let (a, more) = halves(s, '.');
    assert(more is Some);
    let rest = more->0;
    assert(pieces(s, '.') == seq![a] + pieces(rest, '.'));
    lemma_halves_make_the_text(rest, '.');
    let (b, last) = halves(rest, '.');
    assert(last is Some);
    let p = last->0;
    assert(pieces(rest, '.') == seq![b] + pieces(p, '.'));
    lemma_halves_make_the_text(p, '.');
    assert(pieces(p, '.').len() == 1);
    if let Some(further) = halves(p, '.').1 {
        assert(pieces(p, '.') == seq![halves(p, '.').0] + pieces(further, '.'));
        assert(pieces(further, '.').len() > 0);
    }
    assert(pieces(p, '.') =~= seq![p]);
    assert(s =~= a + seq!['.'] + b + seq!['.'] + p);
}

proof fn lemma_pre_release_chars(s: Seq<char>)
    requires
        pre_release(s),
    ensures
        forall|i: int| 0 <= i < s.len() ==> identifier_char(#[trigger] s[i]) || s[i] == '.',
    decreases s.len(),
{
    lemma_halves_make_the_text(s, '.');
    let (piece, rest) = halves(s, '.');
    assert(pieces(s, '.')[0] == piece);
    assert(pre_identifier(piece));
    if let Some(r) = rest {
        assert forall|i: int| 0 <= i < pieces(r, '.').len() implies pre_identifier(
            #[trigger] pieces(r, '.')[i],
        ) by {
            assert(pieces(s, '.')[i + 1] == pieces(r, '.')[i]);
        }
        lemma_pre_release_chars(r);
        assert forall|i: int| 0 <= i < s.len() implies identifier_char(#[trigger] s[i]) || s[i]
            == '.' by {
            if i < piece.len() {
                assert(s[i] == piece[i]);
            } else if i > piece.len() {
                assert(s[i] == r[i - piece.len() - 1]);
            }
        }
    }
}

/// A text is a semantic version exactly where it can be put together of three numbers, an
/// optional pre-release and an optional build.
pub proof fn law_semver_is_what_is_written(s: Seq<char>)
    ensures
        semver(s) <==> exists|
            major: Seq<char>,
            minor: Seq<char>,
            patch: Seq<char>,
            label: Option<Seq<char>>,
            metadata: Option<Seq<char>>,
        |
            #![trigger written(major, minor, patch, label, metadata)]
            version_parts(major, minor, patch, label, metadata) && s == written(
                major,
                minor,
                patch,
                label,
                metadata,
            ),
{
    if semver(s) {
        let (version, metadata) = halves(s, '+');
        let (core, label) = halves(version, '-');
        lemma_halves_make_the_text(s, '+');
        lemma_halves_make_the_text(version, '-');
        lemma_pieces_make_three(core);
        let parts = pieces(core, '.');
        assert(version_parts(parts[0], parts[1], parts[2], label, metadata));
        assert(s == written(parts[0], parts[1], parts[2], label, metadata));
    }
    assert forall|
        major: Seq<char>,
        minor: Seq<char>,
        patch: Seq<char>,
        label: Option<Seq<char>>,
        metadata: Option<Seq<char>>,
    |
        #![trigger written(major, minor, patch, label, metadata)]
        version_parts(major, minor, patch, label, metadata) && s == written(
            major,
            minor,
            patch,
            label,
            metadata,
        ) implies semver(s) by {
        lemma_written_is_semver(major, minor, patch, label, metadata);
    }
}

proof fn lemma_written_is_semver(
    major: Seq<char>,
    minor: Seq<char>,
    patch: Seq<char>,
    label: Option<Seq<char>>,
    metadata: Option<Seq<char>>,
)
    requires
        version_parts(major, minor, patch, label, metadata),
    ensures
        semver(written(major, minor, patch, label, metadata)),
{
    let core = major + seq!['.'] + minor + seq!['.'] + patch;
    let version = core + marked('-', label);
    lemma_three_pieces(major, minor, patch);
    assert forall|i: int| 0 <= i < core.len() implies is_digit(#[trigger] core[i]) || core[i]
        == '.' by {
        let n = major.len();
        let m = n + 1 + minor.len();
        if i < n {
            assert(core[i] == major[i]);
        } else if n < i < m {
            assert(core[i] == minor[i - n - 1]);
        } else if i > m {
            assert(core[i] == patch[i - m - 1]);
        }
    }
    lemma_halves_of_marked(core, '-', label);
    if let Some(l) = label {
        lemma_pre_release_chars(l);
    }
    assert forall|i: int| 0 <= i < version.len() implies #[trigger] version[i] != '+' by {
        if i < core.len() {
            assert(version[i] == core[i]);
        } else if i > core.len() {
            assert(version[i] == label->0[i - core.len() - 1]);
        }
    }
    lemma_halves_of_marked(version, '+', metadata);
}

} // verus!
