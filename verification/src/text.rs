//! Text helpers: trailing-slash trimming, exact comparison, concatenation,
//! and the case conversions that std performs.
use vstd::prelude::*;

verus! {

/// `s` with every trailing `'/'` removed (what `str::trim_end_matches('/')` returns).
pub open spec fn trim_trailing_slashes(s: Seq<char>) -> Seq<char>
    decreases s.len(),
{
    if s.len() > 0 && s.last() == '/' {
        trim_trailing_slashes(s.drop_last())
    } else {
        s
    }
}

/// Whether the text ends in a `'/'`.
pub open spec fn ends_with_slash(s: Seq<char>) -> bool {
    s.len() > 0 && s.last() == '/'
}

/// The view of an optional string.
pub open spec fn opt_view(o: Option<String>) -> Option<Seq<char>> {
    match o {
        Some(s) => Some(s@),
        None => None,
    }
}

/// The text inside `o`, or `d` when there is none.
pub open spec fn view_or(o: Option<Seq<char>>, d: Seq<char>) -> Seq<char> {
    match o {
        Some(s) => s,
        None => d,
    }
}

/// Trimming leaves a prefix of the input that does not end in `'/'`, and
/// whatever it removed was all slashes.
pub proof fn lemma_trim_trailing_slashes(s: Seq<char>)
    ensures
        !ends_with_slash(trim_trailing_slashes(s)),
        trim_trailing_slashes(s).len() <= s.len(),
        trim_trailing_slashes(s) =~= s.subrange(0, trim_trailing_slashes(s).len() as int),
        forall|i: int|
            trim_trailing_slashes(s).len() <= i < s.len() ==> #[trigger] s[i] == '/',
    decreases s.len(),
{
    if s.len() > 0 && s.last() == '/' {
        let t = s.drop_last();
        lemma_trim_trailing_slashes(t);
        assert forall|i: int| trim_trailing_slashes(s).len() <= i < s.len() implies #[trigger] s[i]
            == '/' by {
            if i < t.len() {
                assert(t[i] == s[i]);
            }
        }
    }
}

/// Trimming twice is trimming once.
pub proof fn lemma_trim_trailing_slashes_idempotent(s: Seq<char>)
    ensures
        trim_trailing_slashes(trim_trailing_slashes(s)) == trim_trailing_slashes(s),
{
    lemma_trim_trailing_slashes(s);
}

/// Appending slashes to a text does not change what trimming gives.
pub proof fn lemma_trim_ignores_added_slashes(s: Seq<char>, n: nat)
    ensures
        trim_trailing_slashes(s + Seq::new(n, |i: int| '/')) == trim_trailing_slashes(s),
    decreases n,
{
    if n > 0 {
        let t = s + Seq::new(n, |i: int| '/');
        assert(t.drop_last() =~= s + Seq::new((n - 1) as nat, |i: int| '/'));
        lemma_trim_ignores_added_slashes(s, (n - 1) as nat);
    } else {
        assert(s + Seq::new(n, |i: int| '/') =~= s);
    }
}

/// Law: the small text helpers: a text ends with a slash exactly when its
/// last character is `'/'`; an optional string's view is its text's view;
/// `view_or` gives the text when there is one and the default otherwise.
pub proof fn lemma_text_helpers(s: Seq<char>, o: Option<String>, t: Option<Seq<char>>, d: Seq<char>)
    ensures
        ends_with_slash(s) <==> (s.len() > 0 && s[s.len() - 1] == '/'),
        o matches Some(x) ==> opt_view(o) == Some(x@),
        o is None ==> opt_view(o) is None,
        t matches Some(x) ==> view_or(t, d) == x,
        t is None ==> view_or(t, d) == d,
{
}

/// `s` without its trailing slashes, as a new string.
pub(crate) fn trim_end_slashes(s: &str) -> (r: String)
    ensures
        r@ == trim_trailing_slashes(s@),
{
    let n = s.unicode_len();
    let mut end = n;
    assert(s@.subrange(0, n as int) =~= s@);
    while end > 0 && s.get_char(end - 1) == '/'
        invariant
            end <= n,
            n == s@.len(),
            trim_trailing_slashes(s@) == trim_trailing_slashes(s@.subrange(0, end as int)),
        decreases end,
    {
        assert(s@.subrange(0, end as int).drop_last() =~= s@.subrange(0, end - 1));
        end = end - 1;
    }
    String::from_str(s.substring_char(0, end))
}

/// Whether two texts are equal, character for character.
pub(crate) fn same_text(a: &str, b: &str) -> (r: bool)
    ensures
        r == (a@ == b@),
{
    let x = String::from_str(a);
    let y = String::from_str(b);
    x == y
}

/// The concatenation of two texts.
pub(crate) fn join2(a: &str, b: &str) -> (r: String)
    ensures
        r@ == a@ + b@,
{
    let mut r = String::from_str(a);
    r.append(b);
    r
}

/// The concatenation of three texts.
pub(crate) fn join3(a: &str, b: &str, c: &str) -> (r: String)
    ensures
        r@ == a@ + b@ + c@,
{
    let mut r = String::from_str(a);
    r.append(b);
    r.append(c);
    r
}

/// A copy of an optional string.
pub(crate) fn copy_opt(o: &Option<String>) -> (r: Option<String>)
    ensures
        r == *o,
{
    match o {
        Some(s) => Some(s.clone()),
        None => None,
    }
}

/// Whether every character is ASCII.
pub open spec fn all_ascii(s: Seq<char>) -> bool {
    forall|i: int| 0 <= i < s.len() ==> (#[trigger] s[i] as int) < 128
}

/// An ASCII uppercase letter as its lowercase letter; any other character kept.
pub open spec fn ascii_lower_char(c: char) -> char {
    if 65 <= (c as int) <= 90 {
        ((c as int) + 32) as char
    } else {
        c
    }
}

/// An ASCII lowercase letter as its uppercase letter; any other character kept.
pub open spec fn ascii_upper_char(c: char) -> char {
    if 97 <= (c as int) <= 122 {
        ((c as int) - 32) as char
    } else {
        c
    }
}

/// The text with A–Z mapped to a–z.
pub open spec fn ascii_lowercase(s: Seq<char>) -> Seq<char> {
    s.map_values(|c: char| ascii_lower_char(c))
}

/// The text with a–z mapped to A–Z.
pub open spec fn ascii_uppercase(s: Seq<char>) -> Seq<char> {
    s.map_values(|c: char| ascii_upper_char(c))
}

/// Law: ASCII case mapping moves exactly the 26 letters by 32 code points and
/// keeps the length and every other character.
pub proof fn lemma_ascii_case(s: Seq<char>, i: int)
    requires
        0 <= i < s.len(),
    ensures
        ascii_lowercase(s).len() == s.len(),
        ascii_uppercase(s).len() == s.len(),
        ('A' <= s[i] && s[i] <= 'Z') ==> ascii_lowercase(s)[i] as int == s[i] as int + 32,
        !('A' <= s[i] && s[i] <= 'Z') ==> ascii_lowercase(s)[i] == s[i],
        ('a' <= s[i] && s[i] <= 'z') ==> ascii_uppercase(s)[i] as int == s[i] as int - 32,
        !('a' <= s[i] && s[i] <= 'z') ==> ascii_uppercase(s)[i] == s[i],
{
}

/// What `str::to_lowercase` returns for a text: its lowercase equivalent as
/// Unicode's `Lowercase` property defines it.
pub uninterp spec fn lowercase_of(s: Seq<char>) -> Seq<char>;

/// What `str::to_uppercase` returns for a text: its uppercase equivalent as
/// Unicode's `Uppercase` property defines it.
pub uninterp spec fn uppercase_of(s: Seq<char>) -> Seq<char>;

/// `str::to_lowercase`. The contract claims that the result is the same
/// function of the input text on every call, and that on ASCII text it maps
/// A–Z to a–z and keeps every other character; the Unicode case tables for
/// other text are left unsaid.
#[verifier::external_body]
pub(crate) fn to_lowercase(s: &str) -> (r: String)
    ensures
        r@ == lowercase_of(s@),
        all_ascii(s@) ==> r@ == ascii_lowercase(s@),
{
    s.to_lowercase()
}

/// `str::to_uppercase`. The contract claims that the result is the same
/// function of the input text on every call, and that on ASCII text it maps
/// a–z to A–Z and keeps every other character; the Unicode case tables for
/// other text are left unsaid.
#[verifier::external_body]
pub(crate) fn to_uppercase(s: &str) -> (r: String)
    ensures
        r@ == uppercase_of(s@),
        all_ascii(s@) ==> r@ == ascii_uppercase(s@),
{
    s.to_uppercase()
}

} // verus!
