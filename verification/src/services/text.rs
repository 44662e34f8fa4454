//! Text primitives shared by the classifier, the keyword extractor and the
//! dialogue engine. A string is modelled by its sequence of characters.

use vstd::prelude::*;
use vstd::string::*;

verus! {

/// The lower-case form of a text as the standard library computes it.
pub uninterp spec fn lowercase(s: Seq<char>) -> Seq<char>;

/// The upper-case form of a text as the standard library computes it.
pub uninterp spec fn uppercase(s: Seq<char>) -> Seq<char>;

/// Whether the standard library counts a character as a letter.
pub uninterp spec fn alphabetic(c: char) -> bool;

/// Whether the standard library counts a character as a letter or a number.
pub uninterp spec fn alphanumeric(c: char) -> bool;

/// Calls `str::to_lowercase`. The case mapping follows the Unicode tables
/// and is not restated here: the result is only given its name.
#[verifier::external_body]
pub(crate) fn to_lower(s: &str) -> (r: String)
    ensures
        r@ == lowercase(s@),
{
    s.to_lowercase()
}

/// Calls `str::to_uppercase`. The case mapping follows the Unicode tables
/// and is not restated here: the result is only given its name.
#[verifier::external_body]
pub(crate) fn to_upper(s: &str) -> (r: String)
    ensures
        r@ == uppercase(s@),
{
    s.to_uppercase()
}

/// Calls `char::is_alphabetic`, which looks the character up in the Unicode
/// table of alphabetic characters; the answer is only given its name.
#[verifier::external_body]
pub(crate) fn is_alphabetic(c: char) -> (b: bool)
    ensures
        b == alphabetic(c),
{
    c.is_alphabetic()
}

/// Calls `char::is_alphanumeric`, which looks the character up in the
/// Unicode letter and number categories; the answer is only given its name.
#[verifier::external_body]
pub(crate) fn is_alphanumeric(c: char) -> (b: bool)
    ensures
        b == alphanumeric(c),
{
    c.is_alphanumeric()
}

/// The characters of `s`, in order.
pub fn chars_of(s: &str) -> (v: Vec<char>)
    ensures
        v@ == s@,
{
    let mut v: Vec<char> = Vec::new();
    for c in it: s.chars()
        invariant
            it.seq() == s@,
            v@ == it.seq().take(it.index() as int),
    {
        v.push(c);
    }
    v
}

/// White space: the code points that Unicode lists as `White_Space`.
pub open spec fn is_space(c: char) -> bool {
    let n = c as u32;
    ||| 0x09 <= n <= 0x0D
    ||| n == 0x20
    ||| n == 0x85
    ||| n == 0xA0
    ||| n == 0x1680
    ||| 0x2000 <= n <= 0x200A
    ||| n == 0x2028
    ||| n == 0x2029
    ||| n == 0x202F
    ||| n == 0x205F
    ||| n == 0x3000
}

/// Whether `c` is white space.
pub fn is_whitespace(c: char) -> (b: bool)
    ensures
        b == is_space(c),
{
    let n: u32 = c as u32;
    (0x09 <= n && n <= 0x0D) || n == 0x20 || n == 0x85 || n == 0xA0 || n == 0x1680 || (0x2000 <= n
        && n <= 0x200A) || n == 0x2028 || n == 0x2029 || n == 0x202F || n == 0x205F || n == 0x3000
}

/// A decimal digit, `0` to `9`.
pub open spec fn is_digit(c: char) -> bool {
    '0' <= c <= '9'
}

/// Whether `c` is a decimal digit.
pub fn is_decimal_digit(c: char) -> (b: bool)
    ensures
        b == is_digit(c),
{
    '0' <= c && c <= '9'
}

/// `s` without its leading white space.
pub open spec fn trim_front(s: Seq<char>) -> Seq<char>
    decreases s.len(),
{
    if s.len() > 0 && is_space(s[0]) {
        trim_front(s.drop_first())
    } else {
        s
    }
}

/// `s` without its trailing white space.
pub open spec fn trim_back(s: Seq<char>) -> Seq<char>
    decreases s.len(),
{
    if s.len() > 0 && is_space(s.last()) {
        trim_back(s.drop_last())
    } else {
        s
    }
}

/// `s` without leading and trailing white space.
pub open spec fn trimmed(s: Seq<char>) -> Seq<char> {
    trim_back(trim_front(s))
}

/// The bounds of the trimmed part of `chars`.
pub fn trim_bounds(chars: &Vec<char>) -> (r: (usize, usize))
    ensures
        r.0 <= r.1 <= chars.len(),
        chars@.subrange(r.0 as int, r.1 as int) == trimmed(chars@),
{
    let n = chars.len();
    let mut i: usize = 0;
    assert(chars@ =~= chars@.subrange(0, n as int));
    while i < n && is_whitespace(chars[i])
        invariant
            i <= n == chars.len(),
            trim_front(chars@) == trim_front(chars@.subrange(i as int, n as int)),
        decreases n - i,
    {
        assert(chars@.subrange(i as int, n as int).drop_first() =~= chars@.subrange(
            i + 1,
            n as int,
        ));
        i += 1;
    }
    let ghost front = chars@.subrange(i as int, n as int);
    assert(trim_front(chars@) == front);
    let mut j: usize = n;
    while j > i && is_whitespace(chars[j - 1])
        invariant
            i <= j <= n == chars.len(),
            front == chars@.subrange(i as int, n as int),
            trim_back(front) == trim_back(chars@.subrange(i as int, j as int)),
        decreases j,
    {
        assert(chars@.subrange(i as int, j as int).drop_last() =~= chars@.subrange(
            i as int,
            j - 1,
        ));
        j -= 1;
    }
    (i, j)
}

/// The characters of `chars` without leading and trailing white space.
pub fn trimmed_chars(chars: &Vec<char>) -> (r: Vec<char>)
    ensures
        r@ == trimmed(chars@),
{
    let (from, to) = trim_bounds(chars);
    let mut r: Vec<char> = Vec::new();
    let mut i: usize = from;
    while i < to
        invariant
            from <= i <= to <= chars.len(),
            r@ == chars@.subrange(from as int, i as int),
        decreases to - i,
    {
        r.push(chars[i]);
        assert(chars@.subrange(from as int, i as int).push(chars[i as int]) =~= chars@.subrange(
            from as int,
            i + 1,
        ));
        i += 1;
    }
    r
}

/// `s` without leading and trailing white space.
pub fn trim(s: &str) -> (r: &str)
    ensures
        r@ == trimmed(s@),
{
    let chars = chars_of(s);
    let (from, to) = trim_bounds(&chars);
    s.substring_char(from, to)
}

/// `needle` stands in `hay` at position `at`.
pub open spec fn occurs_at(hay: Seq<char>, needle: Seq<char>, at: int) -> bool {
    &&& 0 <= at
    &&& at + needle.len() <= hay.len()
    &&& hay.subrange(at, at + needle.len()) == needle
}

/// `needle` is a contiguous part of `hay`. The empty text is part of every
/// text.
pub open spec fn contains(hay: Seq<char>, needle: Seq<char>) -> bool {
    exists|at: int| occurs_at(hay, needle, at)
}

/// Whether `needle` stands in `hay` at position `at`.
fn matches_at(hay: &Vec<char>, needle: &Vec<char>, at: usize) -> (b: bool)
    requires
        at + needle.len() <= hay.len(),
    ensures
        b == occurs_at(hay@, needle@, at as int),
{
    let m = needle.len();
    let mut k: usize = 0;
    while k < m
        invariant
            k <= m == needle.len(),
            at + m <= hay.len(),
            forall|x: int| 0 <= x < k ==> hay[at + x] == needle[x],
        decreases m - k,
    {
        if hay[at + k] != needle[k] {
            assert(hay@.subrange(at as int, at + m)[k as int] == hay[at + k]);
            return false;
        }
        k += 1;
    }
    assert(hay@.subrange(at as int, at + m) =~= needle@);
    true
}

/// Whether `needle` is a contiguous part of `hay`.
pub fn contains_chars(hay: &Vec<char>, needle: &Vec<char>) -> (b: bool)
    ensures
        b == contains(hay@, needle@),
{
    let n = hay.len();
    let m = needle.len();
    if m > n {
        return false;
    }
    let last = n - m;
    let mut at: usize = 0;
    while at < last
        invariant
            at <= last == n - m,
            n == hay.len(),
            m == needle.len(),
            forall|x: int| 0 <= x < at ==> !occurs_at(hay@, needle@, x),
        decreases last - at,
    {
        if matches_at(hay, needle, at) {
            return true;
        }
        at += 1;
    }
    matches_at(hay, needle, last)
}

/// Whether `needle` is a contiguous part of `hay`.
pub fn str_contains(hay: &str, needle: &str) -> (b: bool)
    ensures
        b == contains(hay@, needle@),
{
    let h = chars_of(hay);
    let n = chars_of(needle);
    contains_chars(&h, &n)
}

/// Whether some text of `words` is a contiguous part of `hay`.
pub open spec fn contains_any(hay: Seq<char>, words: Seq<Seq<char>>) -> bool {
    exists|k: int| 0 <= k < words.len() && contains(hay, #[trigger] words[k])
}

/// Whether some word of `words` is a contiguous part of `hay`.
pub fn contains_any_of(hay: &Vec<char>, words: &Vec<&'static str>) -> (b: bool)
    ensures
        b == contains_any(hay@, words.deep_view()),
{
    let mut k: usize = 0;
    while k < words.len()
        invariant
            k <= words.len(),
            forall|x: int| 0 <= x < k ==> !contains(hay@, #[trigger] words.deep_view()[x]),
        decreases words.len() - k,
    {
        let word = chars_of(words[k]);
        assert(words.deep_view()[k as int] == words[k as int]@);
        if contains_chars(hay, &word) {
            return true;
        }
        k += 1;
    }
    false
}

/// A character with an upper-case ASCII letter turned into its lower-case
/// form, and any other character as it is.
pub open spec fn fold_ascii(c: char) -> char {
    if 'A' <= c <= 'Z' {
        ((c as u8 + 32) as u8) as char
    } else {
        c
    }
}

/// `c` with an upper-case ASCII letter turned into its lower-case form.
pub fn fold_ascii_char(c: char) -> (r: char)
    ensures
        r == fold_ascii(c),
{
    if 'A' <= c && c <= 'Z' {
        let b: u8 = c as u8;
        (b + 32) as char
    } else {
        c
    }
}

/// The two texts are equal up to the case of their ASCII letters.
pub open spec fn same_ignoring_ascii_case(a: Seq<char>, b: Seq<char>) -> bool {
    &&& a.len() == b.len()
    &&& forall|i: int| 0 <= i < a.len() ==> fold_ascii(#[trigger] a[i]) == fold_ascii(b[i])
}

/// Whether the two texts are equal up to the case of their ASCII letters.
pub fn eq_ignoring_ascii_case(a: &Vec<char>, b: &Vec<char>) -> (r: bool)
    ensures
        r == same_ignoring_ascii_case(a@, b@),
{
    if a.len() != b.len() {
        return false;
    }
    let mut i: usize = 0;
    while i < a.len()
        invariant
            i <= a.len() == b.len(),
            forall|x: int| 0 <= x < i ==> fold_ascii(#[trigger] a[x]) == fold_ascii(b[x]),
        decreases a.len() - i,
    {
        if fold_ascii_char(a[i]) != fold_ascii_char(b[i]) {
            return false;
        }
        i += 1;
    }
    true
}

/// Whether the two texts are the same.
pub fn same_text(a: &str, b: &str) -> (r: bool)
    ensures
        r == (a@ == b@),
{
    let x = String::from_str(a);
    let y = String::from_str(b);
    x == y
}

/// Whether the mark at position `i` says that the character there belongs
/// to a word. A position without a mark belongs to none.
pub open spec fn marked(in_word: Seq<bool>, i: int) -> bool {
    0 <= i < in_word.len() && in_word[i]
}

/// The words of the part of `s` from position `i` on: the maximal runs of
/// characters that are marked as belonging to a word, in order. `current`
/// holds the part of a word that was read before position `i`.
pub open spec fn split_from(s: Seq<char>, in_word: Seq<bool>, i: int, current: Seq<char>) -> Seq<
    Seq<char>,
>
    decreases s.len() - i,
{
    if i < 0 || i >= s.len() {
        if current.len() > 0 {
            seq![current]
        } else {
            Seq::empty()
        }
    } else if marked(in_word, i) {
        split_from(s, in_word, i + 1, current.push(s[i]))
    } else if current.len() > 0 {
        seq![current] + split_from(s, in_word, i + 1, Seq::empty())
    } else {
        split_from(s, in_word, i + 1, Seq::empty())
    }
}

/// For each character of a text, whether it is a letter or a number.
pub open spec fn word_marks(s: Seq<char>) -> Seq<bool> {
    s.map_values(|c: char| alphanumeric(c))
}

/// The words of a text: its maximal runs of letters and numbers, in order.
pub open spec fn words(s: Seq<char>) -> Seq<Seq<char>> {
    split_from(s, word_marks(s), 0, Seq::empty())
}

/// The texts that a list of character vectors holds.
pub open spec fn rows(v: Seq<Vec<char>>) -> Seq<Seq<char>> {
    v.map_values(|w: Vec<char>| w@)
}

/// The words of `text`, given for each of its characters whether it
/// belongs to a word.
pub fn split_words(text: &Vec<char>, in_word: &Vec<bool>) -> (r: Vec<Vec<char>>)
    ensures
        rows(r@) == split_from(text@, in_word@, 0, Seq::empty()),
{
    let mut done: Vec<Vec<char>> = Vec::new();
    let mut current: Vec<char> = Vec::new();
    let mut i: usize = 0;
    let ghost all = split_from(text@, in_word@, 0, Seq::empty());
    assert(rows(done@) + all =~= all);
    while i < text.len()
        invariant
            i <= text.len(),
            all == rows(done@) + split_from(text@, in_word@, i as int, current@),
        decreases text.len() - i,
    {
        if i < in_word.len() && in_word[i] {
            current.push(text[i]);
        } else if current.len() == 0 {
            assert(current@ =~= Seq::empty());
        } else {
            let ghost before = rows(done@);
            let ghost word = current@;
            let ghost rest = split_from(text@, in_word@, i + 1, Seq::empty());
            done.push(current);
            current = Vec::new();
            assert(rows(done@) =~= before + seq![word]);
            assert((before + seq![word]) + rest =~= before + (seq![word] + rest));
        }
        i += 1;
    }
    if current.len() > 0 {
        let ghost before = rows(done@);
        let ghost word = current@;
        done.push(current);
        assert(rows(done@) =~= before + seq![word]);
    } else {
        assert(rows(done@) + Seq::<Seq<char>>::empty() =~= rows(done@));
    }
    done
}

/// The words of `text`, in order.
pub fn words_of(text: &Vec<char>) -> (r: Vec<Vec<char>>)
    ensures
        rows(r@) == words(text@),
{
    let mut in_word: Vec<bool> = Vec::new();
    let mut i: usize = 0;
    while i < text.len()
        invariant
            i <= text.len(),
            in_word.len() == i,
            forall|k: int| 0 <= k < i ==> in_word[k] == alphanumeric(text[k]),
        decreases text.len() - i,
    {
        in_word.push(is_alphanumeric(text[i]));
        i += 1;
    }
    assert(in_word@ =~= word_marks(text@));
    split_words(text, &in_word)
}

/// Whether two lists of characters are the same.
pub fn same_chars(a: &Vec<char>, b: &Vec<char>) -> (r: bool)
    ensures
        r == (a@ == b@),
{
    if a.len() != b.len() {
        return false;
    }
    let mut i: usize = 0;
    while i < a.len()
        invariant
            i <= a.len() == b.len(),
            forall|k: int| 0 <= k < i ==> a[k] == b[k],
        decreases a.len() - i,
    {
        if a[i] != b[i] {
            return false;
        }
        i += 1;
    }
    assert(a@ =~= b@);
    true
}

/// Where `word` stands in `list`, if it does.
pub fn position_in(word: &Vec<char>, list: &Vec<&'static str>) -> (r: Option<usize>)
    ensures
        match r {
            Some(i) => i < list.len() && list[i as int]@ == word@,
            None => !list.deep_view().contains(word@),
        },
{
    let mut i: usize = 0;
    while i < list.len()
        invariant
            i <= list.len(),
            forall|k: int| 0 <= k < i ==> list[k]@ != word@,
        decreases list.len() - i,
    {
        let entry = chars_of(list[i]);
        if same_chars(&entry, word) {
            return Some(i);
        }
        i += 1;
    }
    assert forall|k: int| 0 <= k < list.deep_view().len() implies list.deep_view()[k] != word@ by {
        assert(list.deep_view()[k] == list[k]@);
    }
    None
}

/// The texts of `items` in order, with `sep` between each two of them.
pub open spec fn joined(items: Seq<Seq<char>>, sep: Seq<char>) -> Seq<char>
    decreases items.len(),
{
    if items.len() == 0 {
        Seq::empty()
    } else if items.len() == 1 {
        items[0]
    } else {
        joined(items.drop_last(), sep) + sep + items.last()
    }
}

/// The strings of `items` in order, with `sep` between each two of them.
pub fn join(items: &Vec<String>, sep: &str) -> (r: String)
    ensures
        r@ == joined(items.deep_view(), sep@),
{
    let mut r = String::new();
    if items.len() == 0 {
        return r;
    }
    r.append(items[0].as_str());
    let ghost all = items.deep_view();
    assert(all.take(1) =~= seq![items[0]@]);
    assert(r@ =~= items[0]@);
    let mut i: usize = 1;
    while i < items.len()
        invariant
            1 <= i <= items.len(),
            all == items.deep_view(),
            r@ == joined(all.take(i as int), sep@),
        decreases items.len() - i,
    {
        r.append(sep);
        r.append(items[i].as_str());
        assert(all.take(i + 1).drop_last() =~= all.take(i as int));
        assert(all.take(i + 1).last() == items[i as int]@);
        i += 1;
    }
    assert(all.take(items.len() as int) =~= all);
    r
}

} // verus!
