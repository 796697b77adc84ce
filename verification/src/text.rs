//! Text utilities shared by the resolver and the assembler: format tokens,
//! first positions in a list of texts, joining, and the media URL.

use vstd::prelude::*;

verus! {

/// The views of a list of strings, in order.
pub open spec fn texts(items: Seq<String>) -> Seq<Seq<char>> {
    items.map_values(|item: String| item@)
}

/// The view of an optional string.
pub open spec fn optional_text(item: Option<String>) -> Option<Seq<char>> {
    match item {
        Some(text) => Some(text@),
        None => None,
    }
}

/// Index at which the format token of `s` begins: one past the last `'.'`,
/// or `0` when `s` holds no dot.
pub open spec fn token_start(s: Seq<char>) -> int
    decreases s.len(),
{
    if s.len() == 0 {
        0
    } else if s.last() == '.' {
        s.len() as int
    } else {
        token_start(s.drop_last())
    }
}

/// The format token of a path: everything after its final `'.'`, and the
/// whole path when it has none.
pub open spec fn token_of(s: Seq<char>) -> Seq<char> {
    s.subrange(token_start(s), s.len() as int)
}

/// Whether `i` is the first position at which `needle` occurs in `items`.
pub open spec fn is_first_at(items: Seq<Seq<char>>, needle: Seq<char>, i: int) -> bool {
    &&& 0 <= i < items.len()
    &&& items[i] == needle
    &&& forall|j: int| 0 <= j < i ==> items[j] != needle
}

/// The first position of `needle` in `items`, if it occurs at all.
pub open spec fn first_position(items: Seq<Seq<char>>, needle: Seq<char>) -> Option<int> {
    if exists|i: int| is_first_at(items, needle, i) {
        Some(choose|i: int| is_first_at(items, needle, i))
    } else {
        None
    }
}

/// `words` joined with `", "` between neighbours.
pub open spec fn comma_joined(words: Seq<Seq<char>>) -> Seq<char>
    decreases words.len(),
{
    if words.len() == 0 {
        Seq::empty()
    } else if words.len() == 1 {
        words[0]
    } else {
        comma_joined(words.drop_last()) + ", "@ + words.last()
    }
}

/// Absolute address of a hosted file: the base, a slash, the relative path.
pub open spec fn media_url_of(base: Seq<char>, file: Seq<char>) -> Seq<char> {
    base + "/"@ + file
}

/// Lower-case form of a text, as the standard library computes it.
pub uninterp spec fn lowercase_of(text: Seq<char>) -> Seq<char>;

/// The token start lies inside the text, a dot stands right before it
/// unless it is the start of the text, and no dot follows it.
pub proof fn lemma_token_start(s: Seq<char>)
    ensures
        0 <= token_start(s) <= s.len(),
        token_start(s) > 0 ==> s[token_start(s) - 1] == '.',
        forall|i: int| token_start(s) <= i < s.len() ==> s[i] != '.',
    decreases s.len(),
{
    if s.len() > 0 && s.last() != '.' {
        let front = s.drop_last();
        lemma_token_start(front);
        assert forall|i: int| token_start(s) <= i < s.len() implies s[i] != '.' by {
            if i < front.len() {
                assert(front[i] == s[i]);
            }
        }
    }
}

/// The format token is what follows the last dot: it holds no dot itself; a
/// path without a dot is its own token; and any other path is some text, a
/// dot, and the token.
pub proof fn law_token_follows_the_last_dot(path: Seq<char>)
    ensures
        !token_of(path).contains('.'),
        !path.contains('.') ==> token_of(path) == path,
        path.contains('.') ==> path == path.subrange(0, token_start(path) - 1) + seq!['.']
            + token_of(path),
{
    lemma_token_start(path);
    let start = token_start(path);
    let token = token_of(path);
    if token.contains('.') {
        let i = choose|i: int| 0 <= i < token.len() && token[i] == '.';
        assert(path[start + i] == '.');
    }
    if start > 0 {
        assert(path =~= path.subrange(0, start - 1) + seq!['.'] + token);
    } else {
        assert(token =~= path);
        if path.contains('.') {
            let i = choose|i: int| 0 <= i < path.len() && path[i] == '.';
            assert(path[i] != '.');
        }
    }
}

/// A position that is first for `needle` is the one `first_position` names.
pub proof fn lemma_first_position_is(items: Seq<Seq<char>>, needle: Seq<char>, i: int)
    requires
        is_first_at(items, needle, i),
    ensures
        first_position(items, needle) == Some(i),
{
    let chosen = choose|k: int| is_first_at(items, needle, k);
    assert(is_first_at(items, needle, chosen));
    if chosen < i {
        assert(items[chosen] != needle);
    }
    if i < chosen {
        assert(items[i] != needle);
    }
}

/// `first_position` is `None` exactly when `needle` does not occur, and
/// otherwise names the first occurrence.
pub proof fn lemma_first_position(items: Seq<Seq<char>>, needle: Seq<char>)
    ensures
        match first_position(items, needle) {
            Some(i) => is_first_at(items, needle, i),
            None => forall|j: int| 0 <= j < items.len() ==> items[j] != needle,
        },
{
    if !(exists|i: int| is_first_at(items, needle, i)) {
        assert forall|j: int| 0 <= j < items.len() implies items[j] != needle by {
            lemma_no_earlier(items, needle, j);
        }
    }
}

/// If no position is first for `needle`, it does not occur up to `j`.
proof fn lemma_no_earlier(items: Seq<Seq<char>>, needle: Seq<char>, j: int)
    requires
        0 <= j < items.len(),
        !(exists|i: int| is_first_at(items, needle, i)),
    ensures
        items[j] != needle,
    decreases j,
{
    if items[j] == needle {
        assert forall|k: int| 0 <= k < j implies items[k] != needle by {
            lemma_no_earlier(items, needle, k);
        }
        assert(is_first_at(items, needle, j));
    }
}

/// Calls `str::eq`: whether the two texts hold the same characters.
#[verifier::external_body]
pub(crate) fn same_text(left: &str, right: &str) -> (same: bool)
    ensures
        same == (left@ == right@),
{
    left == right
}

/// Calls `str::to_lowercase`. The result depends on the text alone; the
/// contract gives it a name and claims nothing else of it.
#[verifier::external_body]
pub(crate) fn lowercase(text: &str) -> (lowered: String)
    ensures
        lowered@ == lowercase_of(text@),
{
    text.to_lowercase()
}

/// Extracts the format token of `path`.
pub fn format_token(path: &str) -> (token: String)
    ensures
        token@ == token_of(path@),
{
    let total = path.unicode_len();
    let mut start: usize = 0;
    let mut seen: usize = 0;
    for c in it: path.chars()
        invariant
            total == path@.len(),
            seen == it.index(),
            it.seq() == path@,
            0 <= start <= seen,
            start == token_start(path@.take(seen as int)),
    {
        proof {
            assert(path@.take(seen + 1).drop_last() =~= path@.take(seen as int));
        }
        seen = seen + 1;
        if c == '.' {
            start = seen;
        }
    }
    proof {
        assert(path@.take(seen as int) =~= path@);
    }
    let tail = path.substring_char(start, seen);
    String::from_str(tail)
}

/// Finds the first entry of `items` equal to `needle`.
pub fn find_first(items: &Vec<String>, needle: &str) -> (found: Option<usize>)
    ensures
        found matches Some(i) ==> first_position(texts(items@), needle@) == Some(i as int),
        found is None ==> first_position(texts(items@), needle@) is None,
{
    let mut i: usize = 0;
    while i < items.len()
        invariant
            0 <= i <= items.len(),
            forall|j: int| 0 <= j < i ==> texts(items@)[j] != needle@,
        decreases items.len() - i,
    {
        if same_text(items[i].as_str(), needle) {
            proof {
                lemma_first_position_is(texts(items@), needle@, i as int);
            }
            return Some(i);
        }
        i = i + 1;
    }
    proof {
        lemma_first_position(texts(items@), needle@);
    }
    None
}

/// Joins `words` with `", "` between neighbours.
pub fn join_comma(words: &Vec<String>) -> (joined: String)
    ensures
        joined@ == comma_joined(texts(words@)),
{
    let mut joined = String::new();
    let mut i: usize = 0;
    while i < words.len()
        invariant
            0 <= i <= words.len(),
            joined@ == comma_joined(texts(words@).take(i as int)),
        decreases words.len() - i,
    {
        proof {
            let upto = texts(words@).take(i + 1);
            assert(upto.drop_last() =~= texts(words@).take(i as int));
            assert(upto.last() == words@[i as int]@);
            if i == 0 {
                assert(joined@ + words@[0]@ =~= words@[0]@);
            }
        }
        if i > 0 {
            joined.append(", ");
        }
        joined.append(words[i].as_str());
        i = i + 1;
    }
    proof {
        assert(texts(words@).take(i as int) =~= texts(words@));
    }
    joined
}

/// Builds the absolute address of `file` under `base`.
pub fn media_url(base: &str, file: &str) -> (url: String)
    ensures
        url@ == media_url_of(base@, file@),
{
    let mut url = String::from_str(base);
    url.append("/");
    url.append(file);
    url
}

} // verus!
