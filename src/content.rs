use vstd::prelude::*;
use vstd::string::StrSliceExecFns;
use vstd::string::StringExecFns;

verus! {

/// True when `suffix` is a suffix of `s`.
pub open spec fn has_suffix(s: Seq<char>, suffix: Seq<char>) -> bool {
    suffix.len() <= s.len() && s.subrange(s.len() - suffix.len(), s.len() as int) == suffix
}

/// True when `s` begins with `prefix`.
pub open spec fn has_prefix(s: Seq<char>, prefix: Seq<char>) -> bool {
    prefix.len() <= s.len() && s.subrange(0, prefix.len() as int) == prefix
}

/// The smile token, `:senyum:`.
pub open spec fn smile_token() -> Seq<char> {
    seq![':', 's', 'e', 'n', 'y', 'u', 'm', ':']
}

/// The smile glyph.
pub open spec fn smile_glyph() -> Seq<char> {
    seq!['\u{1F60A}']
}

/// The heart token, `:hati:`.
pub open spec fn heart_token() -> Seq<char> {
    seq![':', 'h', 'a', 't', 'i', ':']
}

/// The heart glyph.
pub open spec fn heart_glyph() -> Seq<char> {
    seq!['\u{2764}', '\u{FE0F}']
}

/// `s` scanned once from left to right: where the smile token starts it
/// becomes the smile glyph, else where the heart token starts it becomes the
/// heart glyph, else one character is kept. Tokens never overlap, and a glyph
/// is never scanned again.
pub open spec fn substituted(s: Seq<char>) -> Seq<char>
    decreases s.len(),
{
    if s.len() == 0 {
        s
    } else if has_prefix(s, smile_token()) {
        smile_glyph() + substituted(s.subrange(8, s.len() as int))
    } else if has_prefix(s, heart_token()) {
        heart_glyph() + substituted(s.subrange(6, s.len() as int))
    } else {
        seq![s[0]] + substituted(s.subrange(1, s.len() as int))
    }
}

/// Whether `s` ends with `suffix`, compared character by character.
pub fn ends_with(s: &str, suffix: &str) -> (r: bool)
    ensures
        r == has_suffix(s@, suffix@),
{
    let n = s.unicode_len();
    let m = suffix.unicode_len();
    if m > n {
        return false;
    }
    let tail = String::from_str(s.substring_char(n - m, n));
    let want = String::from_str(suffix);
    tail == want
}

/// Whether `tok` starts at character `i` of `s`.
fn token_at(s: &str, i: usize, tok: &String) -> (r: bool)
    requires
        i <= s@.len(),
    ensures
        r == has_prefix(s@.subrange(i as int, s@.len() as int), tok@),
{
    let n = s.unicode_len();
    let m = tok.as_str().unicode_len();
    if m > n - i {
        return false;
    }
    let window = String::from_str(s.substring_char(i, i + m));
    assert(s@.subrange(i as int, s@.len() as int).subrange(0, m as int)
        =~= s@.subrange(i as int, (i + m) as int));
    window == *tok
}

/// What a message body renders as.
#[derive(Debug, Clone, PartialEq, Eq)]
pub enum Content {
    /// The body is used verbatim as an image source.
    Image(String),
    /// The body with its emoticon tokens replaced by glyphs.
    Text(String),
}

impl Content {
    pub open spec fn view(&self) -> ContentView {
        match self {
            Content::Image(u) => ContentView::Image(u@),
            Content::Text(t) => ContentView::Text(t@),
        }
    }
}

/// The mathematical value of a `Content`.
pub enum ContentView {
    Image(Seq<char>),
    Text(Seq<char>),
}

/// A body ending in `.gif` is an image reference; anything else is text with
/// its tokens substituted.
pub open spec fn content_of(body: Seq<char>) -> ContentView {
    if has_suffix(body, ".gif"@) {
        ContentView::Image(body)
    } else {
        ContentView::Text(substituted(body))
    }
}

/// Replaces the emoticon tokens of `s` by their glyphs in one left-to-right pass.
pub fn substitute(s: &str) -> (r: String)
    ensures
        r@ == substituted(s@),
{
    let smile = String::from_str(":senyum:");
    let heart = String::from_str(":hati:");
    let smile_text = "\u{1F60A}";
    let heart_text = "\u{2764}\u{FE0F}";
    proof {
        reveal_strlit(":senyum:");
        reveal_strlit(":hati:");
        reveal_strlit("\u{1F60A}");
        reveal_strlit("\u{2764}\u{FE0F}");
        assert(smile@ =~= smile_token());
        assert(heart@ =~= heart_token());
        assert(smile_text@ =~= smile_glyph());
        assert(heart_text@ =~= heart_glyph());
    }
    let n = s.unicode_len();
    let mut out = String::new();
    let mut i: usize = 0;
    assert(s@.subrange(0, n as int) =~= s@);
    assert(out@ + substituted(s@) =~= substituted(s@));
    while i < n
        invariant
            n == s@.len(),
            i <= n,
            smile@ == smile_token(),
            heart@ == heart_token(),
            smile_text@ == smile_glyph(),
            heart_text@ == heart_glyph(),
            out@ + substituted(s@.subrange(i as int, n as int)) == substituted(s@),
        decreases n - i,
    {
        let ghost rest = s@.subrange(i as int, n as int);
        let ghost prev = out@;
        if token_at(s, i, &smile) {
            assert(rest.subrange(8, rest.len() as int) =~= s@.subrange(i + 8, n as int));
            out.append(smile_text);
            assert(out@ + substituted(s@.subrange(i + 8, n as int))
                =~= prev + substituted(rest));
            i = i + 8;
        } else if token_at(s, i, &heart) {
            assert(rest.subrange(6, rest.len() as int) =~= s@.subrange(i + 6, n as int));
            out.append(heart_text);
            assert(out@ + substituted(s@.subrange(i + 6, n as int))
                =~= prev + substituted(rest));
            i = i + 6;
        } else {
            let one = s.substring_char(i, i + 1);
            assert(rest.subrange(1, rest.len() as int) =~= s@.subrange(i + 1, n as int));
            assert(one@ =~= seq![rest[0]]);
            out.append(one);
            assert(out@ + substituted(s@.subrange(i + 1, n as int))
                =~= prev + substituted(rest));
            i = i + 1;
        }
    }
    assert(out@ + substituted(s@.subrange(n as int, n as int)) =~= out@);
    out
}

/// Turns a raw message body into what the presentation layer renders.
pub fn transform(body: &str) -> (r: Content)
    ensures
        r.view() == content_of(body@),
{
    if ends_with(body, ".gif") {
        Content::Image(String::from_str(body))
    } else {
        Content::Text(substitute(body))
    }
}

} // verus!
