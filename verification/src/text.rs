use vstd::prelude::*;

verus! {

/// Unicode `White_Space` property, the set that `char::is_whitespace` tests.
pub open spec fn is_white_space(c: char) -> bool {
    let v = c as u32;
    ||| 0x09 <= v <= 0x0D
    ||| v == 0x20
    ||| v == 0x85
    ||| v == 0xA0
    ||| v == 0x1680
    ||| 0x2000 <= v <= 0x200A
    ||| v == 0x2028
    ||| v == 0x2029
    ||| v == 0x202F
    ||| v == 0x205F
    ||| v == 0x3000
}

/// A text is blank when trimming its white space leaves nothing.
pub open spec fn is_blank(s: Seq<char>) -> bool {
    forall|i: int| 0 <= i < s.len() ==> is_white_space(#[trigger] s[i])
}

/// Whether a character has the Unicode `White_Space` property, as
/// `char::is_whitespace` decides it.
fn char_is_whitespace(c: char) -> (r: bool)
    ensures
        r == is_white_space(c),
{
    let v = c as u32;
    (0x09 <= v && v <= 0x0D) || v == 0x20 || v == 0x85 || v == 0xA0 || v == 0x1680 || (0x2000 <= v
        && v <= 0x200A) || v == 0x2028 || v == 0x2029 || v == 0x202F || v == 0x205F || v == 0x3000
}

/// Whether the text is blank, that is empty after trimming white space.
pub fn text_is_blank(s: &str) -> (r: bool)
    ensures
        r == is_blank(s@),
{
    for c in it: s.chars()
        invariant
            it.seq() == s@,
            forall|j: int| 0 <= j < it.index() ==> is_white_space(#[trigger] s@[j]),
    {
        if !char_is_whitespace(c) {
            return false;
        }
    }
    true
}


/// A text holds between one and `max` characters and is not blank.
pub open spec fn text_ok(s: Seq<char>, max: int) -> bool {
    !is_blank(s) && s.len() <= max
}

/// Number of bytes that the UTF-8 encoding of one character takes.
pub open spec fn utf8_width(c: char) -> nat {
    let v = c as u32;
    if v < 0x80 {
        1
    } else if v < 0x800 {
        2
    } else if v < 0x10000 {
        3
    } else {
        4
    }
}

/// Number of bytes of the UTF-8 encoding of a text.
pub open spec fn utf8_len(s: Seq<char>) -> nat
    decreases s.len(),
{
    if s.len() == 0 {
        0
    } else {
        utf8_len(s.drop_last()) + utf8_width(s.last())
    }
}

/// The UTF-8 length of a prefix never exceeds that of the whole text.
pub proof fn lemma_utf8_len_prefix(s: Seq<char>, i: int)
    requires
        0 <= i <= s.len(),
    ensures
        utf8_len(s.take(i)) <= utf8_len(s),
    decreases s.len() - i,
{
    if i < s.len() {
        lemma_utf8_len_prefix(s, i + 1);
        assert(s.take(i + 1).drop_last() =~= s.take(i));
    } else {
        assert(s.take(i) =~= s);
    }
}

fn char_utf8_width(c: char) -> (r: usize)
    ensures
        r == utf8_width(c),
{
    let v = c as u32;
    if v < 0x80 {
        1
    } else if v < 0x800 {
        2
    } else if v < 0x10000 {
        3
    } else {
        4
    }
}

/// Whether the text holds between one and `max` characters and is not blank
/// (the check `!s.trim().is_empty() && s.chars().count() <= max`).
pub fn text_fits(s: &str, max: usize) -> (r: bool)
    requires
        max < usize::MAX,
    ensures
        r == text_ok(s@, max as int),
{
    let mut count: usize = 0;
    let mut seen_content = false;
    for c in it: s.chars()
        invariant
            it.seq() == s@,
            count == it.index(),
            count <= max,
            max < usize::MAX,
            seen_content <==> exists|j: int| 0 <= j < it.index() && !is_white_space(#[trigger] s@[j]),
    {
        if count == max {
            return false;
        }
        count = count + 1;
        if !char_is_whitespace(c) {
            seen_content = true;
        }
    }
    seen_content
}

/// Whether the UTF-8 encoding of the text takes at most `max` bytes.
pub fn utf8_len_within(s: &str, max: usize) -> (r: bool)
    requires
        max <= usize::MAX - 4,
    ensures
        r == (utf8_len(s@) <= max),
{
    let mut total: usize = 0;
    for c in it: s.chars()
        invariant
            it.seq() == s@,
            total == utf8_len(s@.take(it.index())),
            total <= max,
            max <= usize::MAX - 4,
    {
        let ghost i = it.index();
        let w = char_utf8_width(c);
        assert(s@.take(i + 1).drop_last() =~= s@.take(i));
        if total + w > max {
            proof {
                lemma_utf8_len_prefix(s@, i + 1);
            }
            return false;
        }
        total = total + w;
    }
    assert(s@.take(s@.len() as int) =~= s@);
    true
}

} // verus!

verus! {

/// The text without its leading white space.
pub open spec fn trim_start(s: Seq<char>) -> Seq<char>
    decreases s.len(),
{
    if s.len() > 0 && is_white_space(s[0]) {
        trim_start(s.drop_first())
    } else {
        s
    }
}

/// The text without its trailing white space.
pub open spec fn trim_end(s: Seq<char>) -> Seq<char>
    decreases s.len(),
{
    if s.len() > 0 && is_white_space(s.last()) {
        trim_end(s.drop_last())
    } else {
        s
    }
}

/// The text without leading and trailing white space (`str::trim`).
pub open spec fn trimmed(s: Seq<char>) -> Seq<char> {
    trim_end(trim_start(s))
}

/// The text without leading and trailing white space.
pub fn trim_text(s: &str) -> (r: String)
    ensures
        r@ == trimmed(s@),
{
    let chars = crate::text_order::chars_of(s);
    let n = chars.len();
    let mut i: usize = 0;
    assert(s@.skip(0) =~= s@);
    while i < n && char_is_whitespace(chars[i])
        invariant
            chars@ == s@,
            n == s@.len(),
            i <= n,
            trim_start(s@) == trim_start(s@.skip(i as int)),
        decreases n - i,
    {
        assert(s@.skip(i as int).drop_first() =~= s@.skip(i + 1));
        i = i + 1;
    }
    let ghost t = s@.skip(i as int);
    assert(trim_start(t) == t);
    let mut j: usize = n;
    assert(t =~= s@.subrange(i as int, j as int));
    while j > i && char_is_whitespace(chars[j - 1])
        invariant
            chars@ == s@,
            n == s@.len(),
            i <= j <= n,
            trim_start(s@) == t,
            trim_end(t) == trim_end(s@.subrange(i as int, j as int)),
        decreases j,
    {
        assert(s@.subrange(i as int, j as int).drop_last() =~= s@.subrange(i as int, j - 1));
        j = j - 1;
    }
    let ghost u = s@.subrange(i as int, j as int);
    assert(trim_end(u) == u);
    let mut kept: Vec<char> = Vec::new();
    let mut k: usize = i;
    while k < j
        invariant
            chars@ == s@,
            i <= k <= j <= n,
            n == s@.len(),
            kept@ == s@.subrange(i as int, k as int),
        decreases j - k,
    {
        kept.push(chars[k]);
        k = k + 1;
        assert(kept@ =~= s@.subrange(i as int, k as int));
    }
    crate::json_text::string_from_chars(&kept)
}

} // verus!
