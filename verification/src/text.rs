//! Text helpers shared by the rest of the crate, each stated over `Seq<char>`.

use vstd::prelude::*;

verus! {

/// Whether `c` has the Unicode `White_Space` property.
pub open spec fn is_whitespace(c: char) -> bool {
    let n = c as u32;
    ||| 0x09 <= n <= 0x0D
    ||| n == 0x20
    ||| n == 0x85
    ||| n == 0xA0
    ||| n == 0x1680
    ||| 0x2000 <= n <= 0x200A
    ||| n == 0x2028
    ||| n == 0x2029
    ||| n == 0x202F
    ||| n == 0x205F
    ||| n == 0x3000
}

/// Whether no character of `s` is whitespace.
pub open spec fn free_of_whitespace(s: Seq<char>) -> bool {
    forall|i: int| 0 <= i < s.len() ==> !is_whitespace(#[trigger] s[i])
}

/// `s` with every maximal run of whitespace replaced by one underscore.
///
/// A whitespace character yields an underscore where it opens a run and nothing
/// where it continues one; every other character is kept.
pub open spec fn sanitized(s: Seq<char>) -> Seq<char>
    decreases s.len(),
{
    if s.len() == 0 {
        s
    } else {
        let front = sanitized(s.drop_last());
        if !is_whitespace(s.last()) {
            front.push(s.last())
        } else if s.len() >= 2 && is_whitespace(s[s.len() - 2]) {
            front
        } else {
            front.push('_')
        }
    }
}

/// The elements of `parts` in order, with `sep` between each two neighbours.
pub open spec fn joined(parts: Seq<Seq<char>>, sep: Seq<char>) -> Seq<char>
    decreases parts.len(),
{
    if parts.len() == 0 {
        Seq::empty()
    } else if parts.len() == 1 {
        parts[0]
    } else {
        joined(parts.drop_last(), sep) + sep + parts.last()
    }
}

/// `count` spaces.
pub open spec fn spaces(count: nat) -> Seq<char> {
    Seq::new(count, |i: int| ' ')
}

/// `s` followed by as many spaces as it lacks to be `width` characters long.
pub open spec fn padded(s: Seq<char>, width: nat) -> Seq<char> {
    if s.len() >= width {
        s
    } else {
        s + spaces((width - s.len()) as nat)
    }
}

/// Appending one character to a `String` with `String::push` extends its view by
/// exactly that character.
pub assume_specification[ String::push ](s: &mut String, c: char)
    ensures
        final(s)@ == old(s)@.push(c),
;

/// Decides [`is_whitespace`] for one character.
pub fn whitespace(c: char) -> (b: bool)
    ensures
        b == is_whitespace(c),
{
    let n: u32 = c as u32;
    (0x09 <= n && n <= 0x0D) || n == 0x20 || n == 0x85 || n == 0xA0 || n == 0x1680 || (0x2000 <= n
        && n <= 0x200A) || n == 0x2028 || n == 0x2029 || n == 0x202F || n == 0x205F || n == 0x3000
}

/// The directory name for a project called `name`: each run of whitespace becomes
/// a single underscore. Every name is accepted.
pub fn sanitized_name(name: &str) -> (out: String)
    ensures
        out@ == sanitized(name@),
{
    let mut out = String::new();
    let mut in_run = false;
    for c in it: name.chars()
        invariant
            it.seq() == name@,
            out@ == sanitized(name@.take(it.index() as int)),
            in_run == (it.index() > 0 && is_whitespace(name@[it.index() - 1])),
    {
        let ghost i = it.index() as int;
        assert(name@.take(i + 1).drop_last() == name@.take(i));
        let blank = whitespace(c);
        if !blank {
            out.push(c);
        } else if !in_run {
            out.push('_');
        }
        in_run = blank;
    }
    assert(name@.take(name@.len() as int) == name@);
    out
}

/// The strings of `parts` in order, with `sep` between each two neighbours.
pub fn join(parts: &Vec<String>, sep: &str) -> (out: String)
    ensures
        out@ == joined(parts.deep_view(), sep@),
{
    let mut out = String::new();
    let mut i: usize = 0;
    while i < parts.len()
        invariant
            i <= parts.len(),
            out@ == joined(parts.deep_view().take(i as int), sep@),
        decreases parts.len() - i,
    {
        assert(parts.deep_view().take(i + 1).drop_last() == parts.deep_view().take(i as int));
        if i > 0 {
            out.append(sep);
        }
        out.append(parts[i].as_str());
        i += 1;
    }
    assert(parts.deep_view().take(parts.len() as int) == parts.deep_view());
    out
}

/// The strings of `lines` in order, with a line break between each two neighbours.
pub fn join_lines(lines: &Vec<String>) -> (out: String)
    ensures
        out@ == joined(lines.deep_view(), seq!['\n']),
{
    proof {
        reveal_strlit("\n");
    }
    assert("\n"@ == seq!['\n']);
    join(lines, "\n")
}

/// `s` padded with spaces on the right to `width` characters; a longer `s` is
/// returned as it is.
pub fn pad(s: &str, width: usize) -> (out: String)
    ensures
        out@ == padded(s@, width as nat),
{
    let mut out = String::from_str(s);
    let len = s.unicode_len();
    let mut n: usize = len;
    while n < width
        invariant
            len == s@.len(),
            len <= n,
            n <= width || n == len,
            out@ == s@ + spaces((n - len) as nat),
        decreases width - n,
    {
        out.push(' ');
        n += 1;
    }
    out
}

/// The sanitized form of any text holds no whitespace.
pub proof fn lemma_sanitized_free_of_whitespace(s: Seq<char>)
    ensures
        free_of_whitespace(sanitized(s)),
    decreases s.len(),
{
    if s.len() > 0 {
        lemma_sanitized_free_of_whitespace(s.drop_last());
    }
}

/// Text without whitespace is its own sanitized form.
pub proof fn lemma_sanitized_keeps_clean_text(s: Seq<char>)
    requires
        free_of_whitespace(s),
    ensures
        sanitized(s) == s,
    decreases s.len(),
{
    if s.len() > 0 {
        lemma_sanitized_keeps_clean_text(s.drop_last());
    }
}

/// Sanitizing is idempotent: a second pass changes nothing.
pub proof fn lemma_sanitized_idempotent(s: Seq<char>)
    ensures
        sanitized(sanitized(s)) == sanitized(s),
{
    lemma_sanitized_free_of_whitespace(s);
    lemma_sanitized_keeps_clean_text(sanitized(s));
}

/// A whitespace character that follows another adds nothing: a run of any length
/// collapses to the one underscore that its first character gave.
pub proof fn lemma_sanitized_collapses_runs(s: Seq<char>, a: char, b: char)
    requires
        is_whitespace(a),
        is_whitespace(b),
    ensures
        sanitized(s.push(a).push(b)) == sanitized(s.push(a)),
        sanitized(s.push(a)).len() > 0,
        sanitized(s.push(a)).last() == '_',
{
    assert(s.push(a).push(b).drop_last() == s.push(a));
    lemma_sanitized_ends_in_underscore(s.push(a));
}

/// Text that ends in whitespace has a sanitized form that ends in an underscore.
pub proof fn lemma_sanitized_ends_in_underscore(s: Seq<char>)
    requires
        s.len() > 0,
        is_whitespace(s.last()),
    ensures
        sanitized(s).len() > 0,
        sanitized(s).last() == '_',
    decreases s.len(),
{
    if s.len() >= 2 && is_whitespace(s[s.len() - 2]) {
        lemma_sanitized_ends_in_underscore(s.drop_last());
    }
}

} // verus!
