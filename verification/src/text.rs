//! Text normalisation applied to the strings captured from a page.

use vstd::prelude::*;

verus! {

/// An optional string as an optional sequence of characters.
pub open spec fn optional_text(s: Option<String>) -> Option<Seq<char>> {
    match s {
        Some(s) => Some(s@),
        None => None,
    }
}

/// Whether `c` carries the Unicode `White_Space` property: the space, the
/// controls from tab to carriage return, next line, and the spaces and
/// separators beyond ASCII.
pub open spec fn is_whitespace(c: char) -> bool {
    let n = c as u32;
    ||| 0x09 <= n <= 0x0D
    ||| n == 0x20
    ||| n == 0x85
    ||| n == 0xA0
    ||| n == 0x1680
    ||| 0x2000 <= n <= 0x200A
    ||| n == 0x2028
    ||| n == 0x2029
    ||| n == 0x202F
    ||| n == 0x205F
    ||| n == 0x3000
}

/// `s` with every whitespace character deleted; the rest keeps its order.
pub open spec fn without_whitespace(s: Seq<char>) -> Seq<char> {
    s.filter(|c: char| !is_whitespace(c))
}

/// `char::is_whitespace` of the standard library reports the Unicode
/// `White_Space` property. The contract claims that the characters with that
/// property are those that [`is_whitespace`] lists.
pub assume_specification[ char::is_whitespace ](c: char) -> (b: bool)
    ensures
        b == is_whitespace(c),
;

/// `String::push` of the standard library appends the character to the end
/// of the string and changes nothing else of it.
pub assume_specification[ String::push ](s: &mut String, c: char)
    ensures
        final(s)@ == old(s)@.push(c),
;

/// Appending one character either appends it to the stripped text or leaves
/// the stripped text as it was.
proof fn lemma_without_whitespace_push(s: Seq<char>, c: char)
    ensures
        without_whitespace(s.push(c)) == if is_whitespace(c) {
            without_whitespace(s)
        } else {
            without_whitespace(s).push(c)
        },
{
    reveal(Seq::filter);
    assert(s.push(c).drop_last() =~= s);
}

/// Deletes every whitespace character from `s`. Runs of whitespace are not
/// collapsed to one character: nothing of them is left.
pub fn remove_whitespace(s: String) -> (r: String)
    ensures
        r@ == without_whitespace(s@),
{
    let mut out = String::new();
    let text = s.as_str();
    assert(without_whitespace(text@.take(0)) =~= Seq::empty()) by {
        reveal(Seq::filter);
    }
    for c in it: text.chars()
        invariant
            it.seq() == text@,
            out@ == without_whitespace(text@.take(it.index() as int)),
    {
        proof {
            let done = text@.take(it.index() as int);
            assert(text@.take(it.index() + 1) =~= done.push(c));
            lemma_without_whitespace_push(done, c);
        }
        if !c.is_whitespace() {
            out.push(c);
        }
    }
    assert(text@.take(text@.len() as int) =~= text@);
    out
}

/// Nothing that is left after stripping is a whitespace character.
pub proof fn law_stripped_text_has_no_whitespace(s: Seq<char>)
    ensures
        forall|i: int|
            0 <= i < without_whitespace(s).len() ==> !is_whitespace(
                #[trigger] without_whitespace(s)[i],
            ),
{
    let keep = |c: char| !is_whitespace(c);
    assert forall|i: int| 0 <= i < s.filter(keep).len() implies keep(
        #[trigger] s.filter(keep)[i],
    ) by {
        s.lemma_filter_pred(keep, i);
    }
}

/// Stripping leaves a text in which no whitespace stands as it is.
pub proof fn law_text_without_whitespace_is_kept(s: Seq<char>)
    requires
        forall|i: int| 0 <= i < s.len() ==> !is_whitespace(#[trigger] s[i]),
    ensures
        without_whitespace(s) == s,
    decreases s.len(),
{
    reveal(Seq::filter);
    if s.len() > 0 {
        law_text_without_whitespace_is_kept(s.drop_last());
        assert(s.drop_last().push(s.last()) =~= s);
    }
}

/// The characters of `s`, in order, for access by position.
pub fn chars_of(s: &str) -> (cs: Vec<char>)
    ensures
        cs@ == s@,
{
    let mut cs: Vec<char> = Vec::new();
    for c in it: s.chars()
        invariant
            it.seq() == s@,
            cs@ == s@.take(it.index() as int),
    {
        proof {
            assert(s@.take(it.index() + 1) =~= s@.take(it.index() as int).push(c));
        }
        cs.push(c);
    }
    assert(s@.take(s@.len() as int) =~= s@);
    cs
}

/// Whether `s` begins with `prefix`.
pub fn starts_with(s: &str, prefix: &str) -> (b: bool)
    ensures
        b == prefix@.is_prefix_of(s@),
{
    let cs = chars_of(s);
    let ps = chars_of(prefix);
    if ps.len() > cs.len() {
        return false;
    }
    let mut i: usize = 0;
    while i < ps.len()
        invariant
            cs@ == s@,
            ps@ == prefix@,
            i <= ps.len() <= cs.len(),
            forall|j: int| 0 <= j < i ==> cs@[j] == ps@[j],
        decreases ps.len() - i,
    {
        if cs[i] != ps[i] {
            assert(cs@.subrange(0, ps@.len() as int)[i as int] != ps@[i as int]);
            return false;
        }
        i += 1;
    }
    assert(ps@ =~= cs@.subrange(0, ps@.len() as int));
    true
}

/// The four characters of a line-break tag, `<br>`.
pub open spec fn line_break_tag() -> Seq<char> {
    seq!['<', 'b', 'r', '>']
}

/// `s` with every occurrence of the line-break tag replaced by one newline
/// character. Occurrences are found from the left and do not overlap.
pub open spec fn with_line_breaks(s: Seq<char>) -> Seq<char>
    decreases s.len(),
{
    if s.len() == 0 {
        s
    } else if line_break_tag().is_prefix_of(s) {
        seq!['\n'] + with_line_breaks(s.skip(4))
    } else {
        seq![s[0]] + with_line_breaks(s.skip(1))
    }
}

/// Replaces every `<br>` in `s` by a newline character.
pub fn replace_line_breaks(s: &str) -> (r: String)
    ensures
        r@ == with_line_breaks(s@),
{
    let cs = chars_of(s);
    let mut out = String::new();
    let mut i: usize = 0;
    assert(out@ + with_line_breaks(cs@.skip(0)) =~= with_line_breaks(cs@)) by {
        assert(cs@.skip(0) =~= cs@);
    }
    while i < cs.len()
        invariant
            cs@ == s@,
            i <= cs.len(),
            with_line_breaks(cs@) == out@ + with_line_breaks(cs@.skip(i as int)),
        decreases cs.len() - i,
    {
        let ghost rest = cs@.skip(i as int);
        if cs.len() - i >= 4 && cs[i] == '<' && cs[i + 1] == 'b' && cs[i + 2] == 'r' && cs[i + 3]
            == '>' {
            proof {
                assert(line_break_tag() =~= rest.subrange(0, 4));
                assert(rest.skip(4) =~= cs@.skip(i + 4));
                assert(out@.push('\n') + with_line_breaks(rest.skip(4)) =~= out@ + (seq!['\n']
                    + with_line_breaks(rest.skip(4))));
            }
            out.push('\n');
            i += 4;
        } else {
            proof {
                assert(!line_break_tag().is_prefix_of(rest)) by {
                    if line_break_tag().is_prefix_of(rest) {
                        assert(rest.subrange(0, 4) == line_break_tag());
                        assert(rest.subrange(0, 4)[0] == '<');
                        assert(rest.subrange(0, 4)[1] == 'b');
                        assert(rest.subrange(0, 4)[2] == 'r');
                        assert(rest.subrange(0, 4)[3] == '>');
                    }
                }
                assert(rest.skip(1) =~= cs@.skip(i + 1));
                assert(out@.push(cs@[i as int]) + with_line_breaks(rest.skip(1)) =~= out@ + (
                seq![rest[0]] + with_line_breaks(rest.skip(1))));
            }
            out.push(cs[i]);
            i += 1;
        }
    }
    assert(out@ + with_line_breaks(cs@.skip(i as int)) =~= out@);
    out
}

} // verus!
