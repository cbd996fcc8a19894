//! Markdown escaping applied to every outbound text before it is sent.

use vstd::prelude::*;
use vstd::string::*;
use crate::text::push_char;

verus! {

/// The characters the channel's markdown parser reserves.
pub open spec fn is_markdown_reserved(c: char) -> bool {
    c == '_' || c == '*' || c == '[' || c == ']' || c == '(' || c == ')' || c == '~' || c == '`'
        || c == '>' || c == '#' || c == '+' || c == '-' || c == '=' || c == '|' || c == '{'
        || c == '}' || c == '.' || c == '!'
}

/// The image of one character under escaping: a reserved character gains a
/// backslash prefix, any other character passes through unchanged.
pub open spec fn md_escape_char(c: char) -> Seq<char> {
    if is_markdown_reserved(c) {
        seq!['\\', c]
    } else {
        seq![c]
    }
}

/// The whole text escaped, character by character, in order.
pub open spec fn md_escape(s: Seq<char>) -> Seq<char>
    decreases s.len(),
{
    if s.len() == 0 {
        Seq::empty()
    } else {
        md_escape(s.drop_last()) + md_escape_char(s.last())
    }
}

/// Law: escaping distributes over concatenation, so a text is escaped piece
/// by piece with no interaction between the pieces.
pub proof fn lemma_md_escape_append(s1: Seq<char>, s2: Seq<char>)
    ensures
        md_escape(s1 + s2) == md_escape(s1) + md_escape(s2),
    decreases s2.len(),
{
    if s2.len() == 0 {
        assert(s1 + s2 =~= s1);
        assert(md_escape(s1) + s2 =~= md_escape(s1));
    } else {
        lemma_md_escape_append(s1, s2.drop_last());
        assert((s1 + s2).drop_last() =~= s1 + s2.drop_last());
        assert((s1 + s2).len() > 0);
        assert((s1 + s2).last() == s2.last());
        assert(md_escape(s1) + md_escape(s2.drop_last()) + md_escape_char(s2.last()) =~= md_escape(
            s1,
        ) + md_escape(s2));
    }
}

/// Law: every occurrence of a reserved character in the input appears
/// backslash-prefixed exactly once in the output, and no other character is
/// altered: the escaped text decomposes around each input position into the
/// escaped prefix, the image of that one character, and the escaped suffix.
pub proof fn lemma_md_escape_at(s: Seq<char>, i: int)
    requires
        0 <= i < s.len(),
    ensures
        md_escape(s) == md_escape(s.take(i)) + md_escape_char(s[i]) + md_escape(s.skip(i + 1)),
{
    assert(s =~= s.take(i) + seq![s[i]] + s.skip(i + 1));
    lemma_md_escape_append(s.take(i) + seq![s[i]], s.skip(i + 1));
    lemma_md_escape_append(s.take(i), seq![s[i]]);
    assert(seq![s[i]].len() == 1);
    assert(seq![s[i]].last() == s[i]);
    assert(seq![s[i]].drop_last() =~= Seq::<char>::empty());
    assert(md_escape(seq![s[i]]) == md_escape(Seq::<char>::empty()) + md_escape_char(s[i]));
    assert(md_escape(Seq::<char>::empty()) + md_escape_char(s[i]) =~= md_escape_char(s[i]));
}

/// Conversion of a text into its markdown-escaped form.
pub trait ToMarkdown: View<V = Seq<char>> {
    fn parse_text_to_markdown(&self) -> (r: String)
        ensures
            r@ == md_escape(self@),
    ;
}

impl ToMarkdown for String {
    fn parse_text_to_markdown(&self) -> (r: String)
        ensures
            r@ == md_escape(self@),
    {
        let n = self.as_str().unicode_len();
        let mut out = String::new();
        let mut i: usize = 0;
        while i < n
            invariant
                0 <= i <= n,
                n == self@.len(),
                out@ == md_escape(self@.take(i as int)),
            decreases n - i,
        {
            let c = self.as_str().get_char(i);
            if c == '_' || c == '*' || c == '[' || c == ']' || c == '(' || c == ')' || c == '~'
                || c == '`' || c == '>' || c == '#' || c == '+' || c == '-' || c == '=' || c == '|'
                || c == '{' || c == '}' || c == '.' || c == '!' {
                push_char(&mut out, '\\');
                push_char(&mut out, c);
            } else {
                push_char(&mut out, c);
            }
            proof {
                assert(self@.take(i + 1).drop_last() =~= self@.take(i as int));
                assert(self@.take(i + 1).last() == self@[i as int]);
                assert(out@ =~= md_escape(self@.take(i + 1)));
            }
            i = i + 1;
        }
        proof {
            assert(self@.take(n as int) =~= self@);
        }
        out
    }
}

} // verus!
