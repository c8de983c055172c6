//! Sanitization of untrusted release notes before they are embedded in the
//! confirmation document.
//!
//! Release notes come from a remote source and must not be able to inject
//! markup: every `<` becomes `&lt;`, every `>` becomes `&gt;`, and a newline
//! becomes a `<br>` line break. The only `<` the output can contain is the
//! one that opens a `<br>` produced from a newline, so no remote tag such as
//! `<script>` survives literally.

use vstd::prelude::*;

verus! {

/// How one character of untrusted notes appears in the confirmation
/// document: markup-significant characters are escaped, a newline becomes a
/// line break, every other character stands unchanged.
pub open spec fn escape_char(c: char) -> Seq<char> {
    if c == '<' {
        seq!['&', 'l', 't', ';']
    } else if c == '>' {
        seq!['&', 'g', 't', ';']
    } else if c == '\n' {
        seq!['<', 'b', 'r', '>']
    } else {
        seq![c]
    }
}

/// The sanitized form of a text: each character escaped in turn.
pub open spec fn sanitized(s: Seq<char>) -> Seq<char>
    decreases s.len(),
{
    if s.len() == 0 {
        Seq::empty()
    } else {
        escape_char(s[0]) + sanitized(s.drop_first())
    }
}

/// Appending one character to the input appends its escape to the output.
proof fn lemma_sanitized_snoc(s: Seq<char>, c: char)
    ensures
        sanitized(s.push(c)) == sanitized(s) + escape_char(c),
    decreases s.len(),
{
    if s.len() == 0 {
        let t = s.push(c);
        assert(t[0] == c);
        assert(t.drop_first() =~= Seq::<char>::empty());
        assert(sanitized(t.drop_first()) == Seq::<char>::empty());
        assert(sanitized(t) == escape_char(c) + sanitized(t.drop_first()));
        assert(sanitized(t) =~= sanitized(s) + escape_char(c));
    } else {
        assert(s.push(c).drop_first() =~= s.drop_first().push(c));
        lemma_sanitized_snoc(s.drop_first(), c);
        assert(sanitized(s.push(c)) =~= sanitized(s) + escape_char(c));
    }
}

/// Every `<` in a sanitized text opens the four characters `<br>` produced
/// from a newline, and every `>` closes them: no `<` or `>` of the untrusted
/// input survives on its own.
pub proof fn lemma_sanitized_angle_brackets(s: Seq<char>)
    ensures
        forall|i: int|
            0 <= i < sanitized(s).len() && #[trigger] sanitized(s)[i] == '<' ==> i + 4
                <= sanitized(s).len() && sanitized(s).subrange(i, i + 4) == seq![
                '<',
                'b',
                'r',
                '>',
            ],
        forall|i: int|
            0 <= i < sanitized(s).len() && #[trigger] sanitized(s)[i] == '>' ==> i - 3 >= 0
                && sanitized(s).subrange(i - 3, i + 1) == seq!['<', 'b', 'r', '>'],
    decreases s.len(),
{
    if s.len() == 0 {
    } else {
        let e = escape_char(s[0]);
        let rest = sanitized(s.drop_first());
        let out = sanitized(s);
        lemma_sanitized_angle_brackets(s.drop_first());
        assert(out == e + rest);
        assert forall|i: int| 0 <= i < out.len() && #[trigger] out[i] == '<' implies i + 4
            <= out.len() && out.subrange(i, i + 4) == seq!['<', 'b', 'r', '>'] by {
            if i < e.len() {
                assert(s[0] == '\n' && i == 0);
                assert(out.subrange(0, 4) =~= seq!['<', 'b', 'r', '>']);
            } else {
                let j = i - e.len();
                assert(rest[j] == '<');
                assert(out.subrange(i, i + 4) =~= rest.subrange(j, j + 4));
            }
        }
        assert forall|i: int| 0 <= i < out.len() && #[trigger] out[i] == '>' implies i - 3 >= 0
            && out.subrange(i - 3, i + 1) == seq!['<', 'b', 'r', '>'] by {
            if i < e.len() {
                assert(s[0] == '\n' && i == 3);
                assert(out.subrange(0, 4) =~= seq!['<', 'b', 'r', '>']);
            } else {
                let j = i - e.len();
                assert(rest[j] == '>');
                assert(out.subrange(i - 3, i + 1) =~= rest.subrange(j - 3, j + 1));
            }
        }
    }
}

/// Untrusted notes cannot smuggle an executable tag: nowhere in the
/// sanitized text do the characters `<script` stand in sequence.
pub proof fn lemma_sanitized_no_script_tag(s: Seq<char>)
    ensures
        forall|i: int|
            0 <= i && i + 7 <= sanitized(s).len() ==> #[trigger] sanitized(s).subrange(i, i + 7)
                != seq!['<', 's', 'c', 'r', 'i', 'p', 't'],
{
    lemma_sanitized_angle_brackets(s);
    let out = sanitized(s);
    let tag = seq!['<', 's', 'c', 'r', 'i', 'p', 't'];
    assert forall|i: int| 0 <= i && i + 7 <= out.len() implies #[trigger] out.subrange(i, i + 7)
        != tag by {
        if out.subrange(i, i + 7) == tag {
            assert(out[i] == tag[0]);
            assert(out.subrange(i, i + 4) == seq!['<', 'b', 'r', '>']);
            assert(out[i + 1] == 'b');
            assert(out[i + 1] == tag[1]);
            assert(false);
        }
    }
}

/// Escapes the markup-significant characters of `s`: `<` to `&lt;`, `>` to
/// `&gt;`, a newline to `<br>`.
pub fn sanitize_notes(s: &str) -> (r: String)
    ensures
        r@ == sanitized(s@),
{
    let n = s.unicode_len();
    let mut out = String::new();
    let mut i: usize = 0;
    while i < n
        invariant
            n == s@.len(),
            i <= n,
            out@ == sanitized(s@.take(i as int)),
        decreases n - i,
    {
        let c = s.get_char(i);
        proof {
            lemma_sanitized_snoc(s@.take(i as int), s@[i as int]);
            assert(s@.take(i as int).push(s@[i as int]) =~= s@.take(i + 1 as int));
        }
        if c == '<' {
            out.append("&lt;");
            proof {
                reveal_strlit("&lt;");
                assert("&lt;"@ =~= escape_char(c));
            }
        } else if c == '>' {
            out.append("&gt;");
            proof {
                reveal_strlit("&gt;");
                assert("&gt;"@ =~= escape_char(c));
            }
        } else if c == '\n' {
            out.append("<br>");
            proof {
                reveal_strlit("<br>");
                assert("<br>"@ =~= escape_char(c));
            }
        } else {
            let piece = s.substring_char(i, i + 1);
            out.append(piece);
            proof {
                assert(piece@ =~= escape_char(c));
            }
        }
        i = i + 1;
    }
    proof {
        assert(s@.take(n as int) =~= s@);
    }
    out
}

} // verus!
