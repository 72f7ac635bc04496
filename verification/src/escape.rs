//! Escaping of user text before it is embedded in the `<raw>...</raw>`
//! wrapper, and blankness detection for trigger gating.

use vstd::prelude::*;

verus! {

/// The replacement for one character: each of the five XML-significant
/// characters becomes its entity form, every other character stays itself.
pub open spec fn xml_escape_char(c: char) -> Seq<char> {
    if c == '&' {
        seq!['&', 'a', 'm', 'p', ';']
    } else if c == '<' {
        seq!['&', 'l', 't', ';']
    } else if c == '>' {
        seq!['&', 'g', 't', ';']
    } else if c == '"' {
        seq!['&', 'q', 'u', 'o', 't', ';']
    } else if c == '\'' {
        seq!['&', 'a', 'p', 'o', 's', ';']
    } else {
        seq![c]
    }
}

/// Escaping of a whole string: the concatenation of each character's
/// replacement, in order. Replacing the ampersand first and the other
/// four characters afterwards, as a chain of whole-string replacements
/// would, computes exactly this per-character map, because no
/// replacement's output is itself rewritten by a later replacement.
pub open spec fn xml_escape_seq(s: Seq<char>) -> Seq<char>
    decreases s.len(),
{
    if s.len() == 0 {
        Seq::empty()
    } else {
        xml_escape_seq(s.drop_last()) + xml_escape_char(s.last())
    }
}

/// Escapes the five XML-significant characters to their entity forms.
pub fn escape_xml(s: &str) -> (r: String)
    ensures
        r@ == xml_escape_seq(s@),
{
    let len: usize = s.unicode_len();
    let mut out = String::new();
    let mut i: usize = 0;
    while i < len
        invariant
            i <= len,
            len == s@.len(),
            out@ == xml_escape_seq(s@.subrange(0, i as int)),
        decreases len - i,
    {
        let c = s.get_char(i);
        if c == '&' {
            proof {
                reveal_strlit("&amp;");
                assert("&amp;"@ =~= xml_escape_char('&'));
            }
            out.append("&amp;");
        } else if c == '<' {
            proof {
                reveal_strlit("&lt;");
                assert("&lt;"@ =~= xml_escape_char('<'));
            }
            out.append("&lt;");
        } else if c == '>' {
            proof {
                reveal_strlit("&gt;");
                assert("&gt;"@ =~= xml_escape_char('>'));
            }
            out.append("&gt;");
        } else if c == '"' {
            proof {
                reveal_strlit("&quot;");
                assert("&quot;"@ =~= xml_escape_char('"'));
            }
            out.append("&quot;");
        } else if c == '\'' {
            proof {
                reveal_strlit("&apos;");
                assert("&apos;"@ =~= xml_escape_char('\''));
            }
            out.append("&apos;");
        } else {
            let piece = s.substring_char(i, i + 1);
            proof {
                assert(piece@ =~= xml_escape_char(c));
            }
            out.append(piece);
        }
        proof {
            assert(s@.subrange(0, i + 1 as int).drop_last() =~= s@.subrange(0, i as int));
            assert(s@.subrange(0, i + 1 as int).last() == s@[i as int]);
        }
        i = i + 1;
    }
    proof {
        assert(s@.subrange(0, len as int) =~= s@);
    }
    out
}

/// One of the five entity replacements.
pub open spec fn xml_entity(e: Seq<char>) -> bool {
    e == xml_escape_char('&') || e == xml_escape_char('<') || e == xml_escape_char('>')
        || e == xml_escape_char('"') || e == xml_escape_char('\'')
}

/// No raw XML-significant character survives in `t`: the bracket and
/// quote characters are absent, and every ampersand begins a complete
/// entity.
pub open spec fn well_escaped(t: Seq<char>) -> bool {
    (forall|i: int|
        0 <= i < t.len() ==> t[i] != '<' && t[i] != '>' && t[i] != '"' && t[i] != '\'')
        && (forall|i: int|
        0 <= i < t.len() && t[i] == '&' ==> exists|e: Seq<char>|
            xml_entity(e) && i + e.len() <= t.len() && t.subrange(i, i + e.len()) == e)
}

proof fn lemma_well_escaped_concat(a: Seq<char>, b: Seq<char>)
    requires
        well_escaped(a),
        well_escaped(b),
    ensures
        well_escaped(a + b),
{
    let t = a + b;
    assert forall|i: int|
        0 <= i < t.len() implies t[i] != '<' && t[i] != '>' && t[i] != '"' && t[i] != '\'' by {
        if i < a.len() {
            assert(t[i] == a[i]);
        } else {
            assert(t[i] == b[i - a.len()]);
        }
    }
    assert forall|i: int| 0 <= i < t.len() && t[i] == '&' implies exists|e: Seq<char>|
        xml_entity(e) && i + e.len() <= t.len() && t.subrange(i, i + e.len()) == e by {
        if i < a.len() {
            assert(a[i] == '&');
            let e = choose|e: Seq<char>|
                xml_entity(e) && i + e.len() <= a.len() && a.subrange(i, i + e.len()) == e;
            assert(t.subrange(i, i + e.len()) =~= e);
        } else {
            let j = i - a.len();
            assert(b[j] == '&');
            let e = choose|e: Seq<char>|
                xml_entity(e) && j + e.len() <= b.len() && b.subrange(j, j + e.len()) == e;
            assert(t.subrange(i, i + e.len()) =~= e);
        }
    }
}

proof fn lemma_escape_char_well_escaped(c: char)
    ensures
        well_escaped(xml_escape_char(c)),
{
    let p = xml_escape_char(c);
    if c == '&' || c == '<' || c == '>' || c == '"' || c == '\'' {
        assert(p[0] == '&');
        assert(xml_entity(p));
        assert(p.subrange(0, p.len() as int) =~= p);
        assert forall|i: int| 0 <= i < p.len() && p[i] == '&' implies exists|e: Seq<char>|
            xml_entity(e) && i + e.len() <= p.len() && p.subrange(i, i + e.len()) == e by {
            assert(i == 0);
            assert(p.subrange(0, p.len() as int) == p);
        }
    } else {
        assert(p =~= seq![c]);
    }
}

/// Escaping never leaves a raw XML-significant character behind: the
/// escaped text contains no `<`, `>`, `"` or `'`, and every `&` in it
/// begins a complete entity. Embedding the escaped text between the
/// wrapper tags therefore introduces no stray markup outside the tags
/// themselves.
pub proof fn lemma_escape_well_escaped(s: Seq<char>)
    ensures
        well_escaped(xml_escape_seq(s)),
    decreases s.len(),
{
    if s.len() == 0 {
        assert(well_escaped(xml_escape_seq(s)));
    } else {
        lemma_escape_well_escaped(s.drop_last());
        lemma_escape_char_well_escaped(s.last());
        lemma_well_escaped_concat(xml_escape_seq(s.drop_last()), xml_escape_char(s.last()));
    }
}

/// A character of the Unicode `White_Space` set, the set `str::trim`
/// strips.
pub open spec fn is_space_char(c: char) -> bool {
    let n = c as u32;
    n == 0x20 || (0x09 <= n && n <= 0x0D) || n == 0x85 || n == 0xA0 || n == 0x1680 || (0x2000
        <= n && n <= 0x200A) || n == 0x2028 || n == 0x2029 || n == 0x202F || n == 0x205F || n
        == 0x3000
}

/// A string is blank when every character is whitespace; trimming such a
/// string leaves it empty.
pub open spec fn is_blank_seq(s: Seq<char>) -> bool {
    forall|i: int| 0 <= i < s.len() ==> is_space_char(s[i])
}

/// Whether one character is whitespace.
pub fn is_space(c: char) -> (r: bool)
    ensures
        r == is_space_char(c),
{
    let n = c as u32;
    n == 0x20 || (0x09 <= n && n <= 0x0D) || n == 0x85 || n == 0xA0 || n == 0x1680 || (0x2000
        <= n && n <= 0x200A) || n == 0x2028 || n == 0x2029 || n == 0x202F || n == 0x205F || n
        == 0x3000
}

/// Whether the string is empty or consists of whitespace only.
pub fn is_blank(s: &str) -> (r: bool)
    ensures
        r == is_blank_seq(s@),
{
    let len: usize = s.unicode_len();
    let mut i: usize = 0;
    while i < len
        invariant
            i <= len,
            len == s@.len(),
            forall|j: int| 0 <= j < i ==> is_space_char(s@[j]),
        decreases len - i,
    {
        let c = s.get_char(i);
        if !is_space(c) {
            return false;
        }
        i = i + 1;
    }
    true
}

} // verus!
