//! Construction of the wire request: the fixed instruction, the
//! `<raw>...</raw>` wrapper around the escaped user text, the serialized
//! JSON body, and the endpoint URL.

use vstd::prelude::*;
use crate::escape::{lemma_escape_well_escaped, well_escaped, escape_xml, xml_escape_seq};

verus! {

/// The fixed instruction sent with every request.
pub const SYSTEM_PROMPT: &'static str = "Linguistically polish the text in <raw>. Preserve the author's voice, personality, tone, and style -- elevate, never replace. Find more idiomatic phrasing where natural, eliminate bloat, and fix grammatical, lexical, and punctuation errors. Do not restructure, reconstruct, or re-engineer the content. Every edit should unseal, not substitute. Where the author reached for a phrase and fell short, complete the arch they were already building -- reveal what they were on the verge of writing, never impose what they weren't. The goal is not correction but emancipation: widen the bottleneck between thought and expression until what arrives on the page is proportionate to what was luminous in the mind. Surgical, enriching changes only.";

/// The model used when the configuration names none.
pub const DEFAULT_MODEL: &'static str = "gemini-3-flash-preview";

/// The hexadecimal digit character for one digit value.
pub open spec fn spec_hex_digit(d: int) -> char {
    if d == 0 {
        '0'
    } else if d == 1 {
        '1'
    } else if d == 2 {
        '2'
    } else if d == 3 {
        '3'
    } else if d == 4 {
        '4'
    } else if d == 5 {
        '5'
    } else if d == 6 {
        '6'
    } else if d == 7 {
        '7'
    } else if d == 8 {
        '8'
    } else if d == 9 {
        '9'
    } else if d == 10 {
        'a'
    } else if d == 11 {
        'b'
    } else if d == 12 {
        'c'
    } else if d == 13 {
        'd'
    } else if d == 14 {
        'e'
    } else {
        'f'
    }
}

/// How one character appears inside a JSON string literal: quote and
/// backslash escaped, the three named control characters by letter,
/// every other control character as `\u00..`, everything else itself.
pub open spec fn json_escape_char(c: char) -> Seq<char> {
    if c == '"' {
        seq!['\\', '"']
    } else if c == '\\' {
        seq!['\\', '\\']
    } else if c == '\n' {
        seq!['\\', 'n']
    } else if c == '\r' {
        seq!['\\', 'r']
    } else if c == '\t' {
        seq!['\\', 't']
    } else if (c as u32) < 0x20 {
        seq!['\\', 'u', '0', '0', spec_hex_digit((c as u32) as int / 16), spec_hex_digit(
            (c as u32) as int % 16,
        )]
    } else {
        seq![c]
    }
}

/// The body of a JSON string literal carrying `s`.
pub open spec fn json_escape_seq(s: Seq<char>) -> Seq<char>
    decreases s.len(),
{
    if s.len() == 0 {
        Seq::empty()
    } else {
        json_escape_seq(s.drop_last()) + json_escape_char(s.last())
    }
}

fn hex_digit_str(d: u32) -> (r: &'static str)
    requires
        d < 16,
    ensures
        r@ == seq![spec_hex_digit(d as int)],
{
    if d == 0 {
        proof {
            reveal_strlit("0");
            assert("0"@ =~= seq![spec_hex_digit(0)]);
        }
        "0"
    } else if d == 1 {
        proof {
            reveal_strlit("1");
            assert("1"@ =~= seq![spec_hex_digit(1)]);
        }
        "1"
    } else if d == 2 {
        proof {
            reveal_strlit("2");
            assert("2"@ =~= seq![spec_hex_digit(2)]);
        }
        "2"
    } else if d == 3 {
        proof {
            reveal_strlit("3");
            assert("3"@ =~= seq![spec_hex_digit(3)]);
        }
        "3"
    } else if d == 4 {
        proof {
            reveal_strlit("4");
            assert("4"@ =~= seq![spec_hex_digit(4)]);
        }
        "4"
    } else if d == 5 {
        proof {
            reveal_strlit("5");
            assert("5"@ =~= seq![spec_hex_digit(5)]);
        }
        "5"
    } else if d == 6 {
        proof {
            reveal_strlit("6");
            assert("6"@ =~= seq![spec_hex_digit(6)]);
        }
        "6"
    } else if d == 7 {
        proof {
            reveal_strlit("7");
            assert("7"@ =~= seq![spec_hex_digit(7)]);
        }
        "7"
    } else if d == 8 {
        proof {
            reveal_strlit("8");
            assert("8"@ =~= seq![spec_hex_digit(8)]);
        }
        "8"
    } else if d == 9 {
        proof {
            reveal_strlit("9");
            assert("9"@ =~= seq![spec_hex_digit(9)]);
        }
        "9"
    } else if d == 10 {
        proof {
            reveal_strlit("a");
            assert("a"@ =~= seq![spec_hex_digit(10)]);
        }
        "a"
    } else if d == 11 {
        proof {
            reveal_strlit("b");
            assert("b"@ =~= seq![spec_hex_digit(11)]);
        }
        "b"
    } else if d == 12 {
        proof {
            reveal_strlit("c");
            assert("c"@ =~= seq![spec_hex_digit(12)]);
        }
        "c"
    } else if d == 13 {
        proof {
            reveal_strlit("d");
            assert("d"@ =~= seq![spec_hex_digit(13)]);
        }
        "d"
    } else if d == 14 {
        proof {
            reveal_strlit("e");
            assert("e"@ =~= seq![spec_hex_digit(14)]);
        }
        "e"
    } else {
        proof {
            reveal_strlit("f");
            assert("f"@ =~= seq![spec_hex_digit(15)]);
        }
        "f"
    }
}

/// Escapes text for embedding inside a JSON string literal.
pub fn json_escape(s: &str) -> (r: String)
    ensures
        r@ == json_escape_seq(s@),
{
    let len: usize = s.unicode_len();
    let mut out = String::new();
    let mut i: usize = 0;
    while i < len
        invariant
            i <= len,
            len == s@.len(),
            out@ == json_escape_seq(s@.subrange(0, i as int)),
        decreases len - i,
    {
        let c = s.get_char(i);
        if c == '"' {
            proof {
                reveal_strlit("\\\"");
                assert("\\\""@ =~= json_escape_char('"'));
            }
            out.append("\\\"");
        } else if c == '\\' {
            proof {
                reveal_strlit("\\\\");
                assert("\\\\"@ =~= json_escape_char('\\'));
            }
            out.append("\\\\");
        } else if c == '\n' {
            proof {
                reveal_strlit("\\n");
                assert("\\n"@ =~= json_escape_char('\n'));
            }
            out.append("\\n");
        } else if c == '\r' {
            proof {
                reveal_strlit("\\r");
                assert("\\r"@ =~= json_escape_char('\r'));
            }
            out.append("\\r");
        } else if c == '\t' {
            proof {
                reveal_strlit("\\t");
                assert("\\t"@ =~= json_escape_char('\t'));
            }
            out.append("\\t");
        } else if (c as u32) < 0x20 {
            let n: u32 = c as u32;
            proof {
                reveal_strlit("\\u00");
            }
            out.append("\\u00");
            out.append(hex_digit_str(n / 16));
            out.append(hex_digit_str(n % 16));
            proof {
                assert(out@ =~= json_escape_seq(s@.subrange(0, i as int)) + json_escape_char(c));
            }
        } else {
            let piece = s.substring_char(i, i + 1);
            proof {
                assert(piece@ =~= json_escape_char(c));
            }
            out.append(piece);
        }
        proof {
            assert(s@.subrange(0, i + 1 as int).drop_last() =~= s@.subrange(0, i as int));
            assert(s@.subrange(0, i + 1 as int).last() == s@[i as int]);
        }
        i = i + 1;
    }
    proof {
        assert(s@.subrange(0, len as int) =~= s@);
    }
    out
}

/// The text field sent to the model: the escaped user text between the
/// wrapper tags.
pub open spec fn spec_wrapped(raw: Seq<char>) -> Seq<char> {
    "<raw>"@ + xml_escape_seq(raw) + "</raw>"@
}

/// Wraps the escaped user text in the `<raw>...</raw>` delimiter tag.
pub fn wrap_raw(raw: &str) -> (r: String)
    ensures
        r@ == spec_wrapped(raw@),
{
    let mut out = String::from_str("<raw>");
    let escaped = escape_xml(raw);
    out.append(escaped.as_str());
    out.append("</raw>");
    proof {
        assert(out@ =~= spec_wrapped(raw@));
    }
    out
}

/// Escaping then embedding is safe: the wrapped form is exactly the two
/// fixed delimiter tags around the escaped text, and that middle part
/// carries no raw `<`, `>`, `"` or `'` and no ampersand that does not
/// begin a complete entity — so no stray markup appears outside the
/// intended wrapper tags.
pub proof fn lemma_embedding_safe(raw: Seq<char>)
    ensures
        spec_wrapped(raw) == "<raw>"@ + xml_escape_seq(raw) + "</raw>"@,
        well_escaped(xml_escape_seq(raw)),
{
    lemma_escape_well_escaped(raw);
}

/// The serialized request body: a fixed two-field JSON object, the
/// system instruction verbatim and the wrapped escaped text, each
/// embedded as a JSON string literal.
pub open spec fn spec_payload(prompt: Seq<char>, raw: Seq<char>) -> Seq<char> {
    "{\"systemInstruction\":{\"parts\":[{\"text\":\""@ + json_escape_seq(prompt)
        + "\"}]},\"contents\":[{\"parts\":[{\"text\":\""@ + json_escape_seq(spec_wrapped(raw))
        + "\"}]}]}"@
}

/// Builds the request body for one polish call.
pub fn build_payload(system_prompt: &str, raw: &str) -> (r: String)
    ensures
        r@ == spec_payload(system_prompt@, raw@),
{
    let mut out = String::from_str("{\"systemInstruction\":{\"parts\":[{\"text\":\"");
    let prompt_escaped = json_escape(system_prompt);
    out.append(prompt_escaped.as_str());
    out.append("\"}]},\"contents\":[{\"parts\":[{\"text\":\"");
    let wrapped = wrap_raw(raw);
    let text_escaped = json_escape(wrapped.as_str());
    out.append(text_escaped.as_str());
    out.append("\"}]}]}");
    proof {
        assert(out@ =~= spec_payload(system_prompt@, raw@));
    }
    out
}

/// The endpoint URL: the model name substituted into the fixed template
/// of the generative-language API's generateContent action.
pub open spec fn spec_endpoint(model: Seq<char>) -> Seq<char> {
    "https://generativelanguage.googleapis.com/v1beta/models/"@ + model + ":generateContent"@
}

/// Builds the endpoint URL for one model.
pub fn endpoint_for(model: &str) -> (r: String)
    ensures
        r@ == spec_endpoint(model@),
{
    let mut out = String::from_str("https://generativelanguage.googleapis.com/v1beta/models/");
    out.append(model);
    out.append(":generateContent");
    proof {
        assert(out@ =~= spec_endpoint(model@));
    }
    out
}

} // verus!
