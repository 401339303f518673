//! Framing the gateway's outbound JSON bodies: the reply envelopes and the
//! direct backend's chat-completion request, with verified string escaping.

use vstd::prelude::*;
use vstd::string::StringExecFns;
use vstd::string::StrSliceExecFns;

verus! {

/// The sixteen hexadecimal digit characters, lower case.
pub open spec fn spec_hex_digit(d: nat) -> char {
    seq!['0', '1', '2', '3', '4', '5', '6', '7', '8', '9', 'a', 'b', 'c', 'd', 'e', 'f'][d as int]
}

/// The hexadecimal digit character for `d`.
pub fn hex_digit(d: u8) -> (r: char)
    requires
        d < 16,
    ensures
        r == spec_hex_digit(d as nat),
{
    let r: char = if d == 0 {
        '0'
    } else if d == 1 {
        '1'
    } else if d == 2 {
        '2'
    } else if d == 3 {
        '3'
    } else if d == 4 {
        '4'
    } else if d == 5 {
        '5'
    } else if d == 6 {
        '6'
    } else if d == 7 {
        '7'
    } else if d == 8 {
        '8'
    } else if d == 9 {
        '9'
    } else if d == 10 {
        'a'
    } else if d == 11 {
        'b'
    } else if d == 12 {
        'c'
    } else if d == 13 {
        'd'
    } else if d == 14 {
        'e'
    } else {
        'f'
    };
    r
}

/// How one character stands inside a JSON string literal: the two-character
/// escapes of the JSON grammar, `\u00..` for the other control characters,
/// and the character itself for everything else.
pub open spec fn spec_escape_char(c: char) -> Seq<char> {
    if c == '"' {
        seq!['\\', '"']
    } else if c == '\\' {
        seq!['\\', '\\']
    } else if c == '\u{8}' {
        seq!['\\', 'b']
    } else if c == '\u{c}' {
        seq!['\\', 'f']
    } else if c == '\n' {
        seq!['\\', 'n']
    } else if c == '\r' {
        seq!['\\', 'r']
    } else if c == '\t' {
        seq!['\\', 't']
    } else if (c as u32) < 32 {
        seq!['\\', 'u', '0', '0', spec_hex_digit((c as u32 / 16) as nat), spec_hex_digit(
            (c as u32 % 16) as nat,
        )]
    } else {
        seq![c]
    }
}

/// A whole text inside a JSON string literal, character by character.
pub open spec fn spec_escape(s: Seq<char>) -> Seq<char>
    decreases s.len(),
{
    if s.len() == 0 {
        Seq::empty()
    } else {
        spec_escape_char(s[0]) + spec_escape(s.drop_first())
    }
}

/// Escaping one more character on the right extends the escaped text on the
/// right.
pub proof fn lemma_escape_push(s: Seq<char>, c: char)
    ensures
        spec_escape(s.push(c)) == spec_escape(s) + spec_escape_char(c),
    decreases s.len(),
{
    if s.len() == 0 {
        assert(s.push(c)[0] == c);
        assert(s.push(c).drop_first() =~= Seq::<char>::empty());
        assert(spec_escape(Seq::<char>::empty()) == Seq::<char>::empty());
        assert(spec_escape(s.push(c)) == spec_escape_char(c) + Seq::<char>::empty());
        assert(spec_escape_char(c) + Seq::<char>::empty() =~= Seq::<char>::empty()
            + spec_escape_char(c));
        assert(spec_escape(s) == Seq::<char>::empty());
    } else {
        lemma_escape_push(s.drop_first(), c);
        assert(s.push(c)[0] == s[0]);
        assert(s.push(c).drop_first() =~= s.drop_first().push(c));
        assert(spec_escape(s.push(c)) == spec_escape_char(s[0]) + (spec_escape(s.drop_first())
            + spec_escape_char(c)));
        assert(spec_escape_char(s[0]) + (spec_escape(s.drop_first()) + spec_escape_char(c))
            =~= (spec_escape_char(s[0]) + spec_escape(s.drop_first())) + spec_escape_char(c));
        assert(spec_escape(s) == spec_escape_char(s[0]) + spec_escape(s.drop_first()));
    }
}

/// Relies on String::push: appends exactly the one character.
#[verifier::external_body]
fn push_char(s: &mut String, c: char)
    ensures
        final(s)@ == old(s)@.push(c),
{
    s.push(c);
}

/// How `c` stands inside a JSON string literal, as a value.
pub fn escape_char(c: char) -> (r: String)
    ensures
        r@ == spec_escape_char(c),
{
    if c == '"' {
        let r = "\\\"".to_owned();
        proof {
            reveal_strlit("\\\"");
            assert(r@ =~= spec_escape_char(c));
        }
        r
    } else if c == '\\' {
        let r = "\\\\".to_owned();
        proof {
            reveal_strlit("\\\\");
            assert(r@ =~= spec_escape_char(c));
        }
        r
    } else if c == '\u{8}' {
        let r = "\\b".to_owned();
        proof {
            reveal_strlit("\\b");
            assert(r@ =~= spec_escape_char(c));
        }
        r
    } else if c == '\u{c}' {
        let r = "\\f".to_owned();
        proof {
            reveal_strlit("\\f");
            assert(r@ =~= spec_escape_char(c));
        }
        r
    } else if c == '\n' {
        let r = "\\n".to_owned();
        proof {
            reveal_strlit("\\n");
            assert(r@ =~= spec_escape_char(c));
        }
        r
    } else if c == '\r' {
        let r = "\\r".to_owned();
        proof {
            reveal_strlit("\\r");
            assert(r@ =~= spec_escape_char(c));
        }
        r
    } else if c == '\t' {
        let r = "\\t".to_owned();
        proof {
            reveal_strlit("\\t");
            assert(r@ =~= spec_escape_char(c));
        }
        r
    } else if (c as u32) < 32 {
        let code = c as u32;
        let hi = (code / 16) as u8;
        let lo = (code % 16) as u8;
        let mut r = "\\u00".to_owned();
        push_char(&mut r, hex_digit(hi));
        push_char(&mut r, hex_digit(lo));
        proof {
            reveal_strlit("\\u00");
            assert(r@ =~= spec_escape_char(c));
        }
        r
    } else {
        let mut r = String::new();
        push_char(&mut r, c);
        proof {
            assert(r@ =~= spec_escape_char(c));
        }
        r
    }
}

/// Escapes a whole text for use inside a JSON string literal.
pub fn escape_json(s: &str) -> (r: String)
    ensures
        r@ == spec_escape(s@),
{
    let n = s.unicode_len();
    let mut out = String::new();
    let mut i: usize = 0;
    proof {
        assert(s@.take(0) =~= Seq::<char>::empty());
    }
    while i < n
        invariant
            i <= n,
            n == s@.len(),
            out@ == spec_escape(s@.take(i as int)),
        decreases n - i,
    {
        let c = s.get_char(i);
        let piece = escape_char(c);
        out.append(piece.as_str());
        proof {
            lemma_escape_push(s@.take(i as int), s@[i as int]);
            assert(s@.take(i as int + 1) =~= s@.take(i as int).push(s@[i as int]));
        }
        i = i + 1;
    }
    proof {
        assert(s@.take(n as int) =~= s@);
    }
    out
}

/// The success envelope: `{"answer":"..."}` with the answer escaped.
pub open spec fn spec_answer_body(answer: Seq<char>) -> Seq<char> {
    "{\"answer\":\""@ + spec_escape(answer) + "\"}"@
}

/// Serializes the success envelope around an answer.
pub fn answer_body(answer: &str) -> (r: String)
    ensures
        r@ == spec_answer_body(answer@),
{
    let mut out = "{\"answer\":\"".to_owned();
    let esc = escape_json(answer);
    out.append(esc.as_str());
    out.append("\"}");
    proof {
        assert(out@ =~= spec_answer_body(answer@));
    }
    out
}

/// The error envelope: `{"error":"..."}` with the carried text escaped, the
/// shape in which an upstream failure body is relayed to the caller.
pub open spec fn spec_error_body(text: Seq<char>) -> Seq<char> {
    "{\"error\":\""@ + spec_escape(text) + "\"}"@
}

/// Serializes the error envelope around an upstream failure body.
pub fn error_body(text: &str) -> (r: String)
    ensures
        r@ == spec_error_body(text@),
{
    let mut out = "{\"error\":\"".to_owned();
    let esc = escape_json(text);
    out.append(esc.as_str());
    out.append("\"}");
    proof {
        assert(out@ =~= spec_error_body(text@));
    }
    out
}

/// The direct backend's chat-completion request: the fixed model, and one
/// message of role `user` whose content is the question.
pub open spec fn spec_direct_request_body(question: Seq<char>) -> Seq<char> {
    "{\"model\":\"groq/compound-mini\",\"messages\":[{\"role\":\"user\",\"content\":\""@
        + spec_escape(question) + "\"}]}"@
}

/// Serializes the direct backend's chat-completion request for a question.
pub fn direct_request_body(question: &str) -> (r: String)
    ensures
        r@ == spec_direct_request_body(question@),
{
    let mut out = "{\"model\":\"groq/compound-mini\",\"messages\":[{\"role\":\"user\",\"content\":\""
        .to_owned();
    let esc = escape_json(question);
    out.append(esc.as_str());
    out.append("\"}]}");
    proof {
        assert(out@ =~= spec_direct_request_body(question@));
    }
    out
}

} // verus!
