use vstd::prelude::*;
use vstd::string::*;

use crate::prompt::build_prompt;
use crate::prompt::prompt_spec;

verus! {

/// The digit character for a value below sixteen.
pub open spec fn hex_digit(n: int) -> char {
    if n == 0 {
        '0'
    } else if n == 1 {
        '1'
    } else if n == 2 {
        '2'
    } else if n == 3 {
        '3'
    } else if n == 4 {
        '4'
    } else if n == 5 {
        '5'
    } else if n == 6 {
        '6'
    } else if n == 7 {
        '7'
    } else if n == 8 {
        '8'
    } else if n == 9 {
        '9'
    } else if n == 10 {
        'a'
    } else if n == 11 {
        'b'
    } else if n == 12 {
        'c'
    } else if n == 13 {
        'd'
    } else if n == 14 {
        'e'
    } else {
        'f'
    }
}

/// How one character is written inside a JSON string literal: the two-
/// character escapes for quote, backslash and the common control
/// characters, the six-character escape for the other control characters,
/// and every other character as itself.
pub open spec fn escape_char(c: char) -> Seq<char> {
    if c == '"' {
        seq!['\\', '"']
    } else if c == '\\' {
        seq!['\\', '\\']
    } else if c == '\n' {
        seq!['\\', 'n']
    } else if c == '\r' {
        seq!['\\', 'r']
    } else if c == '\t' {
        seq!['\\', 't']
    } else if (c as u32) < 32 {
        seq!['\\', 'u', '0', '0', hex_digit((c as u32) as int / 16), hex_digit(
            (c as u32) as int % 16,
        )]
    } else {
        seq![c]
    }
}

/// How a text is written inside a JSON string literal.
pub open spec fn escape_str(s: Seq<char>) -> Seq<char>
    decreases s.len(),
{
    if s.len() == 0 {
        Seq::empty()
    } else {
        escape_str(s.drop_last()) + escape_char(s.last())
    }
}

/// The decimal rendering of a natural number.
pub open spec fn dec_str(n: nat) -> Seq<char>
    decreases n,
{
    if n < 10 {
        seq![hex_digit(n as int)]
    } else {
        dec_str(n / 10) + seq![hex_digit((n % 10) as int)]
    }
}

/// The serialized completion request: the fixed wire shape holding the
/// model identifier, the output-token bound, and a single user message with
/// the given content.
pub open spec fn request_body_spec(model: Seq<char>, max_tokens: nat, content: Seq<char>) -> Seq<
    char,
> {
    "{\"model\":\""@ + escape_str(model) + "\",\"max_tokens\":"@ + dec_str(max_tokens)
        + ",\"messages\":[{\"role\":\"user\",\"content\":\""@ + escape_str(content) + "\"}]}"@
}

/// Relies on `String::push`: appends exactly the one character.
#[verifier::external_body]
fn push_char(s: &mut String, c: char)
    ensures
        final(s)@ == old(s)@.push(c),
{
    s.push(c);
}

fn hex_char(d: u32) -> (c: char)
    requires
        d < 16,
    ensures
        c == hex_digit(d as int),
{
    if d == 0 {
        '0'
    } else if d == 1 {
        '1'
    } else if d == 2 {
        '2'
    } else if d == 3 {
        '3'
    } else if d == 4 {
        '4'
    } else if d == 5 {
        '5'
    } else if d == 6 {
        '6'
    } else if d == 7 {
        '7'
    } else if d == 8 {
        '8'
    } else if d == 9 {
        '9'
    } else if d == 10 {
        'a'
    } else if d == 11 {
        'b'
    } else if d == 12 {
        'c'
    } else if d == 13 {
        'd'
    } else if d == 14 {
        'e'
    } else {
        'f'
    }
}

fn append_escaped(out: &mut String, s: &str)
    ensures
        final(out)@ == old(out)@ + escape_str(s@),
{
    let n = s.unicode_len();
    let mut i: usize = 0;
    proof {
        assert(s@.subrange(0, 0) =~= Seq::<char>::empty());
        assert(out@ =~= old(out)@ + escape_str(s@.subrange(0, 0)));
    }
    while i < n
        invariant
            0 <= i <= n,
            n == s@.len(),
            out@ == old(out)@ + escape_str(s@.subrange(0, i as int)),
        decreases n - i,
    {
        let c = s.get_char(i);
        if c == '"' {
            out.append("\\\"");
            proof {
                reveal_strlit("\\\"");
                assert("\\\""@ =~= escape_char(c));
            }
        } else if c == '\\' {
            out.append("\\\\");
            proof {
                reveal_strlit("\\\\");
                assert("\\\\"@ =~= escape_char(c));
            }
        } else if c == '\n' {
            out.append("\\n");
            proof {
                reveal_strlit("\\n");
                assert("\\n"@ =~= escape_char(c));
            }
        } else if c == '\r' {
            out.append("\\r");
            proof {
                reveal_strlit("\\r");
                assert("\\r"@ =~= escape_char(c));
            }
        } else if c == '\t' {
            out.append("\\t");
            proof {
                reveal_strlit("\\t");
                assert("\\t"@ =~= escape_char(c));
            }
        } else if (c as u32) < 32 {
            let d = c as u32;
            out.append("\\u00");
            push_char(out, hex_char(d / 16));
            push_char(out, hex_char(d % 16));
            proof {
                reveal_strlit("\\u00");
                assert("\\u00"@.push(hex_digit(d as int / 16)).push(hex_digit(d as int % 16))
                    =~= escape_char(c));
            }
        } else {
            push_char(out, c);
            proof {
                assert(Seq::<char>::empty().push(c) =~= escape_char(c));
            }
        }
        proof {
            let pre = s@.subrange(0, i as int);
            let ext = s@.subrange(0, i + 1);
            assert(ext.drop_last() =~= pre);
            assert(ext.last() == c);
            assert(out@ =~= old(out)@ + escape_str(ext));
        }
        i = i + 1;
    }
    proof {
        assert(s@.subrange(0, n as int) =~= s@);
    }
}

pub(crate) fn append_u32(out: &mut String, n: u32)
    ensures
        final(out)@ == old(out)@ + dec_str(n as nat),
    decreases n,
{
    if n < 10 {
        push_char(out, hex_char(n));
        proof {
            assert(old(out)@.push(hex_digit(n as int)) =~= old(out)@ + dec_str(n as nat));
        }
    } else {
        append_u32(out, n / 10);
        push_char(out, hex_char(n % 10));
        proof {
            assert((old(out)@ + dec_str((n / 10) as nat)).push(hex_digit((n % 10) as int))
                =~= old(out)@ + dec_str(n as nat));
        }
    }
}

/// Serialize a completion request to its JSON wire form: the fixed shape
/// with the model identifier, the output-token bound, and one user message
/// holding the content, string values escaped as JSON requires.
pub fn encode_request(model: &str, max_tokens: u32, content: &str) -> (r: String)
    ensures
        r@ == request_body_spec(model@, max_tokens as nat, content@),
{
    let mut out = String::from_str("{\"model\":\"");
    append_escaped(&mut out, model);
    out.append("\",\"max_tokens\":");
    append_u32(&mut out, max_tokens);
    out.append(",\"messages\":[{\"role\":\"user\",\"content\":\"");
    append_escaped(&mut out, content);
    out.append("\"}]}");
    proof {
        assert(out@ =~= request_body_spec(model@, max_tokens as nat, content@));
    }
    out
}

/// The body of the generation request for a category: the rendered prompt
/// as the single user message, under the given model and a 2048-token
/// output bound.
pub fn generate_request_body(model: &str, category: &str) -> (r: String)
    ensures
        r@ == request_body_spec(model@, 2048, prompt_spec(category@)),
{
    let prompt = build_prompt(category);
    encode_request(model, 2048, prompt.as_str())
}

/// The body of the probe request used to validate a key: a minimal
/// one-token request carrying a fixed trivial message.
pub fn probe_request_body(model: &str) -> (r: String)
    ensures
        r@ == request_body_spec(model@, 10, "Hi"@),
{
    encode_request(model, 10, "Hi")
}

} // verus!
