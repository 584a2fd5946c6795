use vstd::prelude::*;
use vstd::string::*;

use crate::errors::IdeaError;
use crate::extract::extract_json;
use crate::extract::extract_spec;
use crate::idea::decode_idea;
use crate::text::contains_seq;
use crate::idea::idea_of_json;
use crate::idea::str_member;
use crate::idea::Idea;
use crate::idea::IdeaView;
use crate::json::json_as_array;
use crate::json::json_as_str;
use crate::json::json_error_text;
use crate::json::json_get;
use crate::json::json_model;
use crate::json::parse_json_value;
use crate::json::parsed_json;
use crate::json::JsonData;

verus! {

/// What came of one HTTP POST to the completion endpoint.
pub enum HttpOutcome {
    /// The request never reached the server; carries the transport
    /// diagnostic.
    Transport(String),
    /// The server answered; carries the HTTP status code and the full body
    /// text, read fully even on error statuses.
    Response(u16, String),
}

/// The HTTP status codes that count as success.
pub open spec fn is_success_status(s: u16) -> bool {
    200 <= s < 300
}

/// The text of one content block: the string `text` member of a JSON
/// object.
pub open spec fn block_text(d: JsonData) -> Option<Seq<char>> {
    match d {
        JsonData::Obj(m) => str_member(m, "text"@),
        _ => Option::None,
    }
}

/// The texts of the content blocks of a completion answer: present exactly
/// when the document is an object whose `content` member is an array of
/// objects each carrying a string `text` member.
pub open spec fn completion_texts(d: JsonData) -> Option<Seq<Seq<char>>> {
    match d {
        JsonData::Obj(m) => {
            if m.contains_key("content"@) && m["content"@] is Arr {
                let blocks = m["content"@]->Arr_0;
                if forall|i: int| 0 <= i < blocks.len() ==> block_text(blocks[i]) is Some {
                    Option::Some(Seq::new(blocks.len(), |i: int| block_text(blocks[i]).unwrap()))
                } else {
                    Option::None
                }
            } else {
                Option::None
            }
        },
        _ => Option::None,
    }
}

/// Why the generation path failed after a successful HTTP exchange.
pub enum GenFailure {
    /// The body, the payload, or the idea schema did not decode.
    Decode,
    /// The answer held no content blocks.
    Empty,
}

/// What the generation path makes of a success response body: decode the
/// completion, consult the first content block only, recover the embedded
/// JSON payload, and decode the idea from it.
pub open spec fn generation_of_body(body: Seq<char>) -> Result<IdeaView, GenFailure> {
    match parsed_json(body) {
        Option::None => Result::Err(GenFailure::Decode),
        Option::Some(d) => match completion_texts(d) {
            Option::None => Result::Err(GenFailure::Decode),
            Option::Some(ts) => if ts.len() == 0 {
                Result::Err(GenFailure::Empty)
            } else {
                match parsed_json(extract_spec(ts[0])) {
                    Option::None => Result::Err(GenFailure::Decode),
                    Option::Some(p) => match idea_of_json(p) {
                        Option::None => Result::Err(GenFailure::Decode),
                        Option::Some(iv) => Result::Ok(iv),
                    },
                }
            },
        },
    }
}

/// The JSON payload the generation path decodes the idea from, once the
/// HTTP exchange and the completion decode have succeeded: the text
/// recovered from the first content block.
pub open spec fn payload_of_body(body: Seq<char>) -> Option<Seq<char>> {
    match parsed_json(body) {
        Option::Some(d) => match completion_texts(d) {
            Option::Some(ts) => if ts.len() > 0 {
                Option::Some(extract_spec(ts[0]))
            } else {
                Option::None
            },
            Option::None => Option::None,
        },
        Option::None => Option::None,
    }
}

fn get_block_text(v: &serde_json::Value) -> (r: Option<String>)
    ensures
        r is Some <==> block_text(json_model(*v)) is Some,
        r matches Some(s) ==> s@ == block_text(json_model(*v)).unwrap(),
{
    match json_get(v, "text") {
        Option::Some(f) => match json_as_str(f) {
            Option::Some(s) => Option::Some(String::from_str(s)),
            Option::None => Option::None,
        },
        Option::None => Option::None,
    }
}

/// Decode a completion answer body into the texts of its content blocks, in
/// order. Succeeds exactly when the body is well-formed JSON of the wire
/// shape; failure carries the diagnostic.
pub fn decode_completion(body: &str) -> (r: Result<Vec<String>, IdeaError>)
    ensures
        parsed_json(body@) is None ==> (r matches Err(e) && e is Decode),
        parsed_json(body@) matches Some(d) ==> match completion_texts(d) {
            Option::Some(ts) => r matches Ok(xs) && xs.deep_view() == ts,
            Option::None => r matches Err(e) && e is Decode,
        },
{
    let parsed = match parse_json_value(body) {
        Result::Ok(v) => v,
        Result::Err(e) => {
            let mut detail = String::from_str("failed to parse completion JSON: ");
            detail.append(json_error_text(&e).as_str());
            return Result::Err(IdeaError::Decode(detail));
        },
    };
    let field = match json_get(&parsed, "content") {
        Option::Some(f) => f,
        Option::None => {
            return Result::Err(IdeaError::Decode(String::from_str("no content array")));
        },
    };
    let arr = match json_as_array(field) {
        Option::Some(a) => a,
        Option::None => {
            return Result::Err(IdeaError::Decode(String::from_str("no content array")));
        },
    };
    let ghost blocks = json_model(*field)->Arr_0;
    let mut out: Vec<String> = Vec::new();
    let mut i: usize = 0;
    while i < arr.len()
        invariant
            0 <= i <= arr.len(),
            parsed_json(body@) is Some,
            json_model(parsed) == parsed_json(body@).unwrap(),
            json_model(parsed) is Obj,
            json_model(parsed)->Obj_0.contains_key("content"@),
            json_model(*field) == json_model(parsed)->Obj_0["content"@],
            json_model(*field) is Arr,
            arr@.map_values(|x: serde_json::Value| json_model(x)) == blocks,
            blocks == json_model(*field)->Arr_0,
            out@.len() == i,
            forall|j: int| 0 <= j < i ==> block_text(blocks[j]) is Some,
            forall|j: int| 0 <= j < i ==> out@[j]@ == block_text(blocks[j]).unwrap(),
        decreases arr.len() - i,
    {
        let item = &arr[i];
        proof {
            assert(json_model(*item) == blocks[i as int]);
        }
        match get_block_text(item) {
            Option::Some(s) => {
                out.push(s);
            },
            Option::None => {
                proof {
                    assert(!(block_text(blocks[i as int]) is Some));
                    assert(blocks.len() == arr@.len());
                    assert(completion_texts(json_model(parsed)) is None);
                }
                return Result::Err(IdeaError::Decode(String::from_str("malformed content block")));
            },
        }
        i = i + 1;
    }
    proof {
        assert(blocks.len() == arr@.len());
        assert(completion_texts(json_model(parsed)) is Some);
        let expected = completion_texts(json_model(parsed)).unwrap();
        assert(out.deep_view() =~= expected);
    }
    Result::Ok(out)
}

/// Finish the key-validation path once the HTTP exchange is over: a pure
/// status check. Any answer from the server, success or not, yields `Ok`
/// with the status's verdict; only a transport failure is an error. The
/// body and its contents are never consulted.
pub fn finish_probe(outcome: HttpOutcome) -> (r: Result<bool, IdeaError>)
    ensures
        outcome matches HttpOutcome::Transport(d) ==> (r matches Err(e) && e matches
            IdeaError::Transport(m) && m@ == d@),
        outcome matches HttpOutcome::Response(st, b) ==> (r matches Ok(ok) && ok
            == is_success_status(st)),
{
    match outcome {
        HttpOutcome::Transport(d) => Result::Err(IdeaError::Transport(d)),
        HttpOutcome::Response(st, _) => Result::Ok(200 <= st && st < 300),
    }
}

/// Finish the generation path once the HTTP exchange is over. A transport
/// failure and a non-success status are surfaced as such, the body read in
/// full; on success the body is decoded, the first content block's payload
/// extracted, and the idea decoded from it, the first failure
/// short-circuiting the chain.
pub fn finish_generate(outcome: HttpOutcome) -> (r: Result<Idea, IdeaError>)
    ensures
        match outcome {
            HttpOutcome::Transport(d) => r matches Err(e) && e matches IdeaError::Transport(m)
                && m@ == d@,
            HttpOutcome::Response(st, body) => {
                if !is_success_status(st) {
                    r matches Err(e) && e matches IdeaError::Api(s2, b2) && s2 == st && b2@
                        == body@
                } else {
                    match generation_of_body(body@) {
                        Result::Ok(iv) => r matches Ok(idea) && idea@ == iv,
                        Result::Err(GenFailure::Decode) => r matches Err(e) && e is Decode,
                        Result::Err(GenFailure::Empty) => r matches Err(e) && e is EmptyResponse,
                    }
                }
            },
        },
        match outcome {
            HttpOutcome::Response(st, body) => (is_success_status(st) && payload_of_body(body@)
                is Some && generation_of_body(body@) matches Err(GenFailure::Decode)) ==> (
            r matches Err(IdeaError::Decode(dd)) && contains_seq(
                dd@,
                payload_of_body(body@).unwrap(),
            )),
            HttpOutcome::Transport(_) => true,
        },
{
    match outcome {
        HttpOutcome::Transport(d) => Result::Err(IdeaError::Transport(d)),
        HttpOutcome::Response(st, body) => {
            if !(200 <= st && st < 300) {
                return Result::Err(IdeaError::Api(st, body));
            }
            let texts = match decode_completion(body.as_str()) {
                Result::Ok(t) => t,
                Result::Err(e) => {
                    return Result::Err(e);
                },
            };
            if texts.len() == 0 {
                return Result::Err(IdeaError::EmptyResponse);
            }
            let first = &texts[0];
            proof {
                assert(texts.deep_view()[0] == first@);
            }
            let payload = extract_json(first.as_str());
            proof {
                assert(payload_of_body(body@) == Option::Some(payload@));
            }
            decode_idea(payload.as_str())
        },
    }
}

} // verus!
