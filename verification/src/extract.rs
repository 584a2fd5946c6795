use vstd::prelude::*;
use vstd::string::*;

use crate::text::contains_seq;
use crate::text::find_first;
use crate::text::first_occurrence;
use crate::text::lemma_first_occurrence_unique;
use crate::text::occurs_at;
use crate::text::trim_spec;
use crate::text::trim_str;

verus! {

/// The fence marker that opens or closes a code block.
pub open spec fn tick_marker() -> Seq<char> {
    "```"@
}

/// The fence marker that opens a JSON-tagged code block.
pub open spec fn json_marker() -> Seq<char> {
    "```json"@
}

/// The payload of a fenced block whose body starts at `body_start`: the text
/// up to the next closing fence, trimmed; when no closing fence follows, the
/// whole original text trimmed, so that an unterminated fence never truncates
/// the payload.
pub open spec fn fenced_or_whole(s: Seq<char>, body_start: int) -> Seq<char>
    recommends
        0 <= body_start <= s.len(),
{
    let rest = s.subrange(body_start, s.len() as int);
    if contains_seq(rest, tick_marker()) {
        trim_spec(rest.subrange(0, first_occurrence(rest, tick_marker())))
    } else {
        trim_spec(s)
    }
}

/// The JSON payload recovered from a free-text reply: the body of the first
/// JSON-tagged fenced block if one is present, else the body of the first
/// bare fenced block, else the whole text; always trimmed.
pub open spec fn extract_spec(s: Seq<char>) -> Seq<char> {
    if contains_seq(s, json_marker()) {
        fenced_or_whole(s, first_occurrence(s, json_marker()) + json_marker().len())
    } else if contains_seq(s, tick_marker()) {
        fenced_or_whole(s, first_occurrence(s, tick_marker()) + tick_marker().len())
    } else {
        trim_spec(s)
    }
}

fn extract_fenced(s: &str, body_start: usize) -> (r: String)
    requires
        body_start <= s@.len(),
    ensures
        r@ == fenced_or_whole(s@, body_start as int),
{
    proof {
        reveal_strlit("```");
    }
    let n = s.unicode_len();
    let rest = s.substring_char(body_start, n);
    match find_first(rest, "```") {
        Option::Some(j) => {
            proof {
                lemma_first_occurrence_unique(rest@, tick_marker(), j as int);
            }
            let body = rest.substring_char(0, j);
            String::from_str(trim_str(body))
        },
        Option::None => String::from_str(trim_str(s)),
    }
}

/// Recover the JSON payload embedded in the model's free-text reply,
/// tolerating a payload wrapped in a fenced code block.
pub fn extract_json(s: &str) -> (r: String)
    ensures
        r@ == extract_spec(s@),
{
    proof {
        reveal_strlit("```json");
        reveal_strlit("```");
    }
    let n = s.unicode_len();
    match find_first(s, "```json") {
        Option::Some(i) => {
            proof {
                lemma_first_occurrence_unique(s@, json_marker(), i as int);
            }
            extract_fenced(s, i + 7)
        },
        Option::None => {
            match find_first(s, "```") {
                Option::Some(i) => {
                    proof {
                        lemma_first_occurrence_unique(s@, tick_marker(), i as int);
                    }
                    extract_fenced(s, i + 3)
                },
                Option::None => String::from_str(trim_str(s)),
            }
        },
    }
}

/// On text that holds no fence marker, extraction only trims: the payload of
/// an already-bare reply passes through unchanged but for surrounding
/// whitespace.
pub proof fn lemma_extract_bare(s: Seq<char>)
    requires
        !contains_seq(s, tick_marker()),
    ensures
        extract_spec(s) == trim_spec(s),
{
    reveal_strlit("```json");
    reveal_strlit("```");
    assert forall|i: int| !occurs_at(s, json_marker(), i) by {
        if occurs_at(s, json_marker(), i) {
            assert forall|k: int| 0 <= k < tick_marker().len() implies s[i + k]
                == tick_marker()[k] by {
                assert(s[i + k] == json_marker()[k]);
            }
            assert(occurs_at(s, tick_marker(), i));
            assert(false);
        }
    }
}

} // verus!
