use vstd::prelude::*;
use vstd::string::*;

use crate::errors::IdeaError;
use crate::text::contains_seq;
use crate::text::lemma_contains_concat_left;
use crate::text::lemma_contains_suffix;
use crate::json::json_as_array;
use crate::json::json_as_str;
use crate::json::json_error_text;
use crate::json::json_get;
use crate::json::json_model;
use crate::json::parse_json_value;
use crate::json::parsed_json;
use crate::json::JsonData;

verus! {

/// The fixed output schema: one generated idea. Every field is required; no
/// partial or default-filled value of this type is ever produced by decoding.
pub struct Idea {
    pub concept: String,
    pub platform: String,
    pub target_audience: String,
    pub key_features: Vec<String>,
    pub monetization: String,
    pub value_proposition: String,
}

/// The mathematical content of an `Idea`.
pub struct IdeaView {
    pub concept: Seq<char>,
    pub platform: Seq<char>,
    pub target_audience: Seq<char>,
    pub key_features: Seq<Seq<char>>,
    pub monetization: Seq<char>,
    pub value_proposition: Seq<char>,
}

impl View for Idea {
    type V = IdeaView;

    open spec fn view(&self) -> IdeaView {
        IdeaView {
            concept: self.concept@,
            platform: self.platform@,
            target_audience: self.target_audience@,
            key_features: self.key_features.deep_view(),
            monetization: self.monetization@,
            value_proposition: self.value_proposition@,
        }
    }
}

/// The member `k` of object `m`, when present as a JSON string.
pub open spec fn str_member(m: Map<Seq<char>, JsonData>, k: Seq<char>) -> Option<Seq<char>> {
    if m.contains_key(k) && m[k] is Str {
        Option::Some(m[k]->Str_0)
    } else {
        Option::None
    }
}

/// The elements of `d`, when `d` is a JSON array holding strings only.
pub open spec fn str_items(d: JsonData) -> Option<Seq<Seq<char>>> {
    match d {
        JsonData::Arr(items) => {
            if forall|i: int| 0 <= i < items.len() ==> items[i] is Str {
                Option::Some(Seq::new(items.len(), |i: int| items[i]->Str_0))
            } else {
                Option::None
            }
        },
        _ => Option::None,
    }
}

/// The idea a JSON document decodes to: present exactly when the document is
/// an object whose six required members all have the declared types; members
/// beyond the six are ignored.
pub open spec fn idea_of_json(d: JsonData) -> Option<IdeaView> {
    match d {
        JsonData::Obj(m) => {
            if str_member(m, "concept"@) is Some && str_member(m, "platform"@) is Some
                && str_member(m, "target_audience"@) is Some && m.contains_key("key_features"@)
                && str_items(m["key_features"@]) is Some && str_member(m, "monetization"@) is Some
                && str_member(m, "value_proposition"@) is Some {
                Option::Some(
                    IdeaView {
                        concept: str_member(m, "concept"@).unwrap(),
                        platform: str_member(m, "platform"@).unwrap(),
                        target_audience: str_member(m, "target_audience"@).unwrap(),
                        key_features: str_items(m["key_features"@]).unwrap(),
                        monetization: str_member(m, "monetization"@).unwrap(),
                        value_proposition: str_member(m, "value_proposition"@).unwrap(),
                    },
                )
            } else {
                Option::None
            }
        },
        _ => Option::None,
    }
}

fn get_str_field(v: &serde_json::Value, key: &str) -> (r: Option<String>)
    ensures
        r is Some <==> (json_model(*v) matches JsonData::Obj(m) && str_member(m, key@) is Some),
        r matches Some(s) ==> s@ == str_member(json_model(*v)->Obj_0, key@).unwrap(),
{
    match json_get(v, key) {
        Option::Some(f) => match json_as_str(f) {
            Option::Some(s) => Option::Some(String::from_str(s)),
            Option::None => Option::None,
        },
        Option::None => Option::None,
    }
}

fn get_str_list_field(v: &serde_json::Value, key: &str) -> (r: Option<Vec<String>>)
    ensures
        r is Some <==> (json_model(*v) matches JsonData::Obj(m) && m.contains_key(key@)
            && str_items(m[key@]) is Some),
        r matches Some(xs) ==> xs.deep_view() == str_items(
            json_model(*v)->Obj_0[key@],
        ).unwrap(),
{
    let field = match json_get(v, key) {
        Option::Some(f) => f,
        Option::None => {
            return Option::None;
        },
    };
    let arr = match json_as_array(field) {
        Option::Some(a) => a,
        Option::None => {
            return Option::None;
        },
    };
    let ghost items = json_model(*field)->Arr_0;
    let mut out: Vec<String> = Vec::new();
    let mut i: usize = 0;
    while i < arr.len()
        invariant
            0 <= i <= arr.len(),
            json_model(*v) is Obj,
            json_model(*v)->Obj_0.contains_key(key@),
            json_model(*field) == json_model(*v)->Obj_0[key@],
            json_model(*field) is Arr,
            arr@.map_values(|x: serde_json::Value| json_model(x)) == items,
            items == json_model(*field)->Arr_0,
            out@.len() == i,
            forall|j: int| 0 <= j < i ==> items[j] is Str,
            forall|j: int| 0 <= j < i ==> out@[j]@ == items[j]->Str_0,
        decreases arr.len() - i,
    {
        let item = &arr[i];
        proof {
            assert(json_model(*item) == items[i as int]);
        }
        match json_as_str(item) {
            Option::Some(s) => {
                out.push(String::from_str(s));
            },
            Option::None => {
                proof {
                    assert(!(items[i as int] is Str));
                    assert(items.len() == arr@.len());
                    assert(str_items(json_model(*field)) is None);
                    assert(json_model(*field) == json_model(*v)->Obj_0[key@]);
                }
                return Option::None;
            },
        }
        i = i + 1;
    }
    proof {
        assert(str_items(json_model(*field)) is Some);
        let expected = str_items(json_model(*field)).unwrap();
        assert(out.deep_view() =~= expected);
    }
    Option::Some(out)
}

/// The first required member, in decoding order, that is absent or of the
/// wrong type: the member a decode failure is reported for.
pub open spec fn failing_member(d: JsonData) -> Seq<char> {
    match d {
        JsonData::Obj(m) => {
            if str_member(m, "concept"@) is None {
                "concept"@
            } else if str_member(m, "platform"@) is None {
                "platform"@
            } else if str_member(m, "target_audience"@) is None {
                "target_audience"@
            } else if !(m.contains_key("key_features"@) && str_items(m["key_features"@]) is Some) {
                "key_features"@
            } else if str_member(m, "monetization"@) is None {
                "monetization"@
            } else {
                "value_proposition"@
            }
        },
        _ => "concept"@,
    }
}

fn missing_member(key: &str) -> (r: IdeaError)
    ensures
        r matches IdeaError::Decode(d) && contains_seq(d@, key@),
{
    let mut detail = String::from_str("missing or mistyped member: ");
    detail.append(key);
    proof {
        lemma_contains_suffix("missing or mistyped member: "@, key@);
    }
    IdeaError::Decode(detail)
}

/// Decode one idea from an already-parsed JSON document. Succeeds exactly
/// when the document is an object carrying the six required members with the
/// declared types; unknown extra members are ignored. A failure names the
/// member it is reported for in its detail.
pub fn decode_value(v: &serde_json::Value) -> (r: Result<Idea, IdeaError>)
    ensures
        match idea_of_json(json_model(*v)) {
            Option::Some(iv) => r matches Ok(idea) && idea@ == iv,
            Option::None => r matches Err(e) && e matches IdeaError::Decode(d) && contains_seq(
                d@,
                failing_member(json_model(*v)),
            ),
        },
{
    let concept = match get_str_field(v, "concept") {
        Option::Some(s) => s,
        Option::None => {
            return Result::Err(missing_member("concept"));
        },
    };
    let platform = match get_str_field(v, "platform") {
        Option::Some(s) => s,
        Option::None => {
            return Result::Err(missing_member("platform"));
        },
    };
    let target_audience = match get_str_field(v, "target_audience") {
        Option::Some(s) => s,
        Option::None => {
            return Result::Err(missing_member("target_audience"));
        },
    };
    let key_features = match get_str_list_field(v, "key_features") {
        Option::Some(xs) => xs,
        Option::None => {
            return Result::Err(missing_member("key_features"));
        },
    };
    let monetization = match get_str_field(v, "monetization") {
        Option::Some(s) => s,
        Option::None => {
            return Result::Err(missing_member("monetization"));
        },
    };
    let value_proposition = match get_str_field(v, "value_proposition") {
        Option::Some(s) => s,
        Option::None => {
            return Result::Err(missing_member("value_proposition"));
        },
    };
    Result::Ok(
        Idea {
            concept,
            platform,
            target_audience,
            key_features,
            monetization,
            value_proposition,
        },
    )
}

/// Decode one idea from JSON text. Strict structural decoding: the text must
/// parse, and every required member must be present with the declared type.
/// A failure carries the diagnostic and the offending text: its detail
/// embeds the text whole, and a schema failure also names the member it is
/// reported for.
pub fn decode_idea(text: &str) -> (r: Result<Idea, IdeaError>)
    ensures
        parsed_json(text@) is None ==> (r matches Err(e) && e is Decode),
        parsed_json(text@) matches Some(d) ==> match idea_of_json(d) {
            Option::Some(iv) => r matches Ok(idea) && idea@ == iv,
            Option::None => r matches Err(e) && e is Decode,
        },
        r matches Err(IdeaError::Decode(dd)) ==> contains_seq(dd@, text@),
        match parsed_json(text@) {
            Option::Some(d) => idea_of_json(d) is None ==> (r matches Err(IdeaError::Decode(dd))
                && contains_seq(dd@, failing_member(d))),
            Option::None => true,
        },
{
    match parse_json_value(text) {
        Result::Ok(v) => match decode_value(&v) {
            Result::Ok(idea) => Result::Ok(idea),
            Result::Err(e) => match e {
                IdeaError::Decode(d) => {
                    let ghost member_part = d@;
                    let mut detail = d;
                    detail.append(". Response: ");
                    detail.append(text);
                    proof {
                        lemma_contains_suffix(member_part + ". Response: "@, text@);
                        assert(detail@ =~= (member_part + ". Response: "@) + text@);
                        lemma_contains_concat_left(
                            member_part,
                            ". Response: "@ + text@,
                            failing_member(json_model(v)),
                        );
                        assert(detail@ =~= member_part + (". Response: "@ + text@));
                    }
                    Result::Err(IdeaError::Decode(detail))
                },
                _ => {
                    proof {
                        assert(false);
                    }
                    Result::Err(e)
                },
            },
        },
        Result::Err(e) => {
            let diagnostic = json_error_text(&e);
            let mut detail = String::from_str("failed to parse idea JSON: ");
            detail.append(diagnostic.as_str());
            detail.append(". Response: ");
            detail.append(text);
            proof {
                lemma_contains_suffix(
                    ("failed to parse idea JSON: "@ + diagnostic@) + ". Response: "@,
                    text@,
                );
                assert(detail@ =~= (("failed to parse idea JSON: "@ + diagnostic@)
                    + ". Response: "@) + text@);
            }
            Result::Err(IdeaError::Decode(detail))
        },
    }
}

} // verus!
