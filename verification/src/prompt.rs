use vstd::prelude::*;
use vstd::string::*;

use crate::text::contains_seq;
use crate::text::occurs_at;
use crate::text::str_eq;

verus! {

/// The sentinel category meaning "no domain filter".
pub open spec fn all_categories() -> Seq<char> {
    "All Categories"@
}

/// The filter clause rendered for the sentinel category.
pub open spec fn any_domain_clause() -> Seq<char> {
    "any domain or industry"@
}

/// The filter clause rendered for a named category.
pub open spec fn industry_clause(c: Seq<char>) -> Seq<char> {
    "the "@ + c + " industry"@
}

/// The filter clause substituted into the prompt template.
pub open spec fn category_clause(c: Seq<char>) -> Seq<char> {
    if c == all_categories() {
        any_domain_clause()
    } else {
        industry_clause(c)
    }
}

/// The fixed text of the template before the filter clause.
pub open spec fn prompt_prefix() -> Seq<char> {
    "Generate a detailed startup or application idea for "@
}

/// The fixed text of the template after the filter clause.
pub open spec fn prompt_suffix() -> Seq<char> {
    ".\n\nPlease provide the response in the following JSON format:\n{\n  \"concept\": \"A clear, concise description of the idea (2-3 sentences)\",\n  \"platform\": \"Recommended platform (Web, Mobile, Desktop, or Multi-platform)\",\n  \"target_audience\": \"Detailed target audience description\",\n  \"key_features\": [\"feature 1\", \"feature 2\", \"feature 3\", \"feature 4\", \"feature 5\", \"feature 6\", \"feature 7\", \"feature 8\"],\n  \"monetization\": \"Monetization strategy description\",\n  \"value_proposition\": \"Clear value proposition (1-2 sentences)\"\n}\n\nMake the idea innovative, practical, and market-ready. Include 5-8 key features."@
}

/// The full instruction string sent to the model for a category.
pub open spec fn prompt_spec(c: Seq<char>) -> Seq<char> {
    prompt_prefix() + category_clause(c) + prompt_suffix()
}

/// Render the instruction string for a category: the fixed template with the
/// filter clause interpolated. Pure; no side effects.
pub fn build_prompt(category: &str) -> (r: String)
    ensures
        r@ == prompt_spec(category@),
{
    let mut p = String::from_str("Generate a detailed startup or application idea for ");
    if str_eq(category, "All Categories") {
        p.append("any domain or industry");
    } else {
        p.append("the ");
        p.append(category);
        p.append(" industry");
    }
    p.append(
        ".\n\nPlease provide the response in the following JSON format:\n{\n  \"concept\": \"A clear, concise description of the idea (2-3 sentences)\",\n  \"platform\": \"Recommended platform (Web, Mobile, Desktop, or Multi-platform)\",\n  \"target_audience\": \"Detailed target audience description\",\n  \"key_features\": [\"feature 1\", \"feature 2\", \"feature 3\", \"feature 4\", \"feature 5\", \"feature 6\", \"feature 7\", \"feature 8\"],\n  \"monetization\": \"Monetization strategy description\",\n  \"value_proposition\": \"Clear value proposition (1-2 sentences)\"\n}\n\nMake the idea innovative, practical, and market-ready. Include 5-8 key features.",
    );
    proof {
        assert(p@ =~= prompt_spec(category@));
    }
    p
}

/// For a category other than the sentinel, the rendered prompt contains the
/// clause naming that category's industry as a literal substring.
pub proof fn lemma_prompt_names_industry(c: Seq<char>)
    requires
        c != all_categories(),
    ensures
        contains_seq(prompt_spec(c), industry_clause(c)),
{
    let s = prompt_spec(c);
    let p = industry_clause(c);
    let i = prompt_prefix().len() as int;
    assert forall|k: int| 0 <= k < p.len() implies s[i + k] == p[k] by {
        assert((prompt_prefix() + category_clause(c))[i + k] == p[k]);
    }
    assert(occurs_at(s, p, i));
}

/// For the sentinel category, the rendered prompt never names a sentinel
/// industry: the clause that would read "the All Categories industry"
/// occurs nowhere in it. The prompt's only capital 'C' is followed by 'l',
/// while that clause carries 'C' followed by 'a'.
#[verifier::rlimit(100)]
pub proof fn lemma_prompt_sentinel_never_industry()
    ensures
        !contains_seq(prompt_spec(all_categories()), industry_clause(all_categories())),
{
    reveal_strlit("Generate a detailed startup or application idea for ");
    reveal_strlit("any domain or industry");
    reveal_strlit("the ");
    reveal_strlit("All Categories");
    reveal_strlit(" industry");
    reveal_strlit(
        ".\n\nPlease provide the response in the following JSON format:\n{\n  \"concept\": \"A clear, concise description of the idea (2-3 sentences)\",\n  \"platform\": \"Recommended platform (Web, Mobile, Desktop, or Multi-platform)\",\n  \"target_audience\": \"Detailed target audience description\",\n  \"key_features\": [\"feature 1\", \"feature 2\", \"feature 3\", \"feature 4\", \"feature 5\", \"feature 6\", \"feature 7\", \"feature 8\"],\n  \"monetization\": \"Monetization strategy description\",\n  \"value_proposition\": \"Clear value proposition (1-2 sentences)\"\n}\n\nMake the idea innovative, practical, and market-ready. Include 5-8 key features.",
    );
    let pre = prompt_prefix();
    let cl = any_domain_clause();
    let suf = prompt_suffix();
    let s = prompt_spec(all_categories());
    let p = industry_clause(all_categories());
    assert(pre.len() == 52);
    assert(cl.len() == 22);
    assert(suf.len() == 604);
    assert(p.len() == 27);
    assert(p[8] == 'C');
    assert(p[9] == 'a');
    assert forall|j: int| 0 <= j < 52 implies pre[j] != 'C' by {}
    assert forall|j: int| 0 <= j < 22 implies cl[j] != 'C' by {}
    assert forall|j: int| 0 <= j < 603 && #[trigger] suf[j] == 'C' implies suf[j + 1] == 'l' by {}
    assert forall|i: int| !occurs_at(s, p, i) by {
        if occurs_at(s, p, i) {
            assert(s[i + 8] == p[8]);
            assert(s[i + 9] == p[9]);
            let j = i + 8;
            if j < 52 {
                assert(s[j] == pre[j]);
            } else if j < 74 {
                assert(s[j] == cl[j - 52]);
            } else {
                assert(s[j] == suf[j - 74]);
                assert(s[j + 1] == suf[j - 73]);
                assert(suf[j - 73] == 'l');
            }
            assert(false);
        }
    }
}

/// For the sentinel category, the rendered prompt contains the clause that
/// names no industry as a literal substring.
pub proof fn lemma_prompt_any_domain()
    ensures
        contains_seq(prompt_spec(all_categories()), any_domain_clause()),
{
    let s = prompt_spec(all_categories());
    let p = any_domain_clause();
    let i = prompt_prefix().len() as int;
    assert forall|k: int| 0 <= k < p.len() implies s[i + k] == p[k] by {
        assert((prompt_prefix() + category_clause(all_categories()))[i + k] == p[k]);
    }
    assert(occurs_at(s, p, i));
}

} // verus!
