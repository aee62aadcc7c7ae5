use vstd::prelude::*;
use vstd::string::StringExecFns;
use crate::errors::{AiServiceError, RssSummaryError};
use crate::gemini_response::{CandidateView, GeminiResponse};
use crate::json::{
    array_of, json_of, map_first, map_get, map_len, null_of, obj_entries, obj_lookup, object_of,
    parse_json, str_of, u64_of, value_as_array, value_as_object, value_as_str, value_as_u64,
    value_is_null,
};
use crate::summary_model::{
    Article, ArticleView, ArticlesData, ArticlesDataView, ArticlesResponse, ArticlesResponseView,
    Category, CategoryDetails, CategoryDetailsView, CategoryView,
};
use crate::text::{strip_code_fences, strip_fences_spec};

verus! {

/// The article a JSON value stands for: an object whose `title`,
/// `description` and `link` entries are all present and are strings.
pub open spec fn article_of_value(v: serde_json::Value) -> Option<ArticleView> {
    match object_of(v) {
        None => None,
        Some(m) => {
            let es = obj_entries(m);
            match (obj_lookup(es, "title"@), obj_lookup(es, "description"@), obj_lookup(es, "link"@)) {
                (Some(tv), Some(dv), Some(lv)) => match (str_of(tv), str_of(dv), str_of(lv)) {
                    (Some(t), Some(d), Some(l)) => Some(
                        ArticleView { title: t, description: d, link: l },
                    ),
                    _ => None,
                },
                _ => None,
            }
        },
    }
}

/// The article list a JSON array stands for, if every element is an article.
pub open spec fn articles_of_values(vs: Seq<serde_json::Value>) -> Option<Seq<ArticleView>> {
    if forall|i: int| 0 <= i < vs.len() ==> (#[trigger] article_of_value(vs[i])) is Some {
        Some(Seq::new(vs.len(), |i: int| article_of_value(vs[i])->Some_0))
    } else {
        None
    }
}

/// Whether an object's optional `category_count` entry is acceptable:
/// absent, null, or a non-negative integer no larger than the machine can
/// index with.
pub open spec fn count_field_ok(es: Seq<(Seq<char>, serde_json::Value)>) -> bool {
    match obj_lookup(es, "category_count"@) {
        None => true,
        Some(cv) => null_of(cv) || (u64_of(cv) is Some && u64_of(cv)->Some_0 <= usize::MAX),
    }
}

/// The value of an acceptable `category_count` entry; absent and null both
/// stand for no count.
pub open spec fn count_field_value(es: Seq<(Seq<char>, serde_json::Value)>) -> Option<usize> {
    match obj_lookup(es, "category_count"@) {
        None => None,
        Some(cv) => if null_of(cv) {
            None
        } else {
            Some(u64_of(cv)->Some_0 as usize)
        },
    }
}

/// The category details a JSON value stands for: an object whose `articles`
/// entry is an array of articles, with an acceptable optional count.
pub open spec fn details_of_value(v: serde_json::Value) -> Option<CategoryDetailsView> {
    match object_of(v) {
        None => None,
        Some(m) => {
            let es = obj_entries(m);
            match obj_lookup(es, "articles"@) {
                None => None,
                Some(av) => match array_of(av) {
                    None => None,
                    Some(vs) => if count_field_ok(es) {
                        match articles_of_values(vs) {
                            None => None,
                            Some(arts) => Some(
                                CategoryDetailsView {
                                    category_count: count_field_value(es),
                                    articles: arts,
                                },
                            ),
                        }
                    } else {
                        None
                    },
                },
            }
        },
    }
}

/// The category a JSON value stands for: an object with exactly one entry,
/// mapping the category's name to its details. Objects with zero or several
/// entries are rejected rather than sampled from.
pub open spec fn category_of_value(v: serde_json::Value) -> Option<CategoryView> {
    match object_of(v) {
        None => None,
        Some(m) => {
            let es = obj_entries(m);
            if es.len() == 1 {
                match details_of_value(es[0].1) {
                    None => None,
                    Some(d) => Some(CategoryView { name: es[0].0, details: d }),
                }
            } else {
                None
            }
        },
    }
}

/// The category list a JSON array stands for, if every element is a category.
pub open spec fn categories_of_values(vs: Seq<serde_json::Value>) -> Option<Seq<CategoryView>> {
    if forall|i: int| 0 <= i < vs.len() ==> (#[trigger] category_of_value(vs[i])) is Some {
        Some(Seq::new(vs.len(), |i: int| category_of_value(vs[i])->Some_0))
    } else {
        None
    }
}

/// The summary payload a JSON value stands for: an object whose `total`
/// entry is a representable non-negative integer and whose `summary` entry
/// is an array of categories.
pub open spec fn data_of_value(v: serde_json::Value) -> Option<ArticlesDataView> {
    match object_of(v) {
        None => None,
        Some(m) => {
            let es = obj_entries(m);
            match (obj_lookup(es, "total"@), obj_lookup(es, "summary"@)) {
                (Some(tv), Some(sv)) => match (u64_of(tv), array_of(sv)) {
                    (Some(t), Some(cvs)) => if t <= usize::MAX {
                        match categories_of_values(cvs) {
                            None => None,
                            Some(cats) => Some(
                                ArticlesDataView { total: t as usize, summary: cats },
                            ),
                        }
                    } else {
                        None
                    },
                    _ => None,
                },
                _ => None,
            }
        },
    }
}

/// The structured summary a JSON value stands for: an object whose `message`
/// entry is a string and whose `data` entry is a summary payload.
pub open spec fn summary_of_value(v: serde_json::Value) -> Option<ArticlesResponseView> {
    match object_of(v) {
        None => None,
        Some(m) => {
            let es = obj_entries(m);
            match (obj_lookup(es, "message"@), obj_lookup(es, "data"@)) {
                (Some(mv), Some(dv)) => match (str_of(mv), data_of_value(dv)) {
                    (Some(msg), Some(d)) => Some(ArticlesResponseView { message: msg, data: d }),
                    _ => None,
                },
                _ => None,
            }
        },
    }
}

/// The structured summary a text stands for, if it is a well-formed JSON
/// document of the summary shape.
pub open spec fn summary_parse(s: Seq<char>) -> Option<ArticlesResponseView> {
    match json_of(s) {
        None => None,
        Some(v) => summary_of_value(v),
    }
}

/// Reads one article out of a JSON value.
fn article_from_value(v: &serde_json::Value) -> (r: Option<Article>)
    ensures
        r is Some <==> article_of_value(*v) is Some,
        r matches Some(a) ==> article_of_value(*v) == Some(a@),
{
    let m = match value_as_object(v) {
        Some(m) => m,
        None => return None,
    };
    let tv = match map_get(m, "title") {
        Some(x) => x,
        None => return None,
    };
    let dv = match map_get(m, "description") {
        Some(x) => x,
        None => return None,
    };
    let lv = match map_get(m, "link") {
        Some(x) => x,
        None => return None,
    };
    let t = match value_as_str(tv) {
        Some(x) => x,
        None => return None,
    };
    let d = match value_as_str(dv) {
        Some(x) => x,
        None => return None,
    };
    let l = match value_as_str(lv) {
        Some(x) => x,
        None => return None,
    };
    Some(Article { title: t.to_owned(), description: d.to_owned(), link: l.to_owned() })
}

/// Reads an article list out of a JSON array's elements.
fn articles_from_values(vs: &Vec<serde_json::Value>) -> (r: Option<Vec<Article>>)
    ensures
        r is Some <==> articles_of_values(vs@) is Some,
        r matches Some(a) ==> articles_of_values(vs@) == Some(a@.map_values(|x: Article| x@)),
{
    let mut out: Vec<Article> = Vec::new();
    for i in 0..vs.len()
        invariant
            out@.len() == i,
            forall|k: int| 0 <= k < i ==> (#[trigger] article_of_value(vs@[k])) is Some,
            forall|k: int| 0 <= k < i ==> article_of_value(vs@[k]) == Some(#[trigger] out@[k]@),
    {
        match article_from_value(&vs[i]) {
            Some(a) => out.push(a),
            None => {
                proof {
                    assert(article_of_value(vs@[i as int]) is None);
                }
                return None;
            },
        }
    }
    proof {
        assert(out@.map_values(|x: Article| x@) =~= Seq::new(
            vs@.len(),
            |i: int| article_of_value(vs@[i])->Some_0,
        ));
    }
    Some(out)
}

/// Reads one category's details out of a JSON value.
fn details_from_value(v: &serde_json::Value) -> (r: Option<CategoryDetails>)
    ensures
        r is Some <==> details_of_value(*v) is Some,
        r matches Some(d) ==> details_of_value(*v) == Some(d@),
{
    let m = match value_as_object(v) {
        Some(m) => m,
        None => return None,
    };
    let av = match map_get(m, "articles") {
        Some(x) => x,
        None => return None,
    };
    let arr = match value_as_array(av) {
        Some(x) => x,
        None => return None,
    };
    let count: Option<usize> = match map_get(m, "category_count") {
        None => None,
        Some(cv) => {
            if value_is_null(cv) {
                None
            } else {
                match value_as_u64(cv) {
                    Some(n) => {
                        if n <= usize::MAX as u64 {
                            Some(n as usize)
                        } else {
                            return None;
                        }
                    },
                    None => return None,
                }
            }
        },
    };
    let articles = match articles_from_values(arr) {
        Some(a) => a,
        None => return None,
    };
    Some(CategoryDetails { category_count: count, articles })
}

/// Reads one category out of a JSON value, rejecting objects whose entry
/// count is not exactly one.
fn category_from_value(v: &serde_json::Value) -> (r: Option<Category>)
    ensures
        r is Some <==> category_of_value(*v) is Some,
        r matches Some(c) ==> category_of_value(*v) == Some(c@),
{
    let m = match value_as_object(v) {
        Some(m) => m,
        None => return None,
    };
    if map_len(m) != 1 {
        return None;
    }
    let (name, dv) = match map_first(m) {
        Some(p) => p,
        None => return None,
    };
    let details = match details_from_value(dv) {
        Some(d) => d,
        None => return None,
    };
    Some(Category { name: name.clone(), details })
}

/// Reads a category list out of a JSON array's elements.
fn categories_from_values(vs: &Vec<serde_json::Value>) -> (r: Option<Vec<Category>>)
    ensures
        r is Some <==> categories_of_values(vs@) is Some,
        r matches Some(c) ==> categories_of_values(vs@) == Some(c@.map_values(|x: Category| x@)),
{
    let mut out: Vec<Category> = Vec::new();
    for i in 0..vs.len()
        invariant
            out@.len() == i,
            forall|k: int| 0 <= k < i ==> (#[trigger] category_of_value(vs@[k])) is Some,
            forall|k: int| 0 <= k < i ==> category_of_value(vs@[k]) == Some(#[trigger] out@[k]@),
    {
        match category_from_value(&vs[i]) {
            Some(c) => out.push(c),
            None => {
                proof {
                    assert(category_of_value(vs@[i as int]) is None);
                }
                return None;
            },
        }
    }
    proof {
        assert(out@.map_values(|x: Category| x@) =~= Seq::new(
            vs@.len(),
            |i: int| category_of_value(vs@[i])->Some_0,
        ));
    }
    Some(out)
}

/// Reads a summary payload out of a JSON value.
fn data_from_value(v: &serde_json::Value) -> (r: Option<ArticlesData>)
    ensures
        r is Some <==> data_of_value(*v) is Some,
        r matches Some(d) ==> data_of_value(*v) == Some(d@),
{
    let m = match value_as_object(v) {
        Some(m) => m,
        None => return None,
    };
    let tv = match map_get(m, "total") {
        Some(x) => x,
        None => return None,
    };
    let sv = match map_get(m, "summary") {
        Some(x) => x,
        None => return None,
    };
    let t = match value_as_u64(tv) {
        Some(x) => x,
        None => return None,
    };
    let arr = match value_as_array(sv) {
        Some(x) => x,
        None => return None,
    };
    if t > usize::MAX as u64 {
        return None;
    }
    let summary = match categories_from_values(arr) {
        Some(c) => c,
        None => return None,
    };
    Some(ArticlesData { total: t as usize, summary })
}

/// Reads a structured summary out of a JSON value.
fn response_from_value(v: &serde_json::Value) -> (r: Option<ArticlesResponse>)
    ensures
        r is Some <==> summary_of_value(*v) is Some,
        r matches Some(s) ==> summary_of_value(*v) == Some(s@),
{
    let m = match value_as_object(v) {
        Some(m) => m,
        None => return None,
    };
    let mv = match map_get(m, "message") {
        Some(x) => x,
        None => return None,
    };
    let dv = match map_get(m, "data") {
        Some(x) => x,
        None => return None,
    };
    let msg = match value_as_str(mv) {
        Some(x) => x,
        None => return None,
    };
    let data = match data_from_value(dv) {
        Some(d) => d,
        None => return None,
    };
    Some(ArticlesResponse { message: msg.to_owned(), data })
}

/// Strips code fences from one text block and tries to read it as a
/// structured summary.
pub fn try_parse_summary(text: &str) -> (r: Option<ArticlesResponse>)
    ensures
        r is Some <==> summary_parse(strip_fences_spec(text@)) is Some,
        r matches Some(s) ==> summary_parse(strip_fences_spec(text@)) == Some(s@),
{
    let cleaned = strip_code_fences(text);
    match parse_json(cleaned.as_str()) {
        Err(_) => None,
        Ok(v) => response_from_value(&v),
    }
}

} // verus!

verus! {

/// The texts of one candidate's parts, in their order.
pub open spec fn candidate_texts(c: CandidateView) -> Seq<Seq<char>> {
    c.content.parts.map_values(|p: crate::gemini_response::PartView| p.text)
}

/// Every part text of a backend answer, flattened in (candidate, part) order.
pub open spec fn all_texts(cands: Seq<CandidateView>) -> Seq<Seq<char>>
    decreases cands.len(),
{
    if cands.len() == 0 {
        Seq::empty()
    } else {
        all_texts(cands.drop_last()) + candidate_texts(cands.last())
    }
}

/// The first text block, in order, that parses as a structured summary once
/// its code fences are stripped; later blocks are never consulted.
pub open spec fn first_parsed(texts: Seq<Seq<char>>) -> Option<ArticlesResponseView>
    decreases texts.len(),
{
    if texts.len() == 0 {
        None
    } else {
        match summary_parse(strip_fences_spec(texts[0])) {
            Some(s) => Some(s),
            None => first_parsed(texts.skip(1)),
        }
    }
}

/// A scan fails exactly when no block parses: the failure of the whole scan
/// and the failure of every single block are the same thing.
pub proof fn lemma_first_parsed_none(texts: Seq<Seq<char>>)
    ensures
        first_parsed(texts) is None <==> (forall|i: int|
            0 <= i < texts.len() ==> (#[trigger] summary_parse(strip_fences_spec(texts[i])))
                is None),
    decreases texts.len(),
{
    if texts.len() > 0 {
        lemma_first_parsed_none(texts.skip(1));
        if summary_parse(strip_fences_spec(texts[0])) is Some {
        } else {
            if forall|i: int|
                0 <= i < texts.skip(1).len() ==> (#[trigger] summary_parse(
                    strip_fences_spec(texts.skip(1)[i]),
                )) is None {
                assert forall|i: int|
                    0 <= i < texts.len() implies (#[trigger] summary_parse(
                    strip_fences_spec(texts[i]),
                )) is None by {
                    if i > 0 {
                        assert(texts.skip(1)[i - 1] == texts[i]);
                        assert(summary_parse(strip_fences_spec(texts.skip(1)[i - 1])) is None);
                    }
                }
            } else {
                let w = choose|i: int|
                    0 <= i < texts.skip(1).len() && !((#[trigger] summary_parse(
                        strip_fences_spec(texts.skip(1)[i]),
                    )) is None);
                assert(texts.skip(1)[w] == texts[w + 1]);
                assert(!(summary_parse(strip_fences_spec(texts[w + 1])) is None));
            }
        }
    }
}

/// The first successful parse wins: if block `i` parses and every earlier
/// block does not, the scan returns block `i`'s parse, and later blocks are
/// never consulted, whether or not they would parse.
pub proof fn lemma_first_parsed_first_wins(texts: Seq<Seq<char>>, i: int)
    requires
        0 <= i < texts.len(),
        summary_parse(strip_fences_spec(texts[i])) is Some,
        forall|j: int|
            0 <= j < i ==> (#[trigger] summary_parse(strip_fences_spec(texts[j]))) is None,
    ensures
        first_parsed(texts) == summary_parse(strip_fences_spec(texts[i])),
    decreases i,
{
    if i == 0 {
    } else {
        assert(summary_parse(strip_fences_spec(texts[0])) is None);
        assert forall|j: int|
            0 <= j < i - 1 implies (#[trigger] summary_parse(
            strip_fences_spec(texts.skip(1)[j]),
        )) is None by {
            assert(texts.skip(1)[j] == texts[j + 1]);
        }
        assert(texts.skip(1)[i - 1] == texts[i]);
        lemma_first_parsed_first_wins(texts.skip(1), i - 1);
    }
}

/// Scans text blocks in order and returns the first that parses as a
/// structured summary, ignoring all later blocks.
pub fn extract_first_parsable(texts: &Vec<String>) -> (r: Option<ArticlesResponse>)
    ensures
        r is Some <==> first_parsed(texts@.map_values(|t: String| t@)) is Some,
        r matches Some(s) ==> first_parsed(texts@.map_values(|t: String| t@)) == Some(s@),
{
    let ghost tvs = texts@.map_values(|t: String| t@);
    proof {
        assert(tvs.skip(0) =~= tvs);
    }
    for i in 0..texts.len()
        invariant
            tvs == texts@.map_values(|t: String| t@),
            first_parsed(tvs) == first_parsed(tvs.skip(i as int)),
    {
        let parsed = try_parse_summary(texts[i].as_str());
        proof {
            assert(tvs.skip(i as int).skip(1) =~= tvs.skip(i + 1));
        }
        match parsed {
            Some(s) => {
                return Some(s);
            },
            None => {},
        }
    }
    proof {
        assert(tvs.skip(texts@.len() as int).len() == 0);
    }
    None
}

/// Collects every part text of a backend answer in (candidate, part) order.
fn collect_texts(response: &GeminiResponse) -> (r: Vec<String>)
    ensures
        r@.map_values(|t: String| t@) == all_texts(response@.candidates),
{
    let mut out: Vec<String> = Vec::new();
    let cands = &response.candidates;
    let ghost cvs = response@.candidates;
    for i in 0..cands.len()
        invariant
            cvs == cands@.map_values(|c: crate::gemini_response::Candidate| c@),
            out@.map_values(|t: String| t@) == all_texts(cvs.take(i as int)),
    {
        let parts = &cands[i].content.parts;
        let ghost pvs = cvs[i as int].content.parts;
        for j in 0..parts.len()
            invariant
                i < cvs.len(),
                pvs == cvs[i as int].content.parts,
                pvs == parts@.map_values(|p: crate::gemini_response::Part| p@),
                out@.map_values(|t: String| t@) == all_texts(cvs.take(i as int))
                    + candidate_texts(cvs[i as int]).take(j as int),
        {
            out.push(parts[j].text.clone());
            proof {
                let a = all_texts(cvs.take(i as int));
                let b = candidate_texts(cvs[i as int]);
                assert(b[j as int] == pvs[j as int].text);
                assert(pvs[j as int].text == parts@[j as int]@.text);
                assert(b.take(j + 1) =~= b.take(j as int).push(b[j as int]));
                assert(a + b.take(j + 1) =~= (a + b.take(j as int)).push(b[j as int]));
                assert(out@.map_values(|t: String| t@) =~= (a + b.take(j as int)).push(
                    b[j as int],
                ));
            }
        }
        proof {
            assert(cvs.take(i + 1).drop_last() =~= cvs.take(i as int));
            assert(candidate_texts(cvs[i as int]).take(pvs.len() as int) =~= candidate_texts(
                cvs[i as int],
            ));
            assert(cvs.take(i + 1).last() == cvs[i as int]);
            assert(out@.map_values(|t: String| t@) =~= all_texts(cvs.take(i + 1)));
        }
    }
    proof {
        assert(cvs.take(cvs.len() as int) =~= cvs);
        assert(out@.map_values(|t: String| t@) + candidate_texts(cvs[cvs.len() - 1]).take(0)
            =~= out@.map_values(|t: String| t@)) by {
            if cvs.len() > 0 {
            }
        }
    }
    out
}

/// Scans a backend answer's candidates in order, and each candidate's parts
/// in order, and returns the first part that parses as a structured summary
/// once its code fences are stripped; fails exactly when no part parses.
pub fn extract_summary_from_response(response: &GeminiResponse) -> (r: Result<
    ArticlesResponse,
    RssSummaryError,
>)
    ensures
        r is Ok <==> first_parsed(all_texts(response@.candidates)) is Some,
        r matches Ok(s) ==> first_parsed(all_texts(response@.candidates)) == Some(s@),
        r matches Err(e) ==> e matches RssSummaryError::SummaryError(m) && m@
            == "Failed to extract summary from response"@,
{
    let texts = collect_texts(response);
    match extract_first_parsable(&texts) {
        Some(s) => Ok(s),
        None => Err(
            RssSummaryError::SummaryError(
                String::from_str("Failed to extract summary from response"),
            ),
        ),
    }
}

/// The first non-empty text block, in order, if any.
pub open spec fn first_nonempty(texts: Seq<Seq<char>>) -> Option<Seq<char>>
    decreases texts.len(),
{
    if texts.len() == 0 {
        None
    } else if texts[0].len() > 0 {
        Some(texts[0])
    } else {
        first_nonempty(texts.skip(1))
    }
}

/// Scans a backend answer in (candidate, part) order and returns the first
/// non-empty part text; fails exactly when every part is empty.
pub fn extract_text_from_response(response: &GeminiResponse) -> (r: Result<String, AiServiceError>)
    ensures
        r is Ok <==> first_nonempty(all_texts(response@.candidates)) is Some,
        r matches Ok(s) ==> first_nonempty(all_texts(response@.candidates)) == Some(s@),
        r matches Err(e) ==> e matches AiServiceError::ResponseError(m) && m@
            == "Failed to extract text from response"@,
{
    let texts = collect_texts(response);
    let ghost tvs = texts@.map_values(|t: String| t@);
    proof {
        assert(tvs.skip(0) =~= tvs);
    }
    for i in 0..texts.len()
        invariant
            tvs == texts@.map_values(|t: String| t@),
            tvs == all_texts(response@.candidates),
            first_nonempty(tvs) == first_nonempty(tvs.skip(i as int)),
    {
        proof {
            assert(tvs.skip(i as int).skip(1) =~= tvs.skip(i + 1));
        }
        if !texts[i].as_str().is_empty() {
            let t = texts[i].clone();
            proof {
                assert(tvs[i as int] == texts@[i as int]@);
                assert(tvs.skip(i as int)[0] == tvs[i as int]);
                assert(first_nonempty(tvs.skip(i as int)) == Some(tvs[i as int]));
            }
            return Ok(t);
        }
    }
    proof {
        assert(tvs.skip(texts@.len() as int).len() == 0);
    }
    Err(AiServiceError::ResponseError(String::from_str("Failed to extract text from response")))
}

/// Strips code fences from backend text and parses what remains as JSON;
/// fails exactly when the remaining text is not a well-formed document.
pub fn parse_json_response(text: &str) -> (r: Result<serde_json::Value, AiServiceError>)
    ensures
        r is Ok <==> json_of(strip_fences_spec(text@)) is Some,
        r matches Ok(v) ==> json_of(strip_fences_spec(text@)) == Some(v),
        r matches Err(e) ==> e is ParseError,
{
    let cleaned = strip_code_fences(text);
    match parse_json(cleaned.as_str()) {
        Ok(v) => Ok(v),
        Err(e) => Err(
            AiServiceError::ParseError(
                crate::errors::prefixed("Failed to parse JSON response: ", e.as_str()),
            ),
        ),
    }
}

} // verus!
