//! AI model listing and the handling of model servers' answers.

use vstd::prelude::*;
use crate::commands::profile::{key_slot, stable_sorted, text_less};
use crate::text::{chars_of, contains_seq, contains_str, eq_str, opt_view, push_str, string_of};
use crate::scraper::html_extractor::{find_member, json_parse_of, member, read_json, JsonValue};

verus! {

broadcast use vstd::string::group_string_axioms;

/// A model offered by an AI provider.
#[derive(Debug, Clone)]
pub struct ModelInfo {
    pub id: String,
    pub name: String,
}

/// The name shown for a model: its display name, else its name, else its
/// id.
pub open spec fn shown_model_name(id: Seq<char>, display_name: Option<Seq<char>>, name: Option<Seq<char>>) -> Seq<
    char,
> {
    match display_name {
        Some(d) => d,
        None => match name {
            Some(n) => n,
            None => id,
        },
    }
}

/// A listed model as (id, shown name).
pub open spec fn listed_model(e: (String, Option<String>, Option<String>)) -> (Seq<char>, Seq<char>) {
    (e.0@, shown_model_name(e.0@, opt_view(e.1), opt_view(e.2)))
}

/// A model as (id, name).
pub open spec fn model_pair(m: ModelInfo) -> (Seq<char>, Seq<char>) {
    (m.id@, m.name@)
}

/// The models of a provider's listing, each entry (id, display name,
/// name): named as `shown_model_name` says, sorted by id (stably).
pub fn model_list(entries: Vec<(String, Option<String>, Option<String>)>) -> (r: Vec<ModelInfo>)
    ensures
        r@.map_values(|m: ModelInfo| model_pair(m)) == stable_sorted(
            entries@.map_values(|e: (String, Option<String>, Option<String>)| listed_model(e)),
            |v: (Seq<char>, Seq<char>)| v.0,
        ),
{
    let ghost u = entries@.map_values(|e: (String, Option<String>, Option<String>)| listed_model(e));
    let ghost keyf = |v: (Seq<char>, Seq<char>)| v.0;
    let mut sorted: Vec<ModelInfo> = Vec::new();
    let mut keys: Vec<Vec<char>> = Vec::new();
    let mut j: usize = 0;
    while j < entries.len()
        invariant
            j <= entries.len(),
            u == entries@.map_values(|e: (String, Option<String>, Option<String>)| listed_model(e)),
            sorted@.map_values(|m: ModelInfo| model_pair(m)) == stable_sorted(u.take(j as int), keyf),
            keys@.map_values(|k: Vec<char>| k@) == sorted@.map_values(|m: ModelInfo| model_pair(m)).map_values(keyf),
            keyf == (|v: (Seq<char>, Seq<char>)| v.0),
        decreases entries.len() - j,
    {
        proof {
            assert(u.take(j + 1).drop_last() == u.take(j as int));
            assert(u.take(j + 1).last() == listed_model(entries@[j as int]));
        }
        let e = &entries[j];
        let name = match &e.1 {
            Some(d) => d.clone(),
            None => match &e.2 {
                Some(n) => n.clone(),
                None => e.0.clone(),
            },
        };
        let m = ModelInfo { id: e.0.clone(), name };
        let k = chars_of(m.id.as_str());
        let ghost sv = sorted@.map_values(|m: ModelInfo| model_pair(m));
        let ghost kv = keys@.map_values(|k: Vec<char>| k@);
        let mut p: usize = sorted.len();
        assert(kv.take(p as int) == kv);
        while p > 0 && text_less(&k, &keys[p - 1])
            invariant
                p <= keys.len(),
                keys.len() == sorted.len(),
                kv == keys@.map_values(|k: Vec<char>| k@),
                key_slot(kv, k@) == key_slot(kv.take(p as int), k@),
            decreases p,
        {
            proof {
                assert(kv.take(p as int).last() == kv[p - 1]);
                assert(kv.take(p as int).drop_last() == kv.take(p - 1));
            }
            p = p - 1;
        }
        proof {
            if p > 0 {
                assert(kv.take(p as int).last() == kv[p - 1]);
            }
            assert(key_slot(kv.take(p as int), k@) == p);
            assert(k@ == keyf(model_pair(m)));
            assert(kv == sv.map_values(keyf));
        }
        let ghost kk = k@;
        let ghost mm = model_pair(m);
        sorted.insert(p, m);
        keys.insert(p, k);
        proof {
            assert(sorted@.map_values(|m: ModelInfo| model_pair(m)) =~= sv.insert(p as int, mm));
            assert(keys@.map_values(|k: Vec<char>| k@) =~= kv.insert(p as int, kk));
            assert(sv.insert(p as int, mm).map_values(keyf) =~= kv.insert(p as int, kk));
        }
        j = j + 1;
    }
    assert(u.take(entries.len() as int) == u);
    sorted
}

/// A local model server refused the requested response format: a 400
/// answer whose body names `response_format`, `json_schema` or
/// `json_object`. The request is then sent again without the format.
pub open spec fn format_refused_spec(status: u16, error_body: Seq<char>) -> bool {
    status == 400 && (contains_seq(error_body, "response_format"@) || contains_seq(error_body, "json_schema"@)
        || contains_seq(error_body, "json_object"@))
}

/// Whether a local server's answer refuses the response format (see
/// `format_refused_spec`).
pub fn format_refused(status: u16, error_body: &str) -> (b: bool)
    ensures
        b == format_refused_spec(status, error_body@),
{
    if status != 400 {
        return false;
    }
    let v = chars_of(error_body);
    contains_str(&v, "response_format") || contains_str(&v, "json_schema") || contains_str(&v, "json_object")
}

// ---------------------------------------------------------------------------
// Model servers' replies
// ---------------------------------------------------------------------------

/// The first item of a value when it is a non-empty array.
pub open spec fn first_item(v: Option<JsonValue>) -> Option<JsonValue> {
    match v {
        Some(JsonValue::Array(a)) => if a@.len() > 0 {
            Some(a@[0])
        } else {
            None
        },
        _ => None,
    }
}

/// The member `k` of a value, when there is a value.
pub open spec fn member_of(v: Option<JsonValue>, k: Seq<char>) -> Option<JsonValue> {
    match v {
        Some(x) => member(x, k),
        None => None,
    }
}

/// The answer text in a provider's parsed reply: `content[0].text` for
/// Anthropic, `choices[0].message.content` for the others, when it is a
/// string.
pub open spec fn provider_answer_of(provider: Seq<char>, v: JsonValue) -> Option<Seq<char>> {
    let t = if provider == "anthropic"@ {
        member_of(first_item(member(v, "content"@)), "text"@)
    } else {
        member_of(member_of(first_item(member(v, "choices"@)), "message"@), "content"@)
    };
    match t {
        Some(JsonValue::Str(s)) => Some(s@),
        _ => None,
    }
}

/// The name a provider goes by in refusals of its replies.
pub open spec fn provider_display(provider: Seq<char>) -> Seq<char> {
    if provider == "anthropic"@ {
        "Anthropic"@
    } else if provider == "openai"@ {
        "OpenAI"@
    } else if provider == "kimi"@ {
        "Kimi"@
    } else if provider == "openrouter"@ {
        "OpenRouter"@
    } else if provider == "local"@ {
        "local server"@
    } else {
        provider
    }
}

/// The refusal of a reply that is not JSON (`vision` for a reply to an
/// image question).
pub open spec fn reply_parse_message(provider: Seq<char>, vision: bool, e: Seq<char>) -> Seq<char> {
    "Failed to parse "@ + provider_display(provider) + (if vision || provider == "local"@ {
        " response: "@
    } else {
        " API response wrapper: "@
    }) + e
}

/// The refusal of a reply without an answer text.
pub open spec fn no_content_message(provider: Seq<char>, vision: bool) -> Seq<char> {
    (if provider == "anthropic"@ {
        "No text content in "@
    } else {
        "No content in "@
    }) + provider_display(provider) + (if vision {
        " vision response"@
    } else if provider == "local"@ {
        " response"@
    } else {
        " API response"@
    })
}

/// The name a provider goes by in refusals (see `provider_display`).
fn display_name(provider: &str) -> (r: String)
    ensures
        r@ == provider_display(provider@),
{
    let p = chars_of(provider);
    if eq_str(&p, "anthropic") {
        "Anthropic".to_string()
    } else if eq_str(&p, "openai") {
        "OpenAI".to_string()
    } else if eq_str(&p, "kimi") {
        "Kimi".to_string()
    } else if eq_str(&p, "openrouter") {
        "OpenRouter".to_string()
    } else if eq_str(&p, "local") {
        "local server".to_string()
    } else {
        string_of(&p)
    }
}

fn first_of(v: Option<&JsonValue>) -> (r: Option<&JsonValue>)
    ensures
        match r {
            Some(x) => first_item(match v {
                Some(y) => Some(*y),
                None => None,
            }) == Some(*x),
            None => first_item(match v {
                Some(y) => Some(*y),
                None => None,
            }) is None,
        },
{
    match v {
        Some(JsonValue::Array(a)) => if a.len() > 0 {
            Some(&a[0])
        } else {
            None
        },
        _ => None,
    }
}

fn member_in<'a>(v: Option<&'a JsonValue>, k: &str) -> (r: Option<&'a JsonValue>)
    ensures
        match r {
            Some(x) => member_of(match v {
                Some(y) => Some(*y),
                None => None,
            }, k@) == Some(*x),
            None => member_of(match v {
                Some(y) => Some(*y),
                None => None,
            }, k@) is None,
        },
{
    match v {
        Some(x) => find_member(x, k),
        None => None,
    }
}

/// The answer text of a provider's raw reply body (see
/// `provider_answer_of`); a body that is not JSON, or holds no answer
/// text, is refused (`vision` for a reply to an image question).
pub fn answer_text(provider: &str, vision: bool, body: &str) -> (r: Result<String, String>)
    ensures
        match json_parse_of(body@) {
            Err(e) => r is Err && r->Err_0@ == reply_parse_message(provider@, vision, e),
            Ok(v) => match provider_answer_of(provider@, v) {
                Some(t) => r is Ok && r->Ok_0@ == t,
                None => r is Err && r->Err_0@ == no_content_message(provider@, vision),
            },
        },
{
    let local = eq_str(&chars_of(provider), "local");
    let anthropic = eq_str(&chars_of(provider), "anthropic");
    let name = display_name(provider);
    match read_json(body) {
        Err(e) => {
            let mut m = chars_of("Failed to parse ");
            push_str(&mut m, name.as_str());
            if vision || local {
                push_str(&mut m, " response: ");
            } else {
                push_str(&mut m, " API response wrapper: ");
            }
            push_str(&mut m, e.as_str());
            Err(string_of(&m))
        },
        Ok(v) => {
            let t = if anthropic {
                member_in(first_of(find_member(&v, "content")), "text")
            } else {
                member_in(member_in(first_of(find_member(&v, "choices")), "message"), "content")
            };
            match t {
                Some(JsonValue::Str(s)) => Ok(s.clone()),
                _ => {
                    let mut m = if anthropic {
                        chars_of("No text content in ")
                    } else {
                        chars_of("No content in ")
                    };
                    push_str(&mut m, name.as_str());
                    if vision {
                        push_str(&mut m, " vision response");
                    } else if local {
                        push_str(&mut m, " response");
                    } else {
                        push_str(&mut m, " API response");
                    }
                    Err(string_of(&m))
                },
            }
        },
    }
}

/// A text without its trailing `/` characters.
pub open spec fn trim_trailing_slashes(s: Seq<char>) -> Seq<char>
    decreases s.len(),
{
    if s.len() > 0 && s.last() == '/' {
        trim_trailing_slashes(s.drop_last())
    } else {
        s
    }
}

/// The default address of a local model server.
pub const LOCAL_SERVER: &'static str = "http://localhost:1234";

/// The chat endpoint of a local model server at `base` (the default
/// server when `base` is empty).
pub open spec fn local_chat_url_of(base: Seq<char>) -> Seq<char> {
    trim_trailing_slashes(if base.len() == 0 {
        LOCAL_SERVER@
    } else {
        base
    }) + "/v1/chat/completions"@
}

/// The chat endpoint of a local model server (see `local_chat_url_of`).
pub fn local_chat_url(base: &str) -> (r: String)
    ensures
        r@ == local_chat_url_of(base@),
{
    let mut v = if chars_of(base).len() == 0 {
        chars_of(LOCAL_SERVER)
    } else {
        chars_of(base)
    };
    let ghost start = v@;
    while v.len() > 0 && v[v.len() - 1] == '/'
        invariant
            trim_trailing_slashes(v@) == trim_trailing_slashes(start),
        decreases v.len(),
    {
        let ghost before = v@;
        v.pop();
        proof {
            assert(v@ == before.drop_last());
        }
    }
    push_str(&mut v, "/v1/chat/completions");
    string_of(&v)
}

} // verus!
