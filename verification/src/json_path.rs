//! JSON values as the library reads them, dotted paths into them, and what
//! a dynamic tool returns for an HTTP response.
use vstd::prelude::*;
use crate::dynamic::DynamicToolConfig;
use crate::text::{append_str, chars_of, replace_all, replace_all_in, str_eq, string_of};

verus! {

/// A parsed JSON value. Numbers keep their JSON text, and arrays and
/// objects also carry their compact JSON text.
#[derive(Debug)]
pub enum JsonNode {
    Null,
    Bool(bool),
    Number(String),
    Str(String),
    Array(Vec<JsonNode>, String),
    Object(Vec<(String, JsonNode)>, String),
}

/// The text a value stands for in a response template: a string as is,
/// anything else as its JSON text.
pub open spec fn node_text(n: JsonNode) -> Seq<char> {
    match n {
        JsonNode::Null => "null"@,
        JsonNode::Bool(b) => if b { "true"@ } else { "false"@ },
        JsonNode::Number(t) => t@,
        JsonNode::Str(s) => s@,
        JsonNode::Array(_, j) => j@,
        JsonNode::Object(_, j) => j@,
    }
}

/// A value's template text.
pub fn node_text_of(n: &JsonNode) -> (s: String)
    ensures
        s@ == node_text(*n),
{
    proof {
        reveal_strlit("null");
        reveal_strlit("true");
        reveal_strlit("false");
    }
    match n {
        JsonNode::Null => String::from_str("null"),
        JsonNode::Bool(b) => if *b { String::from_str("true") } else { String::from_str("false") },
        JsonNode::Number(t) => t.clone(),
        JsonNode::Str(s) => s.clone(),
        JsonNode::Array(_, j) => j.clone(),
        JsonNode::Object(_, j) => j.clone(),
    }
}

/// `s` split at every `.`, as `str::split('.')` does (an empty text gives
/// one empty segment).
pub open spec fn split_dots(s: Seq<char>) -> Seq<Seq<char>>
    decreases s.len(),
{
    if s.len() == 0 {
        seq![Seq::<char>::empty()]
    } else {
        let p = split_dots(s.drop_last());
        if s.last() == '.' {
            p.push(Seq::empty())
        } else {
            p.update(p.len() - 1, p.last().push(s.last()))
        }
    }
}

proof fn lemma_split_nonempty(s: Seq<char>)
    ensures
        split_dots(s).len() >= 1,
    decreases s.len(),
{
    if s.len() > 0 {
        lemma_split_nonempty(s.drop_last());
    }
}

/// The value of a run of decimal digits.
pub open spec fn digits_value(s: Seq<char>) -> nat
    decreases s.len(),
{
    if s.len() == 0 {
        0
    } else {
        (digits_value(s.drop_last()) * 10 + (s.last() as int - '0' as int)) as nat
    }
}

/// All characters are ASCII digits.
pub open spec fn all_digits(s: Seq<char>) -> bool {
    forall|i: int| 0 <= i < s.len() ==> '0' <= #[trigger] s[i] && s[i] <= '9'
}

/// The index a segment names, as `str::parse::<usize>` reads it: an
/// optional `+` and at least one digit, with a value that fits.
pub open spec fn segment_index(s: Seq<char>) -> Option<nat> {
    let d = if s.len() > 0 && s[0] == '+' { s.drop_first() } else { s };
    if d.len() > 0 && all_digits(d) && digits_value(d) <= usize::MAX {
        Some(digits_value(d))
    } else {
        None
    }
}

/// The member of an object with this key (first match).
pub open spec fn member(ms: Seq<(String, JsonNode)>, key: Seq<char>) -> Option<JsonNode>
    decreases ms.len(),
{
    if ms.len() == 0 {
        None
    } else if ms[0].0@ == key {
        Some(ms[0].1)
    } else {
        member(ms.drop_first(), key)
    }
}

/// One step down a path: an index into an array for a numeric segment, a
/// member of an object otherwise.
pub open spec fn step(n: JsonNode, seg: Seq<char>) -> Option<JsonNode> {
    match segment_index(seg) {
        Some(i) => match n {
            JsonNode::Array(items, _) => if i < items@.len() { Some(items@[i as int]) } else { None },
            _ => None,
        },
        None => match n {
            JsonNode::Object(ms, _) => member(ms@, seg),
            _ => None,
        },
    }
}

/// Following the segments from a value.
pub open spec fn walk(n: JsonNode, segs: Seq<Seq<char>>) -> Option<JsonNode>
    decreases segs.len(),
{
    if segs.len() == 0 {
        Some(n)
    } else {
        match step(n, segs[0]) {
            Some(m) => walk(m, segs.drop_first()),
            None => None,
        }
    }
}

/// The value at a dotted path (`main.temp`, `weather.0.description`).
pub open spec fn path_value(n: JsonNode, path: Seq<char>) -> Option<JsonNode> {
    walk(n, split_dots(path))
}

fn split_path(path: &str) -> (segs: Vec<Vec<char>>)
    ensures
        segs@.len() == split_dots(path@).len(),
        forall|k: int| 0 <= k < segs@.len() ==> (#[trigger] segs@[k])@ == split_dots(path@)[k],
{
    let cs = chars_of(path);
    let mut segs: Vec<Vec<char>> = Vec::new();
    let mut cur: Vec<char> = Vec::new();
    let mut i: usize = 0;
    while i < cs.len()
        invariant
            i <= cs@.len(),
            cs@ == path@,
            segs@.len() + 1 == split_dots(cs@.take(i as int)).len(),
            forall|k: int| 0 <= k < segs@.len() ==> (#[trigger] segs@[k])@ == split_dots(cs@.take(i as int))[k],
            cur@ == split_dots(cs@.take(i as int)).last(),
        decreases cs@.len() - i,
    {
        proof {
            assert(cs@.take(i + 1).drop_last() =~= cs@.take(i as int));
            lemma_split_nonempty(cs@.take(i as int));
        }
        let c = cs[i];
        if c == '.' {
            let done = cur;
            segs.push(done);
            cur = Vec::new();
            assert(cur@ =~= Seq::<char>::empty());
        } else {
            cur.push(c);
        }
        i += 1;
    }
    assert(cs@.take(cs@.len() as int) =~= cs@);
    proof {
        lemma_split_nonempty(cs@);
    }
    segs.push(cur);
    segs
}

fn parse_index(s: &[char]) -> (r: Option<usize>)
    ensures
        match segment_index(s@) {
            Some(v) => r == Some(v as usize),
            None => r is None,
        },
{
    let start: usize = if s.len() > 0 && s[0] == '+' { 1 } else { 0 };
    let ghost d = if s@.len() > 0 && s@[0] == '+' { s@.drop_first() } else { s@ };
    assert(d =~= s@.skip(start as int));
    if start >= s.len() {
        return None;
    }
    let mut v: usize = 0;
    let mut i: usize = start;
    while i < s.len()
        invariant
            start <= i <= s@.len(),
            d == s@.skip(start as int),
            d == (if s@.len() > 0 && s@[0] == '+' { s@.drop_first() } else { s@ }),
            all_digits(s@.subrange(start as int, i as int)),
            v == digits_value(s@.subrange(start as int, i as int)),
        decreases s@.len() - i,
    {
        assert(s@.subrange(start as int, i + 1).drop_last() =~= s@.subrange(start as int, i as int));
        let c = s[i];
        if !('0' <= c && c <= '9') {
            proof {
                assert(d[i - start] == c);
                assert(!all_digits(d));
            }
            return None;
        }
        let digit = (c as u32 - '0' as u32) as usize;
        proof {
            assert(d.take(i - start + 1) =~= s@.subrange(start as int, i + 1));
            assert(s@.subrange(start as int, i + 1).last() == c);
            assert(digits_value(s@.subrange(start as int, i + 1)) == v * 10 + digit);
        }
        match v.checked_mul(10) {
            Some(m) => match m.checked_add(digit) {
                Some(w) => {
                    v = w;
                },
                None => {
                    proof {
                        lemma_digits_grow(d, (i - start) as int + 1);
                    }
                    return None;
                },
            },
            None => {
                proof {
                    lemma_digits_grow(d, (i - start) as int + 1);
                }
                return None;
            },
        }
        i += 1;
    }
    assert(s@.subrange(start as int, s@.len() as int) =~= d);
    Some(v)
}

/// A prefix of a digit run never has a larger value than the whole run.
proof fn lemma_digits_grow(d: Seq<char>, n: int)
    requires
        0 <= n <= d.len(),
    ensures
        all_digits(d) ==> digits_value(d.take(n)) <= digits_value(d),
    decreases d.len() - n,
{
    if n < d.len() {
        lemma_digits_grow(d, n + 1);
        assert(d.take(n + 1).drop_last() =~= d.take(n));
    } else {
        assert(d.take(n) =~= d);
    }
}

fn find_member<'a>(ms: &'a Vec<(String, JsonNode)>, key: &[char]) -> (r: Option<&'a JsonNode>)
    ensures
        match member(ms@, key@) {
            Some(v) => r == Some(&v),
            None => r is None,
        },
{
    let mut i: usize = 0;
    assert(ms@.skip(0) =~= ms@);
    while i < ms.len()
        invariant
            i <= ms@.len(),
            member(ms@, key@) == member(ms@.skip(i as int), key@),
        decreases ms@.len() - i,
    {
        assert(ms@.skip(i as int)[0] == ms@[i as int]);
        let k = chars_of(ms[i].0.as_str());
        if crate::text::eq_chars(k.as_slice(), key) {
            return Some(&ms[i].1);
        }
        assert(ms@.skip(i as int).drop_first() =~= ms@.skip(i + 1));
        i += 1;
    }
    None
}

/// The value at a dotted path, if every step exists (see `path_value`).
pub fn extract_json_path<'a>(value: &'a JsonNode, path: &str) -> (r: Option<&'a JsonNode>)
    ensures
        match path_value(*value, path@) {
            Some(v) => r == Some(&v),
            None => r is None,
        },
{
    let segs = split_path(path);
    let ghost all = split_dots(path@);
    let mut current: &JsonNode = value;
    let mut k: usize = 0;
    assert(all.skip(0) =~= all);
    while k < segs.len()
        invariant
            k <= segs@.len(),
            segs@.len() == all.len(),
            forall|j: int| 0 <= j < segs@.len() ==> (#[trigger] segs@[j])@ == all[j],
            path_value(*value, path@) == walk(*current, all.skip(k as int)),
        decreases segs@.len() - k,
    {
        assert(all.skip(k as int)[0] == all[k as int]);
        assert(all.skip(k as int).drop_first() =~= all.skip(k + 1));
        let seg = &segs[k];
        let next: Option<&JsonNode> = match parse_index(seg.as_slice()) {
            Some(idx) => match current {
                JsonNode::Array(items, _) => if idx < items.len() { Some(&items[idx]) } else { None },
                _ => None,
            },
            None => match current {
                JsonNode::Object(ms, _) => find_member(ms, seg.as_slice()),
                _ => None,
            },
        };
        match next {
            Some(n) => {
                current = n;
            },
            None => {
                return None;
            },
        }
        k += 1;
    }
    Some(current)
}


/// What a dynamic tool returns for an HTTP response.
#[derive(Debug)]
pub enum DynamicResponse<'a> {
    /// The request failed with this HTTP status; the tool reports an error.
    HttpError(String),
    /// The extracted fields and the response template filled with them.
    Formatted { formatted: String, extracted: Vec<(String, &'a JsonNode)> },
    /// The extracted fields (no response template).
    Extracted(Vec<(String, &'a JsonNode)>),
    /// The JSON body as it came (no extraction rules).
    Json(&'a JsonNode),
    /// A body that is not JSON, as text.
    Raw(String),
}

/// The fields extracted by the rules (field name, JSON path) that find a
/// value, in rule order.
pub open spec fn extracted_fields(rules: Seq<(String, String)>, body: JsonNode) -> Seq<(Seq<char>, JsonNode)>
    decreases rules.len(),
{
    if rules.len() == 0 {
        Seq::empty()
    } else {
        let rest = extracted_fields(rules.drop_last(), body);
        match path_value(body, rules.last().1@) {
            Some(v) => rest.push((rules.last().0@, v)),
            None => rest,
        }
    }
}

/// The template with each `{{field}}` replaced by its value's text, field
/// by field.
pub open spec fn fill_fields(t: Seq<char>, fields: Seq<(Seq<char>, JsonNode)>) -> Seq<char>
    decreases fields.len(),
{
    if fields.len() == 0 {
        t
    } else {
        replace_all(
            fill_fields(t, fields.drop_last()),
            "{{"@ + fields.last().0 + "}}"@,
            node_text(fields.last().1),
        )
    }
}

/// The fields, as names and values.
pub open spec fn fields_view(v: Seq<(String, &JsonNode)>) -> Seq<(Seq<char>, JsonNode)> {
    v.map_values(|p: (String, &JsonNode)| (p.0@, *p.1))
}

/// The error text for a failed request.
pub open spec fn http_error_text(status: Seq<char>, body: Seq<char>) -> Seq<char> {
    "HTTP "@ + status + " error: "@ + body
}

fn extract_fields<'a>(rules: &Vec<(String, String)>, body: &'a JsonNode) -> (r: Vec<(String, &'a JsonNode)>)
    ensures
        fields_view(r@) == extracted_fields(rules@, *body),
{
    let mut r: Vec<(String, &'a JsonNode)> = Vec::new();
    let mut i: usize = 0;
    while i < rules.len()
        invariant
            i <= rules@.len(),
            fields_view(r@) == extracted_fields(rules@.take(i as int), *body),
        decreases rules@.len() - i,
    {
        assert(rules@.take(i + 1).drop_last() =~= rules@.take(i as int));
        assert(rules@.take(i + 1).last() == rules@[i as int]);
        match extract_json_path(body, rules[i].1.as_str()) {
            Some(v) => {
                r.push((rules[i].0.clone(), v));
                assert(fields_view(r@) =~= extracted_fields(rules@.take(i + 1), *body));
            },
            None => {},
        }
        i += 1;
    }
    assert(rules@.take(rules@.len() as int) =~= rules@);
    r
}

fn fill_template(t: &str, fields: &Vec<(String, &JsonNode)>) -> (s: String)
    ensures
        s@ == fill_fields(t@, fields_view(fields@)),
{
    let mut cur = chars_of(t);
    let mut i: usize = 0;
    while i < fields.len()
        invariant
            i <= fields@.len(),
            cur@ == fill_fields(t@, fields_view(fields@.take(i as int))),
        decreases fields@.len() - i,
    {
        assert(fields_view(fields@.take(i + 1)).drop_last() =~= fields_view(fields@.take(i as int)));
        let mut pat = chars_of("{{");
        append_str(&mut pat, fields[i].0.as_str());
        append_str(&mut pat, "}}");
        proof {
            reveal_strlit("{{");
            reveal_strlit("}}");
        }
        let rep = node_text_of(fields[i].1);
        let rc = chars_of(rep.as_str());
        cur = replace_all_in(cur.as_slice(), pat.as_slice(), rc.as_slice());
        i += 1;
    }
    assert(fields@.take(fields@.len() as int) =~= fields@);
    string_of(cur.as_slice())
}

/// What a dynamic tool returns for a response: an error for a failed
/// request; for a JSON body, the fields its extraction rules find (with
/// the response template filled in, when it has one), or the body itself
/// when it has no rules; any other body as text.
pub fn dynamic_response<'a>(
    tool: &DynamicToolConfig,
    status_ok: bool,
    status_text: &str,
    body_text: &str,
    parsed: Option<&'a JsonNode>,
) -> (r: DynamicResponse<'a>)
    ensures
        !status_ok ==> r is HttpError && r->HttpError_0@ == http_error_text(status_text@, body_text@),
        status_ok && parsed is None ==> r is Raw && r->Raw_0@ == body_text@,
        status_ok && parsed is Some && tool.response_extract@.len() == 0 ==> r == DynamicResponse::Json(parsed->0),
        status_ok && parsed is Some && tool.response_extract@.len() > 0 ==> match tool.response_format {
            Some(f) => r matches DynamicResponse::Formatted { formatted, extracted }
                && fields_view(extracted@) == extracted_fields(tool.response_extract@, *parsed->0)
                && formatted@ == fill_fields(f@, fields_view(extracted@)),
            None => r matches DynamicResponse::Extracted(extracted)
                && fields_view(extracted@) == extracted_fields(tool.response_extract@, *parsed->0),
        },
{
    if !status_ok {
        let mut v = chars_of("HTTP ");
        append_str(&mut v, status_text);
        append_str(&mut v, " error: ");
        append_str(&mut v, body_text);
        proof {
            reveal_strlit("HTTP ");
            reveal_strlit(" error: ");
        }
        return DynamicResponse::HttpError(string_of(v.as_slice()));
    }
    match parsed {
        None => DynamicResponse::Raw(String::from_str(body_text)),
        Some(body) => {
            if tool.response_extract.len() == 0 {
                return DynamicResponse::Json(body);
            }
            let extracted = extract_fields(&tool.response_extract, body);
            match &tool.response_format {
                Some(f) => {
                    let formatted = fill_template(f.as_str(), &extracted);
                    DynamicResponse::Formatted { formatted, extracted }
                },
                None => DynamicResponse::Extracted(extracted),
            }
        },
    }
}

} // verus!
