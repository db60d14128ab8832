//! The dependency resolver's field extraction and the template
//! substitution engine that fills `{field}` placeholders.

use vstd::prelude::*;
use crate::config::{pair_views, request_wf, same_request, Depends, ReqHash, Request};
use crate::json::{
    display_text, field_at, json_text, json_unquoted, to_display_text, to_json_text, unquote,
    value_at, Json,
};
use crate::text::{chars_of, contains, contains_text, push_all, replace_all, replace_text, string_of};

verus! {

/// The fields extracted from a dependency's response, in declaration
/// order: each entry is a declared path and the text found there.
#[derive(Debug)]
pub struct ExtractedFields {
    /// Values for header placeholders, as bare display text.
    pub headers: ReqHash,
    /// Values for body placeholders, as JSON text.
    pub body: ReqHash,
}

/// The placeholder token for a field: `{` + name + `}`.
pub open spec fn placeholder(name: Seq<char>) -> Seq<char> {
    seq!['{'] + name + seq!['}']
}

/// `value` after substitution: the fields are applied in declaration
/// order, each to the value the earlier ones left, and every occurrence of
/// a field's placeholder is replaced by its text. A field whose placeholder
/// no longer occurs changes nothing, so where two fields share a name the
/// first one wins.
pub open spec fn substituted(value: Seq<char>, fields: Seq<(Seq<char>, Seq<char>)>) -> Seq<char>
    decreases fields.len(),
{
    if fields.len() == 0 {
        value
    } else {
        let before = substituted(value, fields.drop_last());
        if contains(before, placeholder(fields.last().0)) {
            replace_all(before, placeholder(fields.last().0), fields.last().1)
        } else {
            before
        }
    }
}

/// Each pair with its value substituted; names are kept.
pub open spec fn substituted_pairs(
    pairs: Seq<(String, String)>,
    fields: Seq<(Seq<char>, Seq<char>)>,
    r: Seq<(String, String)>,
) -> bool {
    &&& r.len() == pairs.len()
    &&& forall|i: int|
        0 <= i < r.len() ==> #[trigger] r[i].0 == pairs[i].0 && r[i].1@ == substituted(
            pairs[i].1@,
            fields,
        )
}

/// The scalar a body field's JSON text stands for: the decoded string
/// where the text is a JSON string, else the text itself.
pub open spec fn scalar_text(t: Seq<char>) -> Seq<char> {
    match json_unquoted(t) {
        Some(s) => s,
        None => t,
    }
}

/// Body fields with their JSON text read back to a scalar.
pub open spec fn body_replacements(fields: Seq<(Seq<char>, Seq<char>)>) -> Seq<(Seq<char>, Seq<char>)> {
    fields.map_values(|e: (Seq<char>, Seq<char>)| (e.0, scalar_text(e.1)))
}

/// The text a field found at `v` contributes: JSON text for the body,
/// display text for headers.
pub open spec fn field_text(v: Json, as_json: bool) -> Seq<char> {
    if as_json {
        json_text(v)
    } else {
        display_text(v)
    }
}

/// The entries extracted for `paths` from `doc`: one per path whose value
/// is not null, in declaration order.
pub open spec fn extracted(paths: Seq<String>, doc: Json, as_json: bool) -> Seq<(Seq<char>, Seq<char>)>
    decreases paths.len(),
{
    if paths.len() == 0 {
        Seq::empty()
    } else {
        let init = extracted(paths.drop_last(), doc, as_json);
        let v = value_at(doc, paths.last()@);
        if v == Json::Null {
            init
        } else {
            init.push((paths.last()@, field_text(v, as_json)))
        }
    }
}

/// Each entry whose path leads to a string in `doc` has JSON text that
/// serde_json reads back as that very string.
pub open spec fn strings_read_back(entries: Seq<(Seq<char>, Seq<char>)>, doc: Json) -> bool {
    forall|k: int|
        0 <= k < entries.len() && (#[trigger] value_at(doc, entries[k].0)) is Str ==> json_unquoted(
            entries[k].1,
        ) == Some(value_at(doc, entries[k].0)->Str_0@)
}

/// Extracts the value of each path in `paths` from `doc`.
fn extract_entries(paths: &Vec<String>, doc: &Json, as_json: bool) -> (r: ReqHash)
    ensures
        pair_views(r@) == extracted(paths@, *doc, as_json),
        as_json ==> strings_read_back(pair_views(r@), *doc),
{
    let mut r: ReqHash = Vec::new();
    let mut i: usize = 0;
    while i < paths.len()
        invariant
            i <= paths.len(),
            pair_views(r@) == extracted(paths@.take(i as int), *doc, as_json),
            as_json ==> strings_read_back(pair_views(r@), *doc),
        decreases paths.len() - i,
    {
        assert(paths@.take(i + 1).drop_last() =~= paths@.take(i as int));
        let ghost before = r@;
        let found = field_at(doc, paths[i].as_str());
        match found {
            Some(Json::Null) => {},
            Some(v) => {
                let text = if as_json {
                    to_json_text(v)
                } else {
                    to_display_text(v)
                };
                r.push((paths[i].clone(), text));
                assert(pair_views(r@) =~= pair_views(before).push((paths@[i as int]@, text@)));
            },
            None => {},
        }
        i = i + 1;
        assert(pair_views(r@) =~= extracted(paths@.take(i as int), *doc, as_json));
    }
    assert(paths@.take(i as int) =~= paths@);
    r
}

/// The dependency resolver's extraction step: the header and body fields
/// that `dep` declares, looked up in its response `doc`.
pub fn resolve_fields(dep: &Depends, doc: &Json) -> (r: ExtractedFields)
    ensures
        pair_views(r.headers@) == extracted(dep.header_fields@, *doc, false),
        pair_views(r.body@) == extracted(dep.body_fields@, *doc, true),
        strings_read_back(extracted(dep.body_fields@, *doc, true), *doc),
{
    ExtractedFields {
        headers: extract_entries(&dep.header_fields, doc, false),
        body: extract_entries(&dep.body_fields, doc, true),
    }
}

/// The placeholder token for `name`.
fn placeholder_exec(name: &Vec<char>) -> (r: Vec<char>)
    ensures
        r@ == placeholder(name@),
{
    let mut r: Vec<char> = Vec::new();
    r.push('{');
    push_all(&mut r, name);
    r.push('}');
    assert(r@ =~= placeholder(name@));
    r
}

/// The views of character pairs.
pub open spec fn char_pair_views(p: Seq<(Vec<char>, Vec<char>)>) -> Seq<(Seq<char>, Seq<char>)> {
    p.map_values(|e: (Vec<char>, Vec<char>)| (e.0@, e.1@))
}

/// `value` with its placeholders filled from `fields` (name, text).
fn substitute_chars(value: &Vec<char>, fields: &Vec<(Vec<char>, Vec<char>)>) -> (r: Vec<char>)
    ensures
        r@ == substituted(value@, char_pair_views(fields@)),
{
    let ghost fv = char_pair_views(fields@);
    let mut r: Vec<char> = value.clone();
    let mut i: usize = 0;
    assert(r@ =~= value@);
    while i < fields.len()
        invariant
            i <= fields.len(),
            fv == char_pair_views(fields@),
            r@ == substituted(value@, fv.take(i as int)),
        decreases fields.len() - i,
    {
        assert(fv.take(i + 1).drop_last() =~= fv.take(i as int));
        assert(fv.take(i + 1).last() == fv[i as int]);
        let token = placeholder_exec(&fields[i].0);
        if contains_text(&r, &token) {
            r = replace_text(&r, &token, &fields[i].1);
        }
        i = i + 1;
    }
    assert(fv.take(i as int) =~= fv);
    r
}

/// Header fields as character pairs.
fn header_chars(fields: &ReqHash) -> (r: Vec<(Vec<char>, Vec<char>)>)
    ensures
        char_pair_views(r@) == pair_views(fields@),
{
    let mut r: Vec<(Vec<char>, Vec<char>)> = Vec::new();
    let mut i: usize = 0;
    while i < fields.len()
        invariant
            i <= fields.len(),
            char_pair_views(r@) == pair_views(fields@.take(i as int)),
        decreases fields.len() - i,
    {
        let ghost prev = r@;
        let name = chars_of(fields[i].0.as_str());
        let text = chars_of(fields[i].1.as_str());
        r.push((name, text));
        assert(r@ == prev.push((name, text)));
        assert(char_pair_views(r@) =~= char_pair_views(prev).push((name@, text@)));
        assert(fields@.take(i + 1) =~= fields@.take(i as int).push(fields@[i as int]));
        i = i + 1;
        assert(char_pair_views(r@) =~= pair_views(fields@.take(i as int)));
    }
    assert(fields@.take(i as int) =~= fields@);
    r
}

/// Body fields as character pairs, each JSON text read back to a scalar.
fn body_chars(fields: &ReqHash) -> (r: Vec<(Vec<char>, Vec<char>)>)
    ensures
        char_pair_views(r@) == body_replacements(pair_views(fields@)),
{
    let mut r: Vec<(Vec<char>, Vec<char>)> = Vec::new();
    let mut i: usize = 0;
    while i < fields.len()
        invariant
            i <= fields.len(),
            char_pair_views(r@) == body_replacements(pair_views(fields@.take(i as int))),
        decreases fields.len() - i,
    {
        let scalar = match unquote(fields[i].1.as_str()) {
            Some(s) => chars_of(s.as_str()),
            None => chars_of(fields[i].1.as_str()),
        };
        let ghost prev = r@;
        let name = chars_of(fields[i].0.as_str());
        r.push((name, scalar));
        assert(r@ == prev.push((name, scalar)));
        assert(char_pair_views(r@) =~= char_pair_views(prev).push((name@, scalar@)));
        assert(fields@.take(i + 1) =~= fields@.take(i as int).push(fields@[i as int]));
        i = i + 1;
        assert(char_pair_views(r@) =~= body_replacements(pair_views(fields@.take(i as int))));
    }
    assert(fields@.take(i as int) =~= fields@);
    r
}

/// Each pair of `pairs` with its value substituted from `fields`.
fn substitute_pairs(pairs: &ReqHash, fields: &Vec<(Vec<char>, Vec<char>)>) -> (r: ReqHash)
    ensures
        substituted_pairs(pairs@, char_pair_views(fields@), r@),
{
    let mut r: ReqHash = Vec::new();
    let mut i: usize = 0;
    while i < pairs.len()
        invariant
            i <= pairs.len(),
            r.len() == i,
            forall|j: int|
                0 <= j < i ==> #[trigger] r@[j].0 == pairs@[j].0 && r@[j].1@ == substituted(
                    pairs@[j].1@,
                    char_pair_views(fields@),
                ),
        decreases pairs.len() - i,
    {
        let value = chars_of(pairs[i].1.as_str());
        let done = substitute_chars(&value, fields);
        r.push((pairs[i].0.clone(), string_of(&done)));
        i = i + 1;
    }
    r
}

/// Optional pairs substituted; `None` stays `None`.
fn substitute_opt_pairs(pairs: &Option<ReqHash>, fields: &Vec<(Vec<char>, Vec<char>)>) -> (r: Option<ReqHash>)
    ensures
        r is Some <==> pairs is Some,
        r is Some ==> substituted_pairs(pairs->0@, char_pair_views(fields@), r->0@),
{
    match pairs {
        Some(p) => Some(substitute_pairs(p, fields)),
        None => None,
    }
}

/// The request as sent: its header values filled from `header_fields`
/// and its body values from `body_fields` read back to scalars; URL and method unchanged, and
/// an absent header or body list stays absent.
pub open spec fn substituted_request(
    req: Request,
    header_fields: Seq<(Seq<char>, Seq<char>)>,
    body_fields: Seq<(Seq<char>, Seq<char>)>,
    r: Request,
) -> bool {
    &&& r.url == req.url
    &&& r.method == req.method
    &&& (r.headers is Some <==> req.headers is Some)
    &&& r.headers is Some ==> substituted_pairs(
        req.headers->0@,
        header_fields,
        r.headers->0@,
    )
    &&& (r.body is Some <==> req.body is Some)
    &&& r.body is Some ==> substituted_pairs(
        req.body->0@,
        body_replacements(body_fields),
        r.body->0@,
    )
}

/// The template substitution engine: `req` with its placeholders filled
/// from the extracted `fields`.
pub fn substitute_request(req: &Request, fields: &ExtractedFields) -> (r: Request)
    ensures
        substituted_request(*req, pair_views(fields.headers@), pair_views(fields.body@), r),
        request_wf(*req) ==> request_wf(r),
{
    let hf = header_chars(&fields.headers);
    let bf = body_chars(&fields.body);
    let r = Request {
        url: req.url.clone(),
        headers: substitute_opt_pairs(&req.headers, &hf),
        method: req.method,
        body: substitute_opt_pairs(&req.body, &bf),
    };
    proof {
        if request_wf(*req) {
            lemma_substituted_keeps_wf(*req, pair_views(fields.headers@), pair_views(fields.body@), r);
        }
    }
    r
}

/// Substitution keeps the names, so a well-formed request stays well formed.
pub proof fn lemma_substituted_keeps_wf(req: Request, hf: Seq<(Seq<char>, Seq<char>)>, bf: Seq<(Seq<char>, Seq<char>)>, r: Request)
    requires
        substituted_request(req, hf, bf, r),
        request_wf(req),
    ensures
        request_wf(r),
{
    if r.headers is Some {
        let (a, b) = (req.headers->0@, r.headers->0@);
        assert forall|i: int, j: int| 0 <= i < j < b.len() implies (#[trigger] b[i]).0@ != (
        #[trigger] b[j]).0@ by {
            assert(b[i].0 == a[i].0 && b[j].0 == a[j].0);
        }
    }
    if r.body is Some {
        let (a, b) = (req.body->0@, r.body->0@);
        assert forall|i: int, j: int| 0 <= i < j < b.len() implies (#[trigger] b[i]).0@ != (
        #[trigger] b[j]).0@ by {
            assert(b[i].0 == a[i].0 && b[j].0 == a[j].0);
        }
    }
}

/// Requests that carry the same pairs are well formed together.
pub proof fn lemma_same_request_wf(a: Request, b: Request)
    requires
        same_request(a, b),
        request_wf(b),
    ensures
        request_wf(a),
{
    if a.headers is Some {
        let (x, y) = (a.headers->0@, b.headers->0@);
        assert(pair_views(x) == pair_views(y));
        assert forall|i: int, j: int| 0 <= i < j < x.len() implies (#[trigger] x[i]).0@ != (
        #[trigger] x[j]).0@ by {
            assert(pair_views(x)[i] == pair_views(y)[i]);
            assert(pair_views(x)[j] == pair_views(y)[j]);
        }
    }
    if a.body is Some {
        let (x, y) = (a.body->0@, b.body->0@);
        assert(pair_views(x) == pair_views(y));
        assert forall|i: int, j: int| 0 <= i < j < x.len() implies (#[trigger] x[i]).0@ != (
        #[trigger] x[j]).0@ by {
            assert(pair_views(x)[i] == pair_views(y)[i]);
            assert(pair_views(x)[j] == pair_views(y)[j]);
        }
    }
}

/// A body field whose path leads to a JSON string fills its placeholder
/// with the plain string, without quotes or escapes.
pub proof fn law_string_body_field_is_plain(entries: Seq<(Seq<char>, Seq<char>)>, doc: Json, k: int)
    requires
        strings_read_back(entries, doc),
        0 <= k < entries.len(),
        value_at(doc, entries[k].0) is Str,
    ensures
        body_replacements(entries)[k] == (entries[k].0, display_text(value_at(doc, entries[k].0))),
{
}

/// A value in which no field's placeholder occurs is left as it is.
pub proof fn lemma_no_placeholder_untouched(value: Seq<char>, fields: Seq<(Seq<char>, Seq<char>)>)
    requires
        forall|k: int| 0 <= k < fields.len() ==> !contains(value, #[trigger] placeholder(fields[k].0)),
    ensures
        substituted(value, fields) == value,
    decreases fields.len(),
{
    if fields.len() > 0 {
        let init = fields.drop_last();
        assert(!contains(value, placeholder(fields[fields.len() - 1].0)));
        assert forall|k: int| 0 <= k < init.len() implies !contains(
            value,
            #[trigger] placeholder(init[k].0),
        ) by {
            assert(init[k] == fields[k]);
        }
        lemma_no_placeholder_untouched(value, init);
    }
}

/// Substitution is idempotent: once a value holds no placeholder of any
/// field, substituting it again changes nothing.
pub proof fn law_substitution_idempotent(value: Seq<char>, fields: Seq<(Seq<char>, Seq<char>)>)
    requires
        forall|k: int|
            0 <= k < fields.len() ==> !contains(
                substituted(value, fields),
                #[trigger] placeholder(fields[k].0),
            ),
    ensures
        substituted(substituted(value, fields), fields) == substituted(value, fields),
{
    lemma_no_placeholder_untouched(substituted(value, fields), fields);
}

/// With no extracted fields, as when an endpoint has no dependency or its
/// dependency failed, every value is sent as declared, `{...}` text included.
pub proof fn law_no_fields_identity(req: Request, r: Request)
    requires
        substituted_request(req, Seq::empty(), Seq::empty(), r),
    ensures
        same_request(r, req),
{
    if req.headers is Some {
        assert(pair_views(r.headers->0@) =~= pair_views(req.headers->0@));
    }
    if req.body is Some {
        assert(body_replacements(Seq::empty()) =~= Seq::<(Seq<char>, Seq<char>)>::empty());
        assert(pair_views(r.body->0@) =~= pair_views(req.body->0@));
    }
}

/// A declared path whose value is absent (or null) in the response gets
/// no extracted entry, so it fills no placeholder.
pub proof fn law_absent_field_not_extracted(paths: Seq<String>, doc: Json, as_json: bool, path: Seq<char>)
    requires
        value_at(doc, path) == Json::Null,
    ensures
        forall|k: int|
            0 <= k < extracted(paths, doc, as_json).len() ==> (#[trigger] extracted(
                paths,
                doc,
                as_json,
            )[k]).0 != path,
    decreases paths.len(),
{
    if paths.len() > 0 {
        let init = extracted(paths.drop_last(), doc, as_json);
        law_absent_field_not_extracted(paths.drop_last(), doc, as_json, path);
        let ex = extracted(paths, doc, as_json);
        assert forall|k: int| 0 <= k < ex.len() implies (#[trigger] ex[k]).0 != path by {
            if k < init.len() {
                assert(ex[k] == init[k]);
            } else {
                assert(ex[k].0 == paths.last()@);
                assert(value_at(doc, paths.last()@) != Json::Null);
            }
        }
    }
}

/// An absent field leaves its placeholder text in place: where no other
/// extracted field's placeholder occurs in `value`, the value is sent as
/// declared.
pub proof fn law_absent_field_placeholder_kept(
    paths: Seq<String>,
    doc: Json,
    as_json: bool,
    path: Seq<char>,
    value: Seq<char>,
)
    requires
        value_at(doc, path) == Json::Null,
        forall|k: int|
            0 <= k < extracted(paths, doc, as_json).len() && (#[trigger] extracted(
                paths,
                doc,
                as_json,
            )[k]).0 != path ==> !contains(value, placeholder(extracted(paths, doc, as_json)[k].0)),
    ensures
        substituted(value, extracted(paths, doc, as_json)) == value,
        as_json ==> substituted(value, body_replacements(extracted(paths, doc, as_json))) == value,
{
    let ex = extracted(paths, doc, as_json);
    law_absent_field_not_extracted(paths, doc, as_json, path);
    assert forall|k: int| 0 <= k < ex.len() implies !contains(value, #[trigger] placeholder(ex[k].0)) by {
        assert(ex[k].0 != path);
    }
    lemma_no_placeholder_untouched(value, ex);
    let br = body_replacements(ex);
    assert forall|k: int| 0 <= k < br.len() implies !contains(value, #[trigger] placeholder(br[k].0)) by {
        assert(br[k].0 == ex[k].0);
        assert(!contains(value, placeholder(ex[k].0)));
    }
    lemma_no_placeholder_untouched(value, br);
}

} // verus!
