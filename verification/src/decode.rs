use vstd::prelude::*;

use crate::errors::FetchError;
use crate::records::{
    views_of_contributors, views_of_repos, OwnerInfo, OwnerInfoView, RepoContributorsInfo,
    RepoContributorsInfoView, RepositoriesInfo, RepositoriesInfoView, SingleRepoInfo,
    SingleRepoInfoView,
};

verus! {

/// Ghost image of a JSON value: what the decoders read of a parsed document.
/// A number carries its unsigned 64-bit reading when it has one — the only
/// reading the decoders ever take of a number.
#[verifier::ext_equal]
pub enum JsonModel {
    Null,
    Bool(bool),
    Num(Option<u64>),
    Str(Seq<char>),
    Arr(Seq<JsonModel>),
    Obj(Map<Seq<char>, JsonModel>),
}

/// What a body text parses to: the document's ghost image, or nothing when
/// the text is not valid JSON. The parse result depends on the text alone.
pub uninterp spec fn json_of(s: Seq<char>) -> Option<JsonModel>;

/// The ghost image of one parsed JSON value.
pub uninterp spec fn val_model(v: serde_json::Value) -> JsonModel;

/// The ghost images of a sequence of parsed JSON values.
pub open spec fn models_of(s: Seq<serde_json::Value>) -> Seq<JsonModel> {
    s.map_values(|v: serde_json::Value| val_model(v))
}

/// The value is an object holding `key`.
pub open spec fn model_has_key(m: JsonModel, key: Seq<char>) -> bool {
    match m {
        JsonModel::Obj(fields) => fields.contains_key(key),
        _ => false,
    }
}

/// The value under `key` of an object.
pub open spec fn model_lookup(m: JsonModel, key: Seq<char>) -> JsonModel {
    match m {
        JsonModel::Obj(fields) => fields[key],
        _ => JsonModel::Null,
    }
}

/// The text under `key`, when the object holds a string there.
pub open spec fn model_str_field(m: JsonModel, key: Seq<char>) -> Option<Seq<char>> {
    if model_has_key(m, key) {
        match model_lookup(m, key) {
            JsonModel::Str(s) => Some(s),
            _ => None,
        }
    } else {
        None
    }
}

/// The number under `key`, when the object holds one there with an unsigned
/// 64-bit reading.
pub open spec fn model_u64_field(m: JsonModel, key: Seq<char>) -> Option<u64> {
    if model_has_key(m, key) {
        match model_lookup(m, key) {
            JsonModel::Num(u) => u,
            _ => None,
        }
    } else {
        None
    }
}

/// The boolean under `key`, when the object holds one there.
pub open spec fn model_bool_field(m: JsonModel, key: Seq<char>) -> Option<bool> {
    if model_has_key(m, key) {
        match model_lookup(m, key) {
            JsonModel::Bool(b) => Some(b),
            _ => None,
        }
    } else {
        None
    }
}

/// `serde_json::Value`, the parsed form of a JSON document. The value is
/// opaque to the library: everything it holds is read back through the
/// accessor wrappers below, whose contracts speak of its ghost image.
#[verifier::external_type_specification]
#[verifier::external_body]
pub struct ExValue(serde_json::Value);

/// `serde_json::Error`, the error `serde_json` reports for text that is not
/// valid JSON.
#[verifier::external_type_specification]
#[verifier::external_body]
pub struct ExJsonError(serde_json::Error);

/// Relies on `serde_json::from_str`: parses a JSON document, failing exactly
/// on text that is not valid JSON. The result is a function of the body text
/// alone; `json_of` names it.
#[verifier::external_body]
fn json_parse(body: &str) -> (r: Result<serde_json::Value, serde_json::Error>)
    ensures
        match r {
            Ok(v) => json_of(body@) == Some(val_model(v)),
            Err(_) => json_of(body@) is None,
        },
{
    serde_json::from_str(body)
}

/// Relies on `serde_json::Value::get` with a string index: looks a key up in
/// a JSON object; `None` on a missing key or on a value that is no object.
#[verifier::external_body]
fn value_get<'a>(v: &'a serde_json::Value, key: &str) -> (r: Option<&'a serde_json::Value>)
    ensures
        match r {
            Some(w) => model_has_key(val_model(*v), key@) && val_model(*w) == model_lookup(
                val_model(*v),
                key@,
            ),
            None => !model_has_key(val_model(*v), key@),
        },
{
    v.get(key)
}

/// Relies on `serde_json::Value::as_array`: the element list of a JSON array;
/// `None` on any other kind of value.
#[verifier::external_body]
fn value_as_array(v: &serde_json::Value) -> (r: Option<&Vec<serde_json::Value>>)
    ensures
        match val_model(*v) {
            JsonModel::Arr(elems) => match r {
                Some(a) => models_of(a@) == elems,
                None => false,
            },
            _ => r is None,
        },
{
    v.as_array()
}

/// Relies on `serde_json::Value::as_str`: the text of a JSON string; `None`
/// on any other kind of value.
#[verifier::external_body]
fn value_as_str(v: &serde_json::Value) -> (r: Option<&str>)
    ensures
        match val_model(*v) {
            JsonModel::Str(s) => match r {
                Some(t) => t@ == s,
                None => false,
            },
            _ => r is None,
        },
{
    v.as_str()
}

/// Relies on `serde_json::Value::as_u64`: the value of a JSON number that is
/// a non-negative integer fitting 64 bits; `None` otherwise.
#[verifier::external_body]
fn value_as_u64(v: &serde_json::Value) -> (r: Option<u64>)
    ensures
        match val_model(*v) {
            JsonModel::Num(u) => r == u,
            _ => r is None,
        },
{
    v.as_u64()
}

/// Relies on `serde_json::Value::as_bool`: the value of a JSON boolean;
/// `None` on any other kind of value.
#[verifier::external_body]
fn value_as_bool(v: &serde_json::Value) -> (r: Option<bool>)
    ensures
        match val_model(*v) {
            JsonModel::Bool(b) => r == Some(b),
            _ => r is None,
        },
{
    v.as_bool()
}

/// The number under `key` of the JSON object `v`.
fn get_u64_field(v: &serde_json::Value, key: &str) -> (r: Result<u64, FetchError>)
    ensures
        match r {
            Ok(x) => model_u64_field(val_model(*v), key@) == Some(x),
            Err(e) => e == FetchError::ResponseParse && model_u64_field(val_model(*v), key@)
                is None,
        },
{
    match value_get(v, key) {
        Some(field) => match value_as_u64(field) {
            Some(x) => Ok(x),
            None => Err(FetchError::ResponseParse),
        },
        None => Err(FetchError::ResponseParse),
    }
}

/// The text under `key` of the JSON object `v`, as an owned string.
fn get_string_field(v: &serde_json::Value, key: &str) -> (r: Result<String, FetchError>)
    ensures
        match r {
            Ok(s) => model_str_field(val_model(*v), key@) == Some(s@),
            Err(e) => e == FetchError::ResponseParse && model_str_field(val_model(*v), key@)
                is None,
        },
{
    match value_get(v, key) {
        Some(field) => match value_as_str(field) {
            Some(s) => Ok(s.to_owned()),
            None => Err(FetchError::ResponseParse),
        },
        None => Err(FetchError::ResponseParse),
    }
}

/// The contributor record one entry decodes to: the handle under `login` —
/// or, when no `login` key exists, under its alias `name` — and a commit
/// count that fits 32 bits; nothing when the entry lacks the shape.
pub open spec fn contributor_model(m: JsonModel) -> Option<RepoContributorsInfoView> {
    let login = if model_has_key(m, "login"@) {
        match model_lookup(m, "login"@) {
            JsonModel::Str(s) => Some(s),
            _ => None,
        }
    } else if model_has_key(m, "name"@) {
        match model_lookup(m, "name"@) {
            JsonModel::Str(s) => Some(s),
            _ => None,
        }
    } else {
        None
    };
    match login {
        Some(l) => match model_u64_field(m, "contributions"@) {
            Some(x) => if x <= u32::MAX {
                Some(RepoContributorsInfoView { login: l, contributions: x as u32 })
            } else {
                None
            },
            None => None,
        },
        None => None,
    }
}

/// The contributor records a sequence of entries decodes to, all or nothing.
pub open spec fn contributor_seq_model(elems: Seq<JsonModel>) -> Option<
    Seq<RepoContributorsInfoView>,
>
    decreases elems.len(),
{
    if elems.len() == 0 {
        Some(Seq::empty())
    } else {
        match contributor_seq_model(elems.drop_last()) {
            Some(pre) => match contributor_model(elems.last()) {
                Some(c) => Some(pre.push(c)),
                None => None,
            },
            None => None,
        }
    }
}

/// The contributor page a parsed document decodes to: an array whose every
/// entry is a contributor record.
pub open spec fn contributor_page_model(doc: Option<JsonModel>) -> Option<
    Seq<RepoContributorsInfoView>,
> {
    match doc {
        Some(JsonModel::Arr(elems)) => contributor_seq_model(elems),
        _ => None,
    }
}

/// A sequence of entries with an undecodable prefix is undecodable whole.
proof fn lemma_contributor_seq_model_prefix(elems: Seq<JsonModel>, k: int)
    requires
        0 <= k <= elems.len(),
        contributor_seq_model(elems.take(k)) is None,
    ensures
        contributor_seq_model(elems) is None,
    decreases elems.len() - k,
{
    if k == elems.len() {
        assert(elems.take(k) =~= elems);
    } else {
        assert(elems.take(k + 1).drop_last() =~= elems.take(k));
        lemma_contributor_seq_model_prefix(elems, k + 1);
    }
}

/// The repository record one catalog entry decodes to; its derived fields
/// start out empty — no commits counted, no ratio computed.
pub open spec fn repo_model(m: JsonModel) -> Option<SingleRepoInfoView> {
    let id = model_u64_field(m, "id"@);
    let name = model_str_field(m, "name"@);
    let full_name = model_str_field(m, "full_name"@);
    let stargazers_count = model_u64_field(m, "stargazers_count"@);
    let commits_url = model_str_field(m, "commits_url"@);
    let size = model_u64_field(m, "size"@);
    let owner_login = if model_has_key(m, "owner"@) {
        model_str_field(model_lookup(m, "owner"@), "login"@)
    } else {
        None
    };
    if id is Some && name is Some && full_name is Some && stargazers_count is Some && commits_url
        is Some && size is Some && owner_login is Some {
        Some(
            SingleRepoInfoView {
                id: id->Some_0,
                name: name->Some_0,
                full_name: full_name->Some_0,
                stargazers_count: stargazers_count->Some_0,
                commits_url: commits_url->Some_0,
                owner: OwnerInfoView { login: owner_login->Some_0 },
                size: size->Some_0,
                num_of_commits: 0,
                bus_factor: None,
            },
        )
    } else {
        None
    }
}

/// The repository records a sequence of entries decodes to, all or nothing.
pub open spec fn repo_seq_model(elems: Seq<JsonModel>) -> Option<Seq<SingleRepoInfoView>>
    decreases elems.len(),
{
    if elems.len() == 0 {
        Some(Seq::empty())
    } else {
        match repo_seq_model(elems.drop_last()) {
            Some(pre) => match repo_model(elems.last()) {
                Some(r) => Some(pre.push(r)),
                None => None,
            },
            None => None,
        }
    }
}

/// A sequence of entries with an undecodable prefix is undecodable whole.
proof fn lemma_repo_seq_model_prefix(elems: Seq<JsonModel>, k: int)
    requires
        0 <= k <= elems.len(),
        repo_seq_model(elems.take(k)) is None,
    ensures
        repo_seq_model(elems) is None,
    decreases elems.len() - k,
{
    if k == elems.len() {
        assert(elems.take(k) =~= elems);
    } else {
        assert(elems.take(k + 1).drop_last() =~= elems.take(k));
        lemma_repo_seq_model_prefix(elems, k + 1);
    }
}

/// The catalog page a parsed document decodes to: the ranked items plus the
/// search bookkeeping fields.
pub open spec fn catalog_page_model(doc: Option<JsonModel>) -> Option<RepositoriesInfoView> {
    match doc {
        Some(m) => {
            let total_count = model_u64_field(m, "total_count"@);
            let incomplete_results = model_bool_field(m, "incomplete_results"@);
            let items = if model_has_key(m, "items"@) {
                match model_lookup(m, "items"@) {
                    JsonModel::Arr(elems) => repo_seq_model(elems),
                    _ => None,
                }
            } else {
                None
            };
            if total_count is Some && incomplete_results is Some && items is Some {
                Some(
                    RepositoriesInfoView {
                        items: items->Some_0,
                        total_count: total_count->Some_0,
                        incomplete_results: incomplete_results->Some_0,
                    },
                )
            } else {
                None
            }
        },
        None => None,
    }
}

/// Decodes one contributor entry: an object with the contributor's handle —
/// under `login`, or under its alias `name` when the upstream reports an
/// anonymous contributor — and a commit count that fits 32 bits.
fn decode_contributor(v: &serde_json::Value) -> (r: Result<RepoContributorsInfo, FetchError>)
    ensures
        match r {
            Ok(c) => contributor_model(val_model(*v)) == Some(c@),
            Err(e) => e == FetchError::ResponseParse && contributor_model(val_model(*v)) is None,
        },
{
    let login_field = match value_get(v, "login") {
        Some(f) => f,
        None => {
            match value_get(v, "name") {
                Some(f) => f,
                None => {
                    return Err(FetchError::ResponseParse);
                },
            }
        },
    };
    let login = match value_as_str(login_field) {
        Some(s) => s,
        None => {
            return Err(FetchError::ResponseParse);
        },
    };
    let contributions = match value_get(v, "contributions") {
        Some(f) => match value_as_u64(f) {
            Some(x) => x,
            None => {
                return Err(FetchError::ResponseParse);
            },
        },
        None => {
            return Err(FetchError::ResponseParse);
        },
    };
    if contributions > u32::MAX as u64 {
        return Err(FetchError::ResponseParse);
    }
    Ok(RepoContributorsInfo { login: login.to_owned(), contributions: contributions as u32 })
}

/// Decodes one contributor page: a JSON array of contributor entries.
/// Succeeds exactly when the body parses and every entry has the expected
/// shape, and then returns exactly the decoded records, in listing order.
pub fn decode_contributor_page(body: &str) -> (r: Result<Vec<RepoContributorsInfo>, FetchError>)
    ensures
        match r {
            Ok(c) => contributor_page_model(json_of(body@)) == Some(views_of_contributors(c@)),
            Err(e) => e == FetchError::ResponseParse && contributor_page_model(json_of(body@))
                is None,
        },
{
    let parsed = match json_parse(body) {
        Ok(v) => v,
        Err(_) => {
            return Err(FetchError::ResponseParse);
        },
    };
    let entries = match value_as_array(&parsed) {
        Some(a) => a,
        None => {
            return Err(FetchError::ResponseParse);
        },
    };
    let ghost elems = models_of(entries@);
    let mut out: Vec<RepoContributorsInfo> = Vec::new();
    let mut i: usize = 0;
    while i < entries.len()
        invariant
            i <= entries@.len(),
            elems == models_of(entries@),
            elems.len() == entries@.len(),
            json_of(body@) == Some(JsonModel::Arr(elems)),
            contributor_seq_model(elems.take(i as int)) == Some(views_of_contributors(out@)),
        decreases entries@.len() - i,
    {
        proof {
            assert(elems.take(i as int + 1).drop_last() =~= elems.take(i as int));
            assert(elems.take(i as int + 1).last() == val_model(entries@[i as int]));
        }
        let ghost prev = out@;
        match decode_contributor(&entries[i]) {
            Ok(c) => {
                out.push(c);
                proof {
                    assert(views_of_contributors(out@) =~= views_of_contributors(prev).push(
                        out@.last()@,
                    ));
                }
            },
            Err(e) => {
                proof {
                    lemma_contributor_seq_model_prefix(elems, i as int + 1);
                }
                return Err(e);
            },
        }
        i += 1;
    }
    proof {
        assert(elems.take(elems.len() as int) =~= elems);
    }
    Ok(out)
}

/// Decodes one repository entry of a catalog page. The derived fields start
/// out empty: no commits counted, no ratio computed.
fn decode_repo(v: &serde_json::Value) -> (r: Result<SingleRepoInfo, FetchError>)
    ensures
        match r {
            Ok(repo) => repo_model(val_model(*v)) == Some(repo@),
            Err(e) => e == FetchError::ResponseParse && repo_model(val_model(*v)) is None,
        },
{
    let id = match get_u64_field(v, "id") {
        Ok(x) => x,
        Err(e) => {
            return Err(e);
        },
    };
    let name = match get_string_field(v, "name") {
        Ok(s) => s,
        Err(e) => {
            return Err(e);
        },
    };
    let full_name = match get_string_field(v, "full_name") {
        Ok(s) => s,
        Err(e) => {
            return Err(e);
        },
    };
    let stargazers_count = match get_u64_field(v, "stargazers_count") {
        Ok(x) => x,
        Err(e) => {
            return Err(e);
        },
    };
    let commits_url = match get_string_field(v, "commits_url") {
        Ok(s) => s,
        Err(e) => {
            return Err(e);
        },
    };
    let size = match get_u64_field(v, "size") {
        Ok(x) => x,
        Err(e) => {
            return Err(e);
        },
    };
    let owner_field = match value_get(v, "owner") {
        Some(f) => f,
        None => {
            return Err(FetchError::ResponseParse);
        },
    };
    let owner_login = match get_string_field(owner_field, "login") {
        Ok(s) => s,
        Err(e) => {
            return Err(e);
        },
    };
    Ok(
        SingleRepoInfo {
            id,
            name,
            full_name,
            stargazers_count,
            commits_url,
            owner: OwnerInfo { login: owner_login },
            size,
            num_of_commits: 0,
            bus_factor: None,
        },
    )
}

/// Decodes one page of the repository catalog: an object with the ranked
/// `items` plus the search bookkeeping fields. Succeeds exactly when the body
/// parses and has the catalog shape, and then returns exactly the decoded
/// page.
pub fn decode_catalog_page(body: &str) -> (r: Result<RepositoriesInfo, FetchError>)
    ensures
        match r {
            Ok(page) => catalog_page_model(json_of(body@)) == Some(page@),
            Err(e) => e == FetchError::ResponseParse && catalog_page_model(json_of(body@))
                is None,
        },
{
    let parsed = match json_parse(body) {
        Ok(v) => v,
        Err(_) => {
            return Err(FetchError::ResponseParse);
        },
    };
    let total_count = match get_u64_field(&parsed, "total_count") {
        Ok(x) => x,
        Err(e) => {
            return Err(e);
        },
    };
    let incomplete_results = match value_get(&parsed, "incomplete_results") {
        Some(f) => match value_as_bool(f) {
            Some(b) => b,
            None => {
                return Err(FetchError::ResponseParse);
            },
        },
        None => {
            return Err(FetchError::ResponseParse);
        },
    };
    let entries = match value_get(&parsed, "items") {
        Some(f) => match value_as_array(f) {
            Some(a) => a,
            None => {
                return Err(FetchError::ResponseParse);
            },
        },
        None => {
            return Err(FetchError::ResponseParse);
        },
    };
    let ghost elems = models_of(entries@);
    let mut items: Vec<SingleRepoInfo> = Vec::new();
    let mut i: usize = 0;
    while i < entries.len()
        invariant
            i <= entries@.len(),
            elems == models_of(entries@),
            elems.len() == entries@.len(),
            json_of(body@) == Some(val_model(parsed)),
            model_has_key(val_model(parsed), "items"@),
            model_lookup(val_model(parsed), "items"@) == JsonModel::Arr(elems),
            model_u64_field(val_model(parsed), "total_count"@) == Some(total_count),
            model_bool_field(val_model(parsed), "incomplete_results"@) == Some(
                incomplete_results,
            ),
            repo_seq_model(elems.take(i as int)) == Some(views_of_repos(items@)),
        decreases entries@.len() - i,
    {
        proof {
            assert(elems.take(i as int + 1).drop_last() =~= elems.take(i as int));
            assert(elems.take(i as int + 1).last() == val_model(entries@[i as int]));
        }
        let ghost prev = items@;
        match decode_repo(&entries[i]) {
            Ok(repo) => {
                items.push(repo);
                proof {
                    assert(views_of_repos(items@) =~= views_of_repos(prev).push(items@.last()@));
                }
            },
            Err(e) => {
                proof {
                    lemma_repo_seq_model_prefix(elems, i as int + 1);
                }
                return Err(e);
            },
        }
        i += 1;
    }
    proof {
        assert(elems.take(elems.len() as int) =~= elems);
    }
    let page = RepositoriesInfo { items, total_count, incomplete_results };
    proof {
        assert(catalog_page_model(json_of(body@)) == Some(page@));
    }
    Ok(page)
}

} // verus!
