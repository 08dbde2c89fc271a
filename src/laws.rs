//! Properties of resolution that hold of every document.

use vstd::prelude::*;
use crate::config::{
    apply_spec, command_spec, empty_draft, env_entries_spec, env_spec, finalize_spec, resolve_spec,
    resolves_to, schema_result, timeout_spec, variants_of, CommandField, ConfigError, ConfigModel, Config, DraftModel,
    SchemaError,
};
use crate::json::{member, Json};
use crate::selector::decimal_index;

verus! {

/// The words of the command field `key` of `doc`, where it has a valid one.
pub open spec fn field_words(doc: Json, key: Seq<char>, field: CommandField) -> Option<
    Seq<Seq<char>>,
> {
    match doc {
        Json::Object(entries) => match member(entries@, key) {
            Some(v) => match command_spec(v, field) {
                Ok(w) => Some(w),
                Err(_) => None,
            },
            None => None,
        },
        _ => None,
    }
}

/// The `timeout` of `doc`, where it has a valid one.
pub open spec fn field_timeout(doc: Json) -> Option<u64> {
    match doc {
        Json::Object(entries) => match member(entries@, "timeout"@) {
            Some(v) => match timeout_spec(v) {
                Ok(t) => Some(t),
                Err(_) => None,
            },
            None => None,
        },
        _ => None,
    }
}

/// The variables that the `env` of `doc` sets, where it has a valid one.
pub open spec fn field_env(doc: Json) -> Map<Seq<char>, Seq<char>> {
    match doc {
        Json::Object(entries) => match member(entries@, "env"@) {
            Some(v) => match env_spec(Map::empty(), v) {
                Ok(m) => m,
                Err(_) => Map::empty(),
            },
            None => Map::empty(),
        },
        _ => Map::empty(),
    }
}

/// `b` where it is given, else `a`.
pub open spec fn prefer<T>(a: Option<T>, b: Option<T>) -> Option<T> {
    match b {
        Some(x) => Some(x),
        None => a,
    }
}

/// The draft `d` with the fields of `doc` laid over it: `run`, `setup` and
/// `timeout` replaced where `doc` gives them, `env` merged with the names of
/// `doc` winning.
pub open spec fn overlaid(d: DraftModel, doc: Json) -> DraftModel {
    DraftModel {
        setup: prefer(d.setup, field_words(doc, "setup"@, CommandField::Setup)),
        run: prefer(d.run, field_words(doc, "run"@, CommandField::Run)),
        timeout: prefer(d.timeout, field_timeout(doc)),
        env: d.env.union_prefer_right(field_env(doc)),
    }
}

/// Setting the members of an `env` object over `m` is merging the variables
/// that they set alone into `m`.
proof fn lemma_env_merge(m: Map<Seq<char>, Seq<char>>, entries: Seq<(String, Json)>)
    requires
        env_entries_spec(m, entries) is Ok,
    ensures
        env_entries_spec(Map::empty(), entries) is Ok,
        env_entries_spec(m, entries)->Ok_0 == m.union_prefer_right(
            env_entries_spec(Map::empty(), entries)->Ok_0,
        ),
    decreases entries.len(),
{
    if entries.len() > 0 {
        lemma_env_merge(m, entries.drop_last());
        let x = env_entries_spec(Map::empty(), entries.drop_last())->Ok_0;
        if let Json::Str(s) = entries.last().1 {
            assert(m.union_prefer_right(x).insert(entries.last().0@, s@) =~= m.union_prefer_right(
                x.insert(entries.last().0@, s@),
            ));
        }
    }
}

/// Applying a document's fields to a draft lays them over it.
pub proof fn law_apply_overlays(d: DraftModel, doc: Json)
    requires
        apply_spec(d, doc) is Ok,
    ensures
        apply_spec(d, doc)->Ok_0 == overlaid(d, doc),
{
    if let Json::Object(entries) = doc {
        if let Some(v) = member(entries@, "env"@) {
            if let Json::Object(es) = v {
                lemma_env_merge(d.env, es@);
            }
        } else {
            assert(d.env.union_prefer_right(Map::empty()) =~= d.env);
        }
    }
}

/// A document without `variants` whose fields are valid resolves, with any
/// selector, to exactly its own fields, and fails exactly when it has no
/// `run`, with the error that says so.
pub proof fn law_base_only(doc: Json, selector: Option<String>)
    requires
        apply_spec(empty_draft(), doc) is Ok,
        variants_of(doc) is None,
    ensures
        resolve_spec(doc, selector) is Ok <==> field_words(doc, "run"@, CommandField::Run) is Some,
        match resolve_spec(doc, selector) {
            Ok(c) => Some(c.run) == field_words(doc, "run"@, CommandField::Run) && c.setup
                == field_words(doc, "setup"@, CommandField::Setup) && c.timeout == field_timeout(
                doc,
            ) && c.env == field_env(doc),
            Err(e) => e == ConfigError::Schema(SchemaError::RunMissing),
        },
{
    law_apply_overlays(empty_draft(), doc);
    assert(Map::<Seq<char>, Seq<char>>::empty().union_prefer_right(field_env(doc)) =~= field_env(
        doc,
    ));
}

/// With an array of variants and a selector that reads as an index within
/// it, the variant's `run`, `setup` and `timeout` replace the document's, its
/// `env` is merged over the document's with its own names winning, and the
/// result fails only where neither gives a `run`.
pub proof fn law_array_variant(doc: Json, items: Vec<Json>, selector: String)
    requires
        apply_spec(empty_draft(), doc) is Ok,
        variants_of(doc) == Some(Json::Array(items)),
        decimal_index(selector@) matches Some(i) && i < items@.len(),
        apply_spec(
            apply_spec(empty_draft(), doc)->Ok_0,
            items@[decimal_index(selector@)->Some_0 as int],
        ) is Ok,
    ensures
        ({
            let base = apply_spec(empty_draft(), doc)->Ok_0;
            let variant = items@[decimal_index(selector@)->Some_0 as int];
            resolve_spec(doc, Some(selector)) == schema_result(
                finalize_spec(overlaid(base, variant)),
            ) && base == overlaid(empty_draft(), doc)
        }),
{
    let base = apply_spec(empty_draft(), doc)->Ok_0;
    let variant = items@[decimal_index(selector@)->Some_0 as int];
    law_apply_overlays(empty_draft(), doc);
    law_apply_overlays(base, variant);
}

/// With an object of variants and a selector that is one of its keys, the
/// variant under that key is laid over the document as with an array.
pub proof fn law_object_variant(doc: Json, entries: Vec<(String, Json)>, selector: String)
    requires
        apply_spec(empty_draft(), doc) is Ok,
        variants_of(doc) == Some(Json::Object(entries)),
        member(entries@, selector@) is Some,
        apply_spec(apply_spec(empty_draft(), doc)->Ok_0, member(entries@, selector@)->Some_0) is Ok,
    ensures
        ({
            let base = apply_spec(empty_draft(), doc)->Ok_0;
            let variant = member(entries@, selector@)->Some_0;
            resolve_spec(doc, Some(selector)) == schema_result(
                finalize_spec(overlaid(base, variant)),
            ) && base == overlaid(empty_draft(), doc)
        }),
{
    let base = apply_spec(empty_draft(), doc)->Ok_0;
    let variant = member(entries@, selector@)->Some_0;
    law_apply_overlays(empty_draft(), doc);
    law_apply_overlays(base, variant);
}

/// An index past the end of an array of variants fails with the error that
/// names that index.
pub proof fn law_index_out_of_range(doc: Json, items: Vec<Json>, selector: String)
    requires
        apply_spec(empty_draft(), doc) is Ok,
        variants_of(doc) == Some(Json::Array(items)),
        decimal_index(selector@) matches Some(i) && i >= items@.len(),
    ensures
        resolve_spec(doc, Some(selector)) == Err::<ConfigModel, ConfigError>(
            ConfigError::Schema(SchemaError::VariantIndexMissing(decimal_index(selector@)->Some_0)),
        ),
{
}

/// A selector that is none of the keys of an object of variants fails with
/// the error that names that key.
pub proof fn law_key_missing(doc: Json, entries: Vec<(String, Json)>, selector: String)
    requires
        apply_spec(empty_draft(), doc) is Ok,
        variants_of(doc) == Some(Json::Object(entries)),
        member(entries@, selector@) is None,
    ensures
        resolve_spec(doc, Some(selector)) == Err::<ConfigModel, ConfigError>(
            ConfigError::Schema(SchemaError::VariantKeyMissing(selector)),
        ),
{
}

/// Resolving the same document with the same selector twice gives the same
/// outcome: equal configurations, or the same error.
pub proof fn law_resolution_repeats(
    doc: Json,
    selector: Option<String>,
    first: Result<Config, ConfigError>,
    second: Result<Config, ConfigError>,
)
    requires
        resolves_to(doc, selector, first),
        resolves_to(doc, selector, second),
    ensures
        first is Ok <==> second is Ok,
        first matches Ok(a) ==> second matches Ok(b) && a@ == b@,
        first is Err ==> first == second,
{
}

} // verus!
