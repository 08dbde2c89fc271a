//! Overlaying configuration documents onto a draft and finalizing it.

use vstd::prelude::*;
use crate::env_map::EnvMap;
use crate::json::{get_member, member, Json};
use crate::selector::{decimal_index, parse_index};
use crate::shell::{shell_words_of, split_words, strings_view};

verus! {

/// The two fields that hold a shell command.
#[derive(Debug, Clone, Copy, PartialEq, Eq)]
pub enum CommandField {
    Run,
    Setup,
}

/// A document that is valid JSON but not a valid configuration.
#[derive(Debug, PartialEq, Eq)]
pub enum SchemaError {
    /// A document or variant is not a JSON object.
    InvalidJson,
    /// A command field is not a string.
    CommandNotString(CommandField),
    /// A command field has malformed quoting or escaping.
    MalformedCommand(CommandField),
    /// `timeout` is not a non-negative integer.
    BadTimeout,
    /// `env` is not an object.
    EnvNotObject,
    /// A value in `env` is not a string.
    EnvValueNotString,
    /// The selector of an array of variants is not a decimal index.
    BadVariantIndex(String),
    /// The selector of an array of variants is past its end.
    VariantIndexMissing(usize),
    /// The selector of an object of variants is none of its keys.
    VariantKeyMissing(String),
    /// `variants` is neither an array nor an object.
    VariantsNotCollection,
    /// No `run` was given.
    RunMissing,
}

/// Why a configuration could not be resolved.
#[derive(Debug, PartialEq, Eq)]
pub enum ConfigError {
    /// The file could not be read.
    Io(String),
    /// The text is not JSON.
    Parse(String),
    /// The document has `variants` but no selector was given.
    SelectorMissing,
    /// The document breaks the configuration schema.
    Schema(SchemaError),
}

/// What a draft holds.
pub struct DraftModel {
    pub setup: Option<Seq<Seq<char>>>,
    pub run: Option<Seq<Seq<char>>>,
    pub timeout: Option<u64>,
    pub env: Map<Seq<char>, Seq<char>>,
}

/// What a finalized configuration holds.
pub struct ConfigModel {
    pub setup: Option<Seq<Seq<char>>>,
    pub run: Seq<Seq<char>>,
    pub timeout: Option<u64>,
    pub env: Map<Seq<char>, Seq<char>>,
}

/// A configuration under construction.
#[derive(Debug, PartialEq, Eq)]
pub struct DraftConfig {
    pub setup: Option<Vec<String>>,
    pub run: Option<Vec<String>>,
    pub timeout: Option<u64>,
    pub env: EnvMap,
}

/// A configuration ready to be run.
#[derive(Debug, PartialEq, Eq)]
pub struct Config {
    pub setup: Option<Vec<String>>,
    pub run: Vec<String>,
    pub timeout: Option<u64>,
    pub env: EnvMap,
}

/// The views of the words of an optional command.
pub open spec fn words_view(w: Option<Vec<String>>) -> Option<Seq<Seq<char>>> {
    match w {
        Some(v) => Some(strings_view(v@)),
        None => None,
    }
}

impl View for DraftConfig {
    type V = DraftModel;

    open spec fn view(&self) -> DraftModel {
        DraftModel {
            setup: words_view(self.setup),
            run: words_view(self.run),
            timeout: self.timeout,
            env: self.env@,
        }
    }
}

impl View for Config {
    type V = ConfigModel;

    open spec fn view(&self) -> ConfigModel {
        ConfigModel {
            setup: words_view(self.setup),
            run: strings_view(self.run@),
            timeout: self.timeout,
            env: self.env@,
        }
    }
}

/// The draft that nothing has been applied to.
pub open spec fn empty_draft() -> DraftModel {
    DraftModel { setup: None, run: None, timeout: None, env: Map::empty() }
}

/// The words of a command field whose value is `v`.
pub open spec fn command_spec(v: Json, field: CommandField) -> Result<Seq<Seq<char>>, SchemaError> {
    match v {
        Json::Str(s) => match shell_words_of(s@) {
            Some(w) => Ok(w),
            None => Err(SchemaError::MalformedCommand(field)),
        },
        _ => Err(SchemaError::CommandNotString(field)),
    }
}

/// `env` with the members of an `env` object set in order.
pub open spec fn env_entries_spec(
    env: Map<Seq<char>, Seq<char>>,
    entries: Seq<(String, Json)>,
) -> Result<Map<Seq<char>, Seq<char>>, SchemaError>
    decreases entries.len(),
{
    if entries.len() == 0 {
        Ok(env)
    } else {
        match env_entries_spec(env, entries.drop_last()) {
            Ok(m) => match entries.last().1 {
                Json::Str(s) => Ok(m.insert(entries.last().0@, s@)),
                _ => Err(SchemaError::EnvValueNotString),
            },
            Err(e) => Err(e),
        }
    }
}

/// `env` with an `env` field whose value is `v` merged in.
pub open spec fn env_spec(env: Map<Seq<char>, Seq<char>>, v: Json) -> Result<
    Map<Seq<char>, Seq<char>>,
    SchemaError,
> {
    match v {
        Json::Object(entries) => env_entries_spec(env, entries@),
        _ => Err(SchemaError::EnvNotObject),
    }
}

/// The timeout that a `timeout` field whose value is `v` gives.
pub open spec fn timeout_spec(v: Json) -> Result<u64, SchemaError> {
    match v {
        Json::Number(Some(n)) => Ok(n),
        _ => Err(SchemaError::BadTimeout),
    }
}

/// `d` with the `run` member of `entries`, if any, applied.
pub open spec fn with_run(d: DraftModel, entries: Seq<(String, Json)>) -> Result<DraftModel, SchemaError> {
    match member(entries, "run"@) {
        None => Ok(d),
        Some(v) => match command_spec(v, CommandField::Run) {
            Ok(w) => Ok(DraftModel { run: Some(w), ..d }),
            Err(e) => Err(e),
        },
    }
}

/// `d` with the `setup` member of `entries`, if any, applied.
pub open spec fn with_setup(d: DraftModel, entries: Seq<(String, Json)>) -> Result<DraftModel, SchemaError> {
    match member(entries, "setup"@) {
        None => Ok(d),
        Some(v) => match command_spec(v, CommandField::Setup) {
            Ok(w) => Ok(DraftModel { setup: Some(w), ..d }),
            Err(e) => Err(e),
        },
    }
}

/// `d` with the `timeout` member of `entries`, if any, applied.
pub open spec fn with_timeout(d: DraftModel, entries: Seq<(String, Json)>) -> Result<DraftModel, SchemaError> {
    match member(entries, "timeout"@) {
        None => Ok(d),
        Some(v) => match timeout_spec(v) {
            Ok(t) => Ok(DraftModel { timeout: Some(t), ..d }),
            Err(e) => Err(e),
        },
    }
}

/// `d` with the `env` member of `entries`, if any, merged in.
pub open spec fn with_env(d: DraftModel, entries: Seq<(String, Json)>) -> Result<DraftModel, SchemaError> {
    match member(entries, "env"@) {
        None => Ok(d),
        Some(v) => match env_spec(d.env, v) {
            Ok(m) => Ok(DraftModel { env: m, ..d }),
            Err(e) => Err(e),
        },
    }
}

/// The draft that applying the fields of `doc` to `d` gives: `run`, `setup`,
/// `timeout` and `env` in that order, the first failure ending it.
pub open spec fn apply_spec(d: DraftModel, doc: Json) -> Result<DraftModel, SchemaError> {
    match doc {
        Json::Object(entries) => match with_run(d, entries@) {
            Err(e) => Err(e),
            Ok(d1) => match with_setup(d1, entries@) {
                Err(e) => Err(e),
                Ok(d2) => match with_timeout(d2, entries@) {
                    Err(e) => Err(e),
                    Ok(d3) => with_env(d3, entries@),
                },
            },
        },
        _ => Err(SchemaError::InvalidJson),
    }
}

/// The command that splitting gave, or the error that a malformed command
/// field `field` raises.
pub fn words_or_error(split: Option<Vec<String>>, field: CommandField) -> (r: Result<
    Vec<String>,
    SchemaError,
>)
    ensures
        match split {
            Some(w) => r == Ok::<Vec<String>, SchemaError>(w),
            None => r == Err::<Vec<String>, SchemaError>(SchemaError::MalformedCommand(field)),
        },
{
    match split {
        Some(w) => Ok(w),
        None => Err(SchemaError::MalformedCommand(field)),
    }
}

/// The words of the command that the field `field` holds as `value`.
pub fn shell_command(value: &Json, field: CommandField) -> (r: Result<Vec<String>, SchemaError>)
    ensures
        match command_spec(*value, field) {
            Ok(w) => r matches Ok(v) && strings_view(v@) == w,
            Err(e) => r == Err::<Vec<String>, SchemaError>(e),
        },
{
    match value {
        Json::Str(s) => words_or_error(split_words(s.as_str()), field),
        _ => Err(SchemaError::CommandNotString(field)),
    }
}

/// Sets in `env` each member of the `env` field's value `value`, in order.
/// On failure `env` may hold some of the members.
pub fn merge_env(env: &mut EnvMap, value: &Json) -> (r: Result<(), SchemaError>)
    requires
        old(env).wf(),
    ensures
        final(env).wf(),
        match env_spec(old(env)@, *value) {
            Ok(m) => r is Ok && final(env)@ == m,
            Err(e) => r == Err::<(), SchemaError>(e),
        },
{
    let entries = match value {
        Json::Object(entries) => entries,
        _ => return Err(SchemaError::EnvNotObject),
    };
    let ghost start = env@;
    let mut i: usize = 0;
    while i < entries.len()
        invariant
            i <= entries@.len(),
            *value == Json::Object(*entries),
            start == old(env)@,
            env.wf(),
            env_entries_spec(start, entries@.subrange(0, i as int)) == Ok::<
                Map<Seq<char>, Seq<char>>,
                SchemaError,
            >(env@),
        decreases entries.len() - i,
    {
        let ghost next = entries@.subrange(0, i + 1);
        assert(next.drop_last() =~= entries@.subrange(0, i as int));
        match &entries[i].1 {
            Json::Str(s) => {
                env.insert(entries[i].0.clone(), s.clone());
            },
            _ => {
                proof {
                    assert(next.last() == entries@[i as int]);
                    assert(env_entries_spec(start, next) == Err::<
                        Map<Seq<char>, Seq<char>>,
                        SchemaError,
                    >(SchemaError::EnvValueNotString));
                    lemma_env_error_sticks(start, entries@, i + 1);
                }
                return Err(SchemaError::EnvValueNotString);
            },
        }
        i = i + 1;
    }
    assert(entries@.subrange(0, i as int) =~= entries@);
    Ok(())
}

/// Once a prefix of the members fails, the whole of them fails alike.
proof fn lemma_env_error_sticks(env: Map<Seq<char>, Seq<char>>, entries: Seq<(String, Json)>, n: int)
    requires
        0 <= n <= entries.len(),
        env_entries_spec(env, entries.subrange(0, n)) is Err,
    ensures
        env_entries_spec(env, entries) == env_entries_spec(env, entries.subrange(0, n)),
    decreases entries.len() - n,
{
    if n < entries.len() {
        let longer = entries.subrange(0, n + 1);
        assert(longer.drop_last() =~= entries.subrange(0, n));
        lemma_env_error_sticks(env, entries, n + 1);
    } else {
        assert(entries.subrange(0, n) =~= entries);
    }
}

impl DraftConfig {
    /// A draft with nothing set.
    pub fn new() -> (r: DraftConfig)
        ensures
            r.wf(),
            r@ == empty_draft(),
    {
        DraftConfig { setup: None, run: None, timeout: None, env: EnvMap::new() }
    }

    /// The draft's environment keeps each name once.
    pub open spec fn wf(&self) -> bool {
        self.env.wf()
    }
}

/// Applies the fields of the document `doc` to `draft`: each of `run`,
/// `setup` and `timeout` that `doc` has replaces the draft's, and the members
/// of its `env` are set over the draft's environment. On failure the draft
/// may hold part of the fields.
pub fn apply_fields(draft: &mut DraftConfig, doc: &Json) -> (r: Result<(), SchemaError>)
    requires
        old(draft).wf(),
    ensures
        final(draft).wf(),
        match apply_spec(old(draft)@, *doc) {
            Ok(d) => r is Ok && final(draft)@ == d,
            Err(e) => r == Err::<(), SchemaError>(e),
        },
{
    let entries = match doc {
        Json::Object(entries) => entries,
        _ => return Err(SchemaError::InvalidJson),
    };
    let run_key = "run".to_owned();
    if let Some(v) = get_member(entries, &run_key) {
        match shell_command(v, CommandField::Run) {
            Ok(w) => draft.run = Some(w),
            Err(e) => return Err(e),
        }
    }
    let setup_key = "setup".to_owned();
    if let Some(v) = get_member(entries, &setup_key) {
        match shell_command(v, CommandField::Setup) {
            Ok(w) => draft.setup = Some(w),
            Err(e) => return Err(e),
        }
    }
    let timeout_key = "timeout".to_owned();
    if let Some(v) = get_member(entries, &timeout_key) {
        match v {
            Json::Number(Some(n)) => draft.timeout = Some(*n),
            _ => return Err(SchemaError::BadTimeout),
        }
    }
    let env_key = "env".to_owned();
    if let Some(v) = get_member(entries, &env_key) {
        match merge_env(&mut draft.env, v) {
            Ok(()) => {},
            Err(e) => return Err(e),
        }
    }
    Ok(())
}

/// The configuration that finalizing a draft `d` gives: it needs a `run`.
pub open spec fn finalize_spec(d: DraftModel) -> Result<ConfigModel, SchemaError> {
    match d.run {
        Some(run) => Ok(ConfigModel { setup: d.setup, run: run, timeout: d.timeout, env: d.env }),
        None => Err(SchemaError::RunMissing),
    }
}

impl Config {
    /// The environment keeps each name once.
    pub open spec fn wf(&self) -> bool {
        self.env.wf()
    }

    /// Finalizes `draft`, which must have a `run`.
    pub fn try_from(draft: DraftConfig) -> (r: Result<Config, ConfigError>)
        requires
            draft.wf(),
        ensures
            match finalize_spec(draft@) {
                Ok(c) => r matches Ok(x) && x@ == c && x.wf(),
                Err(e) => r == Err::<Config, ConfigError>(ConfigError::Schema(e)),
            },
    {
        match draft.run {
            Some(run) => Ok(Config { setup: draft.setup, run, timeout: draft.timeout, env: draft.env }),
            None => Err(ConfigError::Schema(SchemaError::RunMissing)),
        }
    }
}

/// The variant that `selector` picks out of `variants`: an array is indexed by
/// the selector read as a decimal number, an object is looked up by it.
pub open spec fn select_spec(variants: Json, selector: String) -> Result<Json, SchemaError> {
    match variants {
        Json::Array(items) => match decimal_index(selector@) {
            Some(i) => if i < items@.len() {
                Ok(items@[i as int])
            } else {
                Err(SchemaError::VariantIndexMissing(i))
            },
            None => Err(SchemaError::BadVariantIndex(selector)),
        },
        Json::Object(entries) => match member(entries@, selector@) {
            Some(v) => Ok(v),
            None => Err(SchemaError::VariantKeyMissing(selector)),
        },
        _ => Err(SchemaError::VariantsNotCollection),
    }
}

/// Picks the variant that `selector` names out of the `variants` field's value.
pub fn select_variant<'a>(variants: &'a Json, selector: &String) -> (r: Result<&'a Json, SchemaError>)
    ensures
        match select_spec(*variants, *selector) {
            Ok(v) => r matches Ok(x) && *x == v,
            Err(e) => r == Err::<&Json, SchemaError>(e),
        },
{
    match variants {
        Json::Array(items) => match parse_index(selector.as_str()) {
            Some(i) => if i < items.len() {
                Ok(&items[i])
            } else {
                Err(SchemaError::VariantIndexMissing(i))
            },
            None => Err(SchemaError::BadVariantIndex(selector.clone())),
        },
        Json::Object(entries) => match get_member(entries, selector) {
            Some(v) => Ok(v),
            None => Err(SchemaError::VariantKeyMissing(selector.clone())),
        },
        _ => Err(SchemaError::VariantsNotCollection),
    }
}

/// What resolving `doc` with `selector` gives: the fields of `doc` applied to
/// an empty draft, then, where `doc` has `variants`, those of the variant that
/// `selector` picks, and the draft finalized.
pub open spec fn resolve_spec(doc: Json, selector: Option<String>) -> Result<ConfigModel, ConfigError> {
    match apply_spec(empty_draft(), doc) {
        Err(e) => Err(ConfigError::Schema(e)),
        Ok(base) => match variants_of(doc) {
            None => schema_result(finalize_spec(base)),
            Some(variants) => match selector {
                None => Err(ConfigError::SelectorMissing),
                Some(sel) => match select_spec(variants, sel) {
                    Err(e) => Err(ConfigError::Schema(e)),
                    Ok(variant) => match apply_spec(base, variant) {
                        Err(e) => Err(ConfigError::Schema(e)),
                        Ok(d) => schema_result(finalize_spec(d)),
                    },
                },
            },
        },
    }
}

/// The `variants` field of a document, if it has one.
pub open spec fn variants_of(doc: Json) -> Option<Json> {
    match doc {
        Json::Object(entries) => member(entries@, "variants"@),
        _ => None,
    }
}

/// A finalizing outcome, its error taken as a schema error.
pub open spec fn schema_result(r: Result<ConfigModel, SchemaError>) -> Result<ConfigModel, ConfigError> {
    match r {
        Ok(c) => Ok(c),
        Err(e) => Err(ConfigError::Schema(e)),
    }
}

/// Whether `r` is what resolving `doc` with `selector` gives.
pub open spec fn resolves_to(doc: Json, selector: Option<String>, r: Result<Config, ConfigError>) -> bool {
    match resolve_spec(doc, selector) {
        Ok(c) => r matches Ok(x) && x@ == c && x.wf(),
        Err(e) => r == Err::<Config, ConfigError>(e),
    }
}

/// Resolves the document `doc` into a configuration; `selector` picks the
/// variant where `doc` has `variants`, and is not read otherwise.
pub fn resolve_document(doc: &Json, selector: Option<String>) -> (r: Result<Config, ConfigError>)
    ensures
        resolves_to(*doc, selector, r),
{
    let mut draft = DraftConfig::new();
    match apply_fields(&mut draft, doc) {
        Ok(()) => {},
        Err(e) => return Err(ConfigError::Schema(e)),
    }
    let entries = match doc {
        Json::Object(entries) => entries,
        _ => return Err(ConfigError::Schema(SchemaError::InvalidJson)),
    };
    let variants_key = "variants".to_owned();
    if let Some(variants) = get_member(entries, &variants_key) {
        let sel = match selector {
            Some(sel) => sel,
            None => return Err(ConfigError::SelectorMissing),
        };
        let variant = match select_variant(variants, &sel) {
            Ok(v) => v,
            Err(e) => return Err(ConfigError::Schema(e)),
        };
        match apply_fields(&mut draft, variant) {
            Ok(()) => {},
            Err(e) => return Err(ConfigError::Schema(e)),
        }
    }
    Config::try_from(draft)
}

} // verus!
