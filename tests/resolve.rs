use sirun_config::config::{
    apply_fields, merge_env, resolve_document, select_variant, shell_command, words_or_error,
    CommandField, Config, ConfigError, DraftConfig, SchemaError,
};
use sirun_config::env_map::EnvMap;
use sirun_config::json::{get_member, Json};

fn text(s: &str) -> Json {
    Json::Str(s.to_string())
}

fn obj(members: Vec<(&str, Json)>) -> Json {
    Json::Object(members.into_iter().map(|(k, v)| (k.to_string(), v)).collect())
}

fn words(v: &[&str]) -> Vec<String> {
    v.iter().map(|s| s.to_string()).collect()
}

fn sel(s: &str) -> Option<String> {
    Some(s.to_string())
}

fn schema_err(doc: &Json, selector: Option<String>) -> SchemaError {
    match resolve_document(doc, selector) {
        Err(ConfigError::Schema(e)) => e,
        other => panic!("expected a schema error, got {:?}", other),
    }
}

fn env_of(c: &Config, name: &str) -> Option<String> {
    c.env.get(name)
}

#[test]
fn base_document_resolves_to_its_fields() {
    let doc = obj(vec![
        ("run", text("node bench.js --fast")),
        ("setup", text("npm install")),
        ("timeout", Json::Number(Some(2500))),
        ("env", obj(vec![("A", text("1")), ("B", text("two words"))])),
    ]);
    let c = resolve_document(&doc, None).unwrap();
    assert_eq!(c.run, words(&["node", "bench.js", "--fast"]));
    assert_eq!(c.setup, Some(words(&["npm", "install"])));
    assert_eq!(c.timeout, Some(2500));
    assert_eq!(env_of(&c, "A"), Some("1".to_string()));
    assert_eq!(env_of(&c, "B"), Some("two words".to_string()));
    assert_eq!(c.env.entries().len(), 2);
}

#[test]
fn base_document_without_optional_fields() {
    let doc = obj(vec![("run", text("true"))]);
    let c = resolve_document(&doc, sel("ignored")).unwrap();
    assert_eq!(c.run, words(&["true"]));
    assert_eq!(c.setup, None);
    assert_eq!(c.timeout, None);
    assert_eq!(c.env.entries().len(), 0);
}

#[test]
fn missing_run_fails() {
    let doc = obj(vec![("setup", text("echo hi"))]);
    assert_eq!(
        resolve_document(&doc, None),
        Err(ConfigError::Schema(SchemaError::RunMissing))
    );
}

#[test]
fn shell_splitting_honours_quotes() {
    let r = shell_command(&text("echo 'a b' c"), CommandField::Run).unwrap();
    assert_eq!(r, words(&["echo", "a b", "c"]));
}

#[test]
fn shell_splitting_double_quotes_and_escapes() {
    let r = shell_command(&text("printf \"x  y\" z\\ w"), CommandField::Setup).unwrap();
    assert_eq!(r, words(&["printf", "x  y", "z w"]));
}

#[test]
fn malformed_command_fails() {
    assert_eq!(
        shell_command(&text("echo 'a b"), CommandField::Run),
        Err(SchemaError::MalformedCommand(CommandField::Run))
    );
    let doc = obj(vec![("run", text("x")), ("setup", text("echo \"open"))]);
    assert_eq!(
        schema_err(&doc, None),
        SchemaError::MalformedCommand(CommandField::Setup)
    );
}

#[test]
fn command_must_be_a_string() {
    let doc = obj(vec![("run", Json::Number(Some(1)))]);
    assert_eq!(
        schema_err(&doc, None),
        SchemaError::CommandNotString(CommandField::Run)
    );
    let doc = obj(vec![("run", text("x")), ("setup", Json::Array(vec![]))]);
    assert_eq!(
        schema_err(&doc, None),
        SchemaError::CommandNotString(CommandField::Setup)
    );
}

#[test]
fn words_or_error_passes_words_through() {
    assert_eq!(
        words_or_error(Some(words(&["a"])), CommandField::Run),
        Ok(words(&["a"]))
    );
    assert_eq!(
        words_or_error(None, CommandField::Setup),
        Err(SchemaError::MalformedCommand(CommandField::Setup))
    );
}

#[test]
fn timeout_must_be_a_non_negative_integer() {
    let doc = obj(vec![("run", text("x")), ("timeout", Json::Number(None))]);
    assert_eq!(schema_err(&doc, None), SchemaError::BadTimeout);
    let doc = obj(vec![("run", text("x")), ("timeout", text("10"))]);
    assert_eq!(schema_err(&doc, None), SchemaError::BadTimeout);
    let doc = obj(vec![("run", text("x")), ("timeout", Json::Number(Some(u64::MAX)))]);
    assert_eq!(resolve_document(&doc, None).unwrap().timeout, Some(u64::MAX));
}

#[test]
fn env_must_be_an_object_of_strings() {
    let doc = obj(vec![("run", text("x")), ("env", text("A=1"))]);
    assert_eq!(schema_err(&doc, None), SchemaError::EnvNotObject);
    let doc = obj(vec![
        ("run", text("x")),
        ("env", obj(vec![("A", text("1")), ("B", Json::Number(Some(2)))])),
    ]);
    assert_eq!(schema_err(&doc, None), SchemaError::EnvValueNotString);
}

#[test]
fn document_must_be_an_object() {
    assert_eq!(
        schema_err(&Json::Array(vec![text("run")]), None),
        SchemaError::InvalidJson
    );
    let doc = obj(vec![
        ("run", text("x")),
        ("variants", Json::Array(vec![text("not an object")])),
    ]);
    assert_eq!(schema_err(&doc, sel("0")), SchemaError::InvalidJson);
}

#[test]
fn later_duplicate_member_wins() {
    let doc = obj(vec![("run", text("first")), ("run", text("second"))]);
    let c = resolve_document(&doc, None).unwrap();
    assert_eq!(c.run, words(&["second"]));
}

fn array_doc() -> Json {
    obj(vec![
        ("run", text("node base.js")),
        ("setup", text("make")),
        ("timeout", Json::Number(Some(10))),
        ("env", obj(vec![("A", text("1")), ("B", text("base"))])),
        (
            "variants",
            Json::Array(vec![
                obj(vec![("timeout", Json::Number(Some(20)))]),
                obj(vec![
                    ("run", text("node v1.js 'x y'")),
                    ("env", obj(vec![("B", text("v1")), ("C", text("3"))])),
                ]),
            ]),
        ),
    ])
}

#[test]
fn array_variant_overrides_base() {
    let c = resolve_document(&array_doc(), sel("1")).unwrap();
    assert_eq!(c.run, words(&["node", "v1.js", "x y"]));
    assert_eq!(c.setup, Some(words(&["make"])));
    assert_eq!(c.timeout, Some(10));
    assert_eq!(env_of(&c, "A"), Some("1".to_string()));
    assert_eq!(env_of(&c, "B"), Some("v1".to_string()));
    assert_eq!(env_of(&c, "C"), Some("3".to_string()));
    assert_eq!(c.env.entries().len(), 3);

    let c = resolve_document(&array_doc(), sel("0")).unwrap();
    assert_eq!(c.run, words(&["node", "base.js"]));
    assert_eq!(c.timeout, Some(20));
    assert_eq!(env_of(&c, "B"), Some("base".to_string()));
}

#[test]
fn array_selector_accepts_plus_and_leading_zeros() {
    let c = resolve_document(&array_doc(), sel("+01")).unwrap();
    assert_eq!(c.run, words(&["node", "v1.js", "x y"]));
}

#[test]
fn array_index_out_of_range_names_the_index() {
    assert_eq!(
        schema_err(&array_doc(), sel("2")),
        SchemaError::VariantIndexMissing(2)
    );
    assert_eq!(
        schema_err(&array_doc(), sel("17")),
        SchemaError::VariantIndexMissing(17)
    );
}

#[test]
fn array_selector_that_is_not_a_number_fails() {
    for s in ["x", "", "-1", "1.0", " 1", "99999999999999999999999"] {
        assert_eq!(
            schema_err(&array_doc(), sel(s)),
            SchemaError::BadVariantIndex(s.to_string())
        );
    }
}

#[test]
fn end_to_end_object_variant() {
    let doc = obj(vec![
        ("run", text("node bench.js")),
        ("env", obj(vec![("A", text("1"))])),
        ("variants", obj(vec![("x", obj(vec![("env", obj(vec![("A", text("2"))]))]))])),
    ]);
    let c = resolve_document(&doc, sel("x")).unwrap();
    assert_eq!(c.run, words(&["node", "bench.js"]));
    assert_eq!(c.setup, None);
    assert_eq!(c.timeout, None);
    assert_eq!(env_of(&c, "A"), Some("2".to_string()));
    assert_eq!(c.env.entries().len(), 1);
}

fn object_doc() -> Json {
    obj(vec![
        ("setup", text("make")),
        ("env", obj(vec![("A", text("1"))])),
        (
            "variants",
            obj(vec![
                ("fast", obj(vec![("run", text("bench --fast")), ("timeout", Json::Number(Some(5)))])),
                ("slow", obj(vec![("setup", text("make slow"))])),
            ]),
        ),
    ])
}

#[test]
fn object_variant_overrides_base() {
    let c = resolve_document(&object_doc(), sel("fast")).unwrap();
    assert_eq!(c.run, words(&["bench", "--fast"]));
    assert_eq!(c.setup, Some(words(&["make"])));
    assert_eq!(c.timeout, Some(5));
    assert_eq!(env_of(&c, "A"), Some("1".to_string()));
}

#[test]
fn variant_without_run_still_needs_one() {
    assert_eq!(schema_err(&object_doc(), sel("slow")), SchemaError::RunMissing);
}

#[test]
fn object_key_missing_names_the_key() {
    assert_eq!(
        schema_err(&object_doc(), sel("medium")),
        SchemaError::VariantKeyMissing("medium".to_string())
    );
}

#[test]
fn variants_of_another_kind_fail() {
    let doc = obj(vec![("run", text("x")), ("variants", text("fast"))]);
    assert_eq!(schema_err(&doc, sel("fast")), SchemaError::VariantsNotCollection);
}

#[test]
fn variants_without_selector_fail() {
    assert_eq!(
        resolve_document(&object_doc(), None),
        Err(ConfigError::SelectorMissing)
    );
}

#[test]
fn base_errors_come_before_the_selector() {
    let doc = obj(vec![("timeout", text("x")), ("variants", Json::Array(vec![]))]);
    assert_eq!(schema_err(&doc, None), SchemaError::BadTimeout);
}

#[test]
fn resolving_twice_gives_the_same_result() {
    assert_eq!(
        resolve_document(&array_doc(), sel("1")),
        resolve_document(&array_doc(), sel("1"))
    );
    assert_eq!(
        resolve_document(&object_doc(), sel("medium")),
        resolve_document(&object_doc(), sel("medium"))
    );
}

#[test]
fn select_variant_picks_by_index_or_key() {
    let items = Json::Array(vec![text("a"), text("b")]);
    assert_eq!(select_variant(&items, &"1".to_string()), Ok(&text("b")));
    let members = obj(vec![("k", text("v"))]);
    assert_eq!(select_variant(&members, &"k".to_string()), Ok(&text("v")));
}

#[test]
fn apply_fields_twice_overlays() {
    let mut draft = DraftConfig::new();
    apply_fields(&mut draft, &obj(vec![("run", text("a b")), ("env", obj(vec![("X", text("1"))]))]))
        .unwrap();
    apply_fields(&mut draft, &obj(vec![("setup", text("c")), ("env", obj(vec![("Y", text("2"))]))]))
        .unwrap();
    assert_eq!(draft.run, Some(words(&["a", "b"])));
    assert_eq!(draft.setup, Some(words(&["c"])));
    let c = Config::try_from(draft).unwrap();
    assert_eq!(env_of(&c, "X"), Some("1".to_string()));
    assert_eq!(env_of(&c, "Y"), Some("2".to_string()));
}

#[test]
fn merge_env_overwrites_existing_names() {
    let mut env = EnvMap::new();
    env.insert("A".to_string(), "old".to_string());
    merge_env(&mut env, &obj(vec![("A", text("new")), ("B", text("b"))])).unwrap();
    assert_eq!(env.get("A"), Some("new".to_string()));
    assert_eq!(env.get("B"), Some("b".to_string()));
    assert_eq!(env.get("C"), None);
    assert_eq!(env.entries().len(), 2);
}

#[test]
fn get_member_takes_the_last() {
    let entries = vec![("a".to_string(), text("1")), ("a".to_string(), text("2"))];
    assert_eq!(get_member(&entries, &"a".to_string()), Some(&text("2")));
    assert_eq!(get_member(&entries, &"b".to_string()), None);
}
