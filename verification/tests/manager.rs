use opzioni::manager::JsonLoader;
use opzioni::manager::TomlLoader;
use opzioni::manager::YamlLoader;
use opzioni::Error;
use opzioni::Format;
use opzioni::Loader;
use std::collections::BTreeMap;

fn ports() -> BTreeMap<String, i64> {
    let mut value = BTreeMap::new();
    value.insert("http".to_string(), 80);
    value
}

fn message<V>(outcome: Result<V, Error>) -> String {
    match outcome {
        Err(Error::SerializationError(Some(message))) => message,
        Err(other) => panic!("not a serialization error with a message: {:?}", other),
        Ok(_) => panic!("a failure was expected"),
    }
}

#[test]
fn json_loader_keeps_its_path() {
    assert_eq!(JsonLoader::new("a/b.json").path(), "a/b.json");
}

#[test]
fn toml_loader_keeps_its_path() {
    assert_eq!(TomlLoader::new("a/b.toml").path(), "a/b.toml");
}

#[test]
fn yaml_loader_keeps_its_path() {
    assert_eq!(YamlLoader::new("a/b.yml").path(), "a/b.yml");
}

#[test]
fn a_loader_does_not_look_at_the_extension_of_its_path() {
    let loader = JsonLoader::new("settings.toml");
    assert_eq!(loader.path(), "settings.toml");
    let value: BTreeMap<String, i64> = loader.load(Ok("{\"http\": 80}")).unwrap();
    assert_eq!(value, ports());
}

#[test]
fn json_loader_decodes_the_text_that_was_read() {
    let value: BTreeMap<String, i64> = JsonLoader::new("p.json").load(Ok("{\"http\":80}")).unwrap();
    assert_eq!(value, ports());
}

#[test]
fn toml_loader_decodes_the_text_that_was_read() {
    let value: BTreeMap<String, i64> = TomlLoader::new("p.toml").load(Ok("http = 80")).unwrap();
    assert_eq!(value, ports());
}

#[test]
fn yaml_loader_decodes_the_text_that_was_read() {
    let value: BTreeMap<String, i64> = YamlLoader::new("p.yaml").load(Ok("http: 80")).unwrap();
    assert_eq!(value, ports());
}

#[test]
fn json_loader_reports_a_failed_read() {
    let outcome = JsonLoader::new("p.json").load::<BTreeMap<String, i64>>(Err("No such file"));
    assert_eq!(message(outcome), "No such file");
}

#[test]
fn toml_loader_reports_a_failed_read() {
    let outcome = TomlLoader::new("p.toml").load::<BTreeMap<String, i64>>(Err("No such file"));
    assert_eq!(message(outcome), "No such file");
}

#[test]
fn yaml_loader_reports_a_failed_read() {
    let outcome = YamlLoader::new("p.yml").load::<BTreeMap<String, i64>>(Err("No such file"));
    assert_eq!(message(outcome), "No such file");
}

#[test]
fn json_loader_reports_a_rejected_text() {
    let expected = serde_json::from_str::<BTreeMap<String, i64>>("[").unwrap_err().to_string();
    let outcome = JsonLoader::new("p.json").load::<BTreeMap<String, i64>>(Ok("["));
    assert_eq!(message(outcome), expected);
}

#[test]
fn toml_loader_reports_a_rejected_text() {
    let expected = toml::from_str::<BTreeMap<String, i64>>("[").unwrap_err().to_string();
    let outcome = TomlLoader::new("p.toml").load::<BTreeMap<String, i64>>(Ok("["));
    assert_eq!(message(outcome), expected);
}

#[test]
fn yaml_loader_reports_a_rejected_text() {
    let expected = serde_yaml::from_str::<BTreeMap<String, i64>>("[").unwrap_err().to_string();
    let outcome = YamlLoader::new("p.yml").load::<BTreeMap<String, i64>>(Ok("["));
    assert_eq!(message(outcome), expected);
}

#[test]
fn json_loader_encodes_for_its_file() {
    assert_eq!(JsonLoader::new("p.json").save(&ports()).unwrap(), "{\n  \"http\": 80\n}");
}

#[test]
fn toml_loader_encodes_for_its_file() {
    assert_eq!(TomlLoader::new("p.toml").save(&ports()).unwrap(), "http = 80\n");
}

#[test]
fn yaml_loader_encodes_for_its_file() {
    assert_eq!(YamlLoader::new("p.yml").save(&ports()).unwrap(), "http: 80\n");
}

#[test]
fn toml_loader_reports_a_refused_value() {
    let expected = toml::to_string_pretty(&"bare").unwrap_err().to_string();
    assert_eq!(message(TomlLoader::new("p.toml").save(&"bare")), expected);
}

#[test]
fn what_a_loader_saves_it_loads_again() {
    let json = JsonLoader::new("p.json");
    let text = json.save(&ports()).unwrap();
    assert_eq!(json.load::<BTreeMap<String, i64>>(Ok(text.as_str())).unwrap(), ports());
    let toml = TomlLoader::new("p.toml");
    let text = toml.save(&ports()).unwrap();
    assert_eq!(toml.load::<BTreeMap<String, i64>>(Ok(text.as_str())).unwrap(), ports());
    let yaml = YamlLoader::new("p.yaml");
    let text = yaml.save(&ports()).unwrap();
    assert_eq!(yaml.load::<BTreeMap<String, i64>>(Ok(text.as_str())).unwrap(), ports());
}

#[test]
fn loader_new_picks_the_variant_of_the_format() {
    assert!(matches!(Loader::new(Format::Json, "x"), Loader::Json(_)));
    assert!(matches!(Loader::new(Format::Toml, "x"), Loader::Toml(_)));
    assert!(matches!(Loader::new(Format::Yaml, "x"), Loader::Yaml(_)));
}

#[test]
fn loader_knows_its_format_and_path() {
    let loader = Loader::new(Format::Toml, "dir/file");
    assert_eq!(loader.format(), Format::Toml);
    assert_eq!(loader.path(), "dir/file");
    assert_eq!(Loader::Json(JsonLoader::new("a")).format(), Format::Json);
    assert_eq!(Loader::Yaml(YamlLoader::new("b")).path(), "b");
}

#[test]
fn loader_uses_the_codec_of_its_format() {
    assert_eq!(Loader::new(Format::Json, "x").save(&ports()).unwrap(), "{\n  \"http\": 80\n}");
    assert_eq!(Loader::new(Format::Toml, "x").save(&ports()).unwrap(), "http = 80\n");
    assert_eq!(Loader::new(Format::Yaml, "x").save(&ports()).unwrap(), "http: 80\n");
    let json: BTreeMap<String, i64> =
        Loader::new(Format::Json, "x").load(Ok("{\"http\":80}")).unwrap();
    assert_eq!(json, ports());
    let toml: BTreeMap<String, i64> = Loader::new(Format::Toml, "x").load(Ok("http = 80")).unwrap();
    assert_eq!(toml, ports());
    let yaml: BTreeMap<String, i64> = Loader::new(Format::Yaml, "x").load(Ok("http: 80")).unwrap();
    assert_eq!(yaml, ports());
}

#[test]
fn loader_reports_a_failed_read() {
    for format in [Format::Json, Format::Toml, Format::Yaml] {
        let outcome = Loader::new(format, "x").load::<BTreeMap<String, i64>>(Err("denied"));
        assert_eq!(message(outcome), "denied");
    }
}
