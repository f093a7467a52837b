use std::collections::HashMap;

use fluent_bundle::FluentResource;
use fluent_templates::{FluentBundle, LanguageIdentifier, StaticLoader};
use loona::translation::{
    apply_translations, lookup_ctx, ChoiceText, CommandText, FluentArg, Localizations,
    ParameterText,
};

const EN: &str = "
starboard = starboard
    .description = Starboard settings
starboard-threshold = threshold
    .description = Set the threshold
    .value = value
    .value-description = Minimum reactions
    .value-low = low
starboard-threshold-inner = inner
greet = Hello, { $name }!
count = { $n } stars
";

const RU: &str = "
starboard = доска
    .description = Настройки доски
starboard-threshold = порог
    .value-low = мало
greet = Привет, { $name }!
";

fn loader() -> StaticLoader {
    let en: LanguageIdentifier = "en-US".parse().unwrap();
    let ru: LanguageIdentifier = "ru".parse().unwrap();
    let mut bundles = HashMap::new();
    for (lang, src) in [(en.clone(), EN), (ru.clone(), RU)] {
        let res: &'static FluentResource = Box::leak(Box::new(FluentResource::try_new(src.to_string()).unwrap()));
        let mut bundle = FluentBundle::new_concurrent(vec![lang.clone()]);
        bundle.set_use_isolating(false);
        bundle.add_resource(res).unwrap();
        bundles.insert(lang, bundle);
    }
    let mut fallbacks = HashMap::new();
    fallbacks.insert(en.clone(), vec![en.clone()]);
    fallbacks.insert(ru.clone(), vec![ru.clone(), en.clone()]);
    StaticLoader::new(Box::leak(Box::new(bundles)), Box::leak(Box::new(fallbacks)), en)
}

fn map(l: &Localizations) -> HashMap<String, String> {
    l.entries().iter().cloned().collect()
}

fn command(name: &str, parameters: Vec<ParameterText>, subcommands: Vec<CommandText>) -> CommandText {
    CommandText {
        name: name.to_string(),
        description: None,
        name_localizations: Localizations::new(),
        description_localizations: Localizations::new(),
        parameters,
        subcommands,
    }
}

fn parameter(name: &str, choices: &[&str]) -> ParameterText {
    ParameterText {
        name: name.to_string(),
        description: None,
        name_localizations: Localizations::new(),
        description_localizations: Localizations::new(),
        choices: choices
            .iter()
            .map(|c| ChoiceText { name: c.to_string(), localizations: Localizations::new() })
            .collect(),
    }
}

#[test]
fn command_tree_is_translated() {
    let mut commands = vec![command(
        "starboard",
        vec![],
        vec![
            command("threshold", vec![parameter("value", &["low", "high"])], vec![command("inner", vec![], vec![])]),
            command("unknown", vec![parameter("x", &[])], vec![]),
        ],
    )];
    apply_translations(&loader(), &mut commands);
    let top = &commands[0];
    assert_eq!(top.name, "starboard");
    assert_eq!(top.description.as_deref(), Some("Starboard settings"));
    assert_eq!(map(&top.name_localizations), HashMap::from([("ru".to_string(), "доска".to_string())]));
    assert_eq!(
        map(&top.description_localizations),
        HashMap::from([("ru".to_string(), "Настройки доски".to_string())])
    );

    let threshold = &top.subcommands[0];
    assert_eq!(threshold.name, "threshold");
    assert_eq!(threshold.description.as_deref(), Some("Set the threshold"));
    assert_eq!(map(&threshold.name_localizations)["ru"], "порог");
    // a language without its own text gets the fallback language's
    assert_eq!(map(&threshold.description_localizations)["ru"], "Set the threshold");

    let value = &threshold.parameters[0];
    assert_eq!(value.name, "value");
    assert_eq!(value.description.as_deref(), Some("Minimum reactions"));
    assert_eq!(map(&value.name_localizations)["ru"], "value");
    assert_eq!(value.choices[0].name, "low");
    assert_eq!(map(&value.choices[0].localizations)["ru"], "мало");
    // a choice without any text keeps its name and gets no localisation
    assert_eq!(value.choices[1].name, "high");
    assert!(map(&value.choices[1].localizations).is_empty());

    assert_eq!(threshold.subcommands[0].name, "inner");
    assert_eq!(map(&threshold.subcommands[0].name_localizations)["ru"], "inner");

    // no text for its key: left as it was
    let unknown = &top.subcommands[1];
    assert_eq!(unknown.name, "unknown");
    assert!(unknown.description.is_none());
    assert!(map(&unknown.name_localizations).is_empty());
    assert!(unknown.parameters[0].description.is_none());
}

#[test]
fn untranslated_command_keeps_its_subcommands() {
    let mut commands = vec![command("missing", vec![], vec![command("starboard", vec![], vec![])])];
    apply_translations(&loader(), &mut commands);
    assert_eq!(commands[0].name, "missing");
    // the subcommand's key would be "missing-starboard": not looked up at all
    assert!(commands[0].subcommands[0].description.is_none());
}

#[test]
fn lookup_in_the_requested_language() {
    let l = loader();
    assert_eq!(lookup_ctx(Some("ru"), &l, "starboard", None), "доска");
    assert_eq!(lookup_ctx(Some("en-US"), &l, "starboard", None), "starboard");
}

#[test]
fn lookup_falls_back() {
    let l = loader();
    assert_eq!(lookup_ctx(None, &l, "starboard", None), "starboard");
    assert_eq!(lookup_ctx(Some("not a tag!"), &l, "starboard", None), "starboard");
    // a key only the fallback language has
    assert_eq!(lookup_ctx(Some("ru"), &l, "count", Some(&vec![("n".to_string(), FluentArg::Number(3))])), "3 stars");
}

#[test]
fn lookup_of_missing_key_gives_the_key() {
    let l = loader();
    assert_eq!(lookup_ctx(Some("ru"), &l, "no-such-key", None), "no-such-key");
}

#[test]
fn lookup_with_arguments() {
    let l = loader();
    let args = vec![("name".to_string(), FluentArg::Text("Loona".to_string()))];
    assert_eq!(lookup_ctx(Some("ru"), &l, "greet", Some(&args)), "Привет, Loona!");
    assert_eq!(lookup_ctx(Some("en-US"), &l, "greet", Some(&args)), "Hello, Loona!");
}

#[test]
fn localizations_insert_replaces() {
    let mut l = Localizations::new();
    l.insert("ru".to_string(), "a".to_string());
    l.insert("de".to_string(), "b".to_string());
    l.insert("ru".to_string(), "c".to_string());
    let m: HashMap<String, String> = map(&l);
    assert_eq!(m.len(), 2);
    assert_eq!(m["ru"], "c");
    assert_eq!(m["de"], "b");
}
