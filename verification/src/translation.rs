use vstd::prelude::*;

use std::borrow::Cow;
use std::collections::HashMap;

use fluent_bundle::FluentValue;
use fluent_templates::{LanguageIdentifier, Loader, StaticLoader};

use crate::emoji::option_string_view;

verus! {

#[verifier::external_type_specification]
#[verifier::external_body]
pub struct ExStaticLoader(StaticLoader);

/// A value handed to a localised message.
pub enum FluentArg {
    Text(String),
    Number(i64),
}

pub enum FluentArgView {
    Text(Seq<char>),
    Number(int),
}

impl View for FluentArg {
    type V = FluentArgView;

    open spec fn view(&self) -> FluentArgView {
        match self {
            FluentArg::Text(t) => FluentArgView::Text(t@),
            FluentArg::Number(n) => FluentArgView::Number(*n as int),
        }
    }
}

pub open spec fn args_view(args: Seq<(String, FluentArg)>) -> Seq<(Seq<char>, FluentArgView)> {
    args.map_values(|a: (String, FluentArg)| (a.0@, a.1@))
}

pub open spec fn option_args_view(args: Option<&Vec<(String, FluentArg)>>) -> Option<Seq<(Seq<char>, FluentArgView)>> {
    match args {
        Some(a) => Some(args_view(a@)),
        None => None,
    }
}

/// The messages a loader holds: for a language tag, a message id and the
/// arguments (or none), the text that a lookup gives, where it gives one. The
/// lookup tries the languages the loader holds that match the tag, most
/// specific first, then the fallback language; all of that is fixed for a
/// given loader, the order in which it walks its languages included.
pub uninterp spec fn loader_texts(loader: StaticLoader) -> Map<
    (Seq<char>, Seq<char>, Option<Seq<(Seq<char>, FluentArgView)>>),
    Seq<char>,
>;

/// The tags of the languages a loader holds.
pub uninterp spec fn loader_locales(loader: StaticLoader) -> Set<Seq<char>>;

/// The tag of a loader's fallback language.
pub uninterp spec fn loader_fallback(loader: StaticLoader) -> Seq<char>;

/// Whether a text is a language tag.
pub uninterp spec fn language_tag_parses(text: Seq<char>) -> bool;

/// What a loader gives for a message id in a language, without arguments.
pub open spec fn found(loader: StaticLoader, lang: Seq<char>, key: Seq<char>) -> Option<Seq<char>> {
    if loader_texts(loader).contains_key((lang, key, None)) {
        Some(loader_texts(loader)[(lang, key, None)])
    } else {
        None
    }
}

/// Looks a message up with fluent-templates' `Loader::try_lookup_complete`,
/// in the language that the tag names (a tag that is none gives nothing).
/// Claimed of it: the text is the one the loader holds for the tag, the id and
/// the arguments, which the name `loader_texts` stands for.
#[verifier::external_body]
fn loader_lookup(
    loader: &StaticLoader,
    lang: &str,
    key: &str,
    args: Option<&Vec<(String, FluentArg)>>,
) -> (r: Option<String>)
    ensures
        match r {
            Some(t) => loader_texts(*loader).contains_key((lang@, key@, option_args_view(args)))
                && t@ == loader_texts(*loader)[(lang@, key@, option_args_view(args))],
            None => !loader_texts(*loader).contains_key((lang@, key@, option_args_view(args))),
        },
{
    let mut map: HashMap<Cow<'static, str>, FluentValue> = HashMap::new();
    for (k, v) in args.into_iter().flatten() {
        let value = match v {
            FluentArg::Text(t) => FluentValue::from(t.clone()),
            FluentArg::Number(n) => FluentValue::from(*n),
        };
        map.insert(Cow::Owned(k.clone()), value);
    }
    match lang.parse::<LanguageIdentifier>() {
        Ok(l) => loader.try_lookup_complete(&l, key, args.map(|_| &map)),
        Err(_) => None,
    }
}

/// The tag of the loader's fallback language, from `StaticLoader::fallback`.
#[verifier::external_body]
fn loader_fallback_tag(loader: &StaticLoader) -> (r: String)
    ensures
        r@ == loader_fallback(*loader),
{
    loader.fallback().to_string()
}

/// The tags of the languages the loader holds, from `Loader::locales`, in the
/// order in which the loader walks them (which is left unsaid).
#[verifier::external_body]
fn loader_locale_tags(loader: &StaticLoader) -> (r: Vec<String>)
    ensures
        forall|t: Seq<char>| #![auto] loader_locales(*loader).contains(t) <==> exists|j: int| 0 <= j < r@.len() && r@[j]@ == t,
{
    loader.locales().map(|l| l.to_string()).collect()
}

/// Whether a text is a language tag, from `LanguageIdentifier`'s `FromStr`.
#[verifier::external_body]
fn is_language_tag(text: &str) -> (r: bool)
    ensures
        r == language_tag_parses(text@),
{
    text.parse::<LanguageIdentifier>().is_ok()
}

/// Localised texts by language tag.
pub struct Localizations {
    entries: Vec<(String, String)>,
}

/// The map that a list of pairs stands for: a later pair for a key wins.
pub open spec fn pairs_map(s: Seq<(String, String)>) -> Map<Seq<char>, Seq<char>>
    decreases s.len(),
{
    if s.len() == 0 {
        Map::empty()
    } else {
        pairs_map(s.drop_last()).insert(s.last().0@, s.last().1@)
    }
}

impl View for Localizations {
    type V = Map<Seq<char>, Seq<char>>;

    closed spec fn view(&self) -> Map<Seq<char>, Seq<char>> {
        pairs_map(self.entries@)
    }
}

/// Whether no language occurs twice among the pairs.
pub open spec fn keys_distinct(s: Seq<(String, String)>) -> bool {
    forall|i: int, j: int| 0 <= i < s.len() && 0 <= j < s.len() && i != j ==> #[trigger] s[i].0@ != #[trigger] s[j].0@
}

/// Replacing the text of a language that occurs once changes only that
/// language's text.
proof fn lemma_pairs_map_update(s: Seq<(String, String)>, j: int, p: (String, String))
    requires
        0 <= j < s.len(),
        s[j].0@ == p.0@,
        forall|i: int| 0 <= i < s.len() && i != j ==> #[trigger] s[i].0@ != p.0@,
    ensures
        pairs_map(s.update(j, p)) == pairs_map(s).insert(p.0@, p.1@),
    decreases s.len(),
{
    let t = s.update(j, p);
    if j == s.len() - 1 {
        assert(t.drop_last() =~= s.drop_last());
        assert(pairs_map(t) =~= pairs_map(s).insert(p.0@, p.1@));
    } else {
        assert(t.drop_last() =~= s.drop_last().update(j, p));
        lemma_pairs_map_update(s.drop_last(), j, p);
        assert(t.last() == s.last());
        assert(pairs_map(t) =~= pairs_map(s).insert(p.0@, p.1@));
    }
}

impl Localizations {
    #[verifier::type_invariant]
    closed spec fn languages_distinct(self) -> bool {
        keys_distinct(self.entries@)
    }

    /// No localised texts.
    pub fn new() -> (r: Localizations)
        ensures
            r@ == Map::<Seq<char>, Seq<char>>::empty(),
    {
        Localizations { entries: Vec::new() }
    }

    /// Sets the text of a language, replacing the one it had.
    pub fn insert(&mut self, lang: String, text: String)
        ensures
            final(self)@ == old(self)@.insert(lang@, text@),
    {
        proof {
            use_type_invariant(&*self);
        }
        let mut entries: Vec<(String, String)> = Vec::new();
        std::mem::swap(&mut entries, &mut self.entries);
        let ghost before = entries@;
        let mut j: usize = 0;
        while j < entries.len()
            invariant
                entries@ == before,
                before == old(self).entries@,
                keys_distinct(before),
                j <= entries.len(),
                forall|i: int| 0 <= i < j ==> #[trigger] entries@[i].0@ != lang@,
            decreases entries.len() - j,
        {
            if entries[j].0 == lang {
                let ghost pair = (lang, text);
                proof {
                    assert forall|i: int| 0 <= i < before.len() && i != j implies #[trigger] before[i].0@ != pair.0@ by {
                        assert(before[i].0@ != before[j as int].0@);
                    }
                    lemma_pairs_map_update(before, j as int, pair);
                }
                entries.set(j, (lang, text));
                proof {
                    assert(entries@ == before.update(j as int, pair));
                    assert(keys_distinct(entries@)) by {
                        assert forall|a: int, b: int| 0 <= a < entries@.len() && 0 <= b < entries@.len() && a != b
                            implies #[trigger] entries@[a].0@ != #[trigger] entries@[b].0@ by {
                            if a != j && b != j {
                                assert(before[a].0@ != before[b].0@);
                            } else if a == j {
                                assert(before[b].0@ != before[j as int].0@);
                            } else {
                                assert(before[a].0@ != before[j as int].0@);
                            }
                        }
                    }
                }
                self.entries = entries;
                return;
            }
            j = j + 1;
        }
        entries.push((lang, text));
        proof {
            assert(entries@.drop_last() =~= before);
            assert(keys_distinct(entries@)) by {
                assert forall|a: int, b: int| 0 <= a < entries@.len() && 0 <= b < entries@.len() && a != b
                    implies #[trigger] entries@[a].0@ != #[trigger] entries@[b].0@ by {
                    if a < before.len() && b < before.len() {
                        assert(before[a].0@ != before[b].0@);
                    } else if a < before.len() {
                        assert(before[a].0@ != lang@);
                    } else {
                        assert(before[b].0@ != lang@);
                    }
                }
            }
        }
        self.entries = entries;
    }

    /// The pairs: no language occurs twice among them.
    pub fn entries(&self) -> (r: &Vec<(String, String)>)
        ensures
            pairs_map(r@) == self@,
            keys_distinct(r@),
    {
        proof {
            use_type_invariant(self);
        }
        &self.entries
    }
}

/// The tags in a list.
pub open spec fn tag_set(tags: Seq<String>) -> Set<Seq<char>> {
    Set::new(|t: Seq<char>| exists|j: int| #![auto] 0 <= j < tags.len() && tags[j]@ == t)
}

/// A map of localised texts after the translations of a message id in the
/// given languages are set: where the loader has one for a language, it
/// replaces the text of that language.
pub open spec fn localized(
    old: Map<Seq<char>, Seq<char>>,
    loader: StaticLoader,
    langs: Set<Seq<char>>,
    key: Seq<char>,
) -> Map<Seq<char>, Seq<char>> {
    old.union_prefer_right(
        Map::new(
            |l: Seq<char>| langs.contains(l) && found(loader, l, key) is Some,
            |l: Seq<char>| found(loader, l, key)->Some_0,
        ),
    )
}

/// Sets the translations of a message id in the given languages.
fn localize(loc: &mut Localizations, loader: &StaticLoader, langs: &Vec<String>, key: &str)
    ensures
        final(loc)@ == localized(old(loc)@, *loader, tag_set(langs@), key@),
{
    let mut i: usize = 0;
    while i < langs.len()
        invariant
            i <= langs.len(),
            loc@ == localized(old(loc)@, *loader, tag_set(langs@.take(i as int)), key@),
        decreases langs.len() - i,
    {
        let lang = &langs[i];
        let ghost before = loc@;
        let ghost prev = langs@.take(i as int);
        let ghost next = langs@.take(i + 1);
        assert(tag_set(next) =~= tag_set(prev).insert(lang@)) by {
            assert forall|t: Seq<char>| tag_set(next).contains(t) implies tag_set(prev).insert(lang@).contains(t) by {
                let j = choose|j: int| 0 <= j < next.len() && #[trigger] next[j]@ == t;
                if j < i {
                    assert(prev[j]@ == t);
                }
            }
            assert forall|t: Seq<char>| tag_set(prev).insert(lang@).contains(t) implies tag_set(next).contains(t) by {
                if t == lang@ {
                    assert(next[i as int]@ == t);
                } else {
                    let j = choose|j: int| 0 <= j < prev.len() && #[trigger] prev[j]@ == t;
                    assert(next[j]@ == t);
                }
            }
        }
        match loader_lookup(loader, lang.as_str(), key, None) {
            Some(text) => {
                loc.insert(lang.clone(), text);
                assert(loc@ =~= localized(old(loc)@, *loader, tag_set(langs@.take(i + 1)), key@));
            },
            None => {
                assert(loc@ =~= localized(old(loc)@, *loader, tag_set(langs@.take(i + 1)), key@));
            },
        }
        i = i + 1;
    }
    assert(langs@.take(langs.len() as int) =~= langs@);
}

/// A choice of a command parameter, with its localised names.
pub struct ChoiceText {
    pub name: String,
    pub localizations: Localizations,
}

/// The texts of a command parameter.
pub struct ParameterText {
    pub name: String,
    pub description: Option<String>,
    pub name_localizations: Localizations,
    pub description_localizations: Localizations,
    pub choices: Vec<ChoiceText>,
}

/// The texts of a slash command and of its parameters and subcommands.
pub struct CommandText {
    pub name: String,
    pub description: Option<String>,
    pub name_localizations: Localizations,
    pub description_localizations: Localizations,
    pub parameters: Vec<ParameterText>,
    pub subcommands: Vec<CommandText>,
}

/// Where translations come from: a loader, its fallback language, and the
/// other languages it holds.
pub struct Catalog {
    pub loader: StaticLoader,
    pub fallback: Seq<char>,
    pub others: Set<Seq<char>>,
}

/// What a loader gives in the fallback language, else what stood before.
pub open spec fn fallback_or(cat: Catalog, key: Seq<char>, before: Seq<char>) -> Seq<char> {
    match found(cat.loader, cat.fallback, key) {
        Some(t) => t,
        None => before,
    }
}

/// A description after translation: the fallback language's text where there
/// is one, else the description it had.
pub open spec fn description_or(cat: Catalog, key: Seq<char>, before: Option<String>) -> Option<Seq<char>> {
    match found(cat.loader, cat.fallback, key) {
        Some(t) => Some(t),
        None => option_string_view(before),
    }
}

/// A choice translated under the key of its parameter: its key is that key,
/// `-` and its name; its name becomes the fallback text, and the other
/// languages' texts become its localised names.
pub open spec fn choice_translated(old: ChoiceText, new: ChoiceText, cat: Catalog, param_key: Seq<char>) -> bool {
    let key = param_key + "-"@ + old.name@;
    &&& new.localizations@ == localized(old.localizations@, cat.loader, cat.others, key)
    &&& new.name@ == fallback_or(cat, key, old.name@)
}

/// A parameter translated under the key of its command: its key is that key,
/// `.` and its name; its description key adds `-description`.
pub open spec fn parameter_translated(old: ParameterText, new: ParameterText, cat: Catalog, base: Seq<char>) -> bool {
    let key = base + "."@ + old.name@;
    let description_key = key + "-description"@;
    &&& option_string_view(new.description) == description_or(cat, description_key, old.description)
    &&& new.name_localizations@ == localized(old.name_localizations@, cat.loader, cat.others, key)
    &&& new.description_localizations@ == localized(
        old.description_localizations@,
        cat.loader,
        cat.others,
        description_key,
    )
    &&& new.choices@.len() == old.choices@.len()
    &&& forall|i: int| 0 <= i < old.choices@.len() ==> choice_translated(
        #[trigger] old.choices@[i],
        new.choices@[i],
        cat,
        key,
    )
    &&& new.name@ == fallback_or(cat, key, old.name@)
}

/// The key of a command: its name, after its parent's key and `-` for a
/// subcommand.
pub open spec fn command_key(parent: Option<Seq<char>>, name: Seq<char>) -> Seq<char> {
    match parent {
        Some(p) => p + "-"@ + name,
        None => name,
    }
}

/// A command translated: where the fallback language has no text for its key
/// it is left as it was, subcommands included; otherwise its name becomes that
/// text, its description the text of the key with `.description`, the other
/// languages' texts its localisations, and its parameters and subcommands are
/// translated under its key.
pub open spec fn command_translated(old: CommandText, new: CommandText, cat: Catalog, parent: Option<Seq<char>>) -> bool
    decreases old,
{
    let key = command_key(parent, old.name@);
    let description_key = key + ".description"@;
    if found(cat.loader, cat.fallback, key) is None {
        new == old
    } else {
        &&& new.name@ == found(cat.loader, cat.fallback, key)->Some_0
        &&& option_string_view(new.description) == description_or(cat, description_key, old.description)
        &&& new.name_localizations@ == localized(old.name_localizations@, cat.loader, cat.others, key)
        &&& new.description_localizations@ == localized(
            old.description_localizations@,
            cat.loader,
            cat.others,
            description_key,
        )
        &&& new.parameters@.len() == old.parameters@.len()
        &&& forall|i: int| 0 <= i < old.parameters@.len() ==> parameter_translated(
            #[trigger] old.parameters@[i],
            new.parameters@[i],
            cat,
            key,
        )
        &&& new.subcommands@.len() == old.subcommands@.len()
        &&& forall|i: int| 0 <= i < old.subcommands@.len() ==> command_translated(
            #[trigger] old.subcommands@[i],
            new.subcommands@[i],
            cat,
            Some(key),
        )
    }
}

/// Each command of a list translated.
pub open spec fn commands_translated(old: Seq<CommandText>, new: Seq<CommandText>, cat: Catalog, parent: Option<Seq<char>>) -> bool {
    &&& new.len() == old.len()
    &&& forall|i: int| 0 <= i < old.len() ==> command_translated(#[trigger] old[i], new[i], cat, parent)
}

pub open spec fn catalog_of(loader: StaticLoader, others: Seq<String>) -> Catalog {
    Catalog { loader, fallback: loader_fallback(loader), others: tag_set(others) }
}

fn translate_choice(choice: &mut ChoiceText, loader: &StaticLoader, fallback: &String, others: &Vec<String>, param_key: &str)
    requires
        fallback@ == loader_fallback(*loader),
    ensures
        choice_translated(*old(choice), *final(choice), catalog_of(*loader, others@), param_key@),
{
    let mut key = String::from_str(param_key);
    key.append("-");
    key.append(choice.name.as_str());
    localize(&mut choice.localizations, loader, others, key.as_str());
    match loader_lookup(loader, fallback.as_str(), key.as_str(), None) {
        Some(x) => {
            choice.name = x;
        },
        None => {},
    }
}

fn translate_parameter(parameter: &mut ParameterText, loader: &StaticLoader, fallback: &String, others: &Vec<String>, base: &str)
    requires
        fallback@ == loader_fallback(*loader),
    ensures
        parameter_translated(*old(parameter), *final(parameter), catalog_of(*loader, others@), base@),
{
    let ghost cat = catalog_of(*loader, others@);
    let mut key = String::from_str(base);
    key.append(".");
    key.append(parameter.name.as_str());
    let mut description_key = key.clone();
    description_key.append("-description");
    match loader_lookup(loader, fallback.as_str(), description_key.as_str(), None) {
        Some(x) => {
            parameter.description = Some(x);
        },
        None => {},
    }
    localize(&mut parameter.name_localizations, loader, others, key.as_str());
    localize(&mut parameter.description_localizations, loader, others, description_key.as_str());
    let n = parameter.choices.len();
    let mut i: usize = 0;
    while i < n
        invariant
            fallback@ == loader_fallback(*loader),
            cat == catalog_of(*loader, others@),
            n == old(parameter).choices@.len(),
            parameter.choices@.len() == n,
            i <= n,
            forall|j: int| 0 <= j < i ==> choice_translated(#[trigger] old(parameter).choices@[j], parameter.choices@[j], cat, key@),
            forall|j: int| i <= j < n ==> #[trigger] parameter.choices@[j] == old(parameter).choices@[j],
            parameter.name == old(parameter).name,
            option_string_view(parameter.description) == description_or(cat, description_key@, old(parameter).description),
            parameter.name_localizations@ == localized(old(parameter).name_localizations@, *loader, tag_set(others@), key@),
            parameter.description_localizations@ == localized(old(parameter).description_localizations@, *loader, tag_set(others@), description_key@),
            key@ == base@ + "."@ + old(parameter).name@,
            description_key@ == key@ + "-description"@,
        decreases n - i,
    {
        translate_choice(&mut parameter.choices[i], loader, fallback, others, key.as_str());
        i = i + 1;
    }
    match loader_lookup(loader, fallback.as_str(), key.as_str(), None) {
        Some(x) => {
            parameter.name = x;
        },
        None => {},
    }
}

fn translate_command(
    command: &mut CommandText,
    loader: &StaticLoader,
    fallback: &String,
    others: &Vec<String>,
    parent: Option<&str>,
)
    requires
        fallback@ == loader_fallback(*loader),
    ensures
        command_translated(*old(command), *final(command), catalog_of(*loader, others@), option_str_view(parent)),
    decreases *old(command), 1int,
{
    let ghost cat = catalog_of(*loader, others@);
    let key = match parent {
        Some(p) => {
            let mut k = String::from_str(p);
            k.append("-");
            k.append(command.name.as_str());
            k
        },
        None => command.name.clone(),
    };
    let translated_name = match loader_lookup(loader, fallback.as_str(), key.as_str(), None) {
        Some(x) => x,
        None => {
            return;
        },
    };
    let mut description_key = key.clone();
    description_key.append(".description");
    match loader_lookup(loader, fallback.as_str(), description_key.as_str(), None) {
        Some(x) => {
            command.description = Some(x);
        },
        None => {},
    }
    localize(&mut command.name_localizations, loader, others, key.as_str());
    localize(&mut command.description_localizations, loader, others, description_key.as_str());
    let n = command.parameters.len();
    let mut i: usize = 0;
    while i < n
        invariant
            fallback@ == loader_fallback(*loader),
            cat == catalog_of(*loader, others@),
            n == old(command).parameters@.len(),
            command.parameters@.len() == n,
            i <= n,
            forall|j: int| 0 <= j < i ==> parameter_translated(#[trigger] old(command).parameters@[j], command.parameters@[j], cat, key@),
            forall|j: int| i <= j < n ==> #[trigger] command.parameters@[j] == old(command).parameters@[j],
            command.name == old(command).name,
            command.subcommands == old(command).subcommands,
            option_string_view(command.description) == description_or(cat, description_key@, old(command).description),
            command.name_localizations@ == localized(old(command).name_localizations@, *loader, tag_set(others@), key@),
            command.description_localizations@ == localized(old(command).description_localizations@, *loader, tag_set(others@), description_key@),
            key@ == command_key(option_str_view(parent), old(command).name@),
            description_key@ == key@ + ".description"@,
        decreases n - i,
    {
        translate_parameter(&mut command.parameters[i], loader, fallback, others, key.as_str());
        i = i + 1;
    }
    apply_translations_recursive(&mut command.subcommands, loader, fallback, others, Some(key.as_str()));
    command.name = translated_name;
}

/// Translates each command of a list, the keys of the commands under the
/// parent key where there is one.
pub fn apply_translations_recursive(
    commands: &mut Vec<CommandText>,
    loader: &StaticLoader,
    fallback: &String,
    others: &Vec<String>,
    parent: Option<&str>,
)
    requires
        fallback@ == loader_fallback(*loader),
    ensures
        commands_translated(old(commands)@, final(commands)@, catalog_of(*loader, others@), option_str_view(parent)),
    decreases old(commands)@, 0int,
{
    let ghost cat = catalog_of(*loader, others@);
    let n = commands.len();
    let mut i: usize = 0;
    while i < n
        invariant
            fallback@ == loader_fallback(*loader),
            cat == catalog_of(*loader, others@),
            n == old(commands)@.len(),
            commands@.len() == n,
            i <= n,
            forall|j: int| 0 <= j < i ==> command_translated(#[trigger] old(commands)@[j], commands@[j], cat, option_str_view(parent)),
            forall|j: int| i <= j < n ==> #[trigger] commands@[j] == old(commands)@[j],
        decreases n - i,
    {
        translate_command(&mut commands[i], loader, fallback, others, parent);
        i = i + 1;
    }
}

pub open spec fn option_str_view(o: Option<&str>) -> Option<Seq<char>> {
    match o {
        Some(s) => Some(s@),
        None => None,
    }
}

/// Where the translations of the commands come from: the loader, its fallback
/// language, and every other language it holds.
pub open spec fn loader_catalog(loader: StaticLoader) -> Catalog {
    Catalog {
        loader,
        fallback: loader_fallback(loader),
        others: loader_locales(loader).remove(loader_fallback(loader)),
    }
}

/// Translates the names, descriptions, parameters and parameter choices of
/// slash commands and their subcommands, from the loader's fallback language
/// and its other languages. A command whose key has no text in the fallback
/// language is left as it was, with its subcommands.
pub fn apply_translations(locales: &StaticLoader, commands: &mut Vec<CommandText>)
    ensures
        commands_translated(old(commands)@, final(commands)@, loader_catalog(*locales), None),
{
    let fallback = loader_fallback_tag(locales);
    let all = loader_locale_tags(locales);
    let mut others: Vec<String> = Vec::new();
    let mut i: usize = 0;
    while i < all.len()
        invariant
            i <= all.len(),
            fallback@ == loader_fallback(*locales),
            tag_set(others@) == tag_set(all@.take(i as int)).remove(fallback@),
        decreases all.len() - i,
    {
        let ghost prev = all@.take(i as int);
        let ghost next = all@.take(i + 1);
        let ghost before = others@;
        assert(tag_set(next) =~= tag_set(prev).insert(all@[i as int]@)) by {
            assert forall|t: Seq<char>| tag_set(next).contains(t) implies tag_set(prev).insert(all@[i as int]@).contains(t) by {
                let j = choose|j: int| 0 <= j < next.len() && #[trigger] next[j]@ == t;
                if j < i {
                    assert(prev[j]@ == t);
                }
            }
            assert forall|t: Seq<char>| tag_set(prev).insert(all@[i as int]@).contains(t) implies tag_set(next).contains(t) by {
                if t == all@[i as int]@ {
                    assert(next[i as int]@ == t);
                } else {
                    let j = choose|j: int| 0 <= j < prev.len() && #[trigger] prev[j]@ == t;
                    assert(next[j]@ == t);
                }
            }
        }
        if all[i] != fallback {
            others.push(all[i].clone());
            assert(tag_set(others@) =~= tag_set(before).insert(all@[i as int]@)) by {
                assert forall|t: Seq<char>| tag_set(others@).contains(t) implies tag_set(before).insert(all@[i as int]@).contains(t) by {
                    let j = choose|j: int| 0 <= j < others@.len() && #[trigger] others@[j]@ == t;
                    if j < before.len() {
                        assert(before[j]@ == t);
                    }
                }
                assert forall|t: Seq<char>| tag_set(before).insert(all@[i as int]@).contains(t) implies tag_set(others@).contains(t) by {
                    if t == all@[i as int]@ {
                        assert(others@[before.len() as int]@ == t);
                    } else {
                        let j = choose|j: int| 0 <= j < before.len() && #[trigger] before[j]@ == t;
                        assert(others@[j]@ == t);
                    }
                }
            }
        }
        assert(tag_set(others@) =~= tag_set(next).remove(fallback@));
        i = i + 1;
    }
    assert(all@.take(all.len() as int) =~= all@);
    assert(tag_set(all@) =~= loader_locales(*locales));
    apply_translations_recursive(commands, locales, &fallback, &others, None);
}

/// The language a lookup is made in: the requested locale where it is a
/// language tag, else the fallback language.
pub open spec fn lookup_language(locale: Option<&str>, loader: StaticLoader) -> Seq<char> {
    match locale {
        Some(l) => if language_tag_parses(l@) {
            l@
        } else {
            loader_fallback(loader)
        },
        None => loader_fallback(loader),
    }
}

/// Looks up a message in the language of a request (else the fallback
/// language), with the given arguments; where the loader has no text, the
/// message id itself stands in.
pub fn lookup_ctx(
    locale: Option<&str>,
    locales: &StaticLoader,
    text_id: &str,
    args: Option<&Vec<(String, FluentArg)>>,
) -> (r: String)
    ensures
        ({
            let k = (lookup_language(locale, *locales), text_id@, option_args_view(args));
            r@ == if loader_texts(*locales).contains_key(k) {
                loader_texts(*locales)[k]
            } else {
                text_id@
            }
        }),
{
    let lang = match locale {
        Some(l) => {
            if is_language_tag(l) {
                String::from_str(l)
            } else {
                loader_fallback_tag(locales)
            }
        },
        None => loader_fallback_tag(locales),
    };
    match loader_lookup(locales, lang.as_str(), text_id, args) {
        Some(t) => t,
        None => String::from_str(text_id),
    }
}

/// Setting translations touches only the given languages: any other language,
/// the fallback one among them, keeps the text it had or stays without one.
pub proof fn lemma_localized_keeps_other_languages(
    old: Map<Seq<char>, Seq<char>>,
    loader: StaticLoader,
    langs: Set<Seq<char>>,
    key: Seq<char>,
    lang: Seq<char>,
)
    requires
        !langs.contains(lang),
    ensures
        localized(old, loader, langs, key).contains_key(lang) == old.contains_key(lang),
        old.contains_key(lang) ==> localized(old, loader, langs, key)[lang] == old[lang],
{
}

/// A language given whose text the loader has ends up with that text; one
/// whose text the loader lacks keeps what it had.
pub proof fn lemma_localized_given_languages(
    old: Map<Seq<char>, Seq<char>>,
    loader: StaticLoader,
    langs: Set<Seq<char>>,
    key: Seq<char>,
    lang: Seq<char>,
)
    requires
        langs.contains(lang),
    ensures
        found(loader, lang, key) matches Some(t) ==> localized(old, loader, langs, key).contains_key(lang)
            && localized(old, loader, langs, key)[lang] == t,
        found(loader, lang, key) is None ==> localized(old, loader, langs, key).contains_key(lang) == old.contains_key(lang),
{
}

/// The shape of a command tree: the number of parameters, of each
/// parameter's choices and of subcommands, at every command.
pub open spec fn same_shape(old: CommandText, new: CommandText) -> bool
    decreases old,
{
    &&& new.parameters@.len() == old.parameters@.len()
    &&& forall|i: int| 0 <= i < old.parameters@.len() ==> (#[trigger] new.parameters@[i]).choices@.len()
        == old.parameters@[i].choices@.len()
    &&& new.subcommands@.len() == old.subcommands@.len()
    &&& forall|i: int| 0 <= i < old.subcommands@.len() ==> same_shape(#[trigger] old.subcommands@[i], new.subcommands@[i])
}

proof fn lemma_same_shape_reflexive(c: CommandText)
    ensures
        same_shape(c, c),
    decreases c,
{
    assert forall|i: int| 0 <= i < c.subcommands@.len() implies same_shape(#[trigger] c.subcommands@[i], c.subcommands@[i]) by {
        lemma_same_shape_reflexive(c.subcommands@[i]);
    }
}

/// A command whose key has no text in the fallback language is left exactly as
/// it was, its parameters and whole subcommand tree included.
pub proof fn lemma_untranslated_command_unchanged(old: CommandText, new: CommandText, cat: Catalog, parent: Option<Seq<char>>)
    requires
        command_translated(old, new, cat, parent),
        found(cat.loader, cat.fallback, command_key(parent, old.name@)) is None,
    ensures
        new == old,
{
}

/// The subcommands of a translated command are translated under the key of
/// the command before translation: keys chain the untranslated names.
pub proof fn lemma_subcommands_under_key_path(old: CommandText, new: CommandText, cat: Catalog, parent: Option<Seq<char>>)
    requires
        command_translated(old, new, cat, parent),
        found(cat.loader, cat.fallback, command_key(parent, old.name@)) is Some,
    ensures
        commands_translated(old.subcommands@, new.subcommands@, cat, Some(command_key(parent, old.name@))),
{
}

/// Translation keeps the shape of a command tree: at every command, the
/// numbers of parameters, of their choices and of subcommands.
pub proof fn lemma_translation_keeps_shape(old: CommandText, new: CommandText, cat: Catalog, parent: Option<Seq<char>>)
    requires
        command_translated(old, new, cat, parent),
    ensures
        same_shape(old, new),
    decreases old,
{
    let key = command_key(parent, old.name@);
    if found(cat.loader, cat.fallback, key) is None {
        lemma_same_shape_reflexive(old);
    } else {
        assert forall|i: int| 0 <= i < old.parameters@.len() implies (#[trigger] new.parameters@[i]).choices@.len()
            == old.parameters@[i].choices@.len() by {
            assert(parameter_translated(old.parameters@[i], new.parameters@[i], cat, key));
        }
        assert forall|i: int| 0 <= i < old.subcommands@.len() implies same_shape(#[trigger] old.subcommands@[i], new.subcommands@[i]) by {
            lemma_translation_keeps_shape(old.subcommands@[i], new.subcommands@[i], cat, Some(key));
        }
    }
}

/// What translation gives a language of a localisation map: the loader's text
/// for the key where there is one, else what the map had.
pub open spec fn localized_at(
    new: Map<Seq<char>, Seq<char>>,
    old: Map<Seq<char>, Seq<char>>,
    loader: StaticLoader,
    lang: Seq<char>,
    key: Seq<char>,
) -> bool {
    match found(loader, lang, key) {
        Some(t) => new.contains_key(lang) && new[lang] == t,
        None => new.contains_key(lang) == old.contains_key(lang) && (old.contains_key(lang) ==> new[lang] == old[lang]),
    }
}

/// A translated parameter of a command with key `base`: its key is
/// `base.name` and its description key `base.name-description`. Its name and
/// the name localisations come from the first key, its description and the
/// description localisations from the second, never the other way round.
pub proof fn lemma_parameter_keys(old: ParameterText, new: ParameterText, cat: Catalog, base: Seq<char>, lang: Seq<char>)
    requires
        parameter_translated(old, new, cat, base),
        cat.others.contains(lang),
    ensures
        ({
            let key = base + seq!['.'] + old.name@;
            let description_key = key + seq!['-', 'd', 'e', 's', 'c', 'r', 'i', 'p', 't', 'i', 'o', 'n'];
            &&& localized_at(new.name_localizations@, old.name_localizations@, cat.loader, lang, key)
            &&& localized_at(new.description_localizations@, old.description_localizations@, cat.loader, lang, description_key)
            &&& new.name@ == match found(cat.loader, cat.fallback, key) {
                Some(t) => t,
                None => old.name@,
            }
            &&& option_string_view(new.description) == match found(cat.loader, cat.fallback, description_key) {
                Some(t) => Some(t),
                None => option_string_view(old.description),
            }
        }),
{
    reveal_strlit(".");
    reveal_strlit("-description");
    assert("."@ =~= seq!['.']);
    assert("-description"@ =~= seq!['-', 'd', 'e', 's', 'c', 'r', 'i', 'p', 't', 'i', 'o', 'n']);
}

/// A translated command (one whose key has a fallback text) gets its name from
/// its key, and its description and description localisations from the key
/// with `.description`.
pub proof fn lemma_command_keys(old: CommandText, new: CommandText, cat: Catalog, parent: Option<Seq<char>>, lang: Seq<char>)
    requires
        command_translated(old, new, cat, parent),
        cat.others.contains(lang),
    ensures
        ({
            let key = match parent {
                Some(p) => p + seq!['-'] + old.name@,
                None => old.name@,
            };
            let description_key = key + seq!['.', 'd', 'e', 's', 'c', 'r', 'i', 'p', 't', 'i', 'o', 'n'];
            found(cat.loader, cat.fallback, key) matches Some(name) ==> {
                &&& new.name@ == name
                &&& localized_at(new.name_localizations@, old.name_localizations@, cat.loader, lang, key)
                &&& localized_at(new.description_localizations@, old.description_localizations@, cat.loader, lang, description_key)
                &&& option_string_view(new.description) == match found(cat.loader, cat.fallback, description_key) {
                    Some(t) => Some(t),
                    None => option_string_view(old.description),
                }
            }
        }),
{
    reveal_strlit("-");
    reveal_strlit(".description");
    assert("-"@ =~= seq!['-']);
    assert(".description"@ =~= seq!['.', 'd', 'e', 's', 'c', 'r', 'i', 'p', 't', 'i', 'o', 'n']);
}

/// A translated choice of a parameter with key `param_key`: its key is
/// `param_key-name`, from which its name and localisations come.
pub proof fn lemma_choice_keys(old: ChoiceText, new: ChoiceText, cat: Catalog, param_key: Seq<char>, lang: Seq<char>)
    requires
        choice_translated(old, new, cat, param_key),
        cat.others.contains(lang),
    ensures
        ({
            let key = param_key + seq!['-'] + old.name@;
            &&& localized_at(new.localizations@, old.localizations@, cat.loader, lang, key)
            &&& new.name@ == match found(cat.loader, cat.fallback, key) {
                Some(t) => t,
                None => old.name@,
            }
        }),
{
    reveal_strlit("-");
    assert("-"@ =~= seq!['-']);
}

/// The commands are translated into every language the loader holds besides
/// the fallback one, and never into the fallback language.
pub proof fn lemma_catalog_languages(loader: StaticLoader, lang: Seq<char>)
    ensures
        loader_catalog(loader).fallback == loader_fallback(loader),
        loader_catalog(loader).others.contains(lang) == (loader_locales(loader).contains(lang) && lang != loader_fallback(loader)),
        !loader_catalog(loader).others.contains(loader_fallback(loader)),
{
}

/// A lookup is made in the requested locale where that is a language tag, and
/// in the fallback language where it is not or where none is requested.
pub proof fn lemma_lookup_language(locale: Option<&str>, loader: StaticLoader)
    ensures
        locale is Some && language_tag_parses(locale->Some_0@) ==> lookup_language(locale, loader) == locale->Some_0@,
        !(locale is Some && language_tag_parses(locale->Some_0@)) ==> lookup_language(locale, loader) == loader_fallback(loader),
{
}

} // verus!
