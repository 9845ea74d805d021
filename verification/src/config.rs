//! The settings of an invocation and the file that holds them.

use vstd::prelude::*;
use vstd::string::*;

use crate::outcome::{join, Failure, FailureView};
use crate::table::{
    found_view, parse_error_text, parse_table, parsed_items, pretty_text, render_error_text,
    render_table, table_get, table_insert, table_items, table_new, Items, Setting, SettingView,
};

verus! {

/// The settings of one invocation.
#[derive(Clone, Debug, PartialEq, Eq)]
pub struct Config {
    /// The remote that pull and push talk to.
    pub default_remote: String,
    /// The template for commit messages, with one `{}` placeholder.
    pub commit_template: String,
    /// Whether a commit is preceded by a pull.
    pub auto_pull: bool,
}

/// Mathematical model of a [`Config`].
pub ghost struct ConfigView {
    pub default_remote: Seq<char>,
    pub commit_template: Seq<char>,
    pub auto_pull: bool,
}

impl ConfigView {
    /// The settings in effect where no settings file exists.
    pub open spec fn default_value() -> ConfigView {
        ConfigView {
            default_remote: "origin"@,
            commit_template: "feat: {}"@,
            auto_pull: true,
        }
    }
}

impl View for Config {
    type V = ConfigView;

    open spec fn view(&self) -> ConfigView {
        ConfigView {
            default_remote: self.default_remote@,
            commit_template: self.commit_template@,
            auto_pull: self.auto_pull,
        }
    }
}

impl Default for Config {
    fn default() -> (config: Config)
        ensures
            config@ == ConfigView::default_value(),
    {
        Config {
            default_remote: "origin".to_owned(),
            commit_template: "feat: {}".to_owned(),
            auto_pull: true,
        }
    }
}

/// The path of the settings file, relative to the working directory.
pub fn config_path() -> (path: String)
    ensures
        path@ == "git-automate.toml"@,
{
    "git-automate.toml".to_owned()
}

/// The model of a loaded configuration or the failure to load one.
pub open spec fn loaded_view(r: Result<Config, Failure>) -> Result<ConfigView, FailureView> {
    match r {
        Ok(config) => Ok(config@),
        Err(e) => Err(e@),
    }
}

/// What a lookup in the settings file found: `None` where the key is absent,
/// `Some(None)` where it holds neither a string nor a boolean.
pub open spec fn lookup(items: Items, key: Seq<char>) -> Option<Option<SettingView>> {
    if items.contains_key(key) {
        Some(items[key])
    } else {
        None
    }
}

/// The model of what a lookup handed out.
pub open spec fn lookup_view(found: Option<Option<Setting>>) -> Option<Option<SettingView>> {
    match found {
        Some(inner) => Some(found_view(inner)),
        None => None,
    }
}

/// The failure for a key that the settings file lacks.
pub open spec fn missing_field(key: Seq<char>) -> FailureView {
    FailureView::Config { message: "Failed to parse config file: missing field "@ + key }
}

/// The failure for a key whose value is of the wrong type.
pub open spec fn mistyped_field(key: Seq<char>) -> FailureView {
    FailureView::Config { message: "Failed to parse config file: invalid type for field "@ + key }
}

/// The string found under `key`, or why there is none.
pub open spec fn text_setting(key: Seq<char>, found: Option<Option<SettingView>>) -> Result<
    Seq<char>,
    FailureView,
> {
    match found {
        None => Err(missing_field(key)),
        Some(Some(SettingView::Text(s))) => Ok(s),
        Some(_) => Err(mistyped_field(key)),
    }
}

/// The boolean found under `key`, or why there is none.
pub open spec fn flag_setting(key: Seq<char>, found: Option<Option<SettingView>>) -> Result<
    bool,
    FailureView,
> {
    match found {
        None => Err(missing_field(key)),
        Some(Some(SettingView::Flag(b))) => Ok(b),
        Some(_) => Err(mistyped_field(key)),
    }
}

/// The configuration made of what was found under the three recognised keys.
/// All three must be present and of the right type; the first that is not, in
/// the order remote, template, auto-pull, gives the failure.
pub open spec fn config_of_settings(
    remote: Option<Option<SettingView>>,
    template: Option<Option<SettingView>>,
    auto_pull: Option<Option<SettingView>>,
) -> Result<ConfigView, FailureView> {
    match text_setting("default_remote"@, remote) {
        Err(e) => Err(e),
        Ok(default_remote) => match text_setting("commit_template"@, template) {
            Err(e) => Err(e),
            Ok(commit_template) => match flag_setting("auto_pull"@, auto_pull) {
                Err(e) => Err(e),
                Ok(auto_pull) => Ok(ConfigView { default_remote, commit_template, auto_pull }),
            },
        },
    }
}

/// The configuration that a document's entries stand for. Keys other than the
/// three recognised ones are ignored.
pub open spec fn config_of_items(items: Items) -> Result<ConfigView, FailureView> {
    config_of_settings(
        lookup(items, "default_remote"@),
        lookup(items, "commit_template"@),
        lookup(items, "auto_pull"@),
    )
}

/// The entries written out for a configuration.
pub open spec fn items_of(config: ConfigView) -> Items {
    Map::empty().insert("default_remote"@, Some(SettingView::Text(config.default_remote))).insert(
        "commit_template"@,
        Some(SettingView::Text(config.commit_template)),
    ).insert("auto_pull"@, Some(SettingView::Flag(config.auto_pull)))
}

/// Whether `r` is a result that parsing `text` may give: on a TOML document
/// the configuration or failure that its entries stand for, on any other text
/// a configuration failure whose message begins with the parse prefix.
pub open spec fn parses_to(text: Seq<char>, r: Result<ConfigView, FailureView>) -> bool {
    match parsed_items(text) {
        Some(items) => r == config_of_items(items),
        None => r matches Err(FailureView::Config { message })
            && "Failed to parse config file: "@.is_prefix_of(message),
    }
}

/// A configuration is never made of a file in part: where a document's
/// entries give one, each of the three keys is present in the document and
/// holds the value that the configuration has.
pub proof fn lemma_config_is_whole(items: Items, config: ConfigView)
    requires
        config_of_items(items) == Ok::<ConfigView, FailureView>(config),
    ensures
        lookup(items, "default_remote"@) == Some(Some(SettingView::Text(config.default_remote))),
        lookup(items, "commit_template"@) == Some(
            Some(SettingView::Text(config.commit_template)),
        ),
        lookup(items, "auto_pull"@) == Some(Some(SettingView::Flag(config.auto_pull))),
{
}

/// Whether `text` is a settings file that stands for `config`.
pub open spec fn loads_as(text: Seq<char>, config: ConfigView) -> bool {
    parsed_items(text) matches Some(items) && config_of_items(items) == Ok::<
        ConfigView,
        FailureView,
    >(config)
}

/// Loading a settings file that stands for a configuration gives that
/// configuration, and nothing else.
pub proof fn lemma_file_loads_as_written(
    text: Seq<char>,
    config: ConfigView,
    loaded: Result<ConfigView, FailureView>,
)
    ensures
        loads_as(text, config) && parses_to(text, loaded) ==> loaded == Ok::<
            ConfigView,
            FailureView,
        >(config),
{
}

/// Reading back the entries written for a configuration gives that
/// configuration.
pub proof fn lemma_items_read_back(config: ConfigView)
    ensures
        config_of_items(items_of(config)) == Ok::<ConfigView, FailureView>(config),
{
    reveal_strlit("default_remote");
    reveal_strlit("commit_template");
    reveal_strlit("auto_pull");
    assert("default_remote"@.len() == 14);
    assert("commit_template"@.len() == 15);
    assert("auto_pull"@.len() == 9);
}

fn text_from(key: &str, found: Option<Option<Setting>>) -> (r: Result<String, Failure>)
    ensures
        match r {
            Ok(s) => text_setting(key@, lookup_view(found)) == Ok::<Seq<char>, FailureView>(s@),
            Err(e) => text_setting(key@, lookup_view(found)) == Err::<Seq<char>, FailureView>(e@),
        },
{
    match found {
        None => Err(
            Failure::Config { message: join("Failed to parse config file: missing field ", key) },
        ),
        Some(Some(Setting::Text(s))) => Ok(s),
        Some(_) => Err(
            Failure::Config {
                message: join("Failed to parse config file: invalid type for field ", key),
            },
        ),
    }
}

fn flag_from(key: &str, found: Option<Option<Setting>>) -> (r: Result<bool, Failure>)
    ensures
        match r {
            Ok(b) => flag_setting(key@, lookup_view(found)) == Ok::<bool, FailureView>(b),
            Err(e) => flag_setting(key@, lookup_view(found)) == Err::<bool, FailureView>(e@),
        },
{
    match found {
        None => Err(
            Failure::Config { message: join("Failed to parse config file: missing field ", key) },
        ),
        Some(Some(Setting::Flag(b))) => Ok(b),
        Some(_) => Err(
            Failure::Config {
                message: join("Failed to parse config file: invalid type for field ", key),
            },
        ),
    }
}

/// Builds the configuration from what a settings file holds under the three
/// recognised keys, each given as found: `None` for an absent key,
/// `Some(None)` for a value that is neither a string nor a boolean.
pub fn config_from_settings(
    remote: Option<Option<Setting>>,
    template: Option<Option<Setting>>,
    auto_pull: Option<Option<Setting>>,
) -> (r: Result<Config, Failure>)
    ensures
        loaded_view(r) == config_of_settings(
            lookup_view(remote),
            lookup_view(template),
            lookup_view(auto_pull),
        ),
{
    let default_remote = match text_from("default_remote", remote) {
        Ok(s) => s,
        Err(e) => {
            return Err(e);
        },
    };
    let commit_template = match text_from("commit_template", template) {
        Ok(s) => s,
        Err(e) => {
            return Err(e);
        },
    };
    let auto_pull = match flag_from("auto_pull", auto_pull) {
        Ok(b) => b,
        Err(e) => {
            return Err(e);
        },
    };
    Ok(Config { default_remote, commit_template, auto_pull })
}

/// Parses the text of a settings file.
pub fn parse_config(text: &str) -> (r: Result<Config, Failure>)
    ensures
        parses_to(text@, loaded_view(r)),
{
    match parse_table(text) {
        Err(error) => {
            let detail = parse_error_text(&error);
            let message = join("Failed to parse config file: ", detail.as_str());
            assert(message@.subrange(0, "Failed to parse config file: "@.len() as int)
                =~= "Failed to parse config file: "@);
            Err(Failure::Config { message })
        },
        Ok(table) => {
            let remote = table_get(&table, "default_remote");
            let template = table_get(&table, "commit_template");
            let auto_pull = table_get(&table, "auto_pull");
            config_from_settings(remote, template, auto_pull)
        },
    }
}

/// The configuration of an invocation, given the text of the settings file
/// where there is one. Without a file the defaults are in effect; with one,
/// the file alone decides, and a malformed file is a failure.
pub fn load_config(file: Option<&str>) -> (r: Result<Config, Failure>)
    ensures
        file is None ==> loaded_view(r) == Ok::<ConfigView, FailureView>(
            ConfigView::default_value(),
        ),
        file matches Some(text) ==> parses_to(text@, loaded_view(r)),
{
    match file {
        None => Ok(Config::default()),
        Some(text) => parse_config(text),
    }
}

/// The text of the settings file for a configuration.
pub fn render_config(config: &Config) -> (r: Result<String, Failure>)
    ensures
        match pretty_text(items_of(config@)) {
            Some(text) => r matches Ok(out) && out@ == text,
            None => r matches Err(Failure::Config { .. }),
        },
{
    let mut table = table_new();
    table_insert(
        &mut table,
        "default_remote".to_owned(),
        Setting::Text(config.default_remote.clone()),
    );
    table_insert(
        &mut table,
        "commit_template".to_owned(),
        Setting::Text(config.commit_template.clone()),
    );
    table_insert(&mut table, "auto_pull".to_owned(), Setting::Flag(config.auto_pull));
    assert(table_items(table) == items_of(config@));
    match render_table(&table) {
        Ok(out) => Ok(out),
        Err(error) => Err(Failure::Config { message: render_error_text(&error) }),
    }
}

/// Whether two configurations hold the same settings.
fn same_settings(a: &Config, b: &Config) -> (same: bool)
    ensures
        same == (a@ == b@),
{
    a.default_remote == b.default_remote && a.commit_template == b.commit_template && a.auto_pull
        == b.auto_pull
}

/// The text to write to the settings file for a configuration, handed out
/// only once it has been read back and found to stand for that configuration.
/// So whatever is written loads as what was meant.
pub fn settings_text(config: &Config) -> (r: Result<String, Failure>)
    ensures
        r is Ok <==> (pretty_text(items_of(config@)) matches Some(text) && loads_as(
            text,
            config@,
        )),
        r matches Ok(out) ==> pretty_text(items_of(config@)) == Some(out@) && loads_as(
            out@,
            config@,
        ),
        r matches Err(e) ==> e is Config,
{
    match render_config(config) {
        Err(e) => Err(e),
        Ok(text) => {
            let verdict = match parse_config(text.as_str()) {
                Ok(loaded) => same_settings(&loaded, config),
                Err(_) => false,
            };
            if verdict {
                Ok(text)
            } else {
                Err(
                    Failure::Config {
                        message: "Failed to write config file: the settings do not read back".to_owned(),
                    },
                )
            }
        },
    }
}

} // verus!
