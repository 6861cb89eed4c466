//! Loading and saving the configuration document: what to make of what was
//! found at the document's path, and how a failure is reported.
//!
//! Reading, writing and decoding the file are the host's part. It tells this
//! module what it found, and does what the answer asks for.

use crate::config::{default_document, generate_default_user_config, UserConfigFS, UserConfigView};
use crate::text::joined;
use vstd::prelude::*;

verus! {

/// Why the configuration document could not be loaded or saved. Each case
/// carries the raw diagnostic of the step that failed.
#[derive(Debug)]
pub enum UserConfigError {
    /// The file is there but could not be read.
    Read(String),
    /// The document could not be encoded or written.
    Write(String),
    /// The file was read but does not hold a valid document.
    Parse(String),
}

/// What a [`UserConfigError`] holds, as plain mathematical values.
pub enum UserConfigErrorView {
    Read(Seq<char>),
    Write(Seq<char>),
    Parse(Seq<char>),
}

impl View for UserConfigError {
    type V = UserConfigErrorView;

    open spec fn view(&self) -> UserConfigErrorView {
        match self {
            UserConfigError::Read(d) => UserConfigErrorView::Read(d@),
            UserConfigError::Write(d) => UserConfigErrorView::Write(d@),
            UserConfigError::Parse(d) => UserConfigErrorView::Parse(d@),
        }
    }
}

impl UserConfigErrorView {
    /// The sentence that tells a user what went wrong.
    pub open spec fn summary(self) -> Seq<char> {
        match self {
            UserConfigErrorView::Read(_) => "Unable to load User Configuration file."@,
            UserConfigErrorView::Write(_) => "Unable to save User Configuration file."@,
            UserConfigErrorView::Parse(_) =>
                "User Configuration file found, but could not be parsed."@,
        }
    }

    /// The raw diagnostic.
    pub open spec fn detail(self) -> Seq<char> {
        match self {
            UserConfigErrorView::Read(d) => d,
            UserConfigErrorView::Write(d) => d,
            UserConfigErrorView::Parse(d) => d,
        }
    }

    /// Both parts as one message: the summary, a line break, the detail.
    pub open spec fn message(self) -> Seq<char> {
        self.summary() + "\n"@ + self.detail()
    }
}

impl UserConfigError {
    /// The sentence that tells a user what went wrong.
    pub fn summary(&self) -> (text: String)
        ensures
            text@ == self@.summary(),
    {
        match self {
            UserConfigError::Read(_) => "Unable to load User Configuration file.".to_owned(),
            UserConfigError::Write(_) => "Unable to save User Configuration file.".to_owned(),
            UserConfigError::Parse(_) =>
                "User Configuration file found, but could not be parsed.".to_owned(),
        }
    }

    /// The raw diagnostic of the step that failed.
    pub fn detail(&self) -> (text: String)
        ensures
            text@ == self@.detail(),
    {
        match self {
            UserConfigError::Read(d) => d.clone(),
            UserConfigError::Write(d) => d.clone(),
            UserConfigError::Parse(d) => d.clone(),
        }
    }

    /// The two-part message: the summary, a line break, the detail.
    pub fn to_string(&self) -> (text: String)
        ensures
            text@ == self@.message(),
    {
        let summary = self.summary();
        let detail = self.detail();
        let head = joined(summary.as_str(), "\n");
        joined(head.as_str(), detail.as_str())
    }
}

impl Clone for UserConfigError {
    fn clone(&self) -> (copy: Self)
        ensures
            copy@ == self@,
    {
        match self {
            UserConfigError::Read(d) => UserConfigError::Read(d.clone()),
            UserConfigError::Write(d) => UserConfigError::Write(d.clone()),
            UserConfigError::Parse(d) => UserConfigError::Parse(d.clone()),
        }
    }
}

impl PartialEq for UserConfigError {
    fn eq(&self, other: &Self) -> (equal: bool) {
        match (self, other) {
            (UserConfigError::Read(a), UserConfigError::Read(b)) => *a == *b,
            (UserConfigError::Write(a), UserConfigError::Write(b)) => *a == *b,
            (UserConfigError::Parse(a), UserConfigError::Parse(b)) => *a == *b,
            _ => false,
        }
    }
}

impl vstd::std_specs::cmp::PartialEqSpecImpl for UserConfigError {
    open spec fn obeys_eq_spec() -> bool {
        true
    }

    open spec fn eq_spec(&self, other: &Self) -> bool {
        self@ == other@
    }
}

/// What the host found at the document's path.
#[derive(Debug)]
pub enum ConfigSource {
    /// No file is there.
    Missing,
    /// A file is there, but reading it failed with this diagnostic.
    Unreadable(String),
    /// The file was read, but decoding it failed with this diagnostic.
    Malformed(String),
    /// The file holds this document.
    Document(UserConfigFS),
}

/// What a [`ConfigSource`] holds, as plain mathematical values.
pub enum ConfigSourceView {
    Missing,
    Unreadable(Seq<char>),
    Malformed(Seq<char>),
    Document(UserConfigView),
}

impl View for ConfigSource {
    type V = ConfigSourceView;

    open spec fn view(&self) -> ConfigSourceView {
        match self {
            ConfigSource::Missing => ConfigSourceView::Missing,
            ConfigSource::Unreadable(d) => ConfigSourceView::Unreadable(d@),
            ConfigSource::Malformed(d) => ConfigSourceView::Malformed(d@),
            ConfigSource::Document(c) => ConfigSourceView::Document(c@),
        }
    }
}

/// The answer to a load.
#[derive(Debug)]
pub enum ConfigLoad {
    /// This is the configuration; nothing is to be written.
    Ready(UserConfigFS),
    /// This fresh configuration is to be written to the path first; what
    /// the caller gets then depends on how the write went.
    Persist(UserConfigFS),
    /// The load failed.
    Failed(UserConfigError),
}

/// What a [`ConfigLoad`] holds, as plain mathematical values.
pub enum ConfigLoadView {
    Ready(UserConfigView),
    Persist(UserConfigView),
    Failed(UserConfigErrorView),
}

impl View for ConfigLoad {
    type V = ConfigLoadView;

    open spec fn view(&self) -> ConfigLoadView {
        match self {
            ConfigLoad::Ready(c) => ConfigLoadView::Ready(c@),
            ConfigLoad::Persist(c) => ConfigLoadView::Persist(c@),
            ConfigLoad::Failed(e) => ConfigLoadView::Failed(e@),
        }
    }
}

/// The answer that a load owes: a document that is there is the
/// configuration; a file that cannot be read or decoded is an error; and
/// where no file is there the fresh configuration stands in, to be written
/// first if `save_default_config` asks for it.
pub open spec fn load_decision(source: ConfigSourceView, save_default_config: bool) -> ConfigLoadView {
    match source {
        ConfigSourceView::Document(c) => ConfigLoadView::Ready(c),
        ConfigSourceView::Unreadable(d) => ConfigLoadView::Failed(UserConfigErrorView::Read(d)),
        ConfigSourceView::Malformed(d) => ConfigLoadView::Failed(UserConfigErrorView::Parse(d)),
        ConfigSourceView::Missing => if save_default_config {
            ConfigLoadView::Persist(default_document())
        } else {
            ConfigLoadView::Ready(default_document())
        },
    }
}

/// Decides what a load answers, given what was found at the path.
pub fn get_user_configuration(source: ConfigSource, save_default_config: bool) -> (answer:
    ConfigLoad)
    ensures
        answer@ == load_decision(source@, save_default_config),
{
    match source {
        ConfigSource::Document(c) => ConfigLoad::Ready(c),
        ConfigSource::Unreadable(d) => ConfigLoad::Failed(UserConfigError::Read(d)),
        ConfigSource::Malformed(d) => ConfigLoad::Failed(UserConfigError::Parse(d)),
        ConfigSource::Missing => {
            let fresh = generate_default_user_config();
            if save_default_config {
                ConfigLoad::Persist(fresh)
            } else {
                ConfigLoad::Ready(fresh)
            }
        },
    }
}

/// Turns the outcome of encoding and writing the document into the answer
/// of a save: `written` is `Ok` if both went well, else the diagnostic of
/// the step that failed, which becomes a `Write` error.
pub fn save_user_configuration(written: Result<(), String>) -> (answer: Result<
    (),
    UserConfigError,
>)
    ensures
        match written {
            Ok(_) => answer is Ok,
            Err(diagnostic) => answer matches Err(error) && error@ == UserConfigErrorView::Write(
                diagnostic@,
            ),
        },
{
    match written {
        Ok(_) => Ok(()),
        Err(d) => Err(UserConfigError::Write(d)),
    }
}

/// A configuration that was loaded, and the error of the write that was
/// to save it, if that write was asked for and failed.
#[derive(Debug)]
pub struct Loaded {
    pub config: UserConfigFS,
    pub write_failure: Option<UserConfigError>,
}

/// Completes a load that answered [`ConfigLoad::Ready`]: the configuration
/// is the result, and nothing is reported.
pub fn ready(config: UserConfigFS) -> (loaded: Loaded)
    ensures
        loaded.config == config,
        loaded.write_failure is None,
{
    Loaded { config, write_failure: None }
}

/// Completes a load that answered [`ConfigLoad::Persist`], once the host
/// has tried to save the fresh configuration. The fresh configuration is
/// the result however the save went; a save that failed is reported beside
/// it.
pub fn persisted(fresh: UserConfigFS, saved: Result<(), UserConfigError>) -> (loaded: Loaded)
    ensures
        loaded.config == fresh,
        match saved {
            Ok(_) => loaded.write_failure is None,
            Err(error) => loaded.write_failure == Some(error),
        },
{
    match saved {
        Ok(_) => Loaded { config: fresh, write_failure: None },
        Err(error) => Loaded { config: fresh, write_failure: Some(error) },
    }
}

/// A document that is there is handed back as it is, whatever the flag
/// says, and nothing is asked to be written. So a document that was saved
/// and is found again loads as the document that was saved, and loading it
/// twice gives the same both times.
pub proof fn lemma_present_document_loads_unchanged(
    document: UserConfigView,
    first_flag: bool,
    second_flag: bool,
)
    ensures
        load_decision(ConfigSourceView::Document(document), first_flag) == ConfigLoadView::Ready(
            document,
        ),
        load_decision(ConfigSourceView::Document(document), second_flag) == load_decision(
            ConfigSourceView::Document(document),
            first_flag,
        ),
{
}

/// Where no file is there and saving is asked for, the fresh configuration
/// is to be written; once that document is found at the path, a load
/// answers with the same fresh configuration.
pub proof fn lemma_first_run_then_reload(later_flag: bool)
    ensures
        load_decision(ConfigSourceView::Missing, true) == ConfigLoadView::Persist(
            default_document(),
        ),
        load_decision(ConfigSourceView::Document(default_document()), later_flag)
            == ConfigLoadView::Ready(default_document()),
{
}

/// A file that cannot be decoded gives a `Parse` error with the decoder's
/// diagnostic, never the fresh configuration.
pub proof fn lemma_malformed_document_is_parse_error(diagnostic: Seq<char>, flag: bool)
    ensures
        load_decision(ConfigSourceView::Malformed(diagnostic), flag) == ConfigLoadView::Failed(
            UserConfigErrorView::Parse(diagnostic),
        ),
        !(load_decision(ConfigSourceView::Malformed(diagnostic), flag) is Ready),
        !(load_decision(ConfigSourceView::Malformed(diagnostic), flag) is Persist),
{
}

} // verus!
