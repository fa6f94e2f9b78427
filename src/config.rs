//! The program's settings and what they decide.
use vstd::prelude::*;
use crate::text::same_text;

verus! {

/// The directory, under the user's home, that holds the program's files.
pub const PROGRAM_DATA_DIRECTORY: &'static str = ".quotekeeper";

/// The collection file's name.
pub const QUOTES_FILE_NAME: &'static str = "quotes.json";

/// The settings file's name.
pub const CONFIG_FILE_NAME: &'static str = "config.conf";

/// The settings file written where none exists yet.
pub const DEFAULT_CONFIG: &'static str = "[settings]
# Set this to your favorite editor to write your quotes (vim, nvim, nano, ...)
# You can also set it to \"stdin\" to read from the standard input,
# or \"default\" to use the default editor on your machine.
editor = \"stdin\"

# Set to false to disable the quote grading.
enable_quote_grading = true";

/// The contents of the settings file.
pub struct Config {
    pub settings: Settings,
}

/// The one section of the settings file.
pub struct Settings {
    /// `stdin`, `default` (the editor that the environment names), or the
    /// program to open.
    pub editor: String,
    pub enable_quote_grading: bool,
}

/// Where the text of a quote comes from.
#[derive(PartialEq, Eq, Debug)]
pub enum QuoteSource {
    /// A line of the standard input.
    Stdin,
    /// The editor that the environment names.
    DefaultEditor,
    /// This editor program.
    Editor(String),
}

impl Config {
    /// Where the text of a quote comes from under these settings.
    pub fn quote_source(&self) -> (r: QuoteSource)
        ensures
            self.settings.editor@ == "stdin"@ ==> r is Stdin,
            self.settings.editor@ == "default"@ ==> r is DefaultEditor,
            self.settings.editor@ != "stdin"@ && self.settings.editor@ != "default"@ ==> (
            r matches QuoteSource::Editor(e) && e@ == self.settings.editor@),
    {
        let editor = self.settings.editor.as_str();
        proof {
            reveal_strlit("stdin");
            reveal_strlit("default");
            assert("stdin"@.len() != "default"@.len());
        }
        if same_text(editor, "stdin") {
            QuoteSource::Stdin
        } else if same_text(editor, "default") {
            QuoteSource::DefaultEditor
        } else {
            QuoteSource::Editor(editor.to_owned())
        }
    }
}

} // verus!
