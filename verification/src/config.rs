//! The configuration: the entries a user selects from, and the options of
//! the engine.

use vstd::prelude::*;
use vstd::string::*;
use crate::snippet::Snippet;

verus! {

/// A key that the user searches and selects by, and the snippet it stands for.
#[derive(Debug, PartialEq, Eq)]
pub struct Entry {
    /// The text matched against what the user types.
    pub key: String,
    /// What is typed when the entry is selected.
    pub snippet: Snippet,
    /// A note shown beside the key.
    pub description: Option<String>,
}

/// What is read once at startup and never changed.
#[derive(Debug, PartialEq, Eq)]
pub struct Config {
    /// The shell that shell snippets are handed to; `sh` when unset.
    pub shell: Option<String>,
    /// The entries, in the order in which they are listed.
    pub entries: Vec<Entry>,
    /// Milliseconds to wait before typing, so that the host's window is gone.
    pub delay: Option<u64>,
}

/// What opens the note's markup.
pub open spec fn markup_open() -> Seq<char> {
    "<span weight='light' size='small' style='italic'>("@
}

/// What closes the note's markup.
pub open spec fn markup_close() -> Seq<char> {
    ")</span>"@
}

/// The line shown for an entry: the key, a space, and the note in light,
/// small, italic markup and in brackets, or nothing where there is no note.
pub open spec fn rendered(key: Seq<char>, description: Option<String>) -> Seq<char> {
    match description {
        Some(d) => key + " "@ + markup_open() + d@ + markup_close(),
        None => key + " "@,
    }
}

/// The configuration file below the XDG configuration directory `dir`.
pub open spec fn path_under_xdg(dir: Seq<char>) -> Seq<char> {
    dir + "/rofi-snippets/config.json"@
}

/// The configuration file below the home directory `home`.
pub open spec fn path_under_home(home: Seq<char>) -> Seq<char> {
    home + "/.config/rofi-snippets/config.json"@
}

/// Where the configuration file is looked for: the explicit path where one
/// is given; else below the XDG configuration directory; else below the home
/// directory; nowhere if none of the three is known.
pub open spec fn located(
    explicit: Option<String>,
    xdg_config_home: Option<String>,
    home: Option<String>,
) -> Option<Seq<char>> {
    match (explicit, xdg_config_home, home) {
        (Some(p), _, _) => Some(p@),
        (None, Some(dir), _) => Some(path_under_xdg(dir@)),
        (None, None, Some(h)) => Some(path_under_home(h@)),
        (None, None, None) => None,
    }
}

/// The text of an optional string.
pub open spec fn text_of(s: Option<String>) -> Option<Seq<char>> {
    match s {
        Some(t) => Some(t@),
        None => None,
    }
}

impl Entry {
    /// The line shown for this entry.
    pub fn display(&self) -> (r: String)
        ensures
            r@ == rendered(self.key@, self.description),
    {
        let mut out = self.key.clone();
        out.append(" ");
        match &self.description {
            Some(d) => {
                out.append("<span weight='light' size='small' style='italic'>(");
                out.append(d.as_str());
                out.append(")</span>");
            },
            None => {},
        }
        out
    }
}

impl Default for Config {
    /// The configuration used where no file is found: no shell, no entries, no delay.
    fn default() -> (r: Config)
        ensures
            r.shell is None,
            r.entries@.len() == 0,
            r.delay is None,
    {
        Config { shell: None, entries: Vec::new(), delay: None }
    }
}

/// Picks the configuration file's path from the explicit path, the XDG
/// configuration directory and the home directory, as far as each is known.
pub fn config_path(
    explicit: Option<String>,
    xdg_config_home: Option<String>,
    home: Option<String>,
) -> (r: Option<String>)
    ensures
        text_of(r) == located(explicit, xdg_config_home, home),
{
    match explicit {
        Some(p) => Some(p),
        None => match xdg_config_home {
            Some(dir) => Some(dir.concat("/rofi-snippets/config.json")),
            None => match home {
                Some(h) => Some(h.concat("/.config/rofi-snippets/config.json")),
                None => None,
            },
        },
    }
}

} // verus!
