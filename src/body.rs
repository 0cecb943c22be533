use vstd::prelude::*;

use crate::commands::{all_command_lines, is_command_line, parse_command_lines, Commnads};
use crate::error::ConfigParseError;
use crate::list::StatefulList;

verus! {

/// Which content the body shows: the command reference or the directory listing.
#[derive(Debug, Clone, Copy, PartialEq, Eq, Structural)]
pub enum BodyMode {
    Command,
    List,
}

/// The other mode.
pub open spec fn toggled(mode: BodyMode) -> BodyMode {
    match mode {
        BodyMode::Command => BodyMode::List,
        BodyMode::List => BodyMode::Command,
    }
}

/// Path separator of the directories that are listed.
pub const PATH_SEPARATOR: char = '/';

/// `name` is the last `/`-separated component of `path`.
pub open spec fn is_last_component(path: Seq<char>, name: Seq<char>) -> bool {
    &&& name.len() <= path.len()
    &&& path.subrange(path.len() - name.len(), path.len() as int) == name
    &&& !name.contains(PATH_SEPARATOR)
    &&& name.len() == path.len() || path[path.len() - name.len() - 1] == PATH_SEPARATOR
}

/// Where the content of the next frame comes from.
#[derive(Debug, Clone, Copy, PartialEq, Eq, Structural)]
pub enum ContentSource {
    /// The entries of the current directory.
    DirectoryEntries,
    /// The command file, still to be read.
    CommandFile,
    /// The command table read before.
    CachedCommands,
}

/// What the body shows in browsing mode: a title and the entry names.
pub struct ListContent {
    pub title: String,
    pub items: Vec<String>,
}

/// The content area: its mode, the selectable listing, and the command
/// table, read from the command file once and then kept.
pub struct Body {
    pub body_mode: BodyMode,
    pub list_stateful: StatefulList<String>,
    pub command_list: Option<Vec<Commnads>>,
}

/// What a load of the command table leaves in the cache: an existing table
/// is kept, otherwise the parse of `lines` is stored when it succeeds.
pub open spec fn command_cache_after(
    before: Option<Vec<Commnads>>,
    lines: Seq<String>,
    after: Option<Vec<Commnads>>,
) -> bool {
    match before {
        Some(table) => after == Some(table),
        None => match after {
            None => !all_command_lines(lines, lines.len() as int),
            Some(table) => all_command_lines(lines, lines.len() as int)
                && table@.len() == lines.len() && forall|j: int|
                0 <= j < table@.len() ==> (#[trigger] table@[j]).parsed_from(lines[j]@),
        },
    }
}

/// Name of the last component of a `/`-separated path; the whole path when
/// it holds no separator.
pub fn current_dir_name(path: &str) -> (r: String)
    ensures
        is_last_component(path@, r@),
{
    let n: usize = path.unicode_len();
    let mut start: usize = 0;
    let mut i: usize = 0;
    while i < n
        invariant
            n == path@.len(),
            start <= i <= n,
            start == 0 || path@[start - 1] == PATH_SEPARATOR,
            forall|j: int| start <= j < i ==> path@[j] != PATH_SEPARATOR,
        decreases n - i,
    {
        if path.get_char(i) == PATH_SEPARATOR {
            start = i + 1;
        }
        i = i + 1;
    }
    let name = path.substring_char(start, n).to_owned();
    assert(!name@.contains(PATH_SEPARATOR)) by {
        assert forall|j: int| 0 <= j < name@.len() implies name@[j] != PATH_SEPARATOR by {
            assert(name@[j] == path@[start + j]);
        }
    }
    name
}

impl Body {
    pub fn new() -> (r: Body)
        ensures
            r.body_mode == BodyMode::List,
            r.list_stateful.items@.len() == 0,
            r.list_stateful.selected is None,
            r.command_list is None,
    {
        Body { body_mode: BodyMode::List, list_stateful: StatefulList::new(), command_list: None }
    }

    pub fn set_body_mode(&mut self, mode: BodyMode)
        ensures
            final(self).body_mode == mode,
            final(self).list_stateful == old(self).list_stateful,
            final(self).command_list == old(self).command_list,
    {
        self.body_mode = mode;
    }

    /// Switches between the command reference and the directory listing.
    pub fn set_or_unset_help_mode(&mut self)
        ensures
            final(self).body_mode == toggled(old(self).body_mode),
            final(self).list_stateful == old(self).list_stateful,
            final(self).command_list == old(self).command_list,
    {
        match self.body_mode {
            BodyMode::Command => {
                self.set_body_mode(BodyMode::List);
            },
            BodyMode::List => {
                self.set_body_mode(BodyMode::Command);
            },
        }
    }

    /// Whether the command table has still to be read from the command file.
    pub fn needs_command_file(&self) -> (r: bool)
        ensures
            r == self.command_list is None,
    {
        self.command_list.is_none()
    }

    /// Where the content for the current mode comes from: the directory in
    /// browsing mode; in command mode the command file, unless it was read
    /// before.
    pub fn build_body(&self) -> (r: ContentSource)
        ensures
            r == (match self.body_mode {
                BodyMode::List => ContentSource::DirectoryEntries,
                BodyMode::Command => if self.command_list is None {
                    ContentSource::CommandFile
                } else {
                    ContentSource::CachedCommands
                },
            }),
    {
        match self.body_mode {
            BodyMode::List => ContentSource::DirectoryEntries,
            BodyMode::Command => if self.needs_command_file() {
                ContentSource::CommandFile
            } else {
                ContentSource::CachedCommands
            },
        }
    }

    /// Fills the command table from the lines of the command file, unless it
    /// was filled before, in which case `lines` is not looked at.
    pub fn build_command_list(&mut self, lines: &Vec<String>) -> (r: Result<(), ConfigParseError>)
        ensures
            command_cache_after(old(self).command_list, lines@, final(self).command_list),
            r is Ok <==> final(self).command_list is Some,
            r matches Err(e) ==> e.line < lines@.len() && !is_command_line(
                lines@[e.line as int]@,
            ),
            final(self).body_mode == old(self).body_mode,
            final(self).list_stateful == old(self).list_stateful,
    {
        if self.command_list.is_some() {
            return Ok(());
        }
        match parse_command_lines(lines) {
            Ok(table) => {
                self.command_list = Some(table);
                Ok(())
            },
            Err(e) => Err(e),
        }
    }

    /// Browsing content: the directory's own name as title, and its entry
    /// names as they were given.
    pub fn build_list_content(&self, current_dir_str: &str, entries: Vec<String>) -> (r:
        ListContent)
        ensures
            is_last_component(current_dir_str@, r.title@),
            r.items@ == entries@,
    {
        ListContent { title: current_dir_name(current_dir_str), items: entries }
    }
}

/// Toggling the mode twice gives back the mode it started from.
pub proof fn lemma_toggle_twice(mode: BodyMode)
    ensures
        toggled(toggled(mode)) == mode,
{
}

/// Once the command table is loaded, a later load keeps it as it is,
/// whatever lines it is handed.
pub proof fn lemma_command_cache_kept(
    start: Option<Vec<Commnads>>,
    first_lines: Seq<String>,
    loaded: Option<Vec<Commnads>>,
    second_lines: Seq<String>,
    reloaded: Option<Vec<Commnads>>,
)
    requires
        command_cache_after(start, first_lines, loaded),
        loaded is Some,
        command_cache_after(loaded, second_lines, reloaded),
    ensures
        reloaded == loaded,
{
}

} // verus!
