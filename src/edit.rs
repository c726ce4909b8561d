use vstd::prelude::*;

use crate::paths::{file_name_of, path_file_name};
use crate::text::chars_of;
use crate::viewer::{cycle_down, cycle_up, cycled_down, cycled_up};

verus! {

/// Why no project can be opened.
#[derive(Clone, Copy, Debug, PartialEq, Eq, Structural)]
pub enum EditError {
    NoProjects,
    InvalidSelection,
}

/// `s` in lower case, as `str::to_lowercase` writes it.
pub uninterp spec fn lower_of(s: Seq<char>) -> Seq<char>;

/// Relies on `str::to_lowercase`: the lower-case mapping of each character, which depends on
/// the text alone.
#[verifier::external_body]
fn lowercase(s: &str) -> (r: String)
    ensures
        r@ == lower_of(s@),
{
    s.to_lowercase()
}

/// Whether `p` occurs in `s`.
pub open spec fn contains(s: Seq<char>, p: Seq<char>) -> bool {
    exists|i: int| 0 <= i && i + p.len() <= s.len() && #[trigger] s.subrange(i, i + p.len()) == p
}

fn contains_chars(s: &Vec<char>, p: &Vec<char>) -> (r: bool)
    ensures
        r == contains(s@, p@),
{
    if p.len() > s.len() {
        return false;
    }
    let mut i: usize = 0;
    while i <= s.len() - p.len()
        invariant
            p.len() <= s.len(),
            i <= s.len() - p.len() + 1,
            forall|k: int| 0 <= k < i ==> #[trigger] s@.subrange(k, k + p.len()) != p@,
        decreases s.len() - i,
    {
        let mut j: usize = 0;
        while j < p.len() && s[i + j] == p[j]
            invariant
                j <= p.len(),
                i + p.len() <= s.len(),
                forall|m: int| 0 <= m < j ==> s@[i + m] == p@[m],
            decreases p.len() - j,
        {
            j = j + 1;
        }
        if j == p.len() {
            assert(s@.subrange(i as int, i + p.len()) =~= p@);
            return true;
        }
        assert(s@.subrange(i as int, i + p.len())[j as int] != p@[j as int]);
        i = i + 1;
    }
    assert forall|k: int| 0 <= k && k + p.len() <= s.len() implies #[trigger] s@.subrange(
        k,
        k + p.len(),
    ) != p@ by {
        assert(k < i);
    }
    false
}

/// How an editor is handed a project.
#[derive(Clone, Copy, Debug, PartialEq, Eq, Structural)]
pub enum EditorStyle {
    /// The project directory, with the cursor at the top of `main.v`.
    Workspace,
    /// Every file, each in a tab.
    Tabs,
    /// Every file, without waiting for the editor.
    NoWait,
    /// `main.v` alone, or else the first file.
    SingleFile,
    /// Every file.
    Plain,
}

/// The style of the editor whose command name, in lower case, is `l`.
pub open spec fn style_of(l: Seq<char>) -> EditorStyle {
    if contains(l, seq!['c', 'o', 'd', 'e']) {
        EditorStyle::Workspace
    } else if contains(l, seq!['n', 'v', 'i', 'm']) || contains(l, seq!['v', 'i', 'm']) {
        EditorStyle::Tabs
    } else if contains(l, seq!['e', 'm', 'a', 'c', 's']) {
        EditorStyle::NoWait
    } else if contains(l, seq!['c', 'o', 'd', 'i', 'u', 'm']) {
        EditorStyle::Workspace
    } else if contains(l, seq!['e', 'd', 'i', 't']) {
        EditorStyle::SingleFile
    } else {
        EditorStyle::Plain
    }
}

/// The style of the editor whose command name, already in lower case, is `lower`.
pub fn style_of_lowercase(lower: &str) -> (r: EditorStyle)
    ensures
        r == style_of(lower@),
{
    let l = chars_of(lower);
    let code = vec!['c', 'o', 'd', 'e'];
    let nvim = vec!['n', 'v', 'i', 'm'];
    let vim = vec!['v', 'i', 'm'];
    let emacs = vec!['e', 'm', 'a', 'c', 's'];
    let codium = vec!['c', 'o', 'd', 'i', 'u', 'm'];
    let edit = vec!['e', 'd', 'i', 't'];
    assert(code@ =~= seq!['c', 'o', 'd', 'e']);
    assert(nvim@ =~= seq!['n', 'v', 'i', 'm']);
    assert(vim@ =~= seq!['v', 'i', 'm']);
    assert(emacs@ =~= seq!['e', 'm', 'a', 'c', 's']);
    assert(codium@ =~= seq!['c', 'o', 'd', 'i', 'u', 'm']);
    assert(edit@ =~= seq!['e', 'd', 'i', 't']);
    if contains_chars(&l, &code) {
        EditorStyle::Workspace
    } else if contains_chars(&l, &nvim) || contains_chars(&l, &vim) {
        EditorStyle::Tabs
    } else if contains_chars(&l, &emacs) {
        EditorStyle::NoWait
    } else if contains_chars(&l, &codium) {
        EditorStyle::Workspace
    } else if contains_chars(&l, &edit) {
        EditorStyle::SingleFile
    } else {
        EditorStyle::Plain
    }
}

/// The projects that can be opened in an editor, and the selected one.
#[derive(Debug)]
pub struct ProjectEditor {
    pub projects: Vec<String>,
    pub selected_project_index: usize,
    pub current_directory: String,
}

impl ProjectEditor {
    /// An editor over the project directories `projects` found under `current_directory`.
    pub fn new(current_directory: String, projects: Vec<String>) -> (r: Self)
        ensures
            r.projects@ == projects@,
            r.current_directory@ == current_directory@,
            r.selected_project_index == 0,
    {
        ProjectEditor { projects, selected_project_index: 0, current_directory }
    }

    /// The directory of the project to open.
    pub fn open_project_in_editor(&self) -> (r: Result<&String, EditError>)
        ensures
            self.projects.len() == 0 ==> r == Err::<&String, EditError>(EditError::NoProjects),
            self.projects.len() > 0 && self.selected_project_index >= self.projects.len() ==> r
                == Err::<&String, EditError>(EditError::InvalidSelection),
            self.selected_project_index < self.projects.len() ==> r == Ok::<&String, EditError>(
                &self.projects@[self.selected_project_index as int],
            ),
    {
        if self.projects.len() == 0 {
            Err(EditError::NoProjects)
        } else if self.selected_project_index >= self.projects.len() {
            Err(EditError::InvalidSelection)
        } else {
            Ok(&self.projects[self.selected_project_index])
        }
    }

    /// How the editor `editor` is handed a project, by its command name in any case.
    pub fn editor_style(editor: &str) -> (r: EditorStyle)
        ensures
            r == style_of(lower_of(editor@)),
    {
        let lower = lowercase(editor);
        style_of_lowercase(lower.as_str())
    }

    pub fn move_selection_up(&mut self)
        ensures
            final(self).selected_project_index == cycled_up(
                old(self).selected_project_index,
                old(self).projects.len(),
            ),
            final(self).projects == old(self).projects,
    {
        self.selected_project_index = cycle_up(self.selected_project_index, self.projects.len());
    }

    pub fn move_selection_down(&mut self)
        ensures
            final(self).selected_project_index == cycled_down(
                old(self).selected_project_index,
                old(self).projects.len(),
            ),
            final(self).projects == old(self).projects,
    {
        self.selected_project_index = cycle_down(self.selected_project_index, self.projects.len());
    }

    /// Replaces the project list with a fresh one and selects its first project.
    pub fn refresh_projects(&mut self, projects: Vec<String>)
        ensures
            final(self).projects@ == projects@,
            final(self).selected_project_index == 0,
            final(self).current_directory == old(self).current_directory,
    {
        self.projects = projects;
        self.selected_project_index = 0;
    }

    /// The directory name of the selected project.
    pub fn get_selected_project_name(&self) -> (r: Option<String>)
        ensures
            self.selected_project_index >= self.projects.len() ==> r is None,
            self.selected_project_index < self.projects.len() ==> match r {
                Some(n) => path_file_name(self.projects@[self.selected_project_index as int]@)
                    == Some(n@),
                None => path_file_name(
                    self.projects@[self.selected_project_index as int]@,
                ) is None,
            },
    {
        if self.selected_project_index < self.projects.len() {
            file_name_of(self.projects[self.selected_project_index].as_str())
        } else {
            None
        }
    }

    pub fn get_selected_project_path(&self) -> (r: Option<&String>)
        ensures
            self.selected_project_index < self.projects.len() ==> r == Some(
                &self.projects@[self.selected_project_index as int],
            ),
            self.selected_project_index >= self.projects.len() ==> r is None,
    {
        if self.selected_project_index < self.projects.len() {
            Some(&self.projects[self.selected_project_index])
        } else {
            None
        }
    }

    pub fn has_projects(&self) -> (r: bool)
        ensures
            r == (self.projects.len() > 0),
    {
        self.projects.len() > 0
    }

    pub fn project_count(&self) -> (r: usize)
        ensures
            r == self.projects.len(),
    {
        self.projects.len()
    }
}

} // verus!
