use vstd::prelude::*;

use crate::paths::{file_name_of, path_file_name};
use crate::viewer::{cycle_down, cycle_up, cycled_down, cycled_up};

verus! {

/// What a compilation run does, each a recipe of the project's justfile.
#[derive(Clone, Copy, Debug, PartialEq, Eq, Structural)]
pub enum CompileAction {
    CompileOnly,
    CompileAndSimulate,
    CompileSimulateAndView,
    Clean,
    Info,
}

impl CompileAction {
    /// The justfile recipe that performs this action.
    pub fn as_just_recipe(&self) -> (r: &'static str)
        ensures
            r@ == match *self {
                CompileAction::CompileOnly => "compile"@,
                CompileAction::CompileAndSimulate => "simulate"@,
                CompileAction::CompileSimulateAndView => "view"@,
                CompileAction::Clean => "clean"@,
                CompileAction::Info => "info"@,
            },
    {
        match self {
            CompileAction::CompileOnly => "compile",
            CompileAction::CompileAndSimulate => "simulate",
            CompileAction::CompileSimulateAndView => "view",
            CompileAction::Clean => "clean",
            CompileAction::Info => "info",
        }
    }

    /// What this action does, in words.
    pub open spec fn description_text(self) -> Seq<char> {
        match self {
            CompileAction::CompileOnly => "Compile Verilog files only"@,
            CompileAction::CompileAndSimulate => "Compile and run simulation"@,
            CompileAction::CompileSimulateAndView => "Compile, simulate, and open waveform"@,
            CompileAction::Clean => "Clean generated files"@,
            CompileAction::Info => "Show project information"@,
        }
    }

    pub fn description(&self) -> (r: &'static str)
        ensures
            r@ == self.description_text(),
    {
        match self {
            CompileAction::CompileOnly => "Compile Verilog files only",
            CompileAction::CompileAndSimulate => "Compile and run simulation",
            CompileAction::CompileSimulateAndView => "Compile, simulate, and open waveform",
            CompileAction::Clean => "Clean generated files",
            CompileAction::Info => "Show project information",
        }
    }

    pub fn icon(&self) -> (r: &'static str)
        ensures
            r@ == match *self {
                CompileAction::CompileOnly => "⚙️ "@,
                CompileAction::CompileAndSimulate => "🚀"@,
                CompileAction::CompileSimulateAndView => "📊"@,
                CompileAction::Clean => "🧹"@,
                CompileAction::Info => "ℹ️ "@,
            },
    {
        match self {
            CompileAction::CompileOnly => "⚙️ ",
            CompileAction::CompileAndSimulate => "🚀",
            CompileAction::CompileSimulateAndView => "📊",
            CompileAction::Clean => "🧹",
            CompileAction::Info => "ℹ️ ",
        }
    }
}

/// The actions offered, in menu order.
pub open spec fn all_actions() -> Seq<CompileAction> {
    seq![
        CompileAction::CompileOnly,
        CompileAction::CompileAndSimulate,
        CompileAction::CompileSimulateAndView,
        CompileAction::Clean,
        CompileAction::Info,
    ]
}

/// Why a compilation cannot start.
#[derive(Clone, Copy, Debug, PartialEq, Eq, Structural)]
pub enum CompileError {
    NoProjects,
    InvalidProject,
    InvalidAction,
    /// The selected project has no justfile.
    NoJustfile,
}

/// What to run: the recipe of `action` in the project directory `project_path`.
#[derive(Clone, Debug)]
pub struct CompileRequest {
    pub project_path: String,
    pub action: CompileAction,
}

/// The projects that can be compiled, the selected project and action, and the output of the
/// last run.
#[derive(Debug)]
pub struct ProjectCompiler {
    pub projects: Vec<String>,
    pub selected_project_index: usize,
    pub selected_action_index: usize,
    pub current_directory: String,
    pub available_actions: Vec<CompileAction>,
    pub compilation_output: Vec<String>,
    pub is_compiling: bool,
}

impl ProjectCompiler {
    /// A compiler over the project directories `projects` found under `current_directory`.
    pub fn new(current_directory: String, projects: Vec<String>) -> (r: Self)
        ensures
            r.projects@ == projects@,
            r.current_directory@ == current_directory@,
            r.selected_project_index == 0,
            r.selected_action_index == 0,
            r.available_actions@ == all_actions(),
            r.compilation_output@.len() == 0,
            !r.is_compiling,
    {
        let available_actions = vec![
            CompileAction::CompileOnly,
            CompileAction::CompileAndSimulate,
            CompileAction::CompileSimulateAndView,
            CompileAction::Clean,
            CompileAction::Info,
        ];
        assert(available_actions@ =~= all_actions());
        ProjectCompiler {
            projects,
            selected_project_index: 0,
            selected_action_index: 0,
            current_directory,
            available_actions,
            compilation_output: Vec::new(),
            is_compiling: false,
        }
    }

    /// Checks the selection and starts a run: the output is cleared and the compiler marked busy.
    /// `justfile_present` tells whether the selected project has a justfile.
    pub fn execute_compilation(&mut self, justfile_present: bool) -> (r: Result<
        CompileRequest,
        CompileError,
    >)
        ensures
            old(self).projects.len() == 0 ==> r matches Err(CompileError::NoProjects),
            old(self).projects.len() > 0 && old(self).selected_project_index >= old(self).projects.len() ==> r matches Err(CompileError::InvalidProject),
            old(self).selected_project_index < old(self).projects.len()
                && old(self).selected_action_index >= old(self).available_actions.len() ==> r
                matches Err(CompileError::InvalidAction),
            old(self).selected_project_index < old(self).projects.len()
                && old(self).selected_action_index < old(self).available_actions.len()
                && !justfile_present ==> r matches Err(CompileError::NoJustfile),
            old(self).selected_project_index < old(self).projects.len()
                && old(self).selected_action_index < old(self).available_actions.len()
                && justfile_present ==> r is Ok,
            r is Err ==> *final(self) == *old(self),
            r matches Ok(req) ==> {
                &&& old(self).selected_project_index < old(self).projects.len()
                &&& old(self).selected_action_index < old(self).available_actions.len()
                &&& justfile_present
                &&& req.project_path@ == old(self).projects@[old(self).selected_project_index as int]@
                &&& req.action == old(self).available_actions@[old(self).selected_action_index as int]
                &&& final(self).is_compiling
                &&& final(self).compilation_output@.len() == 0
                &&& final(self).projects == old(self).projects
                &&& final(self).available_actions == old(self).available_actions
                &&& final(self).selected_project_index == old(self).selected_project_index
                &&& final(self).selected_action_index == old(self).selected_action_index
            },
    {
        if self.projects.len() == 0 {
            return Err(CompileError::NoProjects);
        }
        if self.selected_project_index >= self.projects.len() {
            return Err(CompileError::InvalidProject);
        }
        if self.selected_action_index >= self.available_actions.len() {
            return Err(CompileError::InvalidAction);
        }
        if !justfile_present {
            return Err(CompileError::NoJustfile);
        }
        let project_path = self.projects[self.selected_project_index].clone();
        let action = self.available_actions[self.selected_action_index];
        self.is_compiling = true;
        self.compilation_output.clear();
        Ok(CompileRequest { project_path, action })
    }

    /// Ends a run: its output lines, standard output first, are kept for display.
    pub fn finish_compilation(&mut self, stdout_lines: Vec<String>, stderr_lines: Vec<String>)
        ensures
            final(self).compilation_output@ == old(self).compilation_output@ + stdout_lines@
                + stderr_lines@,
            !final(self).is_compiling,
            final(self).projects == old(self).projects,
            final(self).available_actions == old(self).available_actions,
            final(self).selected_project_index == old(self).selected_project_index,
            final(self).selected_action_index == old(self).selected_action_index,
    {
        let mut out = stdout_lines;
        let mut err = stderr_lines;
        self.compilation_output.append(&mut out);
        self.compilation_output.append(&mut err);
        self.is_compiling = false;
    }

    /// The message shown after a successful run of `action` on the project named `project_name`.
    pub fn success_message(action: CompileAction, project_name: &str) -> (r: String)
        ensures
            r@ == action.description_text() + " completed successfully for project '"@
                + project_name@ + "'"@,
    {
        let head = String::from_str(action.description());
        let r = head.concat(" completed successfully for project '");
        let r = r.concat(project_name);
        r.concat("'")
    }

    pub fn move_project_selection_up(&mut self)
        ensures
            final(self).selected_project_index == cycled_up(
                old(self).selected_project_index,
                old(self).projects.len(),
            ),
            final(self).projects == old(self).projects,
            final(self).selected_action_index == old(self).selected_action_index,
    {
        self.selected_project_index = cycle_up(self.selected_project_index, self.projects.len());
    }

    pub fn move_project_selection_down(&mut self)
        ensures
            final(self).selected_project_index == cycled_down(
                old(self).selected_project_index,
                old(self).projects.len(),
            ),
            final(self).projects == old(self).projects,
            final(self).selected_action_index == old(self).selected_action_index,
    {
        self.selected_project_index = cycle_down(self.selected_project_index, self.projects.len());
    }

    pub fn move_action_selection_up(&mut self)
        ensures
            final(self).selected_action_index == cycled_up(
                old(self).selected_action_index,
                old(self).available_actions.len(),
            ),
            final(self).available_actions == old(self).available_actions,
            final(self).selected_project_index == old(self).selected_project_index,
    {
        self.selected_action_index = cycle_up(
            self.selected_action_index,
            self.available_actions.len(),
        );
    }

    pub fn move_action_selection_down(&mut self)
        ensures
            final(self).selected_action_index == cycled_down(
                old(self).selected_action_index,
                old(self).available_actions.len(),
            ),
            final(self).available_actions == old(self).available_actions,
            final(self).selected_project_index == old(self).selected_project_index,
    {
        self.selected_action_index = cycle_down(
            self.selected_action_index,
            self.available_actions.len(),
        );
    }

    /// Replaces the project list with a fresh one and selects its first project.
    pub fn refresh_projects(&mut self, projects: Vec<String>)
        ensures
            final(self).projects@ == projects@,
            final(self).selected_project_index == 0,
            final(self).selected_action_index == old(self).selected_action_index,
            final(self).available_actions == old(self).available_actions,
            final(self).compilation_output == old(self).compilation_output,
    {
        self.projects = projects;
        self.selected_project_index = 0;
    }

    /// The directory name of the selected project.
    pub fn get_selected_project_name(&self) -> (r: Option<String>)
        ensures
            self.selected_project_index >= self.projects.len() ==> r is None,
            self.selected_project_index < self.projects.len() ==> match r {
                Some(n) => path_file_name(self.projects@[self.selected_project_index as int]@)
                    == Some(n@),
                None => path_file_name(
                    self.projects@[self.selected_project_index as int]@,
                ) is None,
            },
    {
        if self.selected_project_index < self.projects.len() {
            file_name_of(self.projects[self.selected_project_index].as_str())
        } else {
            None
        }
    }

    pub fn get_selected_project_path(&self) -> (r: Option<&String>)
        ensures
            self.selected_project_index < self.projects.len() ==> r == Some(
                &self.projects@[self.selected_project_index as int],
            ),
            self.selected_project_index >= self.projects.len() ==> r is None,
    {
        if self.selected_project_index < self.projects.len() {
            Some(&self.projects[self.selected_project_index])
        } else {
            None
        }
    }

    pub fn get_selected_action(&self) -> (r: Option<&CompileAction>)
        ensures
            self.selected_action_index < self.available_actions.len() ==> r == Some(
                &self.available_actions@[self.selected_action_index as int],
            ),
            self.selected_action_index >= self.available_actions.len() ==> r is None,
    {
        if self.selected_action_index < self.available_actions.len() {
            Some(&self.available_actions[self.selected_action_index])
        } else {
            None
        }
    }

    pub fn has_projects(&self) -> (r: bool)
        ensures
            r == (self.projects.len() > 0),
    {
        self.projects.len() > 0
    }

    pub fn project_count(&self) -> (r: usize)
        ensures
            r == self.projects.len(),
    {
        self.projects.len()
    }

    pub fn get_compilation_output(&self) -> (r: &[String])
        ensures
            r@ == self.compilation_output@,
    {
        self.compilation_output.as_slice()
    }

    pub fn clear_compilation_output(&mut self)
        ensures
            final(self).compilation_output@.len() == 0,
            final(self).projects == old(self).projects,
            final(self).is_compiling == old(self).is_compiling,
            final(self).selected_project_index == old(self).selected_project_index,
            final(self).selected_action_index == old(self).selected_action_index,
    {
        self.compilation_output.clear();
    }
}

} // verus!
