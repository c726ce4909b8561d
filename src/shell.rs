use vstd::prelude::*;

use crate::compile::ProjectCompiler;
use crate::create::{name_char, ProjectCreator};
use crate::edit::ProjectEditor;
use crate::text::{chars_of, string_of};
use crate::viewer::{cycle_down, cycle_up, cycled_down, cycled_up};

verus! {

/// The screen the program shows.
#[derive(Clone, Copy, Debug, PartialEq, Eq, Structural)]
pub enum AppMode {
    MainMenu,
    CreateProject,
    CompileProject,
    EditProject,
    ViewWaveform,
    InputDialog,
    MessageDialog,
}

/// A key press, as the program tells keys apart.
#[derive(Clone, Copy, Debug, PartialEq, Eq, Structural)]
pub enum Key {
    Char(char),
    Up,
    Down,
    Left,
    Right,
    Enter,
    Esc,
    Backspace,
    Other,
}

/// The outside work a key press asks for.
#[derive(Clone, Copy, Debug, PartialEq, Eq, Structural)]
pub enum Command {
    Nothing,
    /// Create the project named so far.
    CreateProject,
    /// Rescan the projects that can be opened in an editor.
    RefreshEditorProjects,
    /// Rescan the projects that can be compiled.
    RefreshCompilerProjects,
    /// Rescan the trace files.
    ScanVcdFiles,
    /// Rescan the projects that can be opened, and report how many there are.
    ReportEditorProjects,
    /// Rescan the projects that can be compiled, and report how many there are.
    ReportCompilerProjects,
    /// Rescan the trace files, and report how many there are.
    ReportVcdFiles,
    /// Run the selected compilation.
    Compile,
    /// Open the selected project in an editor.
    OpenEditor,
    /// Open the selected trace file in a waveform viewer.
    LaunchViewer,
}

/// The number of entries of the main menu.
pub const MENU_ENTRIES: usize = 4;

pub const NO_TRACES_MESSAGE: &'static str = "No VCD files found. Run a simulation first!";

pub const INSTALL_MESSAGE: &'static str = "Waveform Viewer Installation:\n\n• DWFV (recommended): cargo install dwfv\n• DigiSurf: cargo install digisurf\n• GTKWave: sudo apt install gtkwave\n\nDWFV provides the best terminal experience with vi-like keybindings!";

/// The whole program's state.
#[derive(Debug)]
pub struct App {
    pub mode: AppMode,
    /// The selected entry of the main menu.
    pub selected_index: usize,
    pub project_creator: ProjectCreator,
    pub project_editor: ProjectEditor,
    pub project_compiler: ProjectCompiler,
    pub vcd_files: Vec<String>,
    pub selected_vcd_index: usize,
    pub input_buffer: String,
    pub message: String,
    pub should_quit: bool,
}

/// The mode and main-menu entry after a key on the main menu, and the work it asks for.
pub open spec fn main_menu_step(selected: usize, key: Key) -> (AppMode, usize, Command) {
    match key {
        Key::Down => (AppMode::MainMenu, ((selected + 1) % 4) as usize, Command::Nothing),
        Key::Up => (AppMode::MainMenu, cycled_up(selected, 4), Command::Nothing),
        Key::Enter => if selected == 0 {
            (AppMode::CreateProject, selected, Command::Nothing)
        } else if selected == 1 {
            (AppMode::EditProject, selected, Command::RefreshEditorProjects)
        } else if selected == 2 {
            (AppMode::CompileProject, selected, Command::RefreshCompilerProjects)
        } else if selected == 3 {
            (AppMode::ViewWaveform, selected, Command::ScanVcdFiles)
        } else {
            (AppMode::MainMenu, selected, Command::Nothing)
        },
        _ => (AppMode::MainMenu, selected, Command::Nothing),
    }
}

/// Whether `key` quits from the main menu.
pub open spec fn quits(key: Key) -> bool {
    key == Key::Char('q') || key == Key::Esc
}

impl App {
    /// The program at its start, on the main menu.
    pub fn new(
        current_directory: String,
        editor_projects: Vec<String>,
        compiler_projects: Vec<String>,
        vcd_files: Vec<String>,
    ) -> (r: Self)
        ensures
            r.mode == AppMode::MainMenu,
            r.selected_index == 0,
            r.project_creator.project_name@.len() == 0,
            r.project_editor.projects@ == editor_projects@,
            r.project_compiler.projects@ == compiler_projects@,
            r.vcd_files@ == vcd_files@,
            r.selected_vcd_index == 0,
            r.input_buffer@.len() == 0,
            r.message@.len() == 0,
            !r.should_quit,
    {
        let dir2 = current_directory.clone();
        App {
            mode: AppMode::MainMenu,
            selected_index: 0,
            project_creator: ProjectCreator::new(),
            project_editor: ProjectEditor::new(current_directory, editor_projects),
            project_compiler: ProjectCompiler::new(dir2, compiler_projects),
            vcd_files,
            selected_vcd_index: 0,
            input_buffer: String::new(),
            message: String::new(),
            should_quit: false,
        }
    }

    /// Replaces the list of trace files with a fresh one and selects its first file.
    pub fn set_vcd_files(&mut self, vcd_files: Vec<String>)
        ensures
            final(self).vcd_files@ == vcd_files@,
            final(self).selected_vcd_index == 0,
            final(self).mode == old(self).mode,
            final(self).should_quit == old(self).should_quit,
    {
        self.vcd_files = vcd_files;
        self.selected_vcd_index = 0;
    }

    /// Shows `message` in a dialog.
    pub fn show_message(&mut self, message: String)
        ensures
            final(self).message@ == message@,
            final(self).mode == AppMode::MessageDialog,
            final(self).should_quit == old(self).should_quit,
            final(self).selected_index == old(self).selected_index,
    {
        self.message = message;
        self.mode = AppMode::MessageDialog;
    }

    /// Handles one key press in the current mode, and says what outside work it asks for.
    pub fn on_key(&mut self, key: Key) -> (r: Command)
        ensures
            old(self).mode == AppMode::MainMenu ==> {
                &&& final(self).should_quit == (old(self).should_quit || quits(key))
                &&& !quits(key) ==> {
                    let (m, i, c) = main_menu_step(old(self).selected_index, key);
                    &&& final(self).mode == m
                    &&& final(self).selected_index == i
                    &&& r == c
                }
                &&& quits(key) ==> r == Command::Nothing && final(self).mode == AppMode::MainMenu
            },
            old(self).mode == AppMode::CreateProject ==> {
                &&& key == Key::Esc ==> final(self).mode == AppMode::MainMenu && r
                    == Command::Nothing
                &&& key == Key::Enter ==> final(self).mode == AppMode::CreateProject && r == (
                if old(self).project_creator.project_name@.len() > 0 {
                    Command::CreateProject
                } else {
                    Command::Nothing
                })
                &&& key == Key::Backspace ==> final(self).project_creator.project_name@ == (if old(self).project_creator.project_name@.len() > 0 {
                    old(self).project_creator.project_name@.drop_last()
                } else {
                    old(self).project_creator.project_name@
                })
                &&& key matches Key::Char(c) ==> final(self).project_creator.project_name@ == (
                if name_char(c) {
                    old(self).project_creator.project_name@.push(c)
                } else {
                    old(self).project_creator.project_name@
                })
                &&& key != Key::Esc ==> final(self).mode == AppMode::CreateProject
            },
            old(self).mode == AppMode::CompileProject ==> {
                &&& key == Key::Esc ==> final(self).mode == AppMode::MainMenu
                &&& key != Key::Esc ==> final(self).mode == AppMode::CompileProject
                &&& key == Key::Up ==> final(self).project_compiler.selected_project_index
                    == cycled_up(
                    old(self).project_compiler.selected_project_index,
                    old(self).project_compiler.projects.len(),
                )
                &&& key == Key::Down ==> final(self).project_compiler.selected_project_index
                    == cycled_down(
                    old(self).project_compiler.selected_project_index,
                    old(self).project_compiler.projects.len(),
                )
                &&& key == Key::Left ==> final(self).project_compiler.selected_action_index
                    == cycled_up(
                    old(self).project_compiler.selected_action_index,
                    old(self).project_compiler.available_actions.len(),
                )
                &&& key == Key::Right ==> final(self).project_compiler.selected_action_index
                    == cycled_down(
                    old(self).project_compiler.selected_action_index,
                    old(self).project_compiler.available_actions.len(),
                )
                &&& key == Key::Enter ==> r == (if old(self).project_compiler.projects.len() > 0
                    && !old(self).project_compiler.is_compiling {
                    Command::Compile
                } else {
                    Command::Nothing
                })
                &&& key == Key::Char('r') ==> r == Command::ReportCompilerProjects
                &&& key == Key::Char('c') ==> final(self).project_compiler.compilation_output@.len() == 0
                &&& key != Key::Enter && key != Key::Char('r') ==> r == Command::Nothing
            },
            old(self).mode == AppMode::EditProject ==> {
                &&& key == Key::Esc ==> final(self).mode == AppMode::MainMenu
                &&& key != Key::Esc ==> final(self).mode == AppMode::EditProject
                &&& key == Key::Up ==> final(self).project_editor.selected_project_index
                    == cycled_up(
                    old(self).project_editor.selected_project_index,
                    old(self).project_editor.projects.len(),
                )
                &&& key == Key::Down ==> final(self).project_editor.selected_project_index
                    == cycled_down(
                    old(self).project_editor.selected_project_index,
                    old(self).project_editor.projects.len(),
                )
                &&& key == Key::Enter ==> r == (if old(self).project_editor.projects.len() > 0 {
                    Command::OpenEditor
                } else {
                    Command::Nothing
                })
                &&& key == Key::Char('r') ==> r == Command::ReportEditorProjects
                &&& key != Key::Enter && key != Key::Char('r') ==> r == Command::Nothing
            },
            old(self).mode == AppMode::ViewWaveform ==> {
                &&& key == Key::Esc ==> final(self).mode == AppMode::MainMenu
                &&& key == Key::Up ==> final(self).selected_vcd_index == cycled_up(
                    old(self).selected_vcd_index,
                    old(self).vcd_files.len(),
                )
                &&& key == Key::Down ==> final(self).selected_vcd_index == cycled_down(
                    old(self).selected_vcd_index,
                    old(self).vcd_files.len(),
                )
                &&& key == Key::Enter && old(self).vcd_files.len() == 0 ==> {
                    &&& final(self).mode == AppMode::MessageDialog
                    &&& final(self).message@ == NO_TRACES_MESSAGE@
                    &&& r == Command::Nothing
                }
                &&& key == Key::Enter && old(self).vcd_files.len() > 0 ==> r
                    == Command::LaunchViewer
                &&& key == Key::Char('r') ==> r == Command::ReportVcdFiles
                &&& key == Key::Char('i') ==> final(self).mode == AppMode::MessageDialog
                    && final(self).message@ == INSTALL_MESSAGE@
                &&& key != Key::Esc && key != Key::Char('i') && !(key == Key::Enter && old(
                    self,
                ).vcd_files.len() == 0) ==> final(self).mode == AppMode::ViewWaveform
                &&& key != Key::Enter && key != Key::Char('r') ==> r == Command::Nothing
            },
            old(self).mode == AppMode::InputDialog ==> {
                &&& r == Command::Nothing
                &&& key == Key::Esc || key == Key::Enter ==> final(self).input_buffer@.len() == 0
                    && final(self).mode == AppMode::MainMenu
                &&& key == Key::Backspace ==> final(self).input_buffer@ == (if old(self).input_buffer@.len() > 0 {
                    old(self).input_buffer@.drop_last()
                } else {
                    old(self).input_buffer@
                })
                &&& key matches Key::Char(c) ==> final(self).input_buffer@ == old(self).input_buffer@.push(c)
            },
            old(self).mode == AppMode::MessageDialog ==> {
                &&& r == Command::Nothing
                &&& key == Key::Esc || key == Key::Enter ==> final(self).message@.len() == 0
                    && final(self).mode == AppMode::MainMenu
                &&& key != Key::Esc && key != Key::Enter ==> final(self).mode
                    == AppMode::MessageDialog
            },
            old(self).mode != AppMode::MainMenu ==> final(self).should_quit == old(self).should_quit,
    {
        match self.mode {
            AppMode::MainMenu => self.main_menu_key(key),
            AppMode::CreateProject => self.create_project_key(key),
            AppMode::CompileProject => self.compile_project_key(key),
            AppMode::EditProject => self.edit_project_key(key),
            AppMode::ViewWaveform => self.view_waveform_key(key),
            AppMode::InputDialog => {
                self.input_dialog_key(key);
                Command::Nothing
            },
            AppMode::MessageDialog => {
                self.message_dialog_key(key);
                Command::Nothing
            },
        }
    }

    fn main_menu_key(&mut self, key: Key) -> (r: Command)
        requires
            old(self).mode == AppMode::MainMenu,
        ensures
            final(self).should_quit == (old(self).should_quit || quits(key)),
            !quits(key) ==> {
                let (m, i, c) = main_menu_step(old(self).selected_index, key);
                &&& final(self).mode == m
                &&& final(self).selected_index == i
                &&& r == c
            },
            quits(key) ==> r == Command::Nothing && final(self).mode == AppMode::MainMenu,
    {
        match key {
            Key::Char('q') | Key::Esc => {
                self.should_quit = true;
                Command::Nothing
            },
            Key::Down => {
                self.selected_index = (self.selected_index % MENU_ENTRIES + 1) % MENU_ENTRIES;
                proof {
                    vstd::arithmetic::div_mod::lemma_add_mod_noop_right(
                        1,
                        old(self).selected_index as int,
                        4,
                    );
                }
                Command::Nothing
            },
            Key::Up => {
                self.selected_index = cycle_up(self.selected_index, MENU_ENTRIES);
                Command::Nothing
            },
            Key::Enter => {
                if self.selected_index == 0 {
                    self.mode = AppMode::CreateProject;
                    Command::Nothing
                } else if self.selected_index == 1 {
                    self.mode = AppMode::EditProject;
                    Command::RefreshEditorProjects
                } else if self.selected_index == 2 {
                    self.mode = AppMode::CompileProject;
                    Command::RefreshCompilerProjects
                } else if self.selected_index == 3 {
                    self.mode = AppMode::ViewWaveform;
                    Command::ScanVcdFiles
                } else {
                    Command::Nothing
                }
            },
            _ => Command::Nothing,
        }
    }

    fn create_project_key(&mut self, key: Key) -> (r: Command)
        requires
            old(self).mode == AppMode::CreateProject,
        ensures
            key == Key::Esc ==> final(self).mode == AppMode::MainMenu && r == Command::Nothing,
            key == Key::Enter ==> final(self).mode == AppMode::CreateProject && r == (if old(self).project_creator.project_name@.len() > 0 {
                Command::CreateProject
            } else {
                Command::Nothing
            }),
            key == Key::Backspace ==> final(self).project_creator.project_name@ == (if old(self).project_creator.project_name@.len() > 0 {
                old(self).project_creator.project_name@.drop_last()
            } else {
                old(self).project_creator.project_name@
            }),
            key matches Key::Char(c) ==> final(self).project_creator.project_name@ == (if name_char(
                c,
            ) {
                old(self).project_creator.project_name@.push(c)
            } else {
                old(self).project_creator.project_name@
            }),
            key != Key::Esc ==> final(self).mode == AppMode::CreateProject,
            final(self).should_quit == old(self).should_quit,
    {
        match key {
            Key::Esc => {
                self.mode = AppMode::MainMenu;
                Command::Nothing
            },
            Key::Enter => {
                let v = chars_of(self.project_creator.project_name.as_str());
                if v.len() > 0 {
                    Command::CreateProject
                } else {
                    Command::Nothing
                }
            },
            Key::Backspace => {
                self.project_creator.pop_name_char();
                Command::Nothing
            },
            Key::Char(c) => {
                self.project_creator.push_name_char(c);
                Command::Nothing
            },
            _ => Command::Nothing,
        }
    }

    fn compile_project_key(&mut self, key: Key) -> (r: Command)
        requires
            old(self).mode == AppMode::CompileProject,
        ensures
            key == Key::Esc ==> final(self).mode == AppMode::MainMenu,
            key != Key::Esc ==> final(self).mode == AppMode::CompileProject,
            key == Key::Up ==> final(self).project_compiler.selected_project_index == cycled_up(
                old(self).project_compiler.selected_project_index,
                old(self).project_compiler.projects.len(),
            ),
            key == Key::Down ==> final(self).project_compiler.selected_project_index
                == cycled_down(
                old(self).project_compiler.selected_project_index,
                old(self).project_compiler.projects.len(),
            ),
            key == Key::Left ==> final(self).project_compiler.selected_action_index == cycled_up(
                old(self).project_compiler.selected_action_index,
                old(self).project_compiler.available_actions.len(),
            ),
            key == Key::Right ==> final(self).project_compiler.selected_action_index
                == cycled_down(
                old(self).project_compiler.selected_action_index,
                old(self).project_compiler.available_actions.len(),
            ),
            key == Key::Enter ==> r == (if old(self).project_compiler.projects.len() > 0 && !old(self).project_compiler.is_compiling {
                Command::Compile
            } else {
                Command::Nothing
            }),
            key == Key::Char('r') ==> r == Command::ReportCompilerProjects,
            key == Key::Char('c') ==> final(self).project_compiler.compilation_output@.len() == 0,
            key != Key::Enter && key != Key::Char('r') ==> r == Command::Nothing,
            final(self).should_quit == old(self).should_quit,
    {
        match key {
            Key::Esc => {
                self.mode = AppMode::MainMenu;
                Command::Nothing
            },
            Key::Up => {
                self.project_compiler.move_project_selection_up();
                Command::Nothing
            },
            Key::Down => {
                self.project_compiler.move_project_selection_down();
                Command::Nothing
            },
            Key::Left => {
                self.project_compiler.move_action_selection_up();
                Command::Nothing
            },
            Key::Right => {
                self.project_compiler.move_action_selection_down();
                Command::Nothing
            },
            Key::Enter => {
                if self.project_compiler.has_projects() && !self.project_compiler.is_compiling {
                    Command::Compile
                } else {
                    Command::Nothing
                }
            },
            Key::Char('r') => Command::ReportCompilerProjects,
            Key::Char('c') => {
                self.project_compiler.clear_compilation_output();
                Command::Nothing
            },
            _ => Command::Nothing,
        }
    }

    fn edit_project_key(&mut self, key: Key) -> (r: Command)
        requires
            old(self).mode == AppMode::EditProject,
        ensures
            key == Key::Esc ==> final(self).mode == AppMode::MainMenu,
            key != Key::Esc ==> final(self).mode == AppMode::EditProject,
            key == Key::Up ==> final(self).project_editor.selected_project_index == cycled_up(
                old(self).project_editor.selected_project_index,
                old(self).project_editor.projects.len(),
            ),
            key == Key::Down ==> final(self).project_editor.selected_project_index == cycled_down(
                old(self).project_editor.selected_project_index,
                old(self).project_editor.projects.len(),
            ),
            key == Key::Enter ==> r == (if old(self).project_editor.projects.len() > 0 {
                Command::OpenEditor
            } else {
                Command::Nothing
            }),
            key == Key::Char('r') ==> r == Command::ReportEditorProjects,
            key != Key::Enter && key != Key::Char('r') ==> r == Command::Nothing,
            final(self).should_quit == old(self).should_quit,
    {
        match key {
            Key::Esc => {
                self.mode = AppMode::MainMenu;
                Command::Nothing
            },
            Key::Up => {
                self.project_editor.move_selection_up();
                Command::Nothing
            },
            Key::Down => {
                self.project_editor.move_selection_down();
                Command::Nothing
            },
            Key::Enter => {
                if self.project_editor.has_projects() {
                    Command::OpenEditor
                } else {
                    Command::Nothing
                }
            },
            Key::Char('r') => Command::ReportEditorProjects,
            _ => Command::Nothing,
        }
    }

    fn view_waveform_key(&mut self, key: Key) -> (r: Command)
        requires
            old(self).mode == AppMode::ViewWaveform,
        ensures
            key == Key::Esc ==> final(self).mode == AppMode::MainMenu,
            key == Key::Up ==> final(self).selected_vcd_index == cycled_up(
                old(self).selected_vcd_index,
                old(self).vcd_files.len(),
            ),
            key == Key::Down ==> final(self).selected_vcd_index == cycled_down(
                old(self).selected_vcd_index,
                old(self).vcd_files.len(),
            ),
            key == Key::Enter && old(self).vcd_files.len() == 0 ==> {
                &&& final(self).mode == AppMode::MessageDialog
                &&& final(self).message@ == NO_TRACES_MESSAGE@
                &&& r == Command::Nothing
            },
            key == Key::Enter && old(self).vcd_files.len() > 0 ==> r == Command::LaunchViewer,
            key == Key::Char('r') ==> r == Command::ReportVcdFiles,
            key == Key::Char('i') ==> final(self).mode == AppMode::MessageDialog
                && final(self).message@ == INSTALL_MESSAGE@,
            key != Key::Esc && key != Key::Char('i') && !(key == Key::Enter && old(
                self,
            ).vcd_files.len() == 0) ==> final(self).mode == AppMode::ViewWaveform,
            key != Key::Enter && key != Key::Char('r') ==> r == Command::Nothing,
            final(self).should_quit == old(self).should_quit,
    {
        match key {
            Key::Esc => {
                self.mode = AppMode::MainMenu;
                Command::Nothing
            },
            Key::Up => {
                self.selected_vcd_index = cycle_up(self.selected_vcd_index, self.vcd_files.len());
                Command::Nothing
            },
            Key::Down => {
                self.selected_vcd_index = cycle_down(
                    self.selected_vcd_index,
                    self.vcd_files.len(),
                );
                Command::Nothing
            },
            Key::Enter => {
                if self.vcd_files.len() == 0 {
                    self.show_message(String::from_str(NO_TRACES_MESSAGE));
                    Command::Nothing
                } else {
                    Command::LaunchViewer
                }
            },
            Key::Char('r') => Command::ReportVcdFiles,
            Key::Char('i') => {
                self.show_message(String::from_str(INSTALL_MESSAGE));
                Command::Nothing
            },
            _ => Command::Nothing,
        }
    }

    fn input_dialog_key(&mut self, key: Key)
        requires
            old(self).mode == AppMode::InputDialog,
        ensures
            key == Key::Esc || key == Key::Enter ==> final(self).input_buffer@.len() == 0
                && final(self).mode == AppMode::MainMenu,
            key == Key::Backspace ==> final(self).input_buffer@ == (if old(self).input_buffer@.len() > 0 {
                old(self).input_buffer@.drop_last()
            } else {
                old(self).input_buffer@
            }),
            key matches Key::Char(c) ==> final(self).input_buffer@ == old(self).input_buffer@.push(
                c,
            ),
            key != Key::Esc && key != Key::Enter ==> final(self).mode == AppMode::InputDialog,
            final(self).should_quit == old(self).should_quit,
    {
        match key {
            Key::Esc | Key::Enter => {
                self.input_buffer = String::new();
                self.mode = AppMode::MainMenu;
            },
            Key::Backspace => {
                let mut v = chars_of(self.input_buffer.as_str());
                if v.len() > 0 {
                    v.pop();
                    assert(v@ =~= old(self).input_buffer@.drop_last());
                    self.input_buffer = string_of(&v);
                }
            },
            Key::Char(c) => {
                let mut v = chars_of(self.input_buffer.as_str());
                v.push(c);
                self.input_buffer = string_of(&v);
            },
            _ => {},
        }
    }

    fn message_dialog_key(&mut self, key: Key)
        requires
            old(self).mode == AppMode::MessageDialog,
        ensures
            key == Key::Esc || key == Key::Enter ==> final(self).message@.len() == 0
                && final(self).mode == AppMode::MainMenu,
            key != Key::Esc && key != Key::Enter ==> final(self).mode == AppMode::MessageDialog,
            final(self).should_quit == old(self).should_quit,
    {
        match key {
            Key::Esc | Key::Enter => {
                self.message = String::new();
                self.mode = AppMode::MainMenu;
            },
            _ => {},
        }
    }
}

} // verus!
