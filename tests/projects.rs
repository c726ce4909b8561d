use hadou::compile::{CompileAction, CompileError, ProjectCompiler};
use hadou::create::{CreateError, ProjectCreator, JUSTFILE_HEAD, JUSTFILE_MIDDLE, JUSTFILE_TAIL};
use hadou::edit::{style_of_lowercase, EditError, EditorStyle, ProjectEditor};
use hadou::shell::{App, AppMode, Command, Key, INSTALL_MESSAGE, NO_TRACES_MESSAGE};

fn strings(list: &[&str]) -> Vec<String> {
    list.iter().map(|s| s.to_string()).collect()
}

#[test]
fn compile_action_texts() {
    assert_eq!(CompileAction::CompileOnly.as_just_recipe(), "compile");
    assert_eq!(CompileAction::CompileAndSimulate.as_just_recipe(), "simulate");
    assert_eq!(CompileAction::CompileSimulateAndView.as_just_recipe(), "view");
    assert_eq!(CompileAction::Clean.as_just_recipe(), "clean");
    assert_eq!(CompileAction::Info.as_just_recipe(), "info");
    assert_eq!(CompileAction::Clean.description(), "Clean generated files");
    assert_eq!(CompileAction::CompileAndSimulate.icon(), "🚀");
}

#[test]
fn compilation_checks_selection() {
    let mut c = ProjectCompiler::new(".".to_string(), Vec::new());
    assert_eq!(c.execute_compilation(true).unwrap_err(), CompileError::NoProjects);
    c.refresh_projects(strings(&["alu", "cpu"]));
    c.selected_project_index = 5;
    assert_eq!(c.execute_compilation(true).unwrap_err(), CompileError::InvalidProject);
    c.selected_project_index = 1;
    c.selected_action_index = 9;
    assert_eq!(c.execute_compilation(true).unwrap_err(), CompileError::InvalidAction);
    c.selected_action_index = 0;
    c.move_action_selection_up();
    assert_eq!(c.selected_action_index, 4);
    assert_eq!(c.execute_compilation(false).unwrap_err(), CompileError::NoJustfile);
    let req = c.execute_compilation(true).unwrap();
    assert_eq!(req.project_path, "cpu");
    assert_eq!(req.action, CompileAction::Info);
    assert!(c.is_compiling);
    c.finish_compilation(strings(&["out"]), strings(&["err"]));
    assert!(!c.is_compiling);
    assert_eq!(c.get_compilation_output().to_vec(), strings(&["out", "err"]));
    c.clear_compilation_output();
    assert!(c.get_compilation_output().is_empty());
}

#[test]
fn compiler_selection_and_names() {
    let mut c = ProjectCompiler::new(".".to_string(), strings(&["work/alu", "work/cpu"]));
    assert!(c.has_projects());
    assert_eq!(c.project_count(), 2);
    c.move_project_selection_up();
    assert_eq!(c.get_selected_project_name(), Some("cpu".to_string()));
    c.move_project_selection_down();
    assert_eq!(c.get_selected_project_path(), Some(&"work/alu".to_string()));
    c.move_action_selection_down();
    assert_eq!(c.get_selected_action(), Some(&CompileAction::CompileAndSimulate));
    assert_eq!(
        ProjectCompiler::success_message(CompileAction::Clean, "alu"),
        "Clean generated files completed successfully for project 'alu'"
    );
}

#[test]
fn project_names() {
    let p = ProjectCreator::new();
    assert!(p.is_valid_project_name("counter_8-bit"));
    assert!(p.is_valid_project_name("Zähler2"));
    assert!(!p.is_valid_project_name("_hidden"));
    assert!(!p.is_valid_project_name("-x"));
    assert!(!p.is_valid_project_name("a b"));
    assert!(!p.is_valid_project_name(""));
    assert_eq!(p.check_project_name(), Err(CreateError::EmptyName));
    let mut q = ProjectCreator::new();
    q.project_name = "_bad".to_string();
    assert_eq!(q.check_project_name(), Err(CreateError::InvalidName));
    q.reset();
    q.push_name_char('a');
    q.push_name_char(' ');
    q.push_name_char('1');
    assert_eq!(q.project_name, "a1");
    q.pop_name_char();
    assert_eq!(q.project_name, "a");
    assert_eq!(q.check_project_name(), Ok(()));
}

#[test]
fn justfile_names_the_project() {
    let mut p = ProjectCreator::new();
    p.project_name = "alu".to_string();
    let j = p.generate_justfile();
    assert!(j.starts_with("# justfile for alu Verilog project\n"));
    assert!(j.contains("PROJECT_NAME := \"alu\"\n"));
    assert!(j.contains("iverilog -o {{VVP_FILE}} {{SRC_FILE}} {{TEST_FILE}}"));
    assert_eq!(j, format!("{}alu{}alu{}", JUSTFILE_HEAD, JUSTFILE_MIDDLE, JUSTFILE_TAIL));
}

#[test]
fn editor_selection() {
    let mut e = ProjectEditor::new(".".to_string(), Vec::new());
    assert_eq!(e.open_project_in_editor(), Err(EditError::NoProjects));
    e.refresh_projects(strings(&["x/one", "x/two"]));
    e.move_selection_down();
    assert_eq!(e.open_project_in_editor(), Ok(&"x/two".to_string()));
    assert_eq!(e.get_selected_project_name(), Some("two".to_string()));
    e.move_selection_down();
    assert_eq!(e.get_selected_project_path(), Some(&"x/one".to_string()));
    e.selected_project_index = 7;
    assert_eq!(e.open_project_in_editor(), Err(EditError::InvalidSelection));
    assert_eq!(e.project_count(), 2);
    assert!(e.has_projects());
}

fn app() -> App {
    App::new(".".to_string(), strings(&["p"]), strings(&["p"]), Vec::new())
}

#[test]
fn main_menu_keys() {
    let mut a = app();
    assert_eq!(a.on_key(Key::Up), Command::Nothing);
    assert_eq!(a.selected_index, 3);
    a.on_key(Key::Down);
    assert_eq!(a.selected_index, 0);
    a.on_key(Key::Down);
    assert_eq!(a.on_key(Key::Enter), Command::RefreshEditorProjects);
    assert_eq!(a.mode, AppMode::EditProject);
    a.on_key(Key::Esc);
    assert_eq!(a.mode, AppMode::MainMenu);
    assert!(!a.should_quit);
    a.on_key(Key::Char('q'));
    assert!(a.should_quit);
}

#[test]
fn create_project_keys() {
    let mut a = app();
    a.on_key(Key::Enter);
    assert_eq!(a.mode, AppMode::CreateProject);
    assert_eq!(a.on_key(Key::Enter), Command::Nothing);
    a.on_key(Key::Char('c'));
    a.on_key(Key::Char('!'));
    a.on_key(Key::Char('d'));
    a.on_key(Key::Backspace);
    assert_eq!(a.project_creator.project_name, "c");
    assert_eq!(a.on_key(Key::Enter), Command::CreateProject);
}

#[test]
fn compile_and_waveform_keys() {
    let mut a = app();
    a.selected_index = 2;
    assert_eq!(a.on_key(Key::Enter), Command::RefreshCompilerProjects);
    assert_eq!(a.on_key(Key::Right), Command::Nothing);
    assert_eq!(a.project_compiler.selected_action_index, 1);
    assert_eq!(a.on_key(Key::Enter), Command::Compile);
    assert_eq!(a.on_key(Key::Char('r')), Command::ReportCompilerProjects);
    a.on_key(Key::Esc);
    a.selected_index = 3;
    assert_eq!(a.on_key(Key::Enter), Command::ScanVcdFiles);
    assert_eq!(a.on_key(Key::Enter), Command::Nothing);
    assert_eq!(a.mode, AppMode::MessageDialog);
    assert_eq!(a.message, NO_TRACES_MESSAGE);
    a.on_key(Key::Enter);
    assert_eq!(a.mode, AppMode::MainMenu);
    assert!(a.message.is_empty());
    a.mode = AppMode::ViewWaveform;
    a.set_vcd_files(strings(&["a.vcd", "b.vcd"]));
    a.on_key(Key::Up);
    assert_eq!(a.selected_vcd_index, 1);
    assert_eq!(a.on_key(Key::Enter), Command::LaunchViewer);
    a.on_key(Key::Char('i'));
    assert_eq!(a.message, INSTALL_MESSAGE);
}

#[test]
fn input_dialog_keys() {
    let mut a = app();
    a.mode = AppMode::InputDialog;
    a.on_key(Key::Char('h'));
    a.on_key(Key::Char('i'));
    a.on_key(Key::Backspace);
    assert_eq!(a.input_buffer, "h");
    a.on_key(Key::Enter);
    assert!(a.input_buffer.is_empty());
    assert_eq!(a.mode, AppMode::MainMenu);
    a.show_message("hello".to_string());
    assert_eq!(a.mode, AppMode::MessageDialog);
    a.on_key(Key::Left);
    assert_eq!(a.mode, AppMode::MessageDialog);
}

#[test]
fn verilog_templates_name_the_project() {
    let mut p = ProjectCreator::new();
    p.project_name = "blinky".to_string();
    let m = p.main_v_content("2024-01-02 03:04:05 UTC");
    assert!(m.starts_with("`timescale 1ns / 1ps\n"));
    assert!(m.contains("// Create Date: 2024-01-02 03:04:05 UTC\n"));
    assert!(m.contains("// Design Name: blinky\n"));
    assert!(m.contains("module blinky (\n"));
    assert!(m.ends_with("endmodule\n"));
    let t = p.testbench_content("now");
    assert!(t.contains("// Create Date: now\n"));
    assert!(t.contains("// Design Name: blinky_testbench\n"));
    assert!(t.contains("module blinky_test;\n"));
    assert!(t.contains("    blinky uut (\n"));
    assert!(t.contains("$dumpfile(\"blinky.vcd\");"));
    assert!(t.contains("$dumpvars(0, blinky_test);"));
    let g = p.generate_main_v_content();
    assert!(g.contains("module blinky (\n"));
    assert!(g.contains(" UTC\n"));
    assert!(p.generate_testbench_content().contains("module blinky_test;\n"));
}

#[test]
fn editor_styles() {
    assert_eq!(style_of_lowercase("code"), EditorStyle::Workspace);
    assert_eq!(style_of_lowercase("codium"), EditorStyle::Workspace);
    assert_eq!(style_of_lowercase("/usr/bin/nvim"), EditorStyle::Tabs);
    assert_eq!(style_of_lowercase("vim"), EditorStyle::Tabs);
    assert_eq!(style_of_lowercase("emacs"), EditorStyle::NoWait);
    assert_eq!(style_of_lowercase("gedit"), EditorStyle::SingleFile);
    assert_eq!(style_of_lowercase("nano"), EditorStyle::Plain);
    assert_eq!(ProjectEditor::editor_style("NVIM"), EditorStyle::Tabs);
    assert_eq!(ProjectEditor::editor_style("Code"), EditorStyle::Workspace);
    assert_eq!(ProjectEditor::editor_style("Kate"), EditorStyle::Plain);
}
