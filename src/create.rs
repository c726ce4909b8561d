use vstd::prelude::*;

use crate::text::{chars_of, string_of};

verus! {

/// Whether `c` is alphabetic or numeric, as `char::is_alphanumeric` decides it.
pub uninterp spec fn alphanumeric(c: char) -> bool;

/// Relies on `char::is_alphanumeric`: the Unicode `Alphabetic` or `Numeric` property of `c`,
/// which depends on `c` alone.
#[verifier::external_body]
fn is_alphanumeric(c: char) -> (r: bool)
    ensures
        r == alphanumeric(c),
{
    c.is_alphanumeric()
}

/// A character that a project name may hold.
pub open spec fn name_char(c: char) -> bool {
    alphanumeric(c) || c == '_' || c == '-'
}

/// A project name: not empty, only letters, digits, `_` and `-`, and not starting with `-` or
/// `_`.
pub open spec fn valid_project_name(s: Seq<char>) -> bool {
    &&& s.len() > 0
    &&& forall|i: int| 0 <= i < s.len() ==> name_char(#[trigger] s[i])
    &&& s[0] != '-'
    &&& s[0] != '_'
}

/// Why a project cannot be created under the name given.
#[derive(Clone, Copy, Debug, PartialEq, Eq, Structural)]
pub enum CreateError {
    EmptyName,
    InvalidName,
}

pub const JUSTFILE_HEAD: &'static str = "# justfile for ";

pub const JUSTFILE_MIDDLE: &'static str = " Verilog project\n# Generated by Hadou\n\n# Project configuration\nPROJECT_NAME := \"";

pub const JUSTFILE_TAIL: &'static str = "\"\nSRC_FILE := \"main.v\"\nTEST_FILE := \"main_test.v\"\nVVP_FILE := PROJECT_NAME + \".vvp\"\nVCD_FILE := PROJECT_NAME + \".vcd\"\n\n# Default recipe - compile and simulate\ndefault: compile simulate\n\n# Compile the design and testbench\ncompile:\n    @echo \"Compiling Verilog files...\"\n    iverilog -o {{VVP_FILE}} {{SRC_FILE}} {{TEST_FILE}}\n    @echo \"Compilation completed: {{VVP_FILE}}\"\n\n# Run the simulation\nsimulate: compile\n    @echo \"Running simulation...\"\n    vvp {{VVP_FILE}}\n    @echo \"Simulation completed. VCD file: {{VCD_FILE}}\"\n\n# View waveform (requires GTKWave)\nview: simulate\n    @echo \"Opening waveform viewer...\"\n    gtkwave {{VCD_FILE}} &\n\n# Clean generated files\nclean:\n    @echo \"Cleaning generated files...\"\n    -rm {{VVP_FILE}} {{VCD_FILE}}\n    @echo \"Clean completed.\"\n\n# Show project info\ninfo:\n    @echo \"Project: {{PROJECT_NAME}}\"\n    @echo \"Source file: {{SRC_FILE}}\"\n    @echo \"Test file: {{TEST_FILE}}\"\n    @echo \"Output files: {{VVP_FILE}}, {{VCD_FILE}}\"\n\n# List all available recipes\nlist:\n    @just --list\n\n# Help - show available commands\nhelp:\n    @echo \"Available commands:\"\n    @echo \"  just           - Compile and simulate (default)\"\n    @echo \"  just compile   - Compile Verilog files\"\n    @echo \"  just simulate  - Run simulation (generates VCD)\"\n    @echo \"  just view      - Open GTKWave to view waveform\"\n    @echo \"  just clean     - Remove generated files\"\n    @echo \"  just info      - Show project information\"\n    @echo \"  just list      - List all available recipes\"\n    @echo \"  just help      - Show this help message\"\n";

pub const MAIN_V_0: &'static str = "`timescale 1ns / 1ps\n\n//////////////////////////////////////////////////////////////////////////////////\n// Company: \n// Engineer: \n// \n// Create Date: ";

pub const MAIN_V_1: &'static str = "\n// Design Name: ";

pub const MAIN_V_2: &'static str = "\n// Module Name: ";

pub const MAIN_V_3: &'static str = "\n// Project Name: ";

pub const MAIN_V_4: &'static str = "\n// Target Devices: \n// Tool Versions: \n// Description: \n// \n// Dependencies: \n// \n// Revision:\n// Revision 0.01 - File Created\n// Additional Comments:\n// \n//////////////////////////////////////////////////////////////////////////////////\n\nmodule ";

pub const MAIN_V_5: &'static str = " (\n    input wire clk,\n    input wire reset,\n    output reg [7:0] data_out\n);\n\n    // Internal registers and wires\n    reg [7:0] counter;\n    \n    // Main logic\n    always @(posedge clk or posedge reset) begin\n        if (reset) begin\n            counter <= 8'b0;\n            data_out <= 8'b0;\n        end else begin\n            counter <= counter + 1;\n            data_out <= counter;\n        end\n    end\n\nendmodule\n";

pub const TESTBENCH_0: &'static str = "`timescale 1ns / 1ps\n\n//////////////////////////////////////////////////////////////////////////////////\n// Company: \n// Engineer: \n// \n// Create Date: ";

pub const TESTBENCH_1: &'static str = "\n// Design Name: ";

pub const TESTBENCH_2: &'static str = "_testbench\n// Module Name: ";

pub const TESTBENCH_3: &'static str = "_test\n// Project Name: ";

pub const TESTBENCH_4: &'static str = "\n// Target Devices: \n// Tool Versions: \n// Description: Testbench for ";

pub const TESTBENCH_5: &'static str = "\n// \n// Dependencies: \n// \n// Revision:\n// Revision 0.01 - File Created\n// Additional Comments:\n// \n//////////////////////////////////////////////////////////////////////////////////\n\nmodule ";

pub const TESTBENCH_6: &'static str = "_test;\n\n    // Inputs\n    reg clk;\n    reg reset;\n    \n    // Outputs\n    wire [7:0] data_out;\n    \n    // Instantiate the Unit Under Test (UUT)\n    ";

pub const TESTBENCH_7: &'static str = " uut (\n        .clk(clk),\n        .reset(reset),\n        .data_out(data_out)\n    );\n    \n    // Clock generation\n    always #5 clk = ~clk; // 100MHz clock (10ns period)\n    \n    initial begin\n        // Initialize inputs\n        clk = 0;\n        reset = 0;\n        \n        // Add stimulus here\n        $display(\"Starting simulation...\");\n        \n        // Apply reset\n        reset = 1;\n        #20;\n        reset = 0;\n        \n        // Let it run for some cycles\n        #200;\n        \n        $display(\"Simulation completed at time %t\", $time);\n        $finish;\n    end\n    \n    // Monitor changes\n    initial begin\n        $monitor(\"Time=%t, Reset=%b, Data_out=%d\", $time, reset, data_out);\n    end\n    \n    // Generate VCD file for waveform viewing\n    initial begin\n        $dumpfile(\"";

pub const TESTBENCH_8: &'static str = ".vcd\");\n        $dumpvars(0, ";

pub const TESTBENCH_9: &'static str = "_test);\n    end\n\nendmodule\n";

/// The design file of a new project created at `stamp`, its module named `name`.
pub open spec fn main_v_text(stamp: Seq<char>, name: Seq<char>) -> Seq<char> {
    MAIN_V_0@
        + stamp
        + MAIN_V_1@
        + name
        + MAIN_V_2@
        + name
        + MAIN_V_3@
        + name
        + MAIN_V_4@
        + name
        + MAIN_V_5@
}

/// The testbench of a new project created at `stamp`, for the module `name`.
pub open spec fn testbench_text(stamp: Seq<char>, name: Seq<char>) -> Seq<char> {
    TESTBENCH_0@
        + stamp
        + TESTBENCH_1@
        + name
        + TESTBENCH_2@
        + name
        + TESTBENCH_3@
        + name
        + TESTBENCH_4@
        + name
        + TESTBENCH_5@
        + name
        + TESTBENCH_6@
        + name
        + TESTBENCH_7@
        + name
        + TESTBENCH_8@
        + name
        + TESTBENCH_9@
}

/// Relies on `chrono::Utc::now` and `DateTime::format`: the time now, written as
/// `%Y-%m-%d %H:%M:%S UTC`. Nothing is promised of it, as it depends on the clock.
#[verifier::external_body]
fn creation_stamp() -> (r: String) {
    chrono::Utc::now().format("%Y-%m-%d %H:%M:%S UTC").to_string()
}

/// The name of the project being created, as typed so far.
#[derive(Debug)]
pub struct ProjectCreator {
    pub project_name: String,
}

impl ProjectCreator {
    pub fn new() -> (r: Self)
        ensures
            r.project_name@.len() == 0,
    {
        ProjectCreator { project_name: String::new() }
    }

    /// Forgets the name typed so far.
    pub fn reset(&mut self)
        ensures
            final(self).project_name@.len() == 0,
    {
        self.project_name = String::new();
    }

    /// Whether `name` can name a project.
    pub fn is_valid_project_name(&self, name: &str) -> (r: bool)
        ensures
            r == valid_project_name(name@),
    {
        let v = chars_of(name);
        if v.len() == 0 || v[0] == '-' || v[0] == '_' {
            return false;
        }
        let mut i: usize = 0;
        while i < v.len()
            invariant
                i <= v.len(),
                v@ == name@,
                forall|j: int| 0 <= j < i ==> name_char(#[trigger] v@[j]),
            decreases v.len() - i,
        {
            let c = v[i];
            if !(is_alphanumeric(c) || c == '_' || c == '-') {
                return false;
            }
            i = i + 1;
        }
        true
    }

    /// Checks the name typed so far before a project is created under it.
    pub fn check_project_name(&self) -> (r: Result<(), CreateError>)
        ensures
            self.project_name@.len() == 0 ==> r == Err::<(), CreateError>(CreateError::EmptyName),
            self.project_name@.len() > 0 && !valid_project_name(self.project_name@) ==> r == Err::<
                (),
                CreateError,
            >(CreateError::InvalidName),
            valid_project_name(self.project_name@) ==> r is Ok,
    {
        let v = chars_of(self.project_name.as_str());
        if v.len() == 0 {
            Err(CreateError::EmptyName)
        } else if !self.is_valid_project_name(self.project_name.as_str()) {
            Err(CreateError::InvalidName)
        } else {
            Ok(())
        }
    }

    /// Adds `c` to the name when a project name may hold it; other characters are ignored.
    pub fn push_name_char(&mut self, c: char)
        ensures
            final(self).project_name@ == if name_char(c) {
                old(self).project_name@.push(c)
            } else {
                old(self).project_name@
            },
    {
        if is_alphanumeric(c) || c == '_' || c == '-' {
            let mut v = chars_of(self.project_name.as_str());
            v.push(c);
            self.project_name = string_of(&v);
        }
    }

    /// Removes the last character of the name, if any.
    pub fn pop_name_char(&mut self)
        ensures
            final(self).project_name@ == if old(self).project_name@.len() > 0 {
                old(self).project_name@.drop_last()
            } else {
                old(self).project_name@
            },
    {
        let mut v = chars_of(self.project_name.as_str());
        if v.len() > 0 {
            v.pop();
            assert(v@ =~= old(self).project_name@.drop_last());
            self.project_name = string_of(&v);
        }
    }

    /// The design file of the project, created at `stamp`.
    pub fn main_v_content(&self, stamp: &str) -> (r: String)
        ensures
            r@ == main_v_text(stamp@, self.project_name@),
    {
        let r = String::from_str(MAIN_V_0);
        let r = r.concat(stamp);
        let r = r.concat(MAIN_V_1);
        let r = r.concat(self.project_name.as_str());
        let r = r.concat(MAIN_V_2);
        let r = r.concat(self.project_name.as_str());
        let r = r.concat(MAIN_V_3);
        let r = r.concat(self.project_name.as_str());
        let r = r.concat(MAIN_V_4);
        let r = r.concat(self.project_name.as_str());
        let r = r.concat(MAIN_V_5);
        r
    }

    /// The testbench of the project, created at `stamp`.
    pub fn testbench_content(&self, stamp: &str) -> (r: String)
        ensures
            r@ == testbench_text(stamp@, self.project_name@),
    {
        let r = String::from_str(TESTBENCH_0);
        let r = r.concat(stamp);
        let r = r.concat(TESTBENCH_1);
        let r = r.concat(self.project_name.as_str());
        let r = r.concat(TESTBENCH_2);
        let r = r.concat(self.project_name.as_str());
        let r = r.concat(TESTBENCH_3);
        let r = r.concat(self.project_name.as_str());
        let r = r.concat(TESTBENCH_4);
        let r = r.concat(self.project_name.as_str());
        let r = r.concat(TESTBENCH_5);
        let r = r.concat(self.project_name.as_str());
        let r = r.concat(TESTBENCH_6);
        let r = r.concat(self.project_name.as_str());
        let r = r.concat(TESTBENCH_7);
        let r = r.concat(self.project_name.as_str());
        let r = r.concat(TESTBENCH_8);
        let r = r.concat(self.project_name.as_str());
        let r = r.concat(TESTBENCH_9);
        r
    }

    /// The design file of the project, stamped with the time now.
    pub fn generate_main_v_content(&self) -> (r: String)
        ensures
            exists|stamp: Seq<char>| r@ == main_v_text(stamp, self.project_name@),
    {
        let stamp = creation_stamp();
        self.main_v_content(stamp.as_str())
    }

    /// The testbench of the project, stamped with the time now.
    pub fn generate_testbench_content(&self) -> (r: String)
        ensures
            exists|stamp: Seq<char>| r@ == testbench_text(stamp, self.project_name@),
    {
        let stamp = creation_stamp();
        self.testbench_content(stamp.as_str())
    }

    /// The justfile of a new project: its recipes compile, simulate, view, clean and describe
    /// the project under its name.
    pub fn generate_justfile(&self) -> (r: String)
        ensures
            r@ == JUSTFILE_HEAD@ + self.project_name@ + JUSTFILE_MIDDLE@ + self.project_name@
                + JUSTFILE_TAIL@,
    {
        let r = String::from_str(JUSTFILE_HEAD);
        let r = r.concat(self.project_name.as_str());
        let r = r.concat(JUSTFILE_MIDDLE);
        let r = r.concat(self.project_name.as_str());
        r.concat(JUSTFILE_TAIL)
    }
}

} // verus!
