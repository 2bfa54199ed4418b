//! The choice of where the configuration is loaded from, and the prompt for
//! the task id.

use crate::ui::events::Key;
use crate::ui::simple_input::{after_input_key, input_key, InputStep};
use crate::util::{render_branch_name, render_branch_name_spec};
use vstd::prelude::*;
use vstd::string::StringExecFns;

verus! {

/// Where the configuration is loaded from.
#[derive(Debug, Clone, Copy, PartialEq, Eq)]
pub enum ConfigChoice {
    LoadFromEnv,
    UseDefaults,
    UseGlobalConfig,
}

/// One line of the choice.
#[derive(Debug, PartialEq, Eq)]
pub struct ConfigOption {
    pub title: String,
    pub description: String,
    pub choice: ConfigChoice,
}

/// Where the choice stands after a key.
#[derive(Debug, Clone, Copy, PartialEq, Eq)]
pub enum ConfigStep {
    /// Go on with the next key.
    Continue,
    /// The choice was given up.
    Cancelled,
    /// This source was chosen.
    Chosen(ConfigChoice),
}

/// The choice that each line stands for, in the order of the lines.
pub open spec fn choice_of_line(line: int) -> ConfigChoice {
    if line == 0 {
        ConfigChoice::LoadFromEnv
    } else if line == 1 {
        ConfigChoice::UseDefaults
    } else {
        ConfigChoice::UseGlobalConfig
    }
}

/// Number of lines of the choice.
pub const CONFIG_OPTION_COUNT: usize = 3;

/// The cursor and the step after a key: `q` and Esc give up, Enter chooses
/// the line under the cursor, Up and Down move the cursor within the lines,
/// and the digits `1` to `3` choose their line at once.
pub open spec fn after_config_key(selected: usize, key: Key) -> (usize, bool, ConfigStep) {
    if key == Key::Char('q') || key == Key::Esc {
        (selected, true, ConfigStep::Cancelled)
    } else if key == Key::Enter {
        (selected, false, ConfigStep::Chosen(choice_of_line(selected as int)))
    } else if key == Key::Up {
        (
            if selected > 0 {
                (selected - 1) as usize
            } else {
                selected
            },
            false,
            ConfigStep::Continue,
        )
    } else if key == Key::Down {
        (
            if selected + 1 < 3 {
                (selected + 1) as usize
            } else {
                selected
            },
            false,
            ConfigStep::Continue,
        )
    } else if key == Key::Char('1') {
        (0, false, ConfigStep::Chosen(choice_of_line(0)))
    } else if key == Key::Char('2') {
        (1, false, ConfigStep::Chosen(choice_of_line(1)))
    } else if key == Key::Char('3') {
        (2, false, ConfigStep::Chosen(choice_of_line(2)))
    } else {
        (selected, false, ConfigStep::Continue)
    }
}

/// The choice of the configuration source.
pub struct ConfigSelectorApp {
    should_quit: bool,
    selected_index: usize,
    options: Vec<ConfigOption>,
}

impl ConfigSelectorApp {
    /// The line under the cursor.
    pub closed spec fn cursor(&self) -> usize {
        self.selected_index
    }

    /// Whether the choice was given up.
    pub closed spec fn quitting(&self) -> bool {
        self.should_quit
    }

    /// The invariant: three lines, each with its choice, and the cursor on one
    /// of them.
    pub closed spec fn wf(&self) -> bool {
        &&& self.options@.len() == 3
        &&& self.selected_index < 3
        &&& forall|i: int| 0 <= i < 3 ==> (#[trigger] self.options@[i]).choice == choice_of_line(i)
    }

    /// The choice with the cursor on its first line.
    pub fn new() -> (app: Self)
        ensures
            app.wf(),
            app.cursor() == 0,
            !app.quitting(),
    {
        let mut options: Vec<ConfigOption> = Vec::new();
        options.push(
            ConfigOption {
                title: String::from_str("Load from cherry.env"),
                description: String::from_str(
                    "Use project-specific configuration from cherry.env file (recommended)",
                ),
                choice: ConfigChoice::LoadFromEnv,
            },
        );
        options.push(
            ConfigOption {
                title: String::from_str("Use defaults only"),
                description: String::from_str(
                    "Start with default settings, ignore all configuration files",
                ),
                choice: ConfigChoice::UseDefaults,
            },
        );
        options.push(
            ConfigOption {
                title: String::from_str("Use global config only"),
                description: String::from_str(
                    "Load from global config.toml file, ignore cherry.env",
                ),
                choice: ConfigChoice::UseGlobalConfig,
            },
        );
        Self { should_quit: false, selected_index: 0, options }
    }

    /// The line under the cursor.
    pub fn selected_index(&self) -> (index: usize)
        ensures
            index == self.cursor(),
    {
        self.selected_index
    }

    /// The lines of the choice.
    pub fn options(&self) -> (options: &Vec<ConfigOption>)
        requires
            self.wf(),
        ensures
            options@.len() == 3,
            forall|i: int| 0 <= i < 3 ==> (#[trigger] options@[i]).choice == choice_of_line(i),
    {
        &self.options
    }

    /// Takes a key.
    pub fn handle_key(&mut self, key: Key) -> (step: ConfigStep)
        requires
            old(self).wf(),
        ensures
            final(self).wf(),
            final(self).cursor() == after_config_key(old(self).cursor(), key).0,
            final(self).quitting() == (old(self).quitting() || after_config_key(
                old(self).cursor(),
                key,
            ).1),
            step == after_config_key(old(self).cursor(), key).2,
    {
        match key {
            Key::Char('q') | Key::Esc => {
                self.should_quit = true;
                ConfigStep::Cancelled
            },
            Key::Enter => ConfigStep::Chosen(self.options[self.selected_index].choice),
            Key::Up => {
                if self.selected_index > 0 {
                    self.selected_index = self.selected_index - 1;
                }
                ConfigStep::Continue
            },
            Key::Down => {
                if self.selected_index + 1 < self.options.len() {
                    self.selected_index = self.selected_index + 1;
                }
                ConfigStep::Continue
            },
            Key::Char('1') => {
                self.selected_index = 0;
                ConfigStep::Chosen(self.options[0].choice)
            },
            Key::Char('2') => {
                self.selected_index = 1;
                ConfigStep::Chosen(self.options[1].choice)
            },
            Key::Char('3') => {
                self.selected_index = 2;
                ConfigStep::Chosen(self.options[2].choice)
            },
            _ => ConfigStep::Continue,
        }
    }

    /// Takes a key of the task-id prompt: Enter confirms a task id that is
    /// not empty, Esc gives up.
    pub fn handle_task_id_key(input: &mut String, key: Key) -> (step: InputStep)
        ensures
            (final(input)@, step.deep_view()) == after_input_key(old(input)@, key, true),
    {
        input_key(input, key, true)
    }

    /// The branch name previewed while the task id is typed: the template
    /// rendered with what was typed, or with a sample while nothing is.
    pub fn task_id_preview(template: &str, input: &str) -> (preview: String)
        ensures
            preview@ == render_branch_name_spec(
                template@,
                if input@.len() == 0 {
                    "GH-123"@
                } else {
                    input@
                },
            ),
    {
        let sample = if input.is_empty() {
            "GH-123"
        } else {
            input
        };
        render_branch_name(template, sample)
    }
}

} // verus!
