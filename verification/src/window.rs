//! Choosing a terminal emulator and planning the commands that put the
//! countdown into a small floating window of its own.

use vstd::prelude::*;
use vstd::string::*;

use crate::text::text_eq;

verus! {

/// The terminal emulator used when none is asked for.
pub open spec fn default_terminal() -> Seq<char> {
    "foot"@
}

/// The text of an optional string.
pub open spec fn text_of(value: Option<String>) -> Option<Seq<char>> {
    match value {
        Some(s) => Some(s@),
        None => None,
    }
}

/// The terminal emulator to use: the explicit choice if there is one, else
/// what the environment names, else the default.
pub open spec fn resolve(explicit: Option<Seq<char>>, env: Option<Seq<char>>) -> Seq<char> {
    match explicit {
        Some(name) => name,
        None => match env {
            Some(name) => name,
            None => default_terminal(),
        },
    }
}

/// An explicit choice wins whatever the environment says; without one the
/// environment decides; with neither it is the default.
pub proof fn lemma_resolve_priority(name: Seq<char>, env: Option<Seq<char>>)
    ensures
        resolve(Some(name), env) == name,
        resolve(None, Some(name)) == name,
        resolve(None, None) == default_terminal(),
{
}

/// Picks the terminal emulator from the user's explicit choice and the value
/// of the environment's terminal variable, either of which may be missing.
///
/// The name is taken as it is: whether such a program exists shows when it
/// is started.
pub fn detect_terminal(user_arg: Option<String>, env_term: Option<String>) -> (terminal: String)
    ensures
        terminal@ == resolve(text_of(user_arg), text_of(env_term)),
{
    if let Some(t) = user_arg {
        return t;
    }
    if let Some(env_term) = env_term {
        return env_term;
    }
    String::from_str("foot")
}

/// The window class under which the timer window is known to the window
/// manager.
pub open spec fn class_name() -> Seq<char> {
    "floating-timer"@
}

/// The option by which a terminal emulator is told its window class. Foot
/// has its own spelling; every other terminal is taken to use the common
/// one.
pub open spec fn class_flag_of(terminal: Seq<char>) -> Seq<char> {
    if terminal == "foot"@ {
        "--app-id"@
    } else {
        "--class"@
    }
}

/// The arguments that give the window its initial size. Only foot is known
/// to take them.
pub open spec fn size_args_of(terminal: Seq<char>) -> Seq<Seq<char>> {
    if terminal == "foot"@ {
        seq!["-w"@, "300x150"@]
    } else {
        Seq::empty()
    }
}

/// The arguments with which `terminal` is started so that it runs the
/// program at `exe_path` as a countdown of `time`: the size, the window
/// class, then the program with the duration and the mode flag.
pub open spec fn ghost_args(terminal: Seq<char>, exe_path: Seq<char>, time: Seq<char>) -> Seq<
    Seq<char>,
> {
    size_args_of(terminal) + seq![
        class_flag_of(terminal),
        class_name(),
        "-e"@,
        exe_path,
        time,
        "--ghost-mode"@,
    ]
}

/// What is to be done with windows of the timer's class, in the order in
/// which the rules are issued: float, pin, size, position near the right
/// edge, no border, and opacity for the focused and the unfocused window.
pub open spec fn directives() -> Seq<Seq<char>> {
    seq![
        "float true"@,
        "pin true"@,
        "size 300 150"@,
        "move (monitor_w-310) 50"@,
        "noborder true"@,
        "opacity 0.9 0.2"@,
    ]
}

/// The text of the rule that applies `directive` to windows of class
/// `class`.
pub open spec fn rule_text(class: Seq<char>, directive: Seq<char>) -> Seq<char> {
    "match:class ^("@ + class + ")$, "@ + directive
}

/// The texts of all placement rules for windows of class `class`.
pub open spec fn rule_texts(class: Seq<char>) -> Seq<Seq<char>> {
    Seq::new(directives().len(), |i: int| rule_text(class, directives()[i]))
}

/// The arguments with which the window manager's control tool registers the
/// rule `rule`.
pub open spec fn rule_args(rule: Seq<char>) -> Seq<Seq<char>> {
    seq!["keyword"@, "windowrule"@, rule]
}

/// The texts of a sequence of strings.
pub open spec fn texts(strings: Seq<String>) -> Seq<Seq<char>> {
    Seq::new(strings.len(), |i: int| strings[i]@)
}

/// The texts of a sequence of string slices.
pub open spec fn slice_texts(strings: Seq<&'static str>) -> Seq<Seq<char>> {
    Seq::new(strings.len(), |i: int| strings[i]@)
}

/// A program and its arguments, seen mathematically.
pub struct CommandLine {
    /// The name of the program.
    pub program: Seq<char>,
    /// The arguments, in order.
    pub args: Seq<Seq<char>>,
}

/// A program to start and the arguments to start it with.
#[derive(Debug)]
pub struct Command {
    /// The name of the program.
    pub program: String,
    /// The arguments, in order.
    pub args: Vec<String>,
}

impl View for Command {
    type V = CommandLine;

    open spec fn view(&self) -> CommandLine {
        CommandLine { program: self.program@, args: texts(self.args@) }
    }
}

/// A terminal emulator with what is needed to start it as the timer window.
#[derive(Debug)]
pub struct TerminalChoice {
    /// The name of the program.
    pub program: String,
    /// The option that sets the window class.
    pub class_flag: &'static str,
    /// The window class.
    pub class_name: &'static str,
    /// Arguments that set the initial size, where the terminal is known to
    /// take any.
    pub size_args: Vec<&'static str>,
}

impl TerminalChoice {
    /// Works out how the terminal emulator `terminal` is to be started.
    pub fn select(terminal: &str) -> (choice: Self)
        ensures
            choice.program@ == terminal@,
            choice.class_flag@ == class_flag_of(terminal@),
            choice.class_name@ == class_name(),
            slice_texts(choice.size_args@) == size_args_of(terminal@),
    {
        let foot = text_eq(terminal, "foot");
        let class_flag = if foot {
            "--app-id"
        } else {
            "--class"
        };
        let mut size_args: Vec<&'static str> = Vec::new();
        if foot {
            size_args.push("-w");
            size_args.push("300x150");
        }
        proof {
            assert(slice_texts(size_args@) =~= size_args_of(terminal@));
        }
        TerminalChoice {
            program: String::from_str(terminal),
            class_flag,
            class_name: "floating-timer",
            size_args,
        }
    }
}

/// Builds the text of one placement rule.
fn rule_for(class_name: &str, directive: &str) -> (rule: String)
    ensures
        rule@ == rule_text(class_name@, directive@),
{
    let mut rule = String::from_str("match:class ^(");
    rule.append(class_name);
    rule.append(")$, ");
    rule.append(directive);
    rule
}

/// The command that registers one placement rule with the window manager.
fn rule_command(rule: String) -> (command: Command)
    ensures
        command@ == (CommandLine { program: "hyprctl"@, args: rule_args(rule@) }),
{
    let mut args: Vec<String> = Vec::new();
    args.push(String::from_str("keyword"));
    args.push(String::from_str("windowrule"));
    args.push(rule);
    proof {
        assert(texts(args@) =~= rule_args(rule@));
    }
    Command { program: String::from_str("hyprctl"), args }
}

/// The commands that tell the window manager how to place windows of class
/// `class_name`, one command per rule and in the order of the rules.
///
/// They are meant to be run one after the other, whatever becomes of each:
/// placement is a nicety, and nothing depends on it.
pub fn apply_hyprland_rules(class_name: &str) -> (commands: Vec<Command>)
    ensures
        commands@.len() == directives().len(),
        forall|i: int|
            0 <= i < commands@.len() ==> (#[trigger] commands@[i])@ == (CommandLine {
                program: "hyprctl"@,
                args: rule_args(rule_texts(class_name@)[i]),
            }),
{
    let all: [&'static str; 6] = [
        "float true",
        "pin true",
        "size 300 150",
        "move (monitor_w-310) 50",
        "noborder true",
        "opacity 0.9 0.2",
    ];
    proof {
        assert(slice_texts(all@) =~= directives());
    }
    let mut commands: Vec<Command> = Vec::new();
    let mut i: usize = 0;
    while i < 6
        invariant
            i <= 6,
            slice_texts(all@) == directives(),
            all@.len() == 6,
            commands@.len() == i,
            forall|j: int|
                0 <= j < i ==> (#[trigger] commands@[j])@ == (CommandLine {
                    program: "hyprctl"@,
                    args: rule_args(rule_texts(class_name@)[j]),
                }),
        decreases 6 - i,
    {
        proof {
            assert(slice_texts(all@)[i as int] == all@[i as int]@);
        }
        let rule = rule_for(class_name, all[i]);
        commands.push(rule_command(rule));
        i += 1;
    }
    commands
}

/// The command that starts the terminal emulator `choice` with the program
/// at `exe_path` running in it as a countdown of `time`.
pub fn ghost_command(choice: &TerminalChoice, exe_path: &str, time: &str) -> (command: Command)
    ensures
        command@ == (CommandLine {
            program: choice.program@,
            args: slice_texts(choice.size_args@) + seq![
                choice.class_flag@,
                choice.class_name@,
                "-e"@,
                exe_path@,
                time@,
                "--ghost-mode"@,
            ],
        }),
{
    let mut args: Vec<String> = Vec::new();
    let mut i: usize = 0;
    while i < choice.size_args.len()
        invariant
            i <= choice.size_args@.len(),
            args@.len() == i,
            forall|j: int| 0 <= j < i ==> (#[trigger] args@[j])@ == choice.size_args@[j]@,
        decreases choice.size_args@.len() - i,
    {
        args.push(String::from_str(choice.size_args[i]));
        i += 1;
    }
    args.push(String::from_str(choice.class_flag));
    args.push(String::from_str(choice.class_name));
    args.push(String::from_str("-e"));
    args.push(String::from_str(exe_path));
    args.push(String::from_str(time));
    args.push(String::from_str("--ghost-mode"));
    proof {
        assert(texts(args@) =~= slice_texts(choice.size_args@) + seq![
            choice.class_flag@,
            choice.class_name@,
            "-e"@,
            exe_path@,
            time@,
            "--ghost-mode"@,
        ]);
    }
    Command { program: choice.program.clone(), args }
}

/// Everything that launching the timer window takes, in the order in which
/// it is to be done.
#[derive(Debug)]
pub struct LaunchPlan {
    /// Commands that register the placement rules. Each is run and waited
    /// for; its outcome is of no concern.
    pub rules: Vec<Command>,
    /// The command that starts the terminal emulator. It is started and not
    /// waited for; that it cannot be started is fatal.
    pub spawn: Command,
}

/// Plans the launch of the timer window: `terminal` is to run the program at
/// `exe_path` as a countdown of `time`.
///
/// With `window_rules` set, the window manager is first told how to place
/// the window; this is for the one platform on which that window manager
/// runs.
pub fn spawn_ghost_window(terminal: &str, time: &str, exe_path: &str, window_rules: bool) -> (plan:
    LaunchPlan)
    ensures
        plan.spawn@ == (CommandLine {
            program: terminal@,
            args: ghost_args(terminal@, exe_path@, time@),
        }),
        window_rules ==> plan.rules@.len() == directives().len(),
        !window_rules ==> plan.rules@.len() == 0,
        forall|i: int|
            0 <= i < plan.rules@.len() ==> (#[trigger] plan.rules@[i])@ == (CommandLine {
                program: "hyprctl"@,
                args: rule_args(rule_texts(class_name())[i]),
            }),
{
    let choice = TerminalChoice::select(terminal);
    let rules = if window_rules {
        apply_hyprland_rules(choice.class_name)
    } else {
        Vec::new()
    };
    let spawn = ghost_command(&choice, exe_path, time);
    LaunchPlan { rules, spawn }
}

} // verus!
