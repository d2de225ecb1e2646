//! The interactive picker: type a duration or choose a preset, then launch.

use vstd::prelude::*;
use vstd::string::*;

use crate::input::Key;

verus! {

/// Which part of the dashboard takes the key presses.
#[derive(Clone, Copy, Debug, PartialEq, Eq, Structural)]
pub enum Focus {
    /// The free-text field.
    Input,
    /// The list of presets.
    Presets,
}

/// What a key press leads to, seen mathematically.
pub enum Outcome {
    /// The session goes on.
    Continue,
    /// The user confirmed: a timer of this duration text is to be launched.
    Launch(Seq<char>),
    /// The user cancelled.
    Quit,
}

/// What a key press leads to.
#[derive(Debug)]
pub enum DashboardAction {
    /// The session goes on.
    Continue,
    /// The user confirmed: a timer of this duration text is to be launched.
    Launch(String),
    /// The user cancelled.
    Quit,
}

impl View for DashboardAction {
    type V = Outcome;

    open spec fn view(&self) -> Outcome {
        match self {
            DashboardAction::Continue => Outcome::Continue,
            DashboardAction::Launch(text) => Outcome::Launch(text@),
            DashboardAction::Quit => Outcome::Quit,
        }
    }
}

/// The names and duration texts of the presets offered, in display order.
pub open spec fn default_presets() -> Seq<(Seq<char>, Seq<char>)> {
    seq![
        ("Pomodoro"@, "25m"@),
        ("Short Break"@, "5m"@),
        ("Long Break"@, "15m"@),
        ("Meeting"@, "1h"@),
        ("Standup"@, "15m"@),
    ]
}

/// The mathematical state of the dashboard.
pub struct DashboardState {
    /// What has been typed into the free-text field.
    pub input: Seq<char>,
    /// Name and duration text of each preset.
    pub presets: Seq<(Seq<char>, Seq<char>)>,
    /// The index of the highlighted preset.
    pub selected: nat,
    /// Where key presses go.
    pub focus: Focus,
}

impl DashboardState {
    /// The dashboard as it opens: nothing typed, the first preset
    /// highlighted, the free-text field in focus.
    pub open spec fn initial() -> Self {
        DashboardState {
            input: Seq::empty(),
            presets: default_presets(),
            selected: 0,
            focus: Focus::Input,
        }
    }

    /// What holds of every dashboard: there is a preset, and the highlight
    /// is on one of them.
    pub open spec fn wf(self) -> bool {
        self.presets.len() > 0 && self.selected < self.presets.len()
    }

    /// The highlight moved one preset down, staying on the last.
    pub open spec fn next(self) -> Self {
        if self.selected + 1 < self.presets.len() {
            DashboardState { selected: self.selected + 1, ..self }
        } else {
            self
        }
    }

    /// The highlight moved one preset up, staying on the first.
    pub open spec fn previous(self) -> Self {
        if self.selected > 0 {
            DashboardState { selected: (self.selected - 1) as nat, ..self }
        } else {
            self
        }
    }

    /// The state after `key` was pressed.
    ///
    /// In the free-text field a character is appended, backspace removes the
    /// last one, and tab or cursor-down moves to the presets. Among the
    /// presets cursor-up or `k` and cursor-down or `j` move the highlight,
    /// and tab or shift-tab moves back to the field. No other key changes
    /// anything.
    pub open spec fn on_key(self, key: Key) -> Self {
        match self.focus {
            Focus::Input => match key {
                Key::Char(c) => DashboardState { input: self.input.push(c), ..self },
                Key::Backspace => if self.input.len() > 0 {
                    DashboardState { input: self.input.drop_last(), ..self }
                } else {
                    self
                },
                Key::Tab | Key::Down => DashboardState { focus: Focus::Presets, ..self },
                _ => self,
            },
            Focus::Presets => if key == Key::Up || key == Key::Char('k') {
                self.previous()
            } else if key == Key::Down || key == Key::Char('j') {
                self.next()
            } else if key == Key::Tab || key == Key::BackTab {
                DashboardState { focus: Focus::Input, ..self }
            } else {
                self
            },
        }
    }

    /// What pressing `key` in this state leads to.
    ///
    /// Return confirms: in the free-text field with what was typed, provided
    /// that is not empty, among the presets with the duration text of the
    /// highlighted one. Escape cancels, as does `q` among the presets.
    pub open spec fn outcome(self, key: Key) -> Outcome {
        match self.focus {
            Focus::Input => if key == Key::Enter && self.input.len() > 0 {
                Outcome::Launch(self.input)
            } else if key == Key::Esc {
                Outcome::Quit
            } else {
                Outcome::Continue
            },
            Focus::Presets => if key == Key::Enter {
                Outcome::Launch(self.presets[self.selected as int].1)
            } else if key == Key::Esc || key == Key::Char('q') {
                Outcome::Quit
            } else {
                Outcome::Continue
            },
        }
    }

    /// The state after `key` was pressed `times` times in a row.
    pub open spec fn press(self, key: Key, times: nat) -> Self
        decreases times,
    {
        if times == 0 {
            self
        } else {
            self.press(key, (times - 1) as nat).on_key(key)
        }
    }
}

/// No key press breaks a valid dashboard, and none changes the presets.
pub proof fn lemma_on_key_preserves_wf(state: DashboardState, key: Key)
    requires
        state.wf(),
    ensures
        state.on_key(key).wf(),
        state.on_key(key).presets == state.presets,
{
}

/// A key that confirms or cancels leaves the state as it was.
pub proof fn lemma_ending_keys_change_nothing(state: DashboardState, key: Key)
    requires
        !(state.outcome(key) is Continue),
    ensures
        state.on_key(key) == state,
{
}

/// From the free-text field, tab moves the focus to the presets and touches
/// nothing else; so does cursor-down.
pub proof fn lemma_tab_moves_to_presets(state: DashboardState)
    requires
        state.focus == Focus::Input,
    ensures
        state.on_key(Key::Tab) == (DashboardState { focus: Focus::Presets, ..state }),
        state.on_key(Key::Down) == state.on_key(Key::Tab),
        state.outcome(Key::Tab) is Continue,
{
}

/// From the presets, tab moves the focus back to the free-text field and
/// touches nothing else; so does shift-tab.
pub proof fn lemma_tab_moves_back_to_input(state: DashboardState)
    requires
        state.focus == Focus::Presets,
    ensures
        state.on_key(Key::Tab) == (DashboardState { focus: Focus::Input, ..state }),
        state.on_key(Key::BackTab) == state.on_key(Key::Tab),
{
}

/// With the highlight on the first preset, moving up changes nothing: the
/// highlight does not wrap around.
pub proof fn lemma_up_stops_at_first(state: DashboardState)
    requires
        state.focus == Focus::Presets,
        state.selected == 0,
    ensures
        state.on_key(Key::Up) == state,
        state.on_key(Key::Char('k')) == state,
{
}

/// With the highlight on the last preset, moving down changes nothing.
pub proof fn lemma_down_stops_at_last(state: DashboardState)
    requires
        state.wf(),
        state.focus == Focus::Presets,
        state.selected == state.presets.len() - 1,
    ensures
        state.on_key(Key::Down) == state,
        state.on_key(Key::Char('j')) == state,
{
}

/// Pressing cursor-down `times` times among the presets moves the highlight
/// down by as many places, but never past the last preset.
pub proof fn lemma_down_repeated(state: DashboardState, times: nat)
    requires
        state.wf(),
        state.focus == Focus::Presets,
    ensures
        state.press(Key::Down, times) == (DashboardState {
            selected: if state.selected + times < state.presets.len() {
                state.selected + times
            } else {
                (state.presets.len() - 1) as nat
            },
            ..state
        }),
        state.press(Key::Char('j'), times) == state.press(Key::Down, times),
    decreases times,
{
    if times > 0 {
        lemma_down_repeated(state, (times - 1) as nat);
    }
}

/// Pressing cursor-up `times` times among the presets moves the highlight up
/// by as many places, but never past the first preset.
pub proof fn lemma_up_repeated(state: DashboardState, times: nat)
    requires
        state.focus == Focus::Presets,
    ensures
        state.press(Key::Up, times) == (DashboardState {
            selected: if times <= state.selected {
                (state.selected - times) as nat
            } else {
                0
            },
            ..state
        }),
        state.press(Key::Char('k'), times) == state.press(Key::Up, times),
    decreases times,
{
    if times > 0 {
        lemma_up_repeated(state, (times - 1) as nat);
    }
}

/// Return in the free-text field does nothing while the field is empty, and
/// asks for a launch with exactly the typed text once it is not.
pub proof fn lemma_confirm_from_input(state: DashboardState)
    requires
        state.focus == Focus::Input,
    ensures
        state.on_key(Key::Enter) == state,
        state.input.len() == 0 ==> state.outcome(Key::Enter) is Continue,
        state.input.len() > 0 ==> state.outcome(Key::Enter) == Outcome::Launch(state.input),
{
}

/// Backspace undoes the character typed just before it.
pub proof fn lemma_backspace_undoes_char(state: DashboardState, c: char)
    requires
        state.focus == Focus::Input,
    ensures
        state.on_key(Key::Char(c)).on_key(Key::Backspace) == state,
{
    assert(state.input.push(c).drop_last() =~= state.input);
}

/// The presets on offer, with the highlight on one of them.
#[derive(Debug)]
struct PresetList {
    entries: Vec<(&'static str, &'static str)>,
    selected: usize,
}

impl PresetList {
    #[verifier::type_invariant]
    spec fn valid(self) -> bool {
        self.entries@.len() > 0 && self.selected < self.entries@.len()
    }

    /// Name and duration text of each preset, in display order.
    spec fn entries(self) -> Seq<(Seq<char>, Seq<char>)> {
        Seq::new(self.entries@.len(), |i: int| (self.entries@[i].0@, self.entries@[i].1@))
    }

    /// The index of the highlighted preset.
    spec fn selected(self) -> nat {
        self.selected as nat
    }

    /// The presets on offer, with the highlight on the first.
    fn defaults() -> (list: Self)
        ensures
            list.entries() == default_presets(),
            list.selected() == 0,
    {
        let entries = vec![
            ("Pomodoro", "25m"),
            ("Short Break", "5m"),
            ("Long Break", "15m"),
            ("Meeting", "1h"),
            ("Standup", "15m"),
        ];
        let list = PresetList { entries, selected: 0 };
        proof {
            assert(list.entries() =~= default_presets());
        }
        list
    }

    /// How many presets there are.
    fn len(&self) -> (count: usize)
        ensures
            count == self.entries().len(),
            count > 0,
            self.selected() < count,
    {
        proof {
            use_type_invariant(self);
        }
        self.entries.len()
    }

    /// The index of the highlighted preset.
    fn highlighted(&self) -> (index: usize)
        ensures
            index == self.selected(),
            index < self.entries().len(),
    {
        proof {
            use_type_invariant(self);
        }
        self.selected
    }

    /// Name and duration text of the preset at `index`.
    fn entry(&self, index: usize) -> (entry: (&'static str, &'static str))
        requires
            index < self.entries().len(),
        ensures
            (entry.0@, entry.1@) == self.entries()[index as int],
    {
        self.entries[index]
    }

    /// Moves the highlight one preset down, unless it is on the last.
    fn move_down(&mut self)
        ensures
            final(self).entries() == old(self).entries(),
            final(self).selected() == (if old(self).selected() + 1 < old(self).entries().len() {
                old(self).selected() + 1
            } else {
                old(self).selected()
            }),
    {
        proof {
            use_type_invariant(&*self);
        }
        if self.selected < self.entries.len() - 1 {
            self.selected += 1;
        }
    }

    /// Moves the highlight one preset up, unless it is on the first.
    fn move_up(&mut self)
        ensures
            final(self).entries() == old(self).entries(),
            final(self).selected() == (if old(self).selected() > 0 {
                (old(self).selected() - 1) as nat
            } else {
                old(self).selected()
            }),
    {
        proof {
            use_type_invariant(&*self);
        }
        if self.selected > 0 {
            self.selected -= 1;
        }
    }
}

/// The dashboard with its input field, its presets and its focus.
#[derive(Debug)]
pub struct DashboardApp {
    input_text: String,
    presets: PresetList,
    focus: Focus,
}

impl View for DashboardApp {
    type V = DashboardState;

    closed spec fn view(&self) -> DashboardState {
        DashboardState {
            input: self.input_text@,
            presets: self.presets.entries(),
            selected: self.presets.selected(),
            focus: self.focus,
        }
    }
}

impl DashboardApp {
    /// The dashboard as it opens.
    pub fn new() -> (app: Self)
        ensures
            app@ == DashboardState::initial(),
            app@.wf(),
    {
        let app = DashboardApp {
            input_text: String::new(),
            presets: PresetList::defaults(),
            focus: Focus::Input,
        };
        proof {
            assert(default_presets().len() == 5);
        }
        app
    }

    /// What has been typed into the free-text field.
    pub fn input_text(&self) -> (text: &str)
        ensures
            text@ == self@.input,
    {
        self.input_text.as_str()
    }

    /// The index of the highlighted preset.
    pub fn selected_preset(&self) -> (index: usize)
        ensures
            index == self@.selected,
            index < self@.presets.len(),
    {
        self.presets.highlighted()
    }

    /// Where key presses go.
    pub fn focus(&self) -> (focus: Focus)
        ensures
            focus == self@.focus,
    {
        self.focus
    }

    /// How many presets there are.
    pub fn preset_count(&self) -> (count: usize)
        ensures
            count == self@.presets.len(),
            count > 0,
    {
        self.presets.len()
    }

    /// Name and duration text of the preset at `index`, or `None` where
    /// there is no such preset.
    pub fn preset(&self, index: usize) -> (entry: Option<(&'static str, &'static str)>)
        ensures
            (match entry {
                Some((name, duration)) => index < self@.presets.len() && (name@, duration@)
                    == self@.presets[index as int],
                None => index >= self@.presets.len(),
            }),
    {
        if index < self.presets.len() {
            Some(self.presets.entry(index))
        } else {
            None
        }
    }

    /// Moves the highlight one preset down, unless it is on the last.
    pub fn next_preset(&mut self)
        ensures
            final(self)@ == old(self)@.next(),
            final(self)@.wf(),
    {
        self.presets.move_down();
        proof {
            use_type_invariant(&self.presets);
        }
    }

    /// Moves the highlight one preset up, unless it is on the first.
    pub fn previous_preset(&mut self)
        ensures
            final(self)@ == old(self)@.previous(),
            final(self)@.wf(),
    {
        self.presets.move_up();
        proof {
            use_type_invariant(&self.presets);
        }
    }

    /// Takes one key press: updates the dashboard and says whether the
    /// session goes on, ends with a launch, or ends without one.
    pub fn handle_key(&mut self, key: Key) -> (action: DashboardAction)
        ensures
            final(self)@ == old(self)@.on_key(key),
            final(self)@.wf(),
            action@ == old(self)@.outcome(key),
    {
        proof {
            use_type_invariant(&self.presets);
        }
        match self.focus {
            Focus::Input => match key {
                Key::Enter => {
                    if !self.input_text.as_str().is_empty() {
                        return DashboardAction::Launch(self.input_text.clone());
                    }
                },
                Key::Char(c) => {
                    self.input_text.push(c);
                },
                Key::Backspace => {
                    self.input_text.pop();
                },
                Key::Esc => {
                    return DashboardAction::Quit;
                },
                Key::Tab | Key::Down => {
                    self.focus = Focus::Presets;
                },
                _ => {},
            },
            Focus::Presets => match key {
                Key::Up => self.previous_preset(),
                Key::Down => self.next_preset(),
                Key::Char(c) => {
                    if c == 'k' {
                        self.previous_preset();
                    } else if c == 'j' {
                        self.next_preset();
                    } else if c == 'q' {
                        return DashboardAction::Quit;
                    }
                },
                Key::Enter => {
                    let entry = self.presets.entry(self.presets.highlighted());
                    return DashboardAction::Launch(String::from_str(entry.1));
                },
                Key::Esc => {
                    return DashboardAction::Quit;
                },
                Key::Tab | Key::BackTab => {
                    self.focus = Focus::Input;
                },
                _ => {},
            },
        }
        DashboardAction::Continue
    }
}

/// The width to which preset names are padded in the list, in characters.
pub const NAME_WIDTH: usize = 15;

/// A run of `n` blanks.
pub open spec fn spaces(n: nat) -> Seq<char> {
    Seq::new(n, |i: int| ' ')
}

/// The list entry for a preset: its name, padded with blanks on the right to
/// the common width, then its duration text in parentheses. A name that is
/// wider than that is kept whole.
pub open spec fn preset_line(name: Seq<char>, duration: Seq<char>) -> Seq<char> {
    let padding: nat = if name.len() < NAME_WIDTH {
        (NAME_WIDTH - name.len()) as nat
    } else {
        0
    };
    name + spaces(padding) + " ("@ + duration + ")"@
}

/// Preset lines form two columns: after a name that fits the common width,
/// the duration text always starts at the same place.
pub proof fn lemma_preset_lines_align(name: Seq<char>, duration: Seq<char>)
    requires
        name.len() <= NAME_WIDTH,
    ensures
        preset_line(name, duration).len() == NAME_WIDTH + 3 + duration.len(),
        preset_line(name, duration).subrange(0, name.len() as int) == name,
        forall|i: int| name.len() <= i <= NAME_WIDTH ==> preset_line(name, duration)[i] == ' ',
        preset_line(name, duration)[NAME_WIDTH + 1] == '(',
        preset_line(name, duration).subrange(
            NAME_WIDTH + 2,
            NAME_WIDTH + 2 + duration.len() as int,
        ) == duration,
        preset_line(name, duration).last() == ')',
{
    reveal_strlit(" (");
    reveal_strlit(")");
    let line = preset_line(name, duration);
    assert(line.subrange(0, name.len() as int) =~= name);
    assert(line.subrange(NAME_WIDTH + 2, NAME_WIDTH + 2 + duration.len() as int) =~= duration);
}

/// The line of key hints that goes with a focus.
pub open spec fn help_text(focus: Focus) -> Seq<char> {
    match focus {
        Focus::Input => "Type duration (e.g. 10m) • <Enter> Start • <Tab> Presets"@,
        Focus::Presets => "↑/↓ Navigate • <Enter> Select • <Tab> Custom Input"@,
    }
}

/// What the dashboard display is asked to show.
#[derive(Debug)]
pub struct DashboardScreen {
    /// The content of the free-text field.
    pub input_text: String,
    /// Which part is active and drawn as such.
    pub focus: Focus,
    /// One line of text for each preset, in order.
    pub preset_lines: Vec<String>,
    /// The index of the line to highlight.
    pub highlighted: usize,
    /// The key hints for the bottom line.
    pub help: &'static str,
}

/// Builds the list entry for one preset.
fn line_for(name: &str, duration: &str) -> (line: String)
    ensures
        line@ == preset_line(name@, duration@),
{
    let mut line = String::from_str(name);
    let mut width = name.unicode_len();
    proof {
        assert(line@ =~= name@ + spaces(0));
    }
    while width < NAME_WIDTH
        invariant
            name@.len() <= width,
            name@.len() < NAME_WIDTH ==> width <= NAME_WIDTH,
            name@.len() >= NAME_WIDTH ==> width == name@.len(),
            line@ == name@ + spaces((width - name@.len()) as nat),
        decreases NAME_WIDTH - width,
    {
        line.push(' ');
        proof {
            assert((name@ + spaces((width - name@.len()) as nat)).push(' ') =~= name@ + spaces(
                (width + 1 - name@.len()) as nat,
            ));
        }
        width += 1;
    }
    line.append(" (");
    line.append(duration);
    line.append(")");
    line
}

/// Lays out the dashboard: the typed text, one line per preset with the
/// highlight on the selected one, the active part, and the key hints that
/// go with it.
pub fn ui(app: &DashboardApp) -> (screen: DashboardScreen)
    ensures
        screen.input_text@ == app@.input,
        screen.focus == app@.focus,
        screen.preset_lines@.len() == app@.presets.len(),
        forall|i: int|
            0 <= i < app@.presets.len() ==> (#[trigger] screen.preset_lines@[i])@ == preset_line(
                app@.presets[i].0,
                app@.presets[i].1,
            ),
        screen.highlighted == app@.selected,
        screen.highlighted < screen.preset_lines@.len(),
        screen.help@ == help_text(app@.focus),
{
    let count = app.presets.len();
    let mut preset_lines: Vec<String> = Vec::new();
    let mut i: usize = 0;
    while i < count
        invariant
            i <= count,
            count == app@.presets.len(),
            preset_lines@.len() == i,
            forall|j: int|
                0 <= j < i ==> (#[trigger] preset_lines@[j])@ == preset_line(
                    app@.presets[j].0,
                    app@.presets[j].1,
                ),
        decreases count - i,
    {
        let entry = app.presets.entry(i);
        preset_lines.push(line_for(entry.0, entry.1));
        i += 1;
    }
    let help = match app.focus {
        Focus::Input => "Type duration (e.g. 10m) • <Enter> Start • <Tab> Presets",
        Focus::Presets => "↑/↓ Navigate • <Enter> Select • <Tab> Custom Input",
    };
    DashboardScreen {
        input_text: app.input_text.clone(),
        focus: app.focus,
        preset_lines,
        highlighted: app.presets.highlighted(),
        help,
    }
}

} // verus!
