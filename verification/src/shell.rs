//! The shell: its tabs, its mode, and what each key does to them.
//!
//! The shell neither reads the terminal nor talks to the database. A key
//! press is handed in as a plain value; the shell changes its state and says
//! what is to be done outside: send a query, change the cursor's shape, quit.

use crate::editor::{Tab, TabView};
use crate::results::{QueryResult, QueryResultView};
use crate::text::{byte_len, char_boundary, char_start, decimal, push_decimal};
use vstd::prelude::*;

verus! {

/// The statement that lists the tables of a database.
pub const TABLES_QUERY: &'static str =
    "SELECT name FROM sqlite_master WHERE type = 'table' AND name NOT LIKE 'sqlite_%'";

/// Whether keys are commands or text.
#[derive(Debug, Clone, Copy, PartialEq, Eq, Structural)]
pub enum InputMode {
    Normal,
    Insert,
}

impl Default for InputMode {
    fn default() -> (mode: InputMode)
        ensures
            mode == InputMode::Normal,
    {
        InputMode::Normal
    }
}

impl InputMode {
    /// The label of the mode.
    pub open spec fn label(self) -> Seq<char> {
        match self {
            InputMode::Normal => " NORMAL "@,
            InputMode::Insert => " INSERT "@,
        }
    }

    /// The label that the top bar shows for the mode.
    pub fn to_text(&self) -> (text: String)
        ensures
            text@ == self.label(),
    {
        match self {
            InputMode::Normal => " NORMAL ".to_owned(),
            InputMode::Insert => " INSERT ".to_owned(),
        }
    }
}

/// The shape of the terminal's cursor.
#[derive(Debug, Clone, Copy, PartialEq, Eq, Structural)]
pub enum CursorShape {
    SteadyBlock,
    SteadyBar,
}

/// The shape that the cursor has in `mode`.
pub open spec fn shape_in(mode: InputMode) -> CursorShape {
    match mode {
        InputMode::Normal => CursorShape::SteadyBlock,
        InputMode::Insert => CursorShape::SteadyBar,
    }
}

/// What is asked of the database.
#[derive(Debug, Clone, PartialEq, Eq)]
pub enum Action {
    Query(String),
}

/// A key of the keyboard.
#[derive(Debug, Clone, Copy, PartialEq, Eq, Structural)]
pub enum Key {
    Char(char),
    Left,
    Right,
    Backspace,
    Enter,
    Esc,
    Other,
}

/// A key event: the key, whether Control and nothing else was held with it,
/// and whether the key went down.
#[derive(Debug, Clone, Copy, PartialEq, Eq, Structural)]
pub struct KeyPress {
    pub key: Key,
    pub control: bool,
    pub pressed: bool,
}

/// What a key asks for.
#[derive(Debug, Clone, Copy, PartialEq, Eq, Structural)]
pub enum Command {
    NewTab,
    DeleteTab,
    SubmitQuery,
    GetTables,
    PreviousTab,
    NextTab,
    EnterInsert,
    ToggleHelp,
    CloseHelp,
    AppendAtEnd,
    WordBack,
    WordForward,
    DeleteNextChar,
    AppendAfter,
    Quit,
    LineStart,
    LineEnd,
    ClearResults,
    CursorLeft,
    CursorRight,
    DeleteInput,
    Insert(char),
    DeleteLastChar,
    LeaveInsert,
    Ignore,
}

/// What is to be done outside the shell after a key.
#[derive(Debug, Clone, PartialEq, Eq)]
pub enum Effect {
    Nothing,
    Send(Action),
    SetCursor(CursorShape),
    Quit,
}

/// An `Effect` with its query as characters.
pub enum EffectView {
    Nothing,
    Query(Seq<char>),
    SetCursor(CursorShape),
    Quit,
}

impl View for Effect {
    type V = EffectView;

    open spec fn view(&self) -> EffectView {
        match self {
            Effect::Nothing => EffectView::Nothing,
            Effect::Send(Action::Query(sql)) => EffectView::Query(sql@),
            Effect::SetCursor(shape) => EffectView::SetCursor(*shape),
            Effect::Quit => EffectView::Quit,
        }
    }
}

/// What a character asks for in normal mode.
pub open spec fn normal_char_command(c: char, control: bool) -> Command {
    if control && c == 'n' {
        Command::NewTab
    } else if control && c == 'w' {
        Command::DeleteTab
    } else if control && c == 'r' {
        Command::SubmitQuery
    } else if control && c == 't' {
        Command::GetTables
    } else if c == 'H' {
        Command::PreviousTab
    } else if c == 'L' {
        Command::NextTab
    } else if c == 'i' {
        Command::EnterInsert
    } else if c == '?' {
        Command::ToggleHelp
    } else if c == 'A' {
        Command::AppendAtEnd
    } else if c == 'b' {
        Command::WordBack
    } else if c == 'w' {
        Command::WordForward
    } else if c == 'x' {
        Command::DeleteNextChar
    } else if c == 'a' {
        Command::AppendAfter
    } else if c == 'q' {
        Command::Quit
    } else if c == '0' {
        Command::LineStart
    } else if c == '$' {
        Command::LineEnd
    } else if c == 'c' {
        Command::ClearResults
    } else if c == 'h' {
        Command::CursorLeft
    } else if c == 'l' {
        Command::CursorRight
    } else if c == 'D' {
        Command::DeleteInput
    } else {
        Command::Ignore
    }
}

/// What a key asks for. In normal mode keys are commands, whether they go
/// down or up; Escape closes the help where it is open. In insert mode a key
/// that goes down is text or an edit, and any other event is ignored.
pub open spec fn command_of(mode: InputMode, show_help: bool, press: KeyPress) -> Command {
    match mode {
        InputMode::Normal => match press.key {
            Key::Char(c) => normal_char_command(c, press.control),
            Key::Esc => if show_help {
                Command::CloseHelp
            } else {
                Command::Ignore
            },
            Key::Left => Command::CursorLeft,
            Key::Right => Command::CursorRight,
            _ => Command::Ignore,
        },
        InputMode::Insert => if press.pressed {
            match press.key {
                Key::Char(c) => Command::Insert(c),
                Key::Left => Command::CursorLeft,
                Key::Right => Command::CursorRight,
                Key::Backspace => Command::DeleteLastChar,
                Key::Enter => Command::Insert('\n'),
                Key::Esc => Command::LeaveInsert,
                Key::Other => Command::Ignore,
            }
        } else {
            Command::Ignore
        },
    }
}

/// One line of the help: its text, and whether it is the heading of a mode.
#[derive(Debug, Clone)]
pub struct HelpLine {
    pub text: String,
    pub heading: bool,
}

impl View for HelpLine {
    type V = (Seq<char>, bool);

    open spec fn view(&self) -> (Seq<char>, bool) {
        (self.text@, self.heading)
    }
}

/// The help: the keys of each mode under the mode's heading.
pub open spec fn help_text() -> Seq<(Seq<char>, bool)> {
    seq![
        (" NORMAL mode"@, true),
        (" i      → insert mode"@, false),
        (" a      → append & insert mode"@, false),
        (" w / b  → next / previous word"@, false),
        (" h / l  → move cursor"@, false),
        (" x      → delete char"@, false),
        (" 0 / $  → begin / end of line"@, false),
        (" D      → clear query"@, false),
        (" c      → clear results"@, false),
        (" Ctrl-r → run query"@, false),
        (" Ctrl-n → new tab"@, false),
        (" Ctrl-w → close tab"@, false),
        (" Ctrl-t → list tables"@, false),
        (" H / L  → prev / next tab"@, false),
        (" q      → quit"@, false),
        (" ?      → toggle this help"@, false),
        (""@, false),
        (" Press Esc or ? to close"@, false),
        (""@, false),
        (" INSERT mode"@, true),
        (" Esc      → normal mode"@, false),
    ]
}

/// The views of the lines.
pub open spec fn help_views(lines: Seq<HelpLine>) -> Seq<(Seq<char>, bool)> {
    lines.map_values(|l: HelpLine| l@)
}

fn help_line(text: &str, heading: bool) -> (line: HelpLine)
    ensures
        line@ == (text@, heading),
{
    HelpLine { text: text.to_owned(), heading }
}

/// The title of the tab at position `i`.
pub open spec fn tab_title(i: int) -> Seq<char> {
    "Query "@ + decimal((i + 1) as nat)
}

/// The shell's state.
#[derive(Debug, Clone)]
pub struct App {
    pub url: String,
    pub input_mode: InputMode,
    pub tabs: Vec<Tab>,
    pub selected_tab: usize,
    pub show_help: bool,
}

/// An `App` with its texts as characters and its tabs as a sequence.
pub struct AppView {
    pub url: Seq<char>,
    pub input_mode: InputMode,
    pub tabs: Seq<TabView>,
    pub selected_tab: usize,
    pub show_help: bool,
}

/// Each tab by its view.
pub open spec fn tab_views(tabs: Seq<Tab>) -> Seq<TabView> {
    tabs.map_values(|t: Tab| t@)
}

impl View for App {
    type V = AppView;

    open spec fn view(&self) -> AppView {
        AppView {
            url: self.url@,
            input_mode: self.input_mode,
            tabs: tab_views(self.tabs@),
            selected_tab: self.selected_tab,
            show_help: self.show_help,
        }
    }
}

impl AppView {
    /// A tab is selected.
    pub open spec fn wf(self) -> bool {
        self.selected_tab < self.tabs.len()
    }

    /// The selected tab.
    pub open spec fn current(self) -> TabView {
        self.tabs[self.selected_tab as int]
    }

    /// The shell with `tab` in place of the selected tab.
    pub open spec fn with_current(self, tab: TabView) -> AppView {
        AppView { tabs: self.tabs.update(self.selected_tab as int, tab), ..self }
    }

    /// The shell in `mode`.
    pub open spec fn in_mode(self, mode: InputMode) -> AppView {
        AppView { input_mode: mode, ..self }
    }

    /// The tab to the left is selected, where there is one.
    pub open spec fn previous_tab(self) -> AppView {
        if self.selected_tab > 0 {
            AppView { selected_tab: (self.selected_tab - 1) as usize, ..self }
        } else {
            self
        }
    }

    /// The tab to the right is selected, where there is one.
    pub open spec fn next_tab(self) -> AppView {
        if self.selected_tab + 1 < self.tabs.len() {
            AppView { selected_tab: (self.selected_tab + 1) as usize, ..self }
        } else {
            self
        }
    }

    /// An empty tab is added behind the others, titled by its position, and
    /// selected.
    pub open spec fn new_tab(self) -> AppView {
        AppView {
            tabs: self.tabs.push(
                TabView {
                    name: tab_title(self.tabs.len() as int),
                    input: Seq::empty(),
                    char_index: 0,
                    query_result: QueryResultView::Empty,
                },
            ),
            selected_tab: self.tabs.len() as usize,
            ..self
        }
    }

    /// Every tab is titled by its position.
    pub open spec fn retitled(self) -> AppView {
        AppView {
            tabs: Seq::new(self.tabs.len(), |i: int| self.tabs[i].titled(tab_title(i))),
            ..self
        }
    }

    /// The selected tab is closed, unless it is the only one, and the tabs
    /// are titled anew. The selection moves one tab left; from the first tab
    /// it moves to the second position, which holds a tab only where three
    /// or more were open.
    pub open spec fn delete_tab(self) -> AppView {
        if self.tabs.len() == 1 {
            self
        } else {
            (AppView {
                tabs: self.tabs.remove(self.selected_tab as int),
                selected_tab: if self.selected_tab == 0 {
                    1
                } else {
                    (self.selected_tab - 1) as usize
                },
                ..self
            }).retitled()
        }
    }

    /// Whether `command` can be carried out: a tab is selected, and the edit,
    /// if it is one, finds the cursor where a character can be put in or
    /// taken out.
    pub open spec fn accepts(self, command: Command) -> bool {
        match command {
            Command::NewTab => self.tabs.len() < usize::MAX,
            Command::PreviousTab | Command::NextTab | Command::EnterInsert | Command::ToggleHelp
            | Command::CloseHelp | Command::Quit | Command::GetTables | Command::Ignore => true,
            Command::LineEnd => self.wf() && byte_len(self.current().input) > 0,
            Command::WordBack => self.wf() && self.current().char_index
                <= self.current().input.len(),
            Command::DeleteNextChar => self.wf() && (self.current().char_index < byte_len(
                self.current().input,
            ) ==> char_boundary(self.current().input, self.current().char_index as int)),
            Command::Insert(_) => self.wf() && char_boundary(
                self.current().input,
                self.current().char_index as int,
            ) && self.current().char_index < usize::MAX,
            Command::DeleteLastChar => self.wf() && (self.current().char_index > 0 ==> char_start(
                self.current().input,
                self.current().char_index - 1,
            )),
            _ => self.wf(),
        }
    }

    /// The shell once `command` has been carried out.
    pub open spec fn after(self, command: Command) -> AppView {
        match command {
            Command::NewTab => self.new_tab(),
            Command::DeleteTab => self.delete_tab(),
            Command::SubmitQuery => self,
            Command::GetTables => self,
            Command::PreviousTab => self.previous_tab(),
            Command::NextTab => self.next_tab(),
            Command::EnterInsert => self.in_mode(InputMode::Insert),
            Command::ToggleHelp => AppView { show_help: !self.show_help, ..self },
            Command::CloseHelp => AppView { show_help: false, ..self },
            Command::AppendAtEnd => self.in_mode(InputMode::Insert).with_current(
                self.current().cursor_to_end(),
            ),
            Command::WordBack => self.with_current(self.current().moved_last()),
            Command::WordForward => self.with_current(self.current().moved_next()),
            Command::DeleteNextChar => self.with_current(self.current().next_char_deleted()),
            Command::AppendAfter => self.in_mode(InputMode::Insert).with_current(
                self.current().cursor_after(),
            ),
            Command::Quit => self,
            Command::LineStart => self.with_current(self.current().cursor_to_start()),
            Command::LineEnd => self.with_current(self.current().cursor_to_last()),
            Command::ClearResults => self.with_current(
                self.current().showing(QueryResultView::Empty),
            ),
            Command::CursorLeft => self.with_current(self.current().cursor_left()),
            Command::CursorRight => self.with_current(self.current().cursor_right()),
            Command::DeleteInput => self.with_current(self.current().input_deleted()),
            Command::Insert(c) => self.with_current(self.current().char_appended(c)),
            Command::DeleteLastChar => self.with_current(self.current().last_char_deleted()),
            Command::LeaveInsert => self.in_mode(InputMode::Normal).with_current(
                self.current().cursor_back(),
            ),
            Command::Ignore => self,
        }
    }

    /// What is to be done outside the shell for `command`.
    pub open spec fn effect_of(self, command: Command) -> EffectView {
        match command {
            Command::SubmitQuery => if self.current().input.len() == 0 {
                EffectView::Nothing
            } else {
                EffectView::Query(self.current().input)
            },
            Command::GetTables => EffectView::Query(TABLES_QUERY@),
            Command::EnterInsert | Command::AppendAtEnd | Command::AppendAfter => {
                EffectView::SetCursor(CursorShape::SteadyBar)
            },
            Command::LeaveInsert => EffectView::SetCursor(CursorShape::SteadyBlock),
            Command::Quit => EffectView::Quit,
            _ => EffectView::Nothing,
        }
    }
}

proof fn lemma_tab_replaced(before: Seq<Tab>, after: Seq<Tab>, i: int)
    requires
        0 <= i < before.len(),
        after == before.update(i, after[i]),
    ensures
        tab_views(after) == tab_views(before).update(i, after[i]@),
{
    assert(tab_views(before.update(i, after[i])) =~= tab_views(before).update(i, after[i]@));
}

/// What a character asks for in normal mode.
fn normal_char(c: char, control: bool) -> (command: Command)
    ensures
        command == normal_char_command(c, control),
{
    if control && c == 'n' {
        Command::NewTab
    } else if control && c == 'w' {
        Command::DeleteTab
    } else if control && c == 'r' {
        Command::SubmitQuery
    } else if control && c == 't' {
        Command::GetTables
    } else if c == 'H' {
        Command::PreviousTab
    } else if c == 'L' {
        Command::NextTab
    } else if c == 'i' {
        Command::EnterInsert
    } else if c == '?' {
        Command::ToggleHelp
    } else if c == 'A' {
        Command::AppendAtEnd
    } else if c == 'b' {
        Command::WordBack
    } else if c == 'w' {
        Command::WordForward
    } else if c == 'x' {
        Command::DeleteNextChar
    } else if c == 'a' {
        Command::AppendAfter
    } else if c == 'q' {
        Command::Quit
    } else if c == '0' {
        Command::LineStart
    } else if c == '$' {
        Command::LineEnd
    } else if c == 'c' {
        Command::ClearResults
    } else if c == 'h' {
        Command::CursorLeft
    } else if c == 'l' {
        Command::CursorRight
    } else if c == 'D' {
        Command::DeleteInput
    } else {
        Command::Ignore
    }
}

/// The title of the tab at position `i`.
fn title_of(i: usize) -> (title: String)
    requires
        i < usize::MAX,
    ensures
        title@ == tab_title(i as int),
{
    let mut title = "Query ".to_owned();
    push_decimal(&mut title, (i + 1) as u64);
    title
}

impl App {
    /// A shell connected to `url`, in normal mode, with one empty tab.
    pub fn new(url: String) -> (app: App)
        ensures
            app@ == (AppView {
                url: url@,
                input_mode: InputMode::Normal,
                tabs: Seq::<TabView>::empty(),
                selected_tab: 0,
                show_help: false,
            }).new_tab(),
    {
        let mut app = App {
            url,
            input_mode: InputMode::Normal,
            tabs: Vec::new(),
            selected_tab: 0,
            show_help: false,
        };
        assert(tab_views(app.tabs@) =~= Seq::<TabView>::empty());
        app.new_tab();
        app
    }

    /// Whether a character belongs to words.
    pub fn is_word_char(c: char) -> (yes: bool)
        ensures
            yes == crate::motion::word_char(c),
    {
        crate::motion::is_word_char(c)
    }

    /// The lines of the help.
    pub fn help_lines() -> (lines: Vec<HelpLine>)
        ensures
            help_views(lines@) == help_text(),
    {
        let mut lines: Vec<HelpLine> = Vec::new();
        lines.push(help_line(" NORMAL mode", true));
        lines.push(help_line(" i      → insert mode", false));
        lines.push(help_line(" a      → append & insert mode", false));
        lines.push(help_line(" w / b  → next / previous word", false));
        lines.push(help_line(" h / l  → move cursor", false));
        lines.push(help_line(" x      → delete char", false));
        lines.push(help_line(" 0 / $  → begin / end of line", false));
        lines.push(help_line(" D      → clear query", false));
        lines.push(help_line(" c      → clear results", false));
        lines.push(help_line(" Ctrl-r → run query", false));
        lines.push(help_line(" Ctrl-n → new tab", false));
        lines.push(help_line(" Ctrl-w → close tab", false));
        lines.push(help_line(" Ctrl-t → list tables", false));
        lines.push(help_line(" H / L  → prev / next tab", false));
        lines.push(help_line(" q      → quit", false));
        lines.push(help_line(" ?      → toggle this help", false));
        lines.push(help_line("", false));
        lines.push(help_line(" Press Esc or ? to close", false));
        lines.push(help_line("", false));
        lines.push(help_line(" INSERT mode", true));
        lines.push(help_line(" Esc      → normal mode", false));
        assert(help_views(lines@) =~= help_text());
        lines
    }

    /// The shape of the cursor in the shell's mode.
    pub fn cursor_shape(&self) -> (shape: CursorShape)
        ensures
            shape == shape_in(self.input_mode),
    {
        match self.input_mode {
            InputMode::Normal => CursorShape::SteadyBlock,
            InputMode::Insert => CursorShape::SteadyBar,
        }
    }

    /// The query that lists the tables.
    pub fn get_tables(&self) -> (action: Action)
        ensures
            action matches Action::Query(sql) && sql@ == TABLES_QUERY@,
    {
        Action::Query(TABLES_QUERY.to_owned())
    }

    /// The query of the selected tab, unless it is empty.
    pub fn submit_query(&self) -> (action: Option<Action>)
        requires
            self@.wf(),
        ensures
            match action {
                Some(Action::Query(sql)) => self@.current().input.len() != 0 && sql@
                    == self@.current().input,
                None => self@.current().input.len() == 0,
            },
    {
        let selected_tab = &self.tabs[self.selected_tab];
        if selected_tab.input.as_str().is_empty() {
            return None;
        }
        Some(Action::Query(selected_tab.input.clone()))
    }

    /// Shows `result` in the selected tab.
    pub fn show_result(&mut self, result: QueryResult)
        requires
            old(self)@.wf(),
        ensures
            final(self)@ == old(self)@.with_current(old(self)@.current().showing(result@)),
    {
        let ghost before = self.tabs@;
        self.tabs[self.selected_tab].query_result = result;
        proof {
            lemma_tab_replaced(before, self.tabs@, self.selected_tab as int);
        }
    }

    /// Selects the tab to the left.
    pub fn previous_tab(&mut self)
        ensures
            final(self)@ == old(self)@.previous_tab(),
    {
        if self.selected_tab > 0 {
            self.selected_tab -= 1;
        }
    }

    /// Selects the tab to the right.
    pub fn next_tab(&mut self)
        ensures
            final(self)@ == old(self)@.next_tab(),
    {
        let open = self.tabs.len();
        if self.selected_tab < open && self.selected_tab + 1 < open {
            self.selected_tab += 1;
        }
    }

    /// Opens an empty tab behind the others and selects it.
    pub fn new_tab(&mut self)
        requires
            old(self).tabs@.len() < usize::MAX,
        ensures
            final(self)@ == old(self)@.new_tab(),
    {
        let name = title_of(self.tabs.len());
        self.tabs.push(Tab::new(name));
        self.selected_tab = self.tabs.len() - 1;
        assert(tab_views(self.tabs@) =~= old(self)@.new_tab().tabs);
    }

    /// Closes the selected tab, unless it is the only one.
    pub fn delete_tab(&mut self)
        requires
            old(self)@.wf(),
        ensures
            final(self)@ == old(self)@.delete_tab(),
    {
        if self.tabs.len() == 1 {
            return ;
        }
        let _ = self.tabs.remove(self.selected_tab);
        assert(tab_views(self.tabs@) =~= old(self)@.tabs.remove(old(self).selected_tab as int));
        if self.selected_tab == 0 {
            self.selected_tab += 1;
        } else {
            self.selected_tab -= 1;
        }
        self.update_tabs();
    }

    /// Titles every tab by its position.
    pub fn update_tabs(&mut self)
        ensures
            final(self)@ == old(self)@.retitled(),
    {
        let mut i: usize = 0;
        while i < self.tabs.len()
            invariant
                i <= self.tabs@.len(),
                self.tabs@.len() == old(self).tabs@.len(),
                self.url == old(self).url,
                self.input_mode == old(self).input_mode,
                self.selected_tab == old(self).selected_tab,
                self.show_help == old(self).show_help,
                forall|j: int|
                    0 <= j < i ==> (#[trigger] self.tabs@[j])@ == old(self).tabs@[j]@.titled(
                        tab_title(j),
                    ),
                forall|j: int|
                    i <= j < self.tabs@.len() ==> #[trigger] self.tabs@[j] == old(self).tabs@[j],
            decreases self.tabs@.len() - i,
        {
            self.tabs[i].name = title_of(i);
            i += 1;
        }
        assert(tab_views(self.tabs@) =~= old(self)@.retitled().tabs);
    }

    /// Clears what the selected tab shows.
    pub fn clear_results(&mut self)
        requires
            old(self)@.wf(),
        ensures
            final(self)@ == old(self)@.with_current(
                old(self)@.current().showing(QueryResultView::Empty),
            ),
    {
        self.show_result(QueryResult::Empty);
    }

    /// Empties the query of the selected tab.
    pub fn delete_input(&mut self)
        requires
            old(self)@.wf(),
        ensures
            final(self)@ == old(self)@.after(Command::DeleteInput),
    {
        let ghost before = self.tabs@;
        self.tabs[self.selected_tab].delete_input();
        proof {
            lemma_tab_replaced(before, self.tabs@, self.selected_tab as int);
        }
    }

    /// Puts `c` into the query of the selected tab at its cursor.
    pub fn append_char(&mut self, c: char)
        requires
            old(self)@.accepts(Command::Insert(c)),
        ensures
            final(self)@ == old(self)@.after(Command::Insert(c)),
    {
        let ghost before = self.tabs@;
        self.tabs[self.selected_tab].append_char(c);
        proof {
            lemma_tab_replaced(before, self.tabs@, self.selected_tab as int);
        }
    }

    /// Takes out the character left of the cursor of the selected tab.
    pub fn delete_last_char(&mut self)
        requires
            old(self)@.accepts(Command::DeleteLastChar),
        ensures
            final(self)@ == old(self)@.after(Command::DeleteLastChar),
    {
        let ghost before = self.tabs@;
        self.tabs[self.selected_tab].delete_last_char();
        proof {
            lemma_tab_replaced(before, self.tabs@, self.selected_tab as int);
        }
    }

    /// Takes out the character under the cursor of the selected tab.
    pub fn delete_next_char(&mut self)
        requires
            old(self)@.accepts(Command::DeleteNextChar),
        ensures
            final(self)@ == old(self)@.after(Command::DeleteNextChar),
    {
        let ghost before = self.tabs@;
        self.tabs[self.selected_tab].delete_next_char();
        proof {
            lemma_tab_replaced(before, self.tabs@, self.selected_tab as int);
        }
    }

    /// Moves the cursor of the selected tab one position left.
    pub fn move_cursor_left(&mut self)
        requires
            old(self)@.wf(),
        ensures
            final(self)@ == old(self)@.after(Command::CursorLeft),
    {
        let ghost before = self.tabs@;
        self.tabs[self.selected_tab].move_cursor_left();
        proof {
            lemma_tab_replaced(before, self.tabs@, self.selected_tab as int);
        }
    }

    /// Moves the cursor of the selected tab one position right.
    pub fn move_cursor_right(&mut self)
        requires
            old(self)@.wf(),
        ensures
            final(self)@ == old(self)@.after(Command::CursorRight),
    {
        let ghost before = self.tabs@;
        self.tabs[self.selected_tab].move_cursor_right();
        proof {
            lemma_tab_replaced(before, self.tabs@, self.selected_tab as int);
        }
    }

    /// Moves the cursor of the selected tab a word forwards.
    pub fn move_next(&mut self)
        requires
            old(self)@.wf(),
        ensures
            final(self)@ == old(self)@.after(Command::WordForward),
    {
        let ghost before = self.tabs@;
        self.tabs[self.selected_tab].move_next();
        proof {
            lemma_tab_replaced(before, self.tabs@, self.selected_tab as int);
        }
    }

    /// Moves the cursor of the selected tab a word back.
    pub fn move_last(&mut self)
        requires
            old(self)@.accepts(Command::WordBack),
        ensures
            final(self)@ == old(self)@.after(Command::WordBack),
    {
        let ghost before = self.tabs@;
        self.tabs[self.selected_tab].move_last();
        proof {
            lemma_tab_replaced(before, self.tabs@, self.selected_tab as int);
        }
    }

    /// What `press` asks for in the shell's mode.
    pub fn command_for(&self, press: KeyPress) -> (command: Command)
        ensures
            command == command_of(self.input_mode, self.show_help, press),
    {
        match self.input_mode {
            InputMode::Normal => match press.key {
                Key::Char(c) => normal_char(c, press.control),
                Key::Esc => if self.show_help {
                    Command::CloseHelp
                } else {
                    Command::Ignore
                },
                Key::Left => Command::CursorLeft,
                Key::Right => Command::CursorRight,
                _ => Command::Ignore,
            },
            InputMode::Insert => if press.pressed {
                match press.key {
                    Key::Char(c) => Command::Insert(c),
                    Key::Left => Command::CursorLeft,
                    Key::Right => Command::CursorRight,
                    Key::Backspace => Command::DeleteLastChar,
                    Key::Enter => Command::Insert('\n'),
                    Key::Esc => Command::LeaveInsert,
                    Key::Other => Command::Ignore,
                }
            } else {
                Command::Ignore
            },
        }
    }

    /// Whether `command` can be carried out.
    pub fn can_execute(&self, command: Command) -> (ok: bool)
        ensures
            ok == self@.accepts(command),
    {
        let selected = self.selected_tab < self.tabs.len();
        match command {
            Command::NewTab => self.tabs.len() < usize::MAX,
            Command::PreviousTab | Command::NextTab | Command::EnterInsert | Command::ToggleHelp
            | Command::CloseHelp | Command::Quit | Command::GetTables | Command::Ignore => true,
            Command::LineEnd => selected && self.tabs[self.selected_tab].input_len() > 0,
            Command::WordBack => selected && {
                let tab = &self.tabs[self.selected_tab];
                tab.char_index <= tab.input.as_str().unicode_len()
            },
            Command::DeleteNextChar => selected && {
                let tab = &self.tabs[self.selected_tab];
                tab.char_index >= tab.input_len() || tab.input.as_str().is_char_boundary(
                    tab.char_index,
                )
            },
            Command::Insert(_) => selected && self.tabs[self.selected_tab].can_insert(),
            Command::DeleteLastChar => selected && {
                let tab = &self.tabs[self.selected_tab];
                tab.char_index == 0 || tab.char_starts_at(tab.char_index - 1)
            },
            _ => selected,
        }
    }

    /// Carries out `command` and says what is to be done outside.
    pub fn execute(&mut self, command: Command) -> (effect: Effect)
        requires
            old(self)@.accepts(command),
        ensures
            final(self)@ == old(self)@.after(command),
            effect@ == old(self)@.effect_of(command),
    {
        let ghost before = self.tabs@;
        match command {
            Command::NewTab => {
                self.new_tab();
                Effect::Nothing
            },
            Command::DeleteTab => {
                self.delete_tab();
                Effect::Nothing
            },
            Command::SubmitQuery => match self.submit_query() {
                Some(action) => Effect::Send(action),
                None => Effect::Nothing,
            },
            Command::GetTables => Effect::Send(self.get_tables()),
            Command::PreviousTab => {
                self.previous_tab();
                Effect::Nothing
            },
            Command::NextTab => {
                self.next_tab();
                Effect::Nothing
            },
            Command::EnterInsert => {
                self.input_mode = InputMode::Insert;
                Effect::SetCursor(self.cursor_shape())
            },
            Command::ToggleHelp => {
                self.show_help = !self.show_help;
                Effect::Nothing
            },
            Command::CloseHelp => {
                self.show_help = false;
                Effect::Nothing
            },
            Command::AppendAtEnd => {
                self.input_mode = InputMode::Insert;
                self.tabs[self.selected_tab].move_to_end();
                proof {
                    lemma_tab_replaced(before, self.tabs@, self.selected_tab as int);
                }
                Effect::SetCursor(self.cursor_shape())
            },
            Command::WordBack => {
                self.move_last();
                Effect::Nothing
            },
            Command::WordForward => {
                self.move_next();
                Effect::Nothing
            },
            Command::DeleteNextChar => {
                self.delete_next_char();
                Effect::Nothing
            },
            Command::AppendAfter => {
                self.input_mode = InputMode::Insert;
                self.tabs[self.selected_tab].move_after();
                proof {
                    lemma_tab_replaced(before, self.tabs@, self.selected_tab as int);
                }
                Effect::SetCursor(self.cursor_shape())
            },
            Command::Quit => Effect::Quit,
            Command::LineStart => {
                self.tabs[self.selected_tab].move_to_start();
                proof {
                    lemma_tab_replaced(before, self.tabs@, self.selected_tab as int);
                }
                Effect::Nothing
            },
            Command::LineEnd => {
                self.tabs[self.selected_tab].move_to_last();
                proof {
                    lemma_tab_replaced(before, self.tabs@, self.selected_tab as int);
                }
                Effect::Nothing
            },
            Command::ClearResults => {
                self.clear_results();
                Effect::Nothing
            },
            Command::CursorLeft => {
                self.move_cursor_left();
                Effect::Nothing
            },
            Command::CursorRight => {
                self.move_cursor_right();
                Effect::Nothing
            },
            Command::DeleteInput => {
                self.delete_input();
                Effect::Nothing
            },
            Command::Insert(c) => {
                self.append_char(c);
                Effect::Nothing
            },
            Command::DeleteLastChar => {
                self.delete_last_char();
                Effect::Nothing
            },
            Command::LeaveInsert => {
                self.input_mode = InputMode::Normal;
                self.tabs[self.selected_tab].move_back();
                proof {
                    lemma_tab_replaced(before, self.tabs@, self.selected_tab as int);
                }
                Effect::SetCursor(self.cursor_shape())
            },
            Command::Ignore => Effect::Nothing,
        }
    }

    /// Handles a key: finds what it asks for in the shell's mode and carries
    /// that out.
    pub fn handle_key(&mut self, press: KeyPress) -> (effect: Effect)
        requires
            old(self)@.accepts(command_of(old(self).input_mode, old(self).show_help, press)),
        ensures
            final(self)@ == old(self)@.after(
                command_of(old(self).input_mode, old(self).show_help, press),
            ),
            effect@ == old(self)@.effect_of(
                command_of(old(self).input_mode, old(self).show_help, press),
            ),
    {
        let command = self.command_for(press);
        self.execute(command)
    }
}

} // verus!
