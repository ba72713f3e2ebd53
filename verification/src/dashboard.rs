//! The dashboard: what a key does to it, and what it shows.

use vstd::prelude::*;
use vstd::string::StringExecFns;
use vstd::string::StrSliceExecFns;
use crate::tabs::{next_index, previous_index, App};
use crate::text::{append_decimal, decimal};
use crate::window::{visible_text, window};

verus! {

/// A key press, as far as the dashboard tells keys apart.
#[derive(Clone, Copy, Debug, PartialEq, Eq, Structural)]
pub enum Key {
    Left,
    Right,
    Char(char),
    Other,
}

/// Whether the dashboard goes on or winds down.
#[derive(Clone, Copy, Debug, PartialEq, Eq, Structural)]
pub enum Phase {
    Running,
    ShuttingDown,
}

/// The key that ends the run.
pub open spec fn is_quit(key: Key) -> bool {
    key == Key::Char('q')
}

/// The active tab after a key press: the arrows move it, nothing else does.
pub open spec fn index_after(index: int, count: int, key: Key) -> int {
    match key {
        Key::Right => next_index(index, count),
        Key::Left => previous_index(index, count),
        _ => index,
    }
}

/// The phase after a key press in the running dashboard.
pub open spec fn phase_after(key: Key) -> Phase {
    if is_quit(key) {
        Phase::ShuttingDown
    } else {
        Phase::Running
    }
}

/// Applies a key press: the arrows change the active tab, `q` asks for the
/// shutdown, and every other key is ignored.
pub fn handle_key(app: &mut App, key: Key) -> (phase: Phase)
    requires
        key is Right ==> old(app).titles.len() > 0 && old(app).index < usize::MAX,
        key is Left ==> old(app).index > 0 || old(app).titles.len() > 0,
    ensures
        phase == phase_after(key),
        final(app).titles == old(app).titles,
        final(app).index == index_after(
            old(app).index as int,
            old(app).titles.len() as int,
            key,
        ),
        old(app).wf() ==> final(app).wf(),
{
    match key {
        Key::Right => {
            app.next();
            Phase::Running
        },
        Key::Left => {
            app.previous();
            Phase::Running
        },
        Key::Char(c) => {
            if c == 'q' {
                Phase::ShuttingDown
            } else {
                Phase::Running
            }
        },
        Key::Other => Phase::Running,
    }
}

/// The title of node `i`'s tab and panel.
pub open spec fn node_title(i: usize) -> Seq<char> {
    "Node "@ + decimal(i as nat)
}

/// The title of node `i`'s tab and panel, as a string.
pub fn node_title_of(i: usize) -> (r: String)
    ensures
        r@ == node_title(i),
{
    let mut r = String::from_str("Node ");
    append_decimal(&mut r, i);
    r
}

/// The titles of the tabs of `node_count` nodes.
pub fn node_titles(node_count: usize) -> (r: Vec<String>)
    ensures
        r.len() == node_count,
        forall|i: int| 0 <= i < node_count ==> (#[trigger] r[i])@ == node_title(i as usize),
{
    let mut r: Vec<String> = Vec::new();
    let mut i: usize = 0;
    while i < node_count
        invariant
            i <= node_count,
            r.len() == i,
            forall|k: int| 0 <= k < i ==> (#[trigger] r[k])@ == node_title(k as usize),
        decreases node_count - i,
    {
        r.push(node_title_of(i));
        i += 1;
    }
    r
}

/// The panel that shows one node's log.
#[derive(Debug)]
pub struct LogPanel {
    pub title: String,
    pub text: String,
}

/// A tab's label in two parts, which are drawn in two colours.
#[derive(Debug)]
pub struct TabLabel {
    /// The first character of the title, or nothing if the title is empty.
    pub first: String,
    /// The title after its first character.
    pub rest: String,
}

impl DeepView for TabLabel {
    type V = (Seq<char>, Seq<char>);

    open spec fn deep_view(&self) -> (Seq<char>, Seq<char>) {
        (self.first@, self.rest@)
    }
}

/// What one frame shows: the tab bar and the panel of the active tab.
#[derive(Debug)]
pub struct Screen {
    pub tabs: Vec<TabLabel>,
    /// The index of the highlighted tab.
    pub selected: usize,
    pub panel: LogPanel,
}

/// A frame as a mathematical value.
pub ghost struct ScreenView {
    pub tabs: Seq<(Seq<char>, Seq<char>)>,
    pub selected: usize,
    pub panel_title: Seq<char>,
    pub panel_text: Seq<char>,
}

impl View for Screen {
    type V = ScreenView;

    open spec fn view(&self) -> ScreenView {
        ScreenView {
            tabs: self.tabs.deep_view(),
            selected: self.selected,
            panel_title: self.panel.title@,
            panel_text: self.panel.text@,
        }
    }
}

/// The two parts of a tab's title.
pub open spec fn title_parts(title: Seq<char>) -> (Seq<char>, Seq<char>) {
    if title.len() == 0 {
        (title, title)
    } else {
        (title.take(1), title.skip(1))
    }
}

/// The frame for a tab bar and the logs of its nodes.
pub open spec fn frame_of(titles: Seq<Seq<char>>, index: usize, logs: Seq<Seq<char>>) -> ScreenView {
    ScreenView {
        tabs: Seq::new(titles.len(), |i: int| title_parts(titles[i])),
        selected: index,
        panel_title: node_title(index),
        panel_text: visible_text(logs[index as int]),
    }
}

/// The panel of node `node_num`: its title and the window on its log.
pub fn view_log(line: String, node_num: usize) -> (r: LogPanel)
    ensures
        r.title@ == node_title(node_num),
        r.text@ == visible_text(line@),
{
    LogPanel { title: node_title_of(node_num), text: window(line) }
}

/// Splits a tab's title into its first character and the rest.
pub fn tab_label(title: &str) -> (r: TabLabel)
    ensures
        r.deep_view() == title_parts(title@),
{
    let len = title.unicode_len();
    if len == 0 {
        TabLabel { first: String::new(), rest: String::new() }
    } else {
        proof {
            assert(title@.subrange(0, 1) == title@.take(1));
            assert(title@.subrange(1, len as int) == title@.skip(1));
        }
        TabLabel {
            first: String::from_str(title.substring_char(0, 1)),
            rest: String::from_str(title.substring_char(1, len)),
        }
    }
}

/// Lays out one frame: a label per tab, the active tab highlighted, and below
/// them the window on the active node's log. The logs are only read.
pub fn ui(app: &App, logs: &[String]) -> (r: Screen)
    requires
        app.index < logs.len(),
    ensures
        r@ == frame_of(app.title_texts(), app.index, logs.deep_view()),
{
    let mut tabs: Vec<TabLabel> = Vec::new();
    let mut i: usize = 0;
    while i < app.titles.len()
        invariant
            i <= app.titles.len(),
            tabs.len() == i,
            forall|k: int|
                0 <= k < i ==> (#[trigger] tabs[k]).deep_view() == title_parts(app.titles[k]@),
        decreases app.titles.len() - i,
    {
        tabs.push(tab_label(app.titles[i]));
        i += 1;
    }
    let panel = view_log(logs[app.index].clone(), app.index);
    let r = Screen { tabs, selected: app.index, panel };
    proof {
        let want = frame_of(app.title_texts(), app.index, logs.deep_view());
        assert(r@.tabs =~= want.tabs);
        assert(logs.deep_view()[app.index as int] == logs[app.index as int]@);
    }
    r
}

} // verus!
