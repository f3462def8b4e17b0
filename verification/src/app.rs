//! The state of the terminal application.
//!
//! Everything the event loop owns and mutates lives here as plain data:
//! the table of fetched entries with its selection and scrollbar, which
//! screen and panel are active, the shared response buffer, and the
//! in-flight spinner flag.  Rendering widgets, task handles and channels
//! are the host program's business; it mirrors this state into them.

use vstd::prelude::*;

use crate::model::{BugTaskEntry, LaunchpadBug, Timestamp};
use crate::text::spec_trailing_id;

verus! {

/// How many spinner labels the bottom bar cycles through.
pub const SPINNER_LABEL_COUNT: usize = 5;

/// Which screen is shown.
#[derive(Debug, Clone, Copy, PartialEq, Eq, Structural)]
pub enum Screen {
    BugList,
    BugEditing,
}

/// Which panel of the current screen has focus.
#[derive(Debug, Clone, Copy, PartialEq, Eq, Structural)]
pub enum ActivePanel {
    Left,
    Right,
}

/// One row of the table as the list screen shows it: the extracted id,
/// the creation date, and the bare title.
#[derive(Debug, Clone, PartialEq, Eq)]
pub struct Bug {
    pub bug_id: u32,
    pub date: String,
    pub title: String,
    pub description: String,
}

/// What the event loop's host should do after a key was routed: spawn a
/// fetch, open a URL, hand a buffer to the external editor, send a prompt
/// to the chat task, quit, or nothing.
#[derive(Debug, PartialEq, Eq)]
pub enum UiAction {
    /// Nothing to do.
    Idle,
    Quit,
    /// Spawn a record-list fetch for this project.
    FetchBugs(String),
    /// Spawn a single-record fetch for this id.
    FetchBug(u32),
    /// Open this URL in the browser.
    OpenUrl(String),
    /// Spawn an AI request with this prompt text.
    AskAi(String),
    /// Hand the response buffer to the external editor.
    EditDescription(String),
    /// Hand the reply buffer to the external editor.
    EditReply(String),
    /// Send the response buffer to the chat task, prefixed with the
    /// review template.
    SendPromptWithTemplate(String),
    /// Send the reply buffer to the chat task as it stands.
    SendReply(String),
}

/// Names what the title pattern captures from an entry's title: the
/// number after the hash mark and the quoted bare title, when the title
/// has that shape; the same title always captures the same way.
pub uninterp spec fn spec_title_capture(t: Seq<char>) -> Option<(Seq<char>, Seq<char>)>;

/// Relies on the regex crate (`Regex::new`, `Regex::captures` and the
/// capture-group index) with the fixed pattern
/// `#(\d+).*?OpenStack Compute \(nova\):\s+"([^"]+)"`: the two groups are
/// a function of the title text alone.
#[verifier::external_body]
fn capture_id_title(title: &str) -> (r: Option<(String, String)>)
    ensures
        match (r, spec_title_capture(title@)) {
            (Some(p), Some(q)) => p.0@ == q.0 && p.1@ == q.1,
            (None, None) => true,
            _ => false,
        },
{
    let re = match regex::Regex::new("#(\\d+).*?OpenStack Compute \\(nova\\):\\s+\"([^\"]+)\"") {
        Ok(re) => re,
        Err(_) => return None,
    };
    re.captures(title).map(|caps| (caps[1].to_string(), caps[2].to_string()))
}

/// Names chrono's plain-date rendering of a moment: the same microsecond
/// count always renders the same way.
pub uninterp spec fn spec_date_string(micros: int) -> Seq<char>;

/// Relies on chrono's `DateTime::from_timestamp_micros`,
/// `DateTime::date_naive` and the date's `Display`; the result is a
/// function of the microsecond count alone.
#[verifier::external_body]
fn format_date(ts: &Timestamp) -> (r: String)
    ensures
        r@ == spec_date_string(ts.micros as int),
{
    match chrono::DateTime::<chrono::Utc>::from_timestamp_micros(ts.micros) {
        Some(dt) => dt.date_naive().to_string(),
        None => String::new(),
    }
}

/// The table row for one entry: the id and bare title the title pattern
/// captures (empty when the title has another shape), and the creation
/// date rendered as a plain date, empty when the entry carries none.
pub fn bug_row(entry: &BugTaskEntry) -> (r: Bug)
    ensures
        (match entry.date_created {
            Option::Some(ts) => r.date@ == spec_date_string(ts.micros as int),
            Option::None => r.date@ == Seq::<char>::empty(),
        }),
        r.description@ == Seq::<char>::empty(),
        (match spec_title_capture(entry.title@) {
            Option::Some(q) => r.title@ == q.1 && r.bug_id == (match spec_trailing_id(q.0) {
                Option::Some(n) => n,
                Option::None => 0u32,
            }),
            Option::None => r.title@ == Seq::<char>::empty() && r.bug_id == 0u32,
        }),
{
    let date = match &entry.date_created {
        Some(ts) => format_date(ts),
        None => String::new(),
    };
    match capture_id_title(entry.title.as_str()) {
        Some(p) => {
            let (id_text, title) = p;
            let bug_id = match crate::text::trailing_id(id_text.as_str()) {
                Some(n) => n,
                None => 0,
            };
            Bug { bug_id, date, title, description: String::new() }
        },
        None => Bug { bug_id: 0, date, title: String::new(), description: String::new() },
    }
}

/// The state of the terminal application.
#[derive(Debug)]
pub struct App {
    /// The fetched task entries, in the order the table shows them.
    pub bug_table_items: Vec<BugTaskEntry>,
    /// The selected row, if any.
    pub bug_table_selected: Option<usize>,
    /// The scrollbar thumb position.
    pub bug_table_scroll_position: usize,
    /// The scrollbar content length.
    pub bug_table_content_length: usize,
    pub active_panel: ActivePanel,
    pub current_screen: Screen,
    pub bug_desc_scroll: u16,
    pub bug_desc_scroll_to_end: bool,
    /// The record shown in the description panel, once one was fetched.
    pub current_bug: Option<LaunchpadBug>,
    /// Whether a background operation is in flight (also toggled by hand).
    pub spinner_enabled: bool,
    /// Which spinner label the bottom bar shows.
    pub spinner_label_index: usize,
    /// The shared buffer: the description, the AI's answer, or whatever
    /// the editor last saved.
    pub response_text: String,
    /// The reply being drafted on the editing screen.
    pub bug_reply_text: String,
}

impl App {
    /// A fresh application: empty table, nothing selected, list screen,
    /// left panel, spinner off.
    pub fn new() -> (app: App)
        ensures
            app.bug_table_items@.len() == 0,
            app.bug_table_selected is None,
            app.bug_table_scroll_position == 0,
            app.bug_table_content_length == 0,
            app.active_panel == ActivePanel::Left,
            app.current_screen == Screen::BugList,
            app.bug_desc_scroll == 0,
            app.bug_desc_scroll_to_end == false,
            app.current_bug is None,
            app.spinner_enabled == false,
            app.spinner_label_index == 0,
            app.response_text@ == "Loading response from Gemini..."@,
            app.bug_reply_text@ == "No bug replied yet."@,
    {
        App {
            bug_table_items: Vec::new(),
            bug_table_selected: None,
            bug_table_scroll_position: 0,
            bug_table_content_length: 0,
            active_panel: ActivePanel::Left,
            current_screen: Screen::BugList,
            bug_desc_scroll: 0,
            bug_desc_scroll_to_end: false,
            current_bug: None,
            spinner_enabled: false,
            spinner_label_index: 0,
            response_text: String::from_str("Loading response from Gemini..."),
            bug_reply_text: String::from_str("No bug replied yet."),
        }
    }

    /// Moves the selection up, wrapping to the last row from the first;
    /// with no selection it lands on the first row.
    pub fn bug_table_previous_item(&mut self)
        requires
            old(self).bug_table_selected == Some(0usize) ==> old(self).bug_table_items@.len() > 0,
        ensures
            ({
                let n = old(self).bug_table_items@.len();
                let i: usize = match old(self).bug_table_selected {
                    Option::Some(i) => if i == 0 {
                        (n - 1) as usize
                    } else {
                        (i - 1) as usize
                    },
                    Option::None => 0usize,
                };
                *final(self) == (App {
                    bug_table_selected: Some(i),
                    bug_table_scroll_position: i,
                    ..*old(self)
                })
            }),
    {
        let i = match self.bug_table_selected {
            Some(i) => if i == 0 {
                self.bug_table_items.len() - 1
            } else {
                i - 1
            },
            None => 0,
        };
        self.bug_table_selected = Some(i);
        self.bug_table_scroll_position = i;
    }

    /// Moves the selection down, wrapping to the first row from the last;
    /// with no selection it lands on the first row.
    pub fn bug_table_next_item(&mut self)
        requires
            old(self).bug_table_selected is Some ==> old(self).bug_table_items@.len() > 0,
        ensures
            ({
                let n = old(self).bug_table_items@.len();
                let i: usize = match old(self).bug_table_selected {
                    Option::Some(i) => if i + 1 >= n {
                        0usize
                    } else {
                        (i + 1) as usize
                    },
                    Option::None => 0usize,
                };
                *final(self) == (App {
                    bug_table_selected: Some(i),
                    bug_table_scroll_position: i,
                    ..*old(self)
                })
            }),
    {
        let i = match self.bug_table_selected {
            Some(i) => if i >= self.bug_table_items.len() - 1 {
                0
            } else {
                i + 1
            },
            None => 0,
        };
        self.bug_table_selected = Some(i);
        self.bug_table_scroll_position = i;
    }

    /// Moves the selection ten rows up, stopping at the first.
    pub fn bug_table_page_up_item(&mut self)
        ensures
            ({
                let i: usize = match old(self).bug_table_selected {
                    Option::Some(i) => if i >= 10 {
                        (i - 10) as usize
                    } else {
                        0usize
                    },
                    Option::None => 0usize,
                };
                *final(self) == (App {
                    bug_table_selected: Some(i),
                    bug_table_scroll_position: i,
                    ..*old(self)
                })
            }),
    {
        let i = match self.bug_table_selected {
            Some(i) => if i >= 10 {
                i - 10
            } else {
                0
            },
            None => 0,
        };
        self.bug_table_selected = Some(i);
        self.bug_table_scroll_position = i;
    }

    /// Moves the selection ten rows down, stopping at the last.
    pub fn bug_table_page_down_item(&mut self)
        requires
            old(self).bug_table_selected matches Some(i) ==> (old(self).bug_table_items@.len() > 0
                && i + 10 <= usize::MAX),
        ensures
            ({
                let n = old(self).bug_table_items@.len();
                let i: usize = match old(self).bug_table_selected {
                    Option::Some(i) => if i + 10 < n - 1 {
                        (i + 10) as usize
                    } else {
                        (n - 1) as usize
                    },
                    Option::None => 0usize,
                };
                *final(self) == (App {
                    bug_table_selected: Some(i),
                    bug_table_scroll_position: i,
                    ..*old(self)
                })
            }),
    {
        let i = match self.bug_table_selected {
            Some(i) => {
                let t = i + 10;
                let last = self.bug_table_items.len() - 1;
                if t < last {
                    t
                } else {
                    last
                }
            },
            None => 0,
        };
        self.bug_table_selected = Some(i);
        self.bug_table_scroll_position = i;
    }

    /// Moves the selection to the first row.
    pub fn bug_table_go_to_start(&mut self)
        ensures
            *final(self) == (App {
                bug_table_selected: Some(0usize),
                bug_table_scroll_position: 0usize,
                ..*old(self)
            }),
    {
        self.bug_table_selected = Some(0);
        self.bug_table_scroll_position = 0;
    }

    /// Moves the selection to the last row.
    pub fn bug_table_go_to_end(&mut self)
        requires
            old(self).bug_table_items@.len() > 0,
        ensures
            *final(self) == (App {
                bug_table_selected: Some((old(self).bug_table_items@.len() - 1) as usize),
                bug_table_scroll_position: (old(self).bug_table_items@.len() - 1) as usize,
                ..*old(self)
            }),
    {
        let i = self.bug_table_items.len() - 1;
        self.bug_table_selected = Some(i);
        self.bug_table_scroll_position = i;
    }

    /// Toggles the spinner and steps to the next label.
    pub fn toggle_spinner(&mut self)
        ensures
            *final(self) == (App {
                spinner_enabled: !old(self).spinner_enabled,
                spinner_label_index: ((old(self).spinner_label_index + 1) % (
                SPINNER_LABEL_COUNT as int)) as usize,
                ..*old(self)
            }),
    {
        self.spinner_enabled = !self.spinner_enabled;
        let ghost prev = self.spinner_label_index as int;
        let next = (self.spinner_label_index % SPINNER_LABEL_COUNT) + 1;
        proof {
            assert((((prev % 5) + 1) % 5) == (prev + 1) % 5) by (nonlinear_arith);
        }
        self.spinner_label_index = next % SPINNER_LABEL_COUNT;
    }

    /// Marks a record-list fetch as in flight and names the task to
    /// spawn.
    pub fn get_bugs(&mut self, project: String) -> (r: UiAction)
        ensures
            *final(self) == (App { spinner_enabled: true, ..*old(self) }),
            r == UiAction::FetchBugs(project),
    {
        self.spinner_enabled = true;
        UiAction::FetchBugs(project)
    }

    /// Takes a finished record-list fetch in: the new entries, the
    /// selection on the first row, the scrollbar reset, the spinner off.
    pub fn update_bugs(&mut self, bugs: Vec<BugTaskEntry>)
        ensures
            *final(self) == (App {
                bug_table_items: bugs,
                bug_table_selected: Some(0usize),
                bug_table_scroll_position: 0usize,
                bug_table_content_length: bugs@.len() as usize,
                spinner_enabled: false,
                ..*old(self)
            }),
    {
        self.bug_table_content_length = bugs.len();
        self.bug_table_items = bugs;
        self.bug_table_selected = Some(0);
        self.bug_table_scroll_position = 0;
        self.spinner_enabled = false;
    }

    /// Marks a single-record fetch as in flight and names the task to
    /// spawn.
    pub fn get_bug(&mut self, bug_id: u32) -> (r: UiAction)
        ensures
            *final(self) == (App { spinner_enabled: true, ..*old(self) }),
            r == UiAction::FetchBug(bug_id),
    {
        self.spinner_enabled = true;
        UiAction::FetchBug(bug_id)
    }

    /// Takes a finished single-record fetch in: the record becomes
    /// current, its description fills the response buffer, the
    /// description scroll resets, the spinner goes off.
    pub fn update_bug(&mut self, bug: LaunchpadBug)
        ensures
            *final(self) == (App {
                current_bug: Some(bug),
                response_text: bug.description,
                bug_desc_scroll: 0u16,
                bug_desc_scroll_to_end: false,
                spinner_enabled: false,
                ..*old(self)
            }),
    {
        self.response_text = bug.description.clone();
        self.current_bug = Some(bug);
        self.bug_desc_scroll = 0;
        self.bug_desc_scroll_to_end = false;
        self.spinner_enabled = false;
    }

    /// Takes the chat task's answer into the reply buffer and turns the
    /// spinner off.
    pub fn update_bug_reply(&mut self, reply: String)
        ensures
            *final(self) == (App {
                bug_reply_text: reply,
                spinner_enabled: false,
                ..*old(self)
            }),
    {
        self.bug_reply_text = reply;
        self.spinner_enabled = false;
    }

    /// Replaces the response buffer, as the external editor's result
    /// comes back.
    pub fn set_response_text(&mut self, text: String)
        ensures
            *final(self) == (App { response_text: text, ..*old(self) }),
    {
        self.response_text = text;
    }

    /// Replaces the reply buffer, as the external editor's result comes
    /// back.
    pub fn set_reply_text(&mut self, text: String)
        ensures
            *final(self) == (App { bug_reply_text: text, ..*old(self) }),
    {
        self.bug_reply_text = text;
    }
}

} // verus!
