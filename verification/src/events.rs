//! Key routing: the event loop's dispatch from one input event to a state
//! change and at most one action for the host to perform.
//!
//! A key passes three stages, each seeing the state the one before left:
//! the global keys, the screen-level keys, and the keys of the panel that
//! then has focus.  Everything here is a pure step on [`App`]; network,
//! editor and chat work come back to the host as a [`UiAction`].

use vstd::prelude::*;

use crate::app::{ActivePanel, App, Screen, UiAction, SPINNER_LABEL_COUNT};
use crate::messages::LpMessage;
use crate::model::{LaunchpadError};
use crate::text::spec_trailing_id;

verus! {

/// One input event, as the host hands it in.
#[derive(Debug, Clone, Copy, PartialEq, Eq, Structural)]
pub enum KeyInput {
    Up,
    Down,
    PageUp,
    PageDown,
    Home,
    End,
    Tab,
    Esc,
    Enter,
    Char(char),
    Other,
}

/// Subtracting on a scroll position stops at zero.
pub open spec fn sat_sub16(s: u16, d: u16) -> u16 {
    if s >= d {
        (s - d) as u16
    } else {
        0u16
    }
}

/// Adding on a scroll position stops at the top of the type.
pub open spec fn sat_add16(s: u16, d: u16) -> u16 {
    if s + d <= u16::MAX {
        (s + d) as u16
    } else {
        u16::MAX
    }
}

/// The state with row `i` selected and the scrollbar on it.
pub open spec fn spec_select(app: App, i: usize) -> App {
    App { bug_table_selected: Some(i), bug_table_scroll_position: i, ..app }
}

/// The selection one row up, wrapping to the last row.
pub open spec fn spec_prev(app: App) -> App {
    spec_select(
        app,
        match app.bug_table_selected {
            Option::Some(i) => if i == 0 {
                (app.bug_table_items@.len() - 1) as usize
            } else {
                (i - 1) as usize
            },
            Option::None => 0usize,
        },
    )
}

/// The selection one row down, wrapping to the first row.
pub open spec fn spec_next(app: App) -> App {
    spec_select(
        app,
        match app.bug_table_selected {
            Option::Some(i) => if i + 1 >= app.bug_table_items@.len() {
                0usize
            } else {
                (i + 1) as usize
            },
            Option::None => 0usize,
        },
    )
}

/// The selection ten rows up, stopping at the first.
pub open spec fn spec_page_up(app: App) -> App {
    spec_select(
        app,
        match app.bug_table_selected {
            Option::Some(i) => if i >= 10 {
                (i - 10) as usize
            } else {
                0usize
            },
            Option::None => 0usize,
        },
    )
}

/// The selection ten rows down, stopping at the last.
pub open spec fn spec_page_down(app: App) -> App {
    spec_select(
        app,
        match app.bug_table_selected {
            Option::Some(i) => if i + 10 < app.bug_table_items@.len() - 1 {
                (i + 10) as usize
            } else {
                (app.bug_table_items@.len() - 1) as usize
            },
            Option::None => 0usize,
        },
    )
}

/// The other panel.
pub open spec fn spec_flip(p: ActivePanel) -> ActivePanel {
    match p {
        ActivePanel::Left => ActivePanel::Right,
        ActivePanel::Right => ActivePanel::Left,
    }
}

/// The global stage: `s` toggles the spinner, `q` quits, anything else
/// passes through.
pub open spec fn spec_global(key: KeyInput, app: App) -> (App, bool) {
    match key {
        KeyInput::Char(c) => if c == 's' {
            (
                App {
                    spinner_enabled: !app.spinner_enabled,
                    spinner_label_index: ((app.spinner_label_index + 1) % (
                    SPINNER_LABEL_COUNT as int)) as usize,
                    ..app
                },
                false,
            )
        } else if c == 'q' {
            (app, true)
        } else {
            (app, false)
        },
        _ => (app, false),
    }
}

/// The screen stage on the list screen: Tab moves focus to the other
/// panel.
pub open spec fn spec_screen_list(key: KeyInput, app: App) -> App {
    match key {
        KeyInput::Tab => (App { active_panel: spec_flip(app.active_panel), ..app }),
        _ => app,
    }
}

/// The screen stage on the editing screen: Esc goes back to the list
/// screen with the left panel focused, Tab moves focus.
pub open spec fn spec_screen_editing(key: KeyInput, app: App) -> App {
    match key {
        KeyInput::Esc => (App {
            current_screen: Screen::BugList,
            active_panel: ActivePanel::Left,
            ..app
        }),
        KeyInput::Tab => (App { active_panel: spec_flip(app.active_panel), ..app }),
        _ => app,
    }
}

/// The screen stage.
pub open spec fn spec_screen(key: KeyInput, app: App) -> App {
    match app.current_screen {
        Screen::BugList => spec_screen_list(key, app),
        Screen::BugEditing => spec_screen_editing(key, app),
    }
}

/// What the table panel does with a key: navigation, `r` to refresh the
/// list, Enter to fetch the selected entry's record.
pub open spec fn table_routed(key: KeyInput, pre: App, post: App, r: UiAction) -> bool {
    match key {
        KeyInput::Up => post == spec_prev(pre) && r is Idle,
        KeyInput::Down => post == spec_next(pre) && r is Idle,
        KeyInput::PageUp => post == spec_page_up(pre) && r is Idle,
        KeyInput::PageDown => post == spec_page_down(pre) && r is Idle,
        KeyInput::Home => post == spec_select(pre, 0usize) && r is Idle,
        KeyInput::End => post == spec_select(pre, (pre.bug_table_items@.len() - 1) as usize)
            && r is Idle,
        KeyInput::Char(c) => if c == 'r' {
            post == (App { spinner_enabled: true, ..pre }) && (r matches UiAction::FetchBugs(p)
                && p@ == "nova"@)
        } else {
            post == pre && r is Idle
        },
        KeyInput::Enter => (match pre.bug_table_selected {
            Option::Some(i) => if i < pre.bug_table_items@.len() {
                match spec_trailing_id(pre.bug_table_items@[i as int].bug_link@) {
                    Option::Some(id) => post == (App { spinner_enabled: true, ..pre }) && r
                        == UiAction::FetchBug(id),
                    Option::None => post == pre && r is Idle,
                }
            } else {
                post == pre && r is Idle
            },
            Option::None => post == pre && r is Idle,
        }),
        _ => post == pre && r is Idle,
    }
}

/// What the description panel does with a key: scrolling, `v` to open the
/// selected entry in the browser, `a` to ask the AI, `e` to edit the
/// buffer, Enter to move to the editing screen or, once there, to submit
/// the buffer for review.
pub open spec fn description_routed(key: KeyInput, pre: App, post: App, r: UiAction) -> bool {
    match key {
        KeyInput::Up => post == (App {
            bug_desc_scroll: sat_sub16(pre.bug_desc_scroll, 1),
            bug_desc_scroll_to_end: false,
            ..pre
        }) && r is Idle,
        KeyInput::Down => post == (App {
            bug_desc_scroll: sat_add16(pre.bug_desc_scroll, 1),
            bug_desc_scroll_to_end: false,
            ..pre
        }) && r is Idle,
        KeyInput::PageUp => post == (App {
            bug_desc_scroll: sat_sub16(pre.bug_desc_scroll, 10),
            bug_desc_scroll_to_end: false,
            ..pre
        }) && r is Idle,
        KeyInput::PageDown => post == (App {
            bug_desc_scroll: sat_add16(pre.bug_desc_scroll, 10),
            bug_desc_scroll_to_end: false,
            ..pre
        }) && r is Idle,
        KeyInput::Home => post == (App {
            bug_desc_scroll: 0u16,
            bug_desc_scroll_to_end: false,
            ..pre
        }) && r is Idle,
        KeyInput::End => post == (App { bug_desc_scroll_to_end: true, ..pre }) && r is Idle,
        KeyInput::Char(c) => if c == 'v' {
            match pre.bug_table_selected {
                Option::Some(i) => if i < pre.bug_table_items@.len() {
                    post == pre && r == UiAction::OpenUrl(pre.bug_table_items@[i as int].web_link)
                } else {
                    post == pre && r is Idle
                },
                Option::None => post == pre && r is Idle,
            }
        } else if c == 'a' {
            post == pre && r == UiAction::AskAi(pre.response_text)
        } else if c == 'e' {
            post == pre && r == UiAction::EditDescription(pre.response_text)
        } else {
            post == pre && r is Idle
        },
        KeyInput::Enter => if pre.current_screen == Screen::BugList {
            post == (App {
                current_screen: Screen::BugEditing,
                active_panel: ActivePanel::Left,
                bug_reply_text: post.bug_reply_text,
                ..pre
            }) && post.bug_reply_text@ == "No bug replied yet."@ && r is Idle
        } else {
            post == (App { spinner_enabled: true, ..pre }) && r
                == UiAction::SendPromptWithTemplate(pre.response_text)
        },
        _ => post == pre && r is Idle,
    }
}

/// What the reply panel does with a key: Enter sends the draft to the
/// chat task, `e` edits it.
pub open spec fn reply_routed(key: KeyInput, pre: App, post: App, r: UiAction) -> bool {
    match key {
        KeyInput::Enter => post == (App { spinner_enabled: true, ..pre }) && r
            == UiAction::SendReply(pre.bug_reply_text),
        KeyInput::Char(c) => if c == 'e' {
            post == pre && r == UiAction::EditReply(pre.bug_reply_text)
        } else {
            post == pre && r is Idle
        },
        _ => post == pre && r is Idle,
    }
}

/// The panel stage: which panel sees the key, given the screen and focus
/// the earlier stages left.
pub open spec fn panel_routed(key: KeyInput, pre: App, post: App, r: UiAction) -> bool {
    match pre.current_screen {
        Screen::BugList => match pre.active_panel {
            ActivePanel::Left => table_routed(key, pre, post, r),
            ActivePanel::Right => description_routed(key, pre, post, r),
        },
        Screen::BugEditing => match pre.active_panel {
            ActivePanel::Left => description_routed(key, pre, post, r),
            ActivePanel::Right => reply_routed(key, pre, post, r),
        },
    }
}

/// The table navigation keys that would step outside the table's bounds;
/// the routing refuses them up front rather than wrapping past the edge.
pub open spec fn table_safe(key: KeyInput, app: App) -> bool {
    match key {
        KeyInput::Up => app.bug_table_selected == Some(0usize) ==> app.bug_table_items@.len() > 0,
        KeyInput::Down => app.bug_table_selected is Some ==> app.bug_table_items@.len() > 0,
        KeyInput::PageDown => app.bug_table_selected matches Some(i) ==> (
        app.bug_table_items@.len() > 0 && i + 10 <= usize::MAX),
        KeyInput::End => app.bug_table_items@.len() > 0,
        _ => true,
    }
}

/// Whether the key can be routed from this state without stepping outside
/// the table's bounds.
pub open spec fn key_safe(key: KeyInput, app: App) -> bool {
    ({
        let (mid, quit) = spec_global(key, app);
        quit || ({
            let mid2 = spec_screen(key, mid);
            match mid2.current_screen {
                Screen::BugList => match mid2.active_panel {
                    ActivePanel::Left => table_safe(key, mid2),
                    ActivePanel::Right => true,
                },
                Screen::BugEditing => true,
            }
        })
    })
}

/// The global stage.
fn handle_global_keys(key: KeyInput, app: &mut App) -> (quit: bool)
    ensures
        ({
            let (m, q) = spec_global(key, *old(app));
            *final(app) == m && quit == q
        }),
{
    match key {
        KeyInput::Char(c) => {
            if c == 's' {
                app.toggle_spinner();
                false
            } else if c == 'q' {
                true
            } else {
                false
            }
        },
        _ => false,
    }
}

/// The screen stage on the list screen.
fn handle_bug_list_screen_keys(key: KeyInput, app: &mut App)
    ensures
        *final(app) == spec_screen_list(key, *old(app)),
{
    if key == KeyInput::Tab {
        if app.active_panel == ActivePanel::Right {
            app.active_panel = ActivePanel::Left;
        } else {
            app.active_panel = ActivePanel::Right;
        }
    }
}

/// The screen stage on the editing screen.
fn handle_bug_editing_screen_keys(key: KeyInput, app: &mut App)
    ensures
        *final(app) == spec_screen_editing(key, *old(app)),
{
    match key {
        KeyInput::Esc => {
            app.current_screen = Screen::BugList;
            app.active_panel = ActivePanel::Left;
        },
        KeyInput::Tab => {
            if app.active_panel == ActivePanel::Right {
                app.active_panel = ActivePanel::Left;
            } else {
                app.active_panel = ActivePanel::Right;
            }
        },
        _ => (),
    }
}

/// The table panel's keys.
fn handle_bug_table(key: KeyInput, app: &mut App) -> (r: UiAction)
    requires
        table_safe(key, *old(app)),
    ensures
        table_routed(key, *old(app), *final(app), r),
{
    match key {
        KeyInput::Up => {
            app.bug_table_previous_item();
            UiAction::Idle
        },
        KeyInput::Down => {
            app.bug_table_next_item();
            UiAction::Idle
        },
        KeyInput::PageUp => {
            app.bug_table_page_up_item();
            UiAction::Idle
        },
        KeyInput::PageDown => {
            app.bug_table_page_down_item();
            UiAction::Idle
        },
        KeyInput::Home => {
            app.bug_table_go_to_start();
            UiAction::Idle
        },
        KeyInput::End => {
            app.bug_table_go_to_end();
            UiAction::Idle
        },
        KeyInput::Char(c) => {
            if c == 'r' {
                app.get_bugs(String::from_str("nova"))
            } else {
                UiAction::Idle
            }
        },
        KeyInput::Enter => {
            let sel = self_selected(app);
            match sel {
                Some(id) => app.get_bug(id),
                None => UiAction::Idle,
            }
        },
        _ => UiAction::Idle,
    }
}

/// The id of the selected entry, when one is selected, in bounds, and its
/// `bug_link` ends in a number.
fn self_selected(app: &App) -> (r: Option<u32>)
    ensures
        (match app.bug_table_selected {
            Option::Some(i) => if i < app.bug_table_items@.len() {
                r == spec_trailing_id(app.bug_table_items@[i as int].bug_link@)
            } else {
                r is None
            },
            Option::None => r is None,
        }),
{
    match app.bug_table_selected {
        Some(i) => {
            if i < app.bug_table_items.len() {
                app.bug_table_items[i].get_id()
            } else {
                None
            }
        },
        None => None,
    }
}

/// The description panel's keys.
fn handle_bug_description(key: KeyInput, app: &mut App) -> (r: UiAction)
    ensures
        description_routed(key, *old(app), *final(app), r),
{
    match key {
        KeyInput::Up => {
            app.bug_desc_scroll = if app.bug_desc_scroll >= 1 {
                app.bug_desc_scroll - 1
            } else {
                0
            };
            app.bug_desc_scroll_to_end = false;
            UiAction::Idle
        },
        KeyInput::Down => {
            app.bug_desc_scroll = if app.bug_desc_scroll <= u16::MAX - 1 {
                app.bug_desc_scroll + 1
            } else {
                u16::MAX
            };
            app.bug_desc_scroll_to_end = false;
            UiAction::Idle
        },
        KeyInput::PageUp => {
            app.bug_desc_scroll = if app.bug_desc_scroll >= 10 {
                app.bug_desc_scroll - 10
            } else {
                0
            };
            app.bug_desc_scroll_to_end = false;
            UiAction::Idle
        },
        KeyInput::PageDown => {
            app.bug_desc_scroll = if app.bug_desc_scroll <= u16::MAX - 10 {
                app.bug_desc_scroll + 10
            } else {
                u16::MAX
            };
            app.bug_desc_scroll_to_end = false;
            UiAction::Idle
        },
        KeyInput::Home => {
            app.bug_desc_scroll = 0;
            app.bug_desc_scroll_to_end = false;
            UiAction::Idle
        },
        KeyInput::End => {
            app.bug_desc_scroll_to_end = true;
            UiAction::Idle
        },
        KeyInput::Char(c) => {
            if c == 'v' {
                match app.bug_table_selected {
                    Some(i) => {
                        if i < app.bug_table_items.len() {
                            UiAction::OpenUrl(app.bug_table_items[i].web_link.clone())
                        } else {
                            UiAction::Idle
                        }
                    },
                    None => UiAction::Idle,
                }
            } else if c == 'a' {
                UiAction::AskAi(app.response_text.clone())
            } else if c == 'e' {
                UiAction::EditDescription(app.response_text.clone())
            } else {
                UiAction::Idle
            }
        },
        KeyInput::Enter => {
            if app.current_screen == Screen::BugList {
                app.current_screen = Screen::BugEditing;
                app.active_panel = ActivePanel::Left;
                app.bug_reply_text = String::from_str("No bug replied yet.");
                UiAction::Idle
            } else {
                app.spinner_enabled = true;
                UiAction::SendPromptWithTemplate(app.response_text.clone())
            }
        },
        _ => UiAction::Idle,
    }
}

/// The reply panel's keys.
fn handle_bug_reply(key: KeyInput, app: &mut App) -> (r: UiAction)
    ensures
        reply_routed(key, *old(app), *final(app), r),
{
    match key {
        KeyInput::Enter => {
            app.spinner_enabled = true;
            UiAction::SendReply(app.bug_reply_text.clone())
        },
        KeyInput::Char(c) => {
            if c == 'e' {
                UiAction::EditReply(app.bug_reply_text.clone())
            } else {
                UiAction::Idle
            }
        },
        _ => UiAction::Idle,
    }
}

/// Routes one key through the three stages and says what the host should
/// do next.
pub fn handle_key_events(key: KeyInput, app: &mut App) -> (r: UiAction)
    requires
        key_safe(key, *old(app)),
    ensures
        ({
            let (mid, quit) = spec_global(key, *old(app));
            if quit {
                *final(app) == mid && r == UiAction::Quit
            } else {
                panel_routed(key, spec_screen(key, mid), *final(app), r)
            }
        }),
{
    if handle_global_keys(key, app) {
        return UiAction::Quit;
    }
    match app.current_screen {
        Screen::BugList => handle_bug_list_screen_keys(key, app),
        Screen::BugEditing => handle_bug_editing_screen_keys(key, app),
    }
    match app.current_screen {
        Screen::BugList => match app.active_panel {
            ActivePanel::Left => handle_bug_table(key, app),
            ActivePanel::Right => handle_bug_description(key, app),
        },
        Screen::BugEditing => match app.active_panel {
            ActivePanel::Left => handle_bug_description(key, app),
            ActivePanel::Right => handle_bug_reply(key, app),
        },
    }
}

/// Drains one tagged result into the state: a record list lands in the
/// table, a record in the description panel, and an error stops the loop
/// by coming back to the caller.
pub fn dispatch_message(app: &mut App, msg: LpMessage) -> (r: Result<(), LaunchpadError>)
    ensures
        match msg {
            LpMessage::Bugs(bugs) => r is Ok && *final(app) == (App {
                bug_table_items: bugs,
                bug_table_selected: Some(0usize),
                bug_table_scroll_position: 0usize,
                bug_table_content_length: bugs@.len() as usize,
                spinner_enabled: false,
                ..*old(app)
            }),
            LpMessage::Bug(bug) => r is Ok && *final(app) == (App {
                current_bug: Some(bug),
                response_text: bug.description,
                bug_desc_scroll: 0u16,
                bug_desc_scroll_to_end: false,
                spinner_enabled: false,
                ..*old(app)
            }),
            LpMessage::Error(e) => r == Err::<(), LaunchpadError>(e) && *final(app) == *old(app),
        },
{
    match msg {
        LpMessage::Bugs(bugs) => {
            app.update_bugs(bugs);
            Ok(())
        },
        LpMessage::Bug(bug) => {
            app.update_bug(bug);
            Ok(())
        },
        LpMessage::Error(e) => Err(e),
    }
}

} // verus!


