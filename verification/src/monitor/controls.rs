use vstd::prelude::*;

use crate::keys::{
    KeyBinding, KeyCode, KeyEvent, bindings, bindings_text, char_key, ctrl_key, matches_any,
    plain_key, spec_matches_any,
};
use crate::monitor::config;
use crate::monitor::model::{InputCollection, InputKind};
use crate::monitor::plan::{is_render_plan, NavigationContext, RenderPlan};
use crate::monitor::view_model::MonitorViewModel;
use crate::rect::Rect;
use crate::monitor::state::{
    ActivePopup, Focus, MonitorState, max_of, other_focus, overflow_of, spec_next_focus, spec_page_offset,
    spec_toggled_popup,
};

verus! {

/// How the monitor was left.
#[derive(Clone, Copy, Debug, PartialEq, Eq, Structural)]
pub enum MonitorExit {
    BackToSelector,
    ExitApp,
}

/// What a key press asks the monitor to do.
#[derive(Clone, Copy, Debug, PartialEq, Eq, Structural)]
pub enum Command {
    BackToSelector,
    ExitApp,
    Reset,
    Scroll(i32),
    Page(i32),
    Home,
    End,
    FocusNext,
    FocusPrev,
    ToggleInvertY,
    ToggleInfo,
    ToggleHelp,
    NoOp,
}

/// The monitor's key bindings.
pub struct MonitorKeys {
    pub scroll_up: Vec<KeyBinding>,
    pub scroll_down: Vec<KeyBinding>,
    pub page_up: Vec<KeyBinding>,
    pub page_down: Vec<KeyBinding>,
    pub home: Vec<KeyBinding>,
    pub end: Vec<KeyBinding>,
    pub reset: Vec<KeyBinding>,
    pub toggle_info: Vec<KeyBinding>,
    pub toggle_invert_y: Vec<KeyBinding>,
    pub toggle_help: Vec<KeyBinding>,
    pub focus_next: Vec<KeyBinding>,
    pub focus_prev: Vec<KeyBinding>,
    pub back: Vec<KeyBinding>,
    pub exit: Vec<KeyBinding>,
}

pub open spec fn plain(code: KeyCode) -> KeyBinding {
    KeyBinding { code, ctrl: false, shift: false }
}

pub open spec fn chr(c: char) -> KeyBinding {
    KeyBinding { code: KeyCode::Char(c), ctrl: false, shift: false }
}

pub open spec fn ctrl(c: char) -> KeyBinding {
    KeyBinding { code: KeyCode::Char(c), ctrl: true, shift: false }
}

/// The default monitor bindings: arrows or j/k scroll, PageUp/PageDown page,
/// Home/g and End/G jump, J/K move focus, r resets relative axes, i shows
/// device info, y inverts the joystick, ? shows help, Esc goes back and
/// Ctrl-c exits.
pub open spec fn spec_monitor_keys_ok(k: MonitorKeys) -> bool {
    &&& k.scroll_up@ == seq![plain(KeyCode::Up), chr('k')]
    &&& k.scroll_down@ == seq![plain(KeyCode::Down), chr('j')]
    &&& k.page_up@ == seq![plain(KeyCode::PageUp)]
    &&& k.page_down@ == seq![plain(KeyCode::PageDown)]
    &&& k.home@ == seq![plain(KeyCode::Home), chr('g')]
    &&& k.end@ == seq![plain(KeyCode::End), chr('G')]
    &&& k.reset@ == seq![chr('r')]
    &&& k.toggle_info@ == seq![chr('i')]
    &&& k.toggle_invert_y@ == seq![chr('y')]
    &&& k.toggle_help@ == seq![chr('?')]
    &&& k.focus_next@ == seq![chr('J')]
    &&& k.focus_prev@ == seq![chr('K')]
    &&& k.back@ == seq![plain(KeyCode::Esc)]
    &&& k.exit@ == seq![ctrl('c')]
}

/// The default monitor bindings.
pub fn monitor_keys() -> (k: MonitorKeys)
    ensures
        spec_monitor_keys_ok(k),
{
    let k = MonitorKeys {
        scroll_up: vec![plain_key(KeyCode::Up), char_key('k')],
        scroll_down: vec![plain_key(KeyCode::Down), char_key('j')],
        page_up: vec![plain_key(KeyCode::PageUp)],
        page_down: vec![plain_key(KeyCode::PageDown)],
        home: vec![plain_key(KeyCode::Home), char_key('g')],
        end: vec![plain_key(KeyCode::End), char_key('G')],
        reset: vec![char_key('r')],
        toggle_info: vec![char_key('i')],
        toggle_invert_y: vec![char_key('y')],
        toggle_help: vec![char_key('?')],
        focus_next: vec![char_key('J')],
        focus_prev: vec![char_key('K')],
        back: vec![plain_key(KeyCode::Esc)],
        exit: vec![ctrl_key('c')],
    };
    assert(k.scroll_up@ =~= seq![plain(KeyCode::Up), chr('k')]);
    assert(k.scroll_down@ =~= seq![plain(KeyCode::Down), chr('j')]);
    assert(k.page_up@ =~= seq![plain(KeyCode::PageUp)]);
    assert(k.page_down@ =~= seq![plain(KeyCode::PageDown)]);
    assert(k.home@ =~= seq![plain(KeyCode::Home), chr('g')]);
    assert(k.end@ =~= seq![plain(KeyCode::End), chr('G')]);
    assert(k.reset@ =~= seq![chr('r')]);
    assert(k.toggle_info@ =~= seq![chr('i')]);
    assert(k.toggle_invert_y@ =~= seq![chr('y')]);
    assert(k.toggle_help@ =~= seq![chr('?')]);
    assert(k.focus_next@ =~= seq![chr('J')]);
    assert(k.focus_prev@ =~= seq![chr('K')]);
    assert(k.back@ =~= seq![plain(KeyCode::Esc)]);
    assert(k.exit@ =~= seq![ctrl('c')]);
    k
}

pub open spec fn spec_command_for(key: KeyEvent, popup: ActivePopup, k: MonitorKeys) -> Command {
    let m = |b: Seq<KeyBinding>| spec_matches_any(b, key);
    match popup {
        ActivePopup::Info => if m(k.toggle_info@) {
            Command::ToggleInfo
        } else if m(k.exit@) {
            Command::ExitApp
        } else {
            Command::NoOp
        },
        ActivePopup::Help => if m(k.toggle_help@) {
            Command::ToggleHelp
        } else if m(k.exit@) {
            Command::ExitApp
        } else {
            Command::NoOp
        },
        ActivePopup::Closed => if m(k.back@) {
            Command::BackToSelector
        } else if m(k.exit@) {
            Command::ExitApp
        } else if m(k.reset@) {
            Command::Reset
        } else if m(k.home@) {
            Command::Home
        } else if m(k.end@) {
            Command::End
        } else if m(k.scroll_up@) {
            Command::Scroll(-1i32)
        } else if m(k.scroll_down@) {
            Command::Scroll(1i32)
        } else if m(k.toggle_info@) {
            Command::ToggleInfo
        } else if m(k.toggle_invert_y@) {
            Command::ToggleInvertY
        } else if m(k.toggle_help@) {
            Command::ToggleHelp
        } else if m(k.focus_next@) {
            Command::FocusNext
        } else if m(k.focus_prev@) {
            Command::FocusPrev
        } else if m(k.page_up@) {
            Command::Page(-1i32)
        } else if m(k.page_down@) {
            Command::Page(1i32)
        } else {
            Command::NoOp
        },
    }
}

/// The command a key press means in the monitor. With a popup open only
/// closing it and exiting are recognised; the first binding group that
/// matches wins.
pub fn command_for(key: KeyEvent, popup: ActivePopup) -> (c: Command)
    ensures
        forall|k: MonitorKeys| spec_monitor_keys_ok(k) ==> c == spec_command_for(key, popup, k),
{
    let keys = monitor_keys();
    let c = match popup {
        ActivePopup::Info => {
            if matches_any(key, keys.toggle_info.as_slice()) {
                Command::ToggleInfo
            } else if matches_any(key, keys.exit.as_slice()) {
                Command::ExitApp
            } else {
                Command::NoOp
            }
        },
        ActivePopup::Help => {
            if matches_any(key, keys.toggle_help.as_slice()) {
                Command::ToggleHelp
            } else if matches_any(key, keys.exit.as_slice()) {
                Command::ExitApp
            } else {
                Command::NoOp
            }
        },
        ActivePopup::Closed => {
            if matches_any(key, keys.back.as_slice()) {
                Command::BackToSelector
            } else if matches_any(key, keys.exit.as_slice()) {
                Command::ExitApp
            } else if matches_any(key, keys.reset.as_slice()) {
                Command::Reset
            } else if matches_any(key, keys.home.as_slice()) {
                Command::Home
            } else if matches_any(key, keys.end.as_slice()) {
                Command::End
            } else if matches_any(key, keys.scroll_up.as_slice()) {
                Command::Scroll(-1)
            } else if matches_any(key, keys.scroll_down.as_slice()) {
                Command::Scroll(1)
            } else if matches_any(key, keys.toggle_info.as_slice()) {
                Command::ToggleInfo
            } else if matches_any(key, keys.toggle_invert_y.as_slice()) {
                Command::ToggleInvertY
            } else if matches_any(key, keys.toggle_help.as_slice()) {
                Command::ToggleHelp
            } else if matches_any(key, keys.focus_next.as_slice()) {
                Command::FocusNext
            } else if matches_any(key, keys.focus_prev.as_slice()) {
                Command::FocusPrev
            } else if matches_any(key, keys.page_up.as_slice()) {
                Command::Page(-1)
            } else if matches_any(key, keys.page_down.as_slice()) {
                Command::Page(1)
            } else {
                Command::NoOp
            }
        },
    };
    assert forall|k2: MonitorKeys| spec_monitor_keys_ok(k2) implies c == spec_command_for(key, popup, k2) by {
        assert(k2.toggle_info@ == keys.toggle_info@);
        assert(k2.exit@ == keys.exit@);
        assert(k2.toggle_help@ == keys.toggle_help@);
        assert(k2.back@ == keys.back@);
        assert(k2.reset@ == keys.reset@);
        assert(k2.home@ == keys.home@);
        assert(k2.end@ == keys.end@);
        assert(k2.scroll_up@ == keys.scroll_up@);
        assert(k2.scroll_down@ == keys.scroll_down@);
        assert(k2.toggle_invert_y@ == keys.toggle_invert_y@);
        assert(k2.focus_next@ == keys.focus_next@);
        assert(k2.focus_prev@ == keys.focus_prev@);
        assert(k2.page_up@ == keys.page_up@);
        assert(k2.page_down@ == keys.page_down@);
    }
    c
}

/// The key event of Ctrl-c.
pub open spec fn ctrl_c() -> KeyEvent {
    KeyEvent {
        code: KeyCode::Char('c'),
        modifiers: crate::keys::KeyModifiers { shift: false, ctrl: true, alt: false, other: false },
    }
}

/// Ctrl-c exits the application whatever popup is open.
pub proof fn law_ctrl_c_always_exits(popup: ActivePopup, k: MonitorKeys)
    requires
        spec_monitor_keys_ok(k),
    ensures
        spec_command_for(ctrl_c(), popup, k) == Command::ExitApp,
{
    let key = ctrl_c();
    assert(k.exit@[0].spec_matches(key));
    assert(!spec_matches_any(k.toggle_info@, key)) by {
        assert(!k.toggle_info@[0].spec_matches(key));
    }
    assert(!spec_matches_any(k.toggle_help@, key)) by {
        assert(!k.toggle_help@[0].spec_matches(key));
    }
    assert(!spec_matches_any(k.back@, key)) by {
        assert(!k.back@[0].spec_matches(key));
    }
}

} // verus!

verus! {

/// A help line: the label, then the bindings that trigger it.
pub open spec fn help_line(label: Seq<char>, list: Seq<KeyBinding>) -> Seq<char> {
    label + bindings_text(list)
}

fn push_help_line(lines: &mut Vec<String>, label: &str, list: &Vec<KeyBinding>)
    ensures
        final(lines)@.len() == old(lines)@.len() + 1,
        forall|i: int| 0 <= i < old(lines)@.len() ==> final(lines)@[i] == old(lines)@[i],
        final(lines)@.last()@ == help_line(label@, list@),
{
    let mut line = String::from_str(label);
    let b = bindings(list.as_slice());
    line.append(b.as_str());
    lines.push(line);
}

/// The monitor's help text: one line per command with the keys bound to it.
pub fn help_lines() -> (lines: Vec<String>)
    ensures
        lines@.len() == 14,
        forall|k: MonitorKeys| #[trigger] spec_monitor_keys_ok(k) ==> {
            &&& lines@[0]@ == help_line("Scroll up: "@, k.scroll_up@)
            &&& lines@[1]@ == help_line("Scroll down: "@, k.scroll_down@)
            &&& lines@[2]@ == help_line("Page up: "@, k.page_up@)
            &&& lines@[3]@ == help_line("Page down: "@, k.page_down@)
            &&& lines@[4]@ == help_line("Home: "@, k.home@)
            &&& lines@[5]@ == help_line("End: "@, k.end@)
            &&& lines@[6]@ == help_line("Reset: "@, k.reset@)
            &&& lines@[7]@ == help_line("Info: "@, k.toggle_info@)
            &&& lines@[8]@ == help_line("Invert Y: "@, k.toggle_invert_y@)
            &&& lines@[9]@ == help_line("Focus next: "@, k.focus_next@)
            &&& lines@[10]@ == help_line("Focus previous: "@, k.focus_prev@)
            &&& lines@[11]@ == help_line("Back: "@, k.back@)
            &&& lines@[12]@ == help_line("Exit: "@, k.exit@)
            &&& lines@[13]@ == help_line("Help: "@, k.toggle_help@)
        },
{
    let keys = monitor_keys();
    let mut lines: Vec<String> = Vec::new();
    push_help_line(&mut lines, "Scroll up: ", &keys.scroll_up);
    push_help_line(&mut lines, "Scroll down: ", &keys.scroll_down);
    push_help_line(&mut lines, "Page up: ", &keys.page_up);
    push_help_line(&mut lines, "Page down: ", &keys.page_down);
    push_help_line(&mut lines, "Home: ", &keys.home);
    push_help_line(&mut lines, "End: ", &keys.end);
    push_help_line(&mut lines, "Reset: ", &keys.reset);
    push_help_line(&mut lines, "Info: ", &keys.toggle_info);
    push_help_line(&mut lines, "Invert Y: ", &keys.toggle_invert_y);
    push_help_line(&mut lines, "Focus next: ", &keys.focus_next);
    push_help_line(&mut lines, "Focus previous: ", &keys.focus_prev);
    push_help_line(&mut lines, "Back: ", &keys.back);
    push_help_line(&mut lines, "Exit: ", &keys.exit);
    push_help_line(&mut lines, "Help: ", &keys.toggle_help);
    lines
}

/// What `apply_command` requires: a scroll or page step must not run a
/// scroll position past `usize::MAX`.
pub open spec fn command_fits(command: Command, state: MonitorState, navigation: NavigationContext) -> bool {
    match command {
        Command::Scroll(dir) => state.can_scroll(navigation, dir as int, 1),
        Command::Page(dir) => state.can_scroll(navigation, dir as int, config::PAGE_SCROLL_STEPS as int),
        _ => true,
    }
}

/// Whether `apply_command` can take `command`: a scroll forward must not
/// overflow the focused position.
pub fn command_can_apply(command: Command, state: &MonitorState, navigation: NavigationContext) -> (b: bool)
    ensures
        b == command_fits(command, *state, navigation),
{
    let (dir, steps): (i32, usize) = match command {
        Command::Scroll(dir) => (dir, 1),
        Command::Page(dir) => (dir, config::PAGE_SCROLL_STEPS),
        _ => return true,
    };
    let bounds = navigation.scroll_bounds();
    let (overflow, max, offset) = match navigation.focus() {
        Focus::Axes => (bounds.axes_overflow, bounds.axes_max, state.axis_scroll),
        Focus::Buttons => (bounds.buttons_overflow, bounds.button_row_max_start, state.button_row_scroll),
    };
    if !(overflow && dir > 0 && steps > 0) {
        return true;
    }
    offset < usize::MAX && (max < usize::MAX || offset <= usize::MAX - steps)
}

/// Carries out a command on the monitor state and inputs. Returns how the
/// monitor is left for the two exit commands, `None` otherwise.
pub fn apply_command(
    command: Command,
    state: &mut MonitorState,
    inputs: &mut InputCollection,
    navigation: NavigationContext,
) -> (exit: Option<MonitorExit>)
    requires
        command_fits(command, *old(state), navigation),
    ensures
        exit == (match command {
            Command::BackToSelector => Some(MonitorExit::BackToSelector),
            Command::ExitApp => Some(MonitorExit::ExitApp),
            _ => None,
        }),
        command != Command::Reset ==> final(inputs).buckets.same(old(inputs).buckets),
        final(inputs).event_index@ == old(inputs).event_index@,
        final(inputs).buckets.absolute@ == old(inputs).buckets.absolute@,
        final(inputs).buckets.buttons@ == old(inputs).buckets.buttons@,
        final(inputs).buckets.relative@.len() == old(inputs).buckets.relative@.len(),
        command == Command::Reset ==> forall|i: int| 0 <= i < old(inputs).buckets.relative@.len() ==> {
            &&& (#[trigger] final(inputs).buckets.relative@[i]).name == old(inputs).buckets.relative@[i].name
            &&& final(inputs).buckets.relative@[i].input_type == (match old(inputs).buckets.relative@[i].input_type {
                InputKind::Relative(_) => InputKind::Relative(0),
                other => other,
            })
        },
        match command {
            Command::Scroll(dir) => {
                &&& final(state).focused_offset(navigation.focus) == spec_page_offset(
                    old(state).focused_offset(navigation.focus) as int, dir as int,
                    overflow_of(navigation), max_of(navigation) as int, 1)
                &&& final(state).focused_offset(other_focus(navigation.focus))
                    == old(state).focused_offset(other_focus(navigation.focus))
                &&& final(state).same_except(*old(state), false, false, true, false)
            },
            Command::Page(dir) => {
                &&& final(state).focused_offset(navigation.focus) == spec_page_offset(
                    old(state).focused_offset(navigation.focus) as int, dir as int,
                    overflow_of(navigation), max_of(navigation) as int,
                    config::PAGE_SCROLL_STEPS as int)
                &&& final(state).focused_offset(other_focus(navigation.focus))
                    == old(state).focused_offset(other_focus(navigation.focus))
                &&& final(state).same_except(*old(state), false, false, true, false)
            },
            Command::Home => {
                &&& final(state).focused_offset(navigation.focus) == 0
                &&& final(state).focused_offset(other_focus(navigation.focus))
                    == old(state).focused_offset(other_focus(navigation.focus))
                &&& final(state).same_except(*old(state), false, false, true, false)
            },
            Command::End => {
                &&& final(state).focused_offset(navigation.focus) == max_of(navigation)
                &&& final(state).focused_offset(other_focus(navigation.focus))
                    == old(state).focused_offset(other_focus(navigation.focus))
                &&& final(state).same_except(*old(state), false, false, true, false)
            },
            Command::FocusNext | Command::FocusPrev => {
                &&& final(state).focus == spec_next_focus(navigation.focus, navigation.focusable)
                &&& final(state).same_except(*old(state), false, true, false, false)
            },
            Command::ToggleInvertY => {
                &&& final(state).joystick_invert_y == !old(state).joystick_invert_y
                &&& final(state).same_except(*old(state), false, false, false, true)
            },
            Command::ToggleInfo => {
                &&& final(state).active_popup == spec_toggled_popup(old(state).active_popup, ActivePopup::Info)
                &&& final(state).same_except(*old(state), true, false, false, false)
            },
            Command::ToggleHelp => {
                &&& final(state).active_popup == spec_toggled_popup(old(state).active_popup, ActivePopup::Help)
                &&& final(state).same_except(*old(state), true, false, false, false)
            },
            _ => final(state).same_except(*old(state), false, false, false, false),
        },
{
    match command {
        Command::BackToSelector => Some(MonitorExit::BackToSelector),
        Command::ExitApp => Some(MonitorExit::ExitApp),
        Command::Reset => {
            inputs.reset_relative_axes();
            None
        },
        Command::Scroll(dir) => {
            state.scroll_by(dir, navigation);
            None
        },
        Command::Page(dir) => {
            state.scroll_page(dir, navigation, config::PAGE_SCROLL_STEPS);
            None
        },
        Command::Home => {
            state.scroll_home(navigation);
            None
        },
        Command::End => {
            state.scroll_end(navigation);
            None
        },
        Command::FocusNext => {
            state.focus_next(navigation);
            None
        },
        Command::FocusPrev => {
            state.focus_prev(navigation);
            None
        },
        Command::ToggleInvertY => {
            state.toggle_invert_y();
            None
        },
        Command::ToggleInfo => {
            state.toggle_info();
            None
        },
        Command::ToggleHelp => {
            state.toggle_help();
            None
        },
        Command::NoOp => None,
    }
}

/// Once the monitor has adopted the focus and scroll positions of a
/// planned frame, it can carry out any command: no scroll or page step can
/// run a position past the largest `usize`.
pub proof fn law_planned_frame_admits_every_command(
    content: Rect,
    before: MonitorState,
    view: MonitorViewModel,
    plan: RenderPlan,
    after: MonitorState,
    command: Command,
)
    requires
        is_render_plan(plan, content, before, view),
        before.counts.abs + before.counts.rel < usize::MAX,
        after.focus == plan.spec_navigation().focus,
        after.axis_scroll == plan.spec_navigation().scroll.axis,
        after.button_row_scroll == plan.spec_navigation().scroll.button_row,
    ensures
        command_fits(command, after, plan.spec_navigation()),
{
}

} // verus!
