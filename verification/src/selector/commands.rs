use vstd::prelude::*;

use crate::keys::{
    bindings, char_key, ctrl_key, matches_any, plain_key, spec_matches_any, KeyBinding, KeyCode,
    KeyEvent,
};
use crate::monitor::controls::{chr, ctrl, help_line, plain};

verus! {

/// Whether the selector shows its list or its help.
#[derive(Clone, Copy, Debug, PartialEq, Eq)]
pub enum SelectorMode {
    Browsing,
    Help,
}

impl SelectorMode {
    pub fn is_browsing(self) -> (b: bool)
        ensures
            b == (self == SelectorMode::Browsing),
    {
        matches!(self, SelectorMode::Browsing)
    }
}

/// What a key press asks the selector to do.
#[derive(Clone, Copy, Debug, PartialEq, Eq)]
pub enum SelectorCommand {
    Exit,
    Back,
    ToggleHelp,
    Refresh,
    Select,
    ClearSearch,
    DeleteChar,
    AddChar(char),
    MoveUp,
    MoveDown,
    PageUp,
    PageDown,
    Home,
    End,
    NoOp,
}

/// The selector's key bindings.
pub struct SelectorKeys {
    pub move_up: Vec<KeyBinding>,
    pub move_down: Vec<KeyBinding>,
    pub page_up: Vec<KeyBinding>,
    pub page_down: Vec<KeyBinding>,
    pub home: Vec<KeyBinding>,
    pub end: Vec<KeyBinding>,
    pub select: Vec<KeyBinding>,
    pub back: Vec<KeyBinding>,
    pub exit: Vec<KeyBinding>,
    pub clear_search: Vec<KeyBinding>,
    pub delete_char: Vec<KeyBinding>,
    pub refresh: Vec<KeyBinding>,
    pub toggle_help: Vec<KeyBinding>,
}

/// The default selector bindings: Up/Ctrl-p and Down/Ctrl-n move,
/// PageUp/PageDown page, Home/End jump, Enter opens, Esc goes back,
/// Ctrl-c exits, Ctrl-u clears the query, Backspace deletes a character,
/// Ctrl-r refreshes and ? shows help.
pub open spec fn spec_selector_keys_ok(k: SelectorKeys) -> bool {
    &&& k.move_up@ == seq![plain(KeyCode::Up), ctrl('p')]
    &&& k.move_down@ == seq![plain(KeyCode::Down), ctrl('n')]
    &&& k.page_up@ == seq![plain(KeyCode::PageUp)]
    &&& k.page_down@ == seq![plain(KeyCode::PageDown)]
    &&& k.home@ == seq![plain(KeyCode::Home)]
    &&& k.end@ == seq![plain(KeyCode::End)]
    &&& k.select@ == seq![plain(KeyCode::Enter)]
    &&& k.back@ == seq![plain(KeyCode::Esc)]
    &&& k.exit@ == seq![ctrl('c')]
    &&& k.clear_search@ == seq![ctrl('u')]
    &&& k.delete_char@ == seq![plain(KeyCode::Backspace)]
    &&& k.refresh@ == seq![ctrl('r')]
    &&& k.toggle_help@ == seq![chr('?')]
}

/// The default selector bindings.
pub fn selector_keys() -> (k: SelectorKeys)
    ensures
        spec_selector_keys_ok(k),
{
    let k = SelectorKeys {
        move_up: vec![plain_key(KeyCode::Up), ctrl_key('p')],
        move_down: vec![plain_key(KeyCode::Down), ctrl_key('n')],
        page_up: vec![plain_key(KeyCode::PageUp)],
        page_down: vec![plain_key(KeyCode::PageDown)],
        home: vec![plain_key(KeyCode::Home)],
        end: vec![plain_key(KeyCode::End)],
        select: vec![plain_key(KeyCode::Enter)],
        back: vec![plain_key(KeyCode::Esc)],
        exit: vec![ctrl_key('c')],
        clear_search: vec![ctrl_key('u')],
        delete_char: vec![plain_key(KeyCode::Backspace)],
        refresh: vec![ctrl_key('r')],
        toggle_help: vec![char_key('?')],
    };
    assert(k.move_up@ =~= seq![plain(KeyCode::Up), ctrl('p')]);
    assert(k.move_down@ =~= seq![plain(KeyCode::Down), ctrl('n')]);
    assert(k.page_up@ =~= seq![plain(KeyCode::PageUp)]);
    assert(k.page_down@ =~= seq![plain(KeyCode::PageDown)]);
    assert(k.home@ =~= seq![plain(KeyCode::Home)]);
    assert(k.end@ =~= seq![plain(KeyCode::End)]);
    assert(k.select@ =~= seq![plain(KeyCode::Enter)]);
    assert(k.back@ =~= seq![plain(KeyCode::Esc)]);
    assert(k.exit@ =~= seq![ctrl('c')]);
    assert(k.clear_search@ =~= seq![ctrl('u')]);
    assert(k.delete_char@ =~= seq![plain(KeyCode::Backspace)]);
    assert(k.refresh@ =~= seq![ctrl('r')]);
    assert(k.toggle_help@ =~= seq![chr('?')]);
    k
}

pub open spec fn spec_add_char_command(key: KeyEvent) -> SelectorCommand {
    match key.code {
        KeyCode::Char(c) => if !key.modifiers.ctrl && !key.modifiers.alt && !key.modifiers.other {
            SelectorCommand::AddChar(c)
        } else {
            SelectorCommand::NoOp
        },
        _ => SelectorCommand::NoOp,
    }
}

/// A character typed plainly or with shift extends the search query;
/// anything else does nothing.
pub fn add_char_command(key: KeyEvent) -> (c: SelectorCommand)
    ensures
        c == spec_add_char_command(key),
{
    match key.code {
        KeyCode::Char(c) => if !key.modifiers.ctrl && !key.modifiers.alt && !key.modifiers.other {
            SelectorCommand::AddChar(c)
        } else {
            SelectorCommand::NoOp
        },
        _ => SelectorCommand::NoOp,
    }
}

pub open spec fn spec_command_for(key: KeyEvent, mode: SelectorMode, k: SelectorKeys) -> SelectorCommand {
    let m = |b: Seq<KeyBinding>| spec_matches_any(b, key);
    match mode {
        SelectorMode::Help => if m(k.toggle_help@) {
            SelectorCommand::ToggleHelp
        } else if m(k.exit@) {
            SelectorCommand::Exit
        } else {
            SelectorCommand::NoOp
        },
        SelectorMode::Browsing => if m(k.select@) {
            SelectorCommand::Select
        } else if m(k.back@) {
            SelectorCommand::Back
        } else if m(k.toggle_help@) {
            SelectorCommand::ToggleHelp
        } else if m(k.exit@) {
            SelectorCommand::Exit
        } else if m(k.move_up@) {
            SelectorCommand::MoveUp
        } else if m(k.move_down@) {
            SelectorCommand::MoveDown
        } else if m(k.page_up@) {
            SelectorCommand::PageUp
        } else if m(k.page_down@) {
            SelectorCommand::PageDown
        } else if m(k.home@) {
            SelectorCommand::Home
        } else if m(k.end@) {
            SelectorCommand::End
        } else if m(k.delete_char@) {
            SelectorCommand::DeleteChar
        } else if m(k.clear_search@) {
            SelectorCommand::ClearSearch
        } else if m(k.refresh@) {
            SelectorCommand::Refresh
        } else {
            spec_add_char_command(key)
        },
    }
}

/// The command a key press means in the selector. With help open only
/// closing it and exiting are recognised; while browsing the first binding
/// group that matches wins, and an unbound character extends the query.
pub fn command_for(key: KeyEvent, mode: SelectorMode) -> (c: SelectorCommand)
    ensures
        forall|k: SelectorKeys| spec_selector_keys_ok(k) ==> c == spec_command_for(key, mode, k),
{
    let keys = selector_keys();
    let c = match mode {
        SelectorMode::Help => {
            if matches_any(key, keys.toggle_help.as_slice()) {
                SelectorCommand::ToggleHelp
            } else if matches_any(key, keys.exit.as_slice()) {
                SelectorCommand::Exit
            } else {
                SelectorCommand::NoOp
            }
        },
        SelectorMode::Browsing => {
            if matches_any(key, keys.select.as_slice()) {
                SelectorCommand::Select
            } else if matches_any(key, keys.back.as_slice()) {
                SelectorCommand::Back
            } else if matches_any(key, keys.toggle_help.as_slice()) {
                SelectorCommand::ToggleHelp
            } else if matches_any(key, keys.exit.as_slice()) {
                SelectorCommand::Exit
            } else if matches_any(key, keys.move_up.as_slice()) {
                SelectorCommand::MoveUp
            } else if matches_any(key, keys.move_down.as_slice()) {
                SelectorCommand::MoveDown
            } else if matches_any(key, keys.page_up.as_slice()) {
                SelectorCommand::PageUp
            } else if matches_any(key, keys.page_down.as_slice()) {
                SelectorCommand::PageDown
            } else if matches_any(key, keys.home.as_slice()) {
                SelectorCommand::Home
            } else if matches_any(key, keys.end.as_slice()) {
                SelectorCommand::End
            } else if matches_any(key, keys.delete_char.as_slice()) {
                SelectorCommand::DeleteChar
            } else if matches_any(key, keys.clear_search.as_slice()) {
                SelectorCommand::ClearSearch
            } else if matches_any(key, keys.refresh.as_slice()) {
                SelectorCommand::Refresh
            } else {
                add_char_command(key)
            }
        },
    };
    assert forall|k2: SelectorKeys| spec_selector_keys_ok(k2) implies c == spec_command_for(key, mode, k2) by {
        assert(k2.move_up@ == keys.move_up@);
        assert(k2.move_down@ == keys.move_down@);
        assert(k2.page_up@ == keys.page_up@);
        assert(k2.page_down@ == keys.page_down@);
        assert(k2.home@ == keys.home@);
        assert(k2.end@ == keys.end@);
        assert(k2.select@ == keys.select@);
        assert(k2.back@ == keys.back@);
        assert(k2.exit@ == keys.exit@);
        assert(k2.clear_search@ == keys.clear_search@);
        assert(k2.delete_char@ == keys.delete_char@);
        assert(k2.refresh@ == keys.refresh@);
        assert(k2.toggle_help@ == keys.toggle_help@);
    }
    c
}

fn push_help_line(lines: &mut Vec<String>, label: &str, list: &Vec<KeyBinding>)
    ensures
        final(lines)@.len() == old(lines)@.len() + 1,
        forall|i: int| 0 <= i < old(lines)@.len() ==> final(lines)@[i] == old(lines)@[i],
        final(lines)@.last()@ == help_line(label@, list@),
{
    let mut line = String::from_str(label);
    let b = bindings(list.as_slice());
    line.append(b.as_str());
    lines.push(line);
}

/// The selector's help text: one line per command with the keys bound to it.
pub fn help_lines() -> (lines: Vec<String>)
    ensures
        lines@.len() == 13,
        forall|k: SelectorKeys| #[trigger] spec_selector_keys_ok(k) ==> {
            &&& lines@[0]@ == help_line("Move up: "@, k.move_up@)
            &&& lines@[1]@ == help_line("Move down: "@, k.move_down@)
            &&& lines@[2]@ == help_line("Page up: "@, k.page_up@)
            &&& lines@[3]@ == help_line("Page down: "@, k.page_down@)
            &&& lines@[4]@ == help_line("Home: "@, k.home@)
            &&& lines@[5]@ == help_line("End: "@, k.end@)
            &&& lines@[6]@ == help_line("Select: "@, k.select@)
            &&& lines@[7]@ == help_line("Back: "@, k.back@)
            &&& lines@[8]@ == help_line("Exit: "@, k.exit@)
            &&& lines@[9]@ == help_line("Search clear: "@, k.clear_search@)
            &&& lines@[10]@ == help_line("Delete char: "@, k.delete_char@)
            &&& lines@[11]@ == help_line("Refresh: "@, k.refresh@)
            &&& lines@[12]@ == help_line("Help: "@, k.toggle_help@)
        },
{
    let keys = selector_keys();
    let mut lines: Vec<String> = Vec::new();
    push_help_line(&mut lines, "Move up: ", &keys.move_up);
    push_help_line(&mut lines, "Move down: ", &keys.move_down);
    push_help_line(&mut lines, "Page up: ", &keys.page_up);
    push_help_line(&mut lines, "Page down: ", &keys.page_down);
    push_help_line(&mut lines, "Home: ", &keys.home);
    push_help_line(&mut lines, "End: ", &keys.end);
    push_help_line(&mut lines, "Select: ", &keys.select);
    push_help_line(&mut lines, "Back: ", &keys.back);
    push_help_line(&mut lines, "Exit: ", &keys.exit);
    push_help_line(&mut lines, "Search clear: ", &keys.clear_search);
    push_help_line(&mut lines, "Delete char: ", &keys.delete_char);
    push_help_line(&mut lines, "Refresh: ", &keys.refresh);
    push_help_line(&mut lines, "Help: ", &keys.toggle_help);
    lines
}

/// Ctrl-c exits the selector in either mode.
pub proof fn law_ctrl_c_always_exits(mode: SelectorMode, k: SelectorKeys)
    requires
        spec_selector_keys_ok(k),
    ensures
        spec_command_for(crate::monitor::controls::ctrl_c(), mode, k) == SelectorCommand::Exit,
{
    let key = crate::monitor::controls::ctrl_c();
    assert(k.exit@[0].spec_matches(key));
    assert(!spec_matches_any(k.toggle_help@, key)) by {
        assert(!k.toggle_help@[0].spec_matches(key));
    }
    assert(!spec_matches_any(k.select@, key)) by {
        assert(!k.select@[0].spec_matches(key));
    }
    assert(!spec_matches_any(k.back@, key)) by {
        assert(!k.back@[0].spec_matches(key));
    }
}

/// Typing changes the query only with plain or shifted characters: a key
/// held with control or alt never becomes part of the search.
pub proof fn law_only_plain_characters_search(key: KeyEvent, mode: SelectorMode, k: SelectorKeys, c: char)
    requires
        spec_selector_keys_ok(k),
        key.modifiers.ctrl || key.modifiers.alt || key.modifiers.other,
    ensures
        spec_command_for(key, mode, k) != SelectorCommand::AddChar(c),
{
}

} // verus!
