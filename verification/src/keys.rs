use vstd::prelude::*;

use crate::ui::numbers::push_char;

verus! {

/// A key of the keyboard as the terminal reports it.
#[derive(Clone, Copy, Debug, PartialEq, Eq, Structural)]
pub enum KeyCode {
    Char(char),
    Up,
    Down,
    Left,
    Right,
    PageUp,
    PageDown,
    Home,
    End,
    Enter,
    Esc,
    Backspace,
    Tab,
    Delete,
    /// Any key the bindings never name.
    Other,
}

/// Modifier keys held with a key; `other` stands for any modifier beyond
/// shift, control and alt.
#[derive(Clone, Copy, Debug, PartialEq, Eq, Structural)]
pub struct KeyModifiers {
    pub shift: bool,
    pub ctrl: bool,
    pub alt: bool,
    pub other: bool,
}

impl KeyModifiers {
    pub fn none() -> (m: Self)
        ensures
            m == (KeyModifiers { shift: false, ctrl: false, alt: false, other: false }),
    {
        Self { shift: false, ctrl: false, alt: false, other: false }
    }

    pub fn shift() -> (m: Self)
        ensures
            m == (KeyModifiers { shift: true, ctrl: false, alt: false, other: false }),
    {
        Self { shift: true, ctrl: false, alt: false, other: false }
    }

    pub fn ctrl() -> (m: Self)
        ensures
            m == (KeyModifiers { shift: false, ctrl: true, alt: false, other: false }),
    {
        Self { shift: false, ctrl: true, alt: false, other: false }
    }

    pub fn alt() -> (m: Self)
        ensures
            m == (KeyModifiers { shift: false, ctrl: false, alt: true, other: false }),
    {
        Self { shift: false, ctrl: false, alt: true, other: false }
    }

    pub open spec fn is_empty(self) -> bool {
        !self.shift && !self.ctrl && !self.alt && !self.other
    }
}

/// A key press.
#[derive(Clone, Copy, Debug, PartialEq, Eq, Structural)]
pub struct KeyEvent {
    pub code: KeyCode,
    pub modifiers: KeyModifiers,
}

impl KeyEvent {
    pub fn new(code: KeyCode, modifiers: KeyModifiers) -> (k: Self)
        ensures
            k == (KeyEvent { code, modifiers }),
    {
        Self { code, modifiers }
    }
}

/// A key, possibly with control or shift, that triggers a command.
#[derive(Clone, Copy, Debug, PartialEq, Eq, Structural)]
pub struct KeyBinding {
    pub code: KeyCode,
    pub ctrl: bool,
    pub shift: bool,
}

impl KeyBinding {
    /// The key pressed with control or alt only as the binding names them and
    /// with no other modifier; for a character the case already tells shift
    /// apart, so shift is not compared.
    pub open spec fn spec_matches(self, key: KeyEvent) -> bool {
        &&& key.code == self.code
        &&& key.modifiers.ctrl == self.ctrl
        &&& !key.modifiers.alt
        &&& !key.modifiers.other
        &&& (self.code is Char || key.modifiers.shift == self.shift)
    }

    pub fn matches(&self, key: KeyEvent) -> (b: bool)
        ensures
            b == self.spec_matches(key),
    {
        let char_key = match self.code {
            KeyCode::Char(_) => true,
            _ => false,
        };
        key.code == self.code && key.modifiers.ctrl == self.ctrl && !key.modifiers.alt
            && !key.modifiers.other && (char_key || key.modifiers.shift == self.shift)
    }

    /// How help text names the binding, such as `Up`, `k` or `Ctrl-c`.
    pub open spec fn spec_display(self) -> Seq<char> {
        (if self.ctrl { "Ctrl-"@ } else { Seq::empty() }) + (if self.shift && !(self.code is Char) {
            "Shift-"@
        } else {
            Seq::empty()
        }) + key_name(self.code)
    }

    pub fn display(&self) -> (s: String)
        ensures
            s@ == self.spec_display(),
    {
        let mut s = String::new();
        if self.ctrl {
            s.append("Ctrl-");
        }
        let char_key = match self.code {
            KeyCode::Char(_) => true,
            _ => false,
        };
        if self.shift && !char_key {
            s.append("Shift-");
        }
        let ghost before = s@;
        push_key_name(&mut s, self.code);
        assert(s@ =~= self.spec_display());
        s
    }
}

pub open spec fn key_name(code: KeyCode) -> Seq<char> {
    match code {
        KeyCode::Char(c) => seq![c],
        KeyCode::Up => "Up"@,
        KeyCode::Down => "Down"@,
        KeyCode::Left => "Left"@,
        KeyCode::Right => "Right"@,
        KeyCode::PageUp => "PageUp"@,
        KeyCode::PageDown => "PageDown"@,
        KeyCode::Home => "Home"@,
        KeyCode::End => "End"@,
        KeyCode::Enter => "Enter"@,
        KeyCode::Esc => "Esc"@,
        KeyCode::Backspace => "Backspace"@,
        KeyCode::Tab => "Tab"@,
        KeyCode::Delete => "Delete"@,
        KeyCode::Other => "?"@,
    }
}

fn push_key_name(s: &mut String, code: KeyCode)
    ensures
        final(s)@ == old(s)@ + key_name(code),
{
    match code {
        KeyCode::Char(c) => push_char(s, c),
        KeyCode::Up => s.append("Up"),
        KeyCode::Down => s.append("Down"),
        KeyCode::Left => s.append("Left"),
        KeyCode::Right => s.append("Right"),
        KeyCode::PageUp => s.append("PageUp"),
        KeyCode::PageDown => s.append("PageDown"),
        KeyCode::Home => s.append("Home"),
        KeyCode::End => s.append("End"),
        KeyCode::Enter => s.append("Enter"),
        KeyCode::Esc => s.append("Esc"),
        KeyCode::Backspace => s.append("Backspace"),
        KeyCode::Tab => s.append("Tab"),
        KeyCode::Delete => s.append("Delete"),
        KeyCode::Other => s.append("?"),
    }
    assert(final(s)@ =~= old(s)@ + key_name(code));
}

pub open spec fn spec_matches_any(bindings: Seq<KeyBinding>, key: KeyEvent) -> bool {
    exists|i: int| 0 <= i < bindings.len() && #[trigger] bindings[i].spec_matches(key)
}

/// Whether any of the bindings triggers on `key`.
pub fn matches_any(key: KeyEvent, bindings: &[KeyBinding]) -> (b: bool)
    ensures
        b == spec_matches_any(bindings@, key),
{
    let mut i: usize = 0;
    while i < bindings.len()
        invariant
            i <= bindings@.len(),
            forall|k: int| 0 <= k < i ==> !(#[trigger] bindings@[k].spec_matches(key)),
        decreases bindings@.len() - i,
    {
        if bindings[i].matches(key) {
            return true;
        }
        i = i + 1;
    }
    false
}

/// The bindings named one after another, separated by `, `.
pub open spec fn bindings_text(bindings: Seq<KeyBinding>) -> Seq<char>
    decreases bindings.len(),
{
    if bindings.len() == 0 {
        Seq::empty()
    } else if bindings.len() == 1 {
        bindings[0].spec_display()
    } else {
        bindings_text(bindings.drop_last()) + ", "@ + bindings.last().spec_display()
    }
}

/// Names the bindings for help text, such as `Up, k`.
pub fn bindings(list: &[KeyBinding]) -> (s: String)
    ensures
        s@ == bindings_text(list@),
{
    let mut s = String::new();
    let mut i: usize = 0;
    while i < list.len()
        invariant
            i <= list@.len(),
            s@ == bindings_text(list@.subrange(0, i as int)),
        decreases list@.len() - i,
    {
        if i > 0 {
            s.append(", ");
        }
        let d = list[i].display();
        s.append(d.as_str());
        proof {
            let t = list@.subrange(0, i + 1);
            assert(t.drop_last() =~= list@.subrange(0, i as int));
            assert(t.last() == list@[i as int]);
        }
        i = i + 1;
    }
    assert(list@.subrange(0, list@.len() as int) =~= list@);
    s
}

/// A binding of a plain character key.
pub fn char_key(c: char) -> (b: KeyBinding)
    ensures
        b == (KeyBinding { code: KeyCode::Char(c), ctrl: false, shift: false }),
{
    KeyBinding { code: KeyCode::Char(c), ctrl: false, shift: false }
}

/// A binding of a character key held with control.
pub fn ctrl_key(c: char) -> (b: KeyBinding)
    ensures
        b == (KeyBinding { code: KeyCode::Char(c), ctrl: true, shift: false }),
{
    KeyBinding { code: KeyCode::Char(c), ctrl: true, shift: false }
}

/// A binding of a named key without modifiers.
pub fn plain_key(code: KeyCode) -> (b: KeyBinding)
    ensures
        b == (KeyBinding { code, ctrl: false, shift: false }),
{
    KeyBinding { code, ctrl: false, shift: false }
}

} // verus!
