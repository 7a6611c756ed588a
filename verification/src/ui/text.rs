use vstd::prelude::*;

use crate::ui::numbers::push_char;

verus! {

/// The terminal cells `unicode_width` gives a text.
pub uninterp spec fn str_width(s: Seq<char>) -> usize;

/// The terminal cells `unicode_width` gives a character on its own;
/// `None` for a control character.
pub uninterp spec fn char_width(c: char) -> Option<usize>;

/// Calls `UnicodeWidthStr::width`, which depends on the text alone; named
/// `str_width`.
#[verifier::external_body]
fn unicode_str_width(text: &str) -> (w: usize)
    ensures
        w == str_width(text@),
{
    unicode_width::UnicodeWidthStr::width(text)
}

/// Calls `UnicodeWidthChar::width`, which depends on the character alone;
/// named `char_width`.
#[verifier::external_body]
fn unicode_char_width(c: char) -> (w: Option<usize>)
    ensures
        w == char_width(c),
{
    unicode_width::UnicodeWidthChar::width(c)
}

/// The character that marks a truncated text.
pub const ELLIPSIS: char = '\u{2026}';

pub open spec fn ellipsis() -> Seq<char> {
    seq![ELLIPSIS]
}

/// The cells a text takes in the terminal.
pub fn display_width(text: &str) -> (w: usize)
    ensures
        w == str_width(text@),
{
    unicode_str_width(text)
}

/// The cells a character takes when a text is cut: control characters
/// take none.
pub open spec fn cut_width(c: char) -> nat {
    match char_width(c) {
        Some(w) => w as nat,
        None => 0,
    }
}

/// The longest start of `s` whose characters, counted one by one, fit in
/// `budget` cells; it ends before the first character that does not fit.
pub open spec fn take_width(s: Seq<char>, budget: nat) -> Seq<char>
    decreases s.len(),
{
    if s.len() == 0 {
        seq![]
    } else if cut_width(s[0]) > budget {
        seq![]
    } else {
        seq![s[0]] + take_width(s.drop_first(), (budget - cut_width(s[0])) as nat)
    }
}

/// The start of `text` that fits in `max_width` cells.
pub fn take_display_width(text: &str, max_width: usize) -> (out: String)
    ensures
        out@ == take_width(text@, max_width as nat),
{
    let n = text.unicode_len();
    let ghost s = text@;
    let mut out = String::new();
    let mut width: usize = 0;
    let mut i: usize = 0;
    let mut done = false;
    assert(s.take(0) =~= Seq::<char>::empty());
    assert(s.skip(0) =~= s);
    while i < n && !done
        invariant
            n == s.len(),
            s == text@,
            i <= n,
            width <= max_width,
            out@ == s.take(i as int),
            done ==> take_width(s.skip(i as int), (max_width - width) as nat) == Seq::<char>::empty(),
            take_width(s, max_width as nat) == s.take(i as int) + take_width(
                s.skip(i as int),
                (max_width - width) as nat,
            ),
        decreases n - i + (if done { 0int } else { 1int }),
    {
        let c = text.get_char(i);
        let cw: usize = match unicode_char_width(c) {
            Some(w) => w,
            None => 0,
        };
        let ghost rest = s.skip(i as int);
        assert(rest[0] == c);
        assert(rest.drop_first() =~= s.skip(i + 1));
        if cw > max_width - width {
            done = true;
        } else {
            push_char(&mut out, c);
            width = width + cw;
            assert(s.take(i + 1) =~= s.take(i as int).push(c));
            assert(s.take(i as int) + take_width(rest, (max_width - (width - cw)) as nat) =~= s.take(i + 1)
                + take_width(s.skip(i + 1), (max_width - width) as nat));
            i = i + 1;
        }
    }
    if !done {
        assert(s.skip(i as int) =~= Seq::<char>::empty());
        assert(s.take(i as int) =~= s);
    }
    assert(take_width(s, max_width as nat) =~= out@);
    out
}

pub open spec fn spec_truncate_display_width(text: Seq<char>, max_width: nat) -> Seq<char> {
    if max_width == 0 {
        seq![]
    } else if str_width(text) <= max_width {
        text
    } else {
        let ew = str_width(ellipsis()) as nat;
        if max_width <= ew {
            let prefix = take_width(text, max_width);
            if prefix.len() == 0 {
                ellipsis()
            } else {
                prefix
            }
        } else {
            let prefix = take_width(text, (max_width - ew) as nat);
            if prefix.len() == 0 {
                ellipsis()
            } else {
                prefix + ellipsis()
            }
        }
    }
}

/// `text` cut to fit `max_width` cells: unchanged where it fits, else the
/// start that fits followed by an ellipsis, where there is room for both.
pub fn truncate_display_width(text: &str, max_width: usize) -> (out: String)
    ensures
        out@ == spec_truncate_display_width(text@, max_width as nat),
{
    if max_width == 0 {
        return String::new();
    }
    if display_width(text) <= max_width {
        return String::from_str(text);
    }
    let mut mark = String::new();
    push_char(&mut mark, ELLIPSIS);
    assert(mark@ =~= ellipsis());
    let ellipsis_width = display_width(mark.as_str());
    if max_width <= ellipsis_width {
        let prefix = take_display_width(text, max_width);
        if prefix.as_str().unicode_len() == 0 {
            return mark;
        }
        return prefix;
    }
    let mut prefix = take_display_width(text, max_width - ellipsis_width);
    if prefix.as_str().unicode_len() == 0 {
        return mark;
    }
    push_char(&mut prefix, ELLIPSIS);
    assert(prefix@ =~= take_width(text@, (max_width - ellipsis_width) as nat) + ellipsis());
    prefix
}

/// The cells of a text counted character by character, as cutting does.
pub open spec fn cut_widths(s: Seq<char>) -> nat
    decreases s.len(),
{
    if s.len() == 0 {
        0
    } else {
        cut_width(s[0]) + cut_widths(s.drop_first())
    }
}

/// What cutting keeps is a start of the text that fits the budget.
pub proof fn law_cut_fits(s: Seq<char>, budget: nat)
    ensures
        take_width(s, budget).len() <= s.len(),
        take_width(s, budget) == s.take(take_width(s, budget).len() as int),
        cut_widths(take_width(s, budget)) <= budget,
    decreases s.len(),
{
    if s.len() > 0 && cut_width(s[0]) <= budget {
        let rest = s.drop_first();
        let b = (budget - cut_width(s[0])) as nat;
        law_cut_fits(rest, b);
        let t = take_width(s, budget);
        assert(t == seq![s[0]] + take_width(rest, b));
        assert(t.drop_first() =~= take_width(rest, b));
        assert(t =~= s.take(t.len() as int));
    } else {
        assert(take_width(s, budget) =~= s.take(0));
    }
}

} // verus!
