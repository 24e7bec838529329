//! The one-line prompt editor.
use vstd::prelude::*;

use crate::app::Action;
use crate::event::{KeyEvent, Scancode};
use crate::text::{chars_of, is_whitespace, string_of, string_of_range, trim_start_spec, whitespace};

verus! {

/// How the prompt text will be interpreted, from its first non-blank character.
#[derive(Debug, Clone, Copy, PartialEq, Eq, Structural)]
pub enum InputMode {
    Normal,
    Command,
    Shell,
    FileRef,
    ToolRef,
}

/// The mode for prompt text `s`.
pub open spec fn input_mode_of(s: Seq<char>) -> InputMode {
    let t = trim_start_spec(s);
    if t.len() == 0 {
        InputMode::Normal
    } else if t[0] == '/' {
        InputMode::Command
    } else if t[0] == '!' {
        InputMode::Shell
    } else if t[0] == '@' {
        InputMode::FileRef
    } else if t[0] == '#' {
        InputMode::ToolRef
    } else {
        InputMode::Normal
    }
}

/// The marker character a mode strips from the front of the text, if any.
pub open spec fn mode_marker(mode: InputMode) -> Option<char> {
    match mode {
        InputMode::Command => Some('/'),
        InputMode::Shell => Some('!'),
        InputMode::FileRef => Some('@'),
        InputMode::ToolRef => Some('#'),
        InputMode::Normal => None,
    }
}

/// The two-character prefix drawn before the text in a mode.
pub open spec fn mode_prefix(mode: InputMode) -> Seq<char> {
    match mode {
        InputMode::Command => "/ "@,
        InputMode::Shell => "! "@,
        InputMode::FileRef => "@ "@,
        InputMode::ToolRef => "# "@,
        InputMode::Normal => "> "@,
    }
}

/// How many copies of `c` begin `s`.
pub open spec fn leading_count(s: Seq<char>, c: char) -> nat
    decreases s.len(),
{
    if s.len() > 0 && s[0] == c {
        1 + leading_count(s.drop_first(), c)
    } else {
        0
    }
}

/// The number of characters the mode marker removes from the front of `s`.
pub open spec fn stripped_count(s: Seq<char>) -> nat {
    match mode_marker(input_mode_of(s)) {
        Some(c) => leading_count(s, c),
        None => 0,
    }
}

/// The full line the prompt draws: mode prefix, then the text without its markers.
pub open spec fn display_line(s: Seq<char>) -> Seq<char> {
    mode_prefix(input_mode_of(s)) + s.skip(stripped_count(s) as int)
}

/// Position of the caret within `display_line`.
pub open spec fn caret_position(s: Seq<char>, cursor: nat) -> nat {
    2 + (if cursor >= stripped_count(s) {
        (cursor - stripped_count(s)) as nat
    } else {
        0
    })
}

/// First displayed character when the line is `width` columns wide: the caret
/// is kept in view, pinned to the last column once the text overflows.
pub open spec fn scroll_start(caret: nat, width: nat) -> nat {
    let keep = if width >= 1 {
        (width - 1) as nat
    } else {
        0
    };
    if caret >= keep {
        (caret - keep) as nat
    } else {
        0
    }
}

pub proof fn lemma_leading_count_bound(s: Seq<char>, c: char)
    ensures
        leading_count(s, c) <= s.len(),
        forall|i: int| 0 <= i < leading_count(s, c) ==> #[trigger] s[i] == c,
        leading_count(s, c) < s.len() ==> s[leading_count(s, c) as int] != c,
    decreases s.len(),
{
    if s.len() > 0 && s[0] == c {
        lemma_leading_count_bound(s.drop_first(), c);
        assert forall|i: int| 0 <= i < leading_count(s, c) implies #[trigger] s[i] == c by {
            if i > 0 {
                assert(s[i] == s.drop_first()[i - 1]);
            }
        }
        if leading_count(s, c) < s.len() {
            assert(s[leading_count(s, c) as int] == s.drop_first()[leading_count(
                s.drop_first(),
                c,
            ) as int]);
        }
    }
}

/// The prompt editor: text and a caret between characters, held as the text
/// before the caret and the text after it.
pub struct PromptBar {
    before: Vec<char>,
    after: Vec<char>,
}

impl View for PromptBar {
    type V = (Seq<char>, nat);

    /// The text and the caret position, in characters.
    closed spec fn view(&self) -> (Seq<char>, nat) {
        (self.before@ + self.after@, self.before@.len())
    }
}

impl PromptBar {
    /// The caret never leaves the text.
    pub proof fn lemma_cursor_in_bounds(bar: &PromptBar)
        ensures
            bar@.1 <= bar@.0.len(),
    {
    }

    /// An empty prompt.
    pub fn new() -> (r: PromptBar)
        ensures
            r@.0.len() == 0,
            r@.1 == 0,
    {
        PromptBar { before: Vec::new(), after: Vec::new() }
    }

    fn all_chars(&self) -> (r: Vec<char>)
        ensures
            r@ == self@.0,
    {
        let mut out: Vec<char> = Vec::new();
        let mut i: usize = 0;
        while i < self.before.len()
            invariant
                i <= self.before@.len(),
                out@ == self.before@.take(i as int),
            decreases self.before@.len() - i,
        {
            out.push(self.before[i]);
            proof {
                assert(self.before@.take(i + 1) == self.before@.take(i as int).push(
                    self.before@[i as int],
                ));
            }
            i += 1;
        }
        let mut j: usize = 0;
        while j < self.after.len()
            invariant
                j <= self.after@.len(),
                out@ == self.before@ + self.after@.take(j as int),
            decreases self.after@.len() - j,
        {
            out.push(self.after[j]);
            proof {
                assert(self.after@.take(j + 1) == self.after@.take(j as int).push(
                    self.after@[j as int],
                ));
            }
            j += 1;
        }
        proof {
            assert(self.before@.take(self.before@.len() as int) == self.before@);
            assert(self.after@.take(self.after@.len() as int) == self.after@);
        }
        out
    }

    /// The text typed so far.
    pub fn text(&self) -> (r: String)
        ensures
            r@ == self@.0,
    {
        let all = self.all_chars();
        string_of(all.as_slice())
    }

    /// The mode the current text selects.
    pub fn input_mode(&self) -> (r: InputMode)
        ensures
            r == input_mode_of(self@.0),
    {
        let input = self.all_chars();
        let mut i: usize = 0;
        proof {
            crate::text::lemma_leading_ws_bound(input@);
        }
        while i < input.len() && is_whitespace(input[i])
            invariant
                i <= crate::text::leading_ws(input@),
                crate::text::leading_ws(input@) <= input@.len(),
                forall|j: int|
                    0 <= j < crate::text::leading_ws(input@) ==> whitespace(#[trigger] input@[j]),
                crate::text::leading_ws(input@) < input@.len() ==> !whitespace(
                    input@[crate::text::leading_ws(input@) as int],
                ),
            decreases input@.len() - i,
        {
            i += 1;
        }
        if i >= input.len() {
            return InputMode::Normal;
        }
        let c = input[i];
        if c == '/' {
            InputMode::Command
        } else if c == '!' {
            InputMode::Shell
        } else if c == '@' {
            InputMode::FileRef
        } else if c == '#' {
            InputMode::ToolRef
        } else {
            InputMode::Normal
        }
    }

    /// What a key does to the prompt `s`, giving `t` and the result `r` (see
    /// `handle_key`).
    pub open spec fn key_edited(s: PromptBar, t: PromptBar, key: KeyEvent, r: Option<Action>) -> bool {
        &&& (match key.scancode {
            Scancode::Char(c) => {
                &&& t@.0 == s@.0.insert(s@.1 as int, c)
                &&& t@.1 == s@.1 + 1
                &&& r is None
            },
            Scancode::Backspace => {
                &&& (s@.1 > 0 ==> t@.0 == s@.0.remove(
                    s@.1 - 1,
                ) && t@.1 == s@.1 - 1)
                &&& (s@.1 == 0 ==> t@ == s@)
                &&& r is None
            },
            Scancode::Delete => {
                &&& (s@.1 < s@.0.len() ==> t@.0 == s@.0.remove(s@.1 as int))
                &&& (s@.1 == s@.0.len() ==> t@.0 == s@.0)
                &&& t@.1 == s@.1
                &&& r is None
            },
            Scancode::Left => {
                &&& t@.0 == s@.0
                &&& t@.1 == if s@.1 > 0 {
                    (s@.1 - 1) as nat
                } else {
                    0
                }
                &&& r is None
            },
            Scancode::Right => {
                &&& t@.0 == s@.0
                &&& t@.1 == if s@.1 < s@.0.len() {
                    s@.1 + 1
                } else {
                    s@.1
                }
                &&& r is None
            },
            Scancode::Home => t@ == (s@.0, 0nat) && r is None,
            Scancode::End => t@ == (s@.0, s@.0.len()) && r is None,
            Scancode::Enter => {
                &&& t == s
                &&& (s@.0.len() > 0 ==> r == Some(Action::SendMessage))
                &&& (s@.0.len() == 0 ==> r is None)
            },
            _ => t == s && r is None,
        })
    }

    /// Edits the text or moves the caret; Enter on non-empty text asks to send it.
    pub fn handle_key(&mut self, key: &KeyEvent) -> (r: Option<Action>)
        ensures
            Self::key_edited(*old(self), *final(self), *key, r),
    {
        let ghost b0 = self.before@;
        let ghost a0 = self.after@;
        match key.scancode {
            Scancode::Char(c) => {
                self.before.push(c);
                assert(self@.0 =~= old(self)@.0.insert(old(self)@.1 as int, c));
                None
            },
            Scancode::Backspace => {
                if self.before.len() > 0 {
                    self.before.pop();
                    assert(self@.0 =~= old(self)@.0.remove(old(self)@.1 - 1));
                }
                None
            },
            Scancode::Delete => {
                if self.after.len() > 0 {
                    self.after.remove(0);
                    assert(self@.0 =~= old(self)@.0.remove(old(self)@.1 as int));
                }
                None
            },
            Scancode::Left => {
                if self.before.len() > 0 {
                    let c = self.before.pop().unwrap();
                    self.after.insert(0, c);
                    assert(self@.0 =~= old(self)@.0);
                }
                None
            },
            Scancode::Right => {
                if self.after.len() > 0 {
                    let c = self.after.remove(0);
                    self.before.push(c);
                    assert(self@.0 =~= old(self)@.0);
                }
                None
            },
            Scancode::Home => {
                self.move_to(0);
                None
            },
            Scancode::End => {
                let n = self.all_chars().len();
                self.move_to(n);
                None
            },
            Scancode::Enter => {
                if self.before.len() > 0 || self.after.len() > 0 {
                    Some(Action::SendMessage)
                } else {
                    None
                }
            },
            _ => None,
        }
    }

    /// Moves the caret to `pos`, keeping the text.
    fn move_to(&mut self, pos: usize)
        requires
            pos <= old(self)@.0.len(),
        ensures
            final(self)@ == (old(self)@.0, pos as nat),
    {
        let all = self.all_chars();
        let mut before: Vec<char> = Vec::new();
        let mut after: Vec<char> = Vec::new();
        let mut i: usize = 0;
        while i < all.len()
            invariant
                i <= all@.len(),
                pos <= all@.len(),
                before@ == all@.take(if i < pos { i as int } else { pos as int }),
                after@ == if i <= pos {
                    Seq::<char>::empty()
                } else {
                    all@.subrange(pos as int, i as int)
                },
            decreases all@.len() - i,
        {
            if i < pos {
                before.push(all[i]);
                assert(all@.take(i + 1) == all@.take(i as int).push(all@[i as int]));
            } else {
                after.push(all[i]);
                assert(all@.subrange(pos as int, i + 1) =~= (if i <= pos {
                    Seq::<char>::empty()
                } else {
                    all@.subrange(pos as int, i as int)
                }).push(all@[i as int]));
            }
            i += 1;
        }
        self.before = before;
        self.after = after;
        assert(self@.0 =~= all@);
    }

    /// Empties the prompt.
    pub fn clear(&mut self)
        ensures
            final(self)@.0.len() == 0,
            final(self)@.1 == 0,
    {
        self.before.clear();
        self.after.clear();
    }

    /// Whether the prompt holds no text.
    pub fn is_empty(&self) -> (r: bool)
        ensures
            r == (self@.0.len() == 0),
    {
        self.before.len() == 0 && self.after.len() == 0
    }

    /// Inserts `text` at the caret and moves the caret past it.
    pub fn append_text(&mut self, text: &str)
        ensures
            final(self)@.0 == old(self)@.0.take(old(self)@.1 as int) + text@ + old(self)@.0.skip(
                old(self)@.1 as int,
            ),
            final(self)@.1 == old(self)@.1 + text@.len(),
    {
        let cs = chars_of(text);
        let ghost b0 = self.before@;
        let mut i: usize = 0;
        while i < cs.len()
            invariant
                i <= cs@.len(),
                cs@ == text@,
                self.before@ == b0 + cs@.take(i as int),
                self.after@ == old(self).after@,
                b0 == old(self).before@,
            decreases cs@.len() - i,
        {
            self.before.push(cs[i]);
            proof {
                assert(cs@.take(i + 1) == cs@.take(i as int).push(cs@[i as int]));
                assert(self.before@ =~= b0 + cs@.take(i + 1));
            }
            i += 1;
        }
        proof {
            assert(cs@.take(cs@.len() as int) == cs@);
            assert(old(self)@.0.take(old(self)@.1 as int) =~= b0);
            assert(old(self)@.0.skip(old(self)@.1 as int) =~= old(self).after@);
            assert(self@.0 =~= old(self)@.0.take(old(self)@.1 as int) + text@ + old(self)@.0.skip(
                old(self)@.1 as int,
            ));
        }
    }

    /// The part of the prompt line that fits in `width` columns, and the
    /// column of the caret within it.
    pub fn visible_line(&self, width: usize) -> (r: (String, usize))
        requires
            width > 0,
            self@.0.len() + 2 <= usize::MAX,
        ensures
            ({
                let caret = caret_position(self@.0, self@.1);
                let start = scroll_start(caret, width as nat);
                let line = display_line(self@.0);
                &&& r.0@ == line.subrange(
                    if start <= line.len() {
                        start as int
                    } else {
                        line.len() as int
                    },
                    if start + width <= line.len() {
                        start + width
                    } else {
                        line.len() as int
                    },
                )
                &&& r.1 == caret - start
            }),
    {
        let input = self.all_chars();
        let cursor = self.before.len();
        let mode = self.input_mode();
        let (prefix, marker): (&str, Option<char>) = match mode {
            InputMode::Command => ("/ ", Some('/')),
            InputMode::Shell => ("! ", Some('!')),
            InputMode::FileRef => ("@ ", Some('@')),
            InputMode::ToolRef => ("# ", Some('#')),
            InputMode::Normal => ("> ", None),
        };
        proof {
            reveal_strlit("/ ");
            reveal_strlit("! ");
            reveal_strlit("@ ");
            reveal_strlit("# ");
            reveal_strlit("> ");
        }
        let mut stripped: usize = 0;
        if let Some(m) = marker {
            proof {
                lemma_leading_count_bound(input@, m);
            }
            while stripped < input.len() && input[stripped] == m
                invariant
                    stripped <= leading_count(input@, m),
                    leading_count(input@, m) <= input@.len(),
                    forall|i: int|
                        0 <= i < leading_count(input@, m) ==> #[trigger] input@[i]
                            == m,
                    leading_count(input@, m) < input@.len() ==> input@[leading_count(
                        input@,
                        m,
                    ) as int] != m,
                decreases input@.len() - stripped,
            {
                stripped += 1;
            }
        }
        let ghost s = input@;
        assert(stripped == stripped_count(s));
        let mut line: Vec<char> = chars_of(prefix);
        let mut k: usize = stripped;
        while k < input.len()
            invariant
                stripped <= k <= input@.len(),
                line@ == mode_prefix(mode) + s.subrange(stripped as int, k as int),
                s == input@,
            decreases input@.len() - k,
        {
            line.push(input[k]);
            proof {
                assert(s.subrange(stripped as int, k + 1) == s.subrange(
                    stripped as int,
                    k as int,
                ).push(s[k as int]));
            }
            k += 1;
        }
        proof {
            assert(s.subrange(stripped as int, s.len() as int) == s.skip(stripped as int));
            assert(line@ == display_line(s));
        }
        let caret: usize = 2 + if cursor >= stripped {
            cursor - stripped
        } else {
            0
        };
        let keep: usize = width - 1;
        let start: usize = if caret >= keep {
            caret - keep
        } else {
            0
        };
        let lo = if start <= line.len() {
            start
        } else {
            line.len()
        };
        let hi = if start <= line.len() && width <= line.len() - start {
            start + width
        } else {
            line.len()
        };
        (string_of_range(line.as_slice(), lo, hi), caret - start)
    }
}

impl Default for PromptBar {
    fn default() -> (r: PromptBar)
        ensures
            r@.0.len() == 0,
            r@.1 == 0,
    {
        PromptBar::new()
    }
}

/// The mode is chosen by the first character of the text that is not
/// whitespace, whatever follows it: `/` a command, `!` a shell command, `@`
/// a file reference, `#` a tool reference, anything else a chat message;
/// text that is all whitespace is a chat message.
pub proof fn law_mode_from_first_visible_char(s: Seq<char>, i: int)
    requires
        0 <= i <= s.len(),
        forall|j: int| 0 <= j < i ==> whitespace(#[trigger] s[j]),
        i < s.len() ==> !whitespace(s[i]),
    ensures
        i == s.len() ==> input_mode_of(s) == InputMode::Normal,
        i < s.len() && s[i] == '/' ==> input_mode_of(s) == InputMode::Command,
        i < s.len() && s[i] == '!' ==> input_mode_of(s) == InputMode::Shell,
        i < s.len() && s[i] == '@' ==> input_mode_of(s) == InputMode::FileRef,
        i < s.len() && s[i] == '#' ==> input_mode_of(s) == InputMode::ToolRef,
        i < s.len() && s[i] != '/' && s[i] != '!' && s[i] != '@' && s[i] != '#' ==> input_mode_of(s)
            == InputMode::Normal,
{
    crate::text::lemma_leading_ws_bound(s);
    let n = crate::text::leading_ws(s) as int;
    if n < i {
        assert(whitespace(s[n]));
    } else if n > i {
        assert(whitespace(s[i]));
    }
    assert(n == i);
    let t = trim_start_spec(s);
    assert(t.len() == s.len() - i);
    if i < s.len() {
        assert(t[0] == s[i]);
    }
}

/// Typing a character and then Backspace leaves the prompt as it was.
pub proof fn law_insert_then_backspace(s: Seq<char>, cursor: nat, c: char)
    requires
        cursor <= s.len(),
    ensures
        s.insert(cursor as int, c).remove(cursor as int) == s,
{
    assert(s.insert(cursor as int, c).remove(cursor as int) =~= s);
}

/// Inserting pasted text at the caret keeps everything before and after the
/// caret, in order.
pub proof fn law_append_keeps_surroundings(s: Seq<char>, cursor: nat, t: Seq<char>)
    requires
        cursor <= s.len(),
    ensures
        ({
            let r = s.take(cursor as int) + t + s.skip(cursor as int);
            &&& r.len() == s.len() + t.len()
            &&& r.take(cursor as int) == s.take(cursor as int)
            &&& r.skip((cursor + t.len()) as int) == s.skip(cursor as int)
        }),
{
    let r = s.take(cursor as int) + t + s.skip(cursor as int);
    assert(r.take(cursor as int) =~= s.take(cursor as int));
    assert(r.skip((cursor + t.len()) as int) =~= s.skip(cursor as int));
}

} // verus!
