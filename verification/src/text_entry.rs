//! Editing rules of the text-input widget: printable characters are
//! appended, control characters are ignored, Backspace deletes the last
//! character, Enter submits and clears the buffer.

use vstd::prelude::*;

verus! {

/// A logical key press delivered by the input layer. A `Character` key
/// carries the text the key produced, which may be more than one character.
#[derive(Clone, Debug)]
pub enum KeyInput {
    Enter,
    Backspace,
    Character(Vec<char>),
    Other,
}

/// A keyboard notification: whether the key went down, and which logical key
/// it was. Key releases never edit the buffer.
#[derive(Clone, Debug)]
pub struct KeyEvent {
    pub pressed: bool,
    pub key: KeyInput,
}

/// The character is a Unicode control code (category Cc): `U+0000` through
/// `U+001F`, or `U+007F` through `U+009F`.
pub open spec fn spec_is_control(c: char) -> bool {
    c <= '\u{1f}' || ('\u{7f}' <= c && c <= '\u{9f}')
}

/// Decide whether `c` is a Unicode control code.
pub fn is_control_char(c: char) -> (r: bool)
    ensures
        r == spec_is_control(c),
{
    let code = c as u32;
    code <= 0x1f || (0x7f <= code && code <= 0x9f)
}

/// The produced text contains at least one control character; such input is
/// ignored entirely rather than partially inserted.
pub open spec fn spec_has_control(text: Seq<char>) -> bool {
    exists|i: int| 0 <= i < text.len() && spec_is_control(text[i])
}

/// What a single pressed key does to the buffer contents.
pub open spec fn spec_apply_key(buffer: Seq<char>, key: KeyInput) -> Seq<char> {
    match key {
        KeyInput::Enter => Seq::empty(),
        KeyInput::Backspace => if buffer.len() == 0 {
            buffer
        } else {
            buffer.drop_last()
        },
        KeyInput::Character(text) => if spec_has_control(text@) {
            buffer
        } else {
            buffer + text@
        },
        KeyInput::Other => buffer,
    }
}

/// The text submitted by a single pressed key, if it submits one: only Enter
/// does, and it submits the whole buffer as it stood.
pub open spec fn spec_submitted(buffer: Seq<char>, key: KeyInput) -> Option<Seq<char>> {
    match key {
        KeyInput::Enter => Some(buffer),
        _ => None,
    }
}

/// Buffer contents after a sequence of keyboard notifications, applied in
/// order; releases are skipped.
pub open spec fn spec_apply_events(buffer: Seq<char>, events: Seq<KeyEvent>) -> Seq<char>
    decreases events.len(),
{
    if events.len() == 0 {
        buffer
    } else {
        let first = events[0];
        let rest = spec_apply_events(buffer, events.drop_first());
        if first.pressed {
            spec_apply_events(spec_apply_key(buffer, first.key), events.drop_first())
        } else {
            rest
        }
    }
}

/// The focused text-input buffer.
#[derive(Clone, Debug)]
pub struct TextBuffer {
    chars: Vec<char>,
}

impl TextBuffer {
    /// The buffered characters, in order.
    pub closed spec fn text(self) -> Seq<char> {
        self.chars@
    }

    /// Create an empty buffer.
    pub fn new() -> (buffer: TextBuffer)
        ensures
            buffer.text() == Seq::<char>::empty(),
    {
        let buffer = TextBuffer { chars: Vec::new() };
        proof {
            assert(buffer.text() =~= Seq::<char>::empty());
        }
        buffer
    }

    /// Number of buffered characters.
    pub fn len(&self) -> (n: usize)
        ensures
            n == self.text().len(),
    {
        self.chars.len()
    }

    /// Read the character at position `i`.
    pub fn get(&self, i: usize) -> (c: char)
        requires
            i < self.text().len(),
        ensures
            c == self.text()[i as int],
    {
        self.chars[i]
    }

    /// Apply one pressed key to the buffer and return the submitted text, if
    /// the key submitted one. Enter submits the whole buffer and clears it;
    /// Backspace removes exactly the last character and is a no-op on an
    /// empty buffer; produced text is appended exactly, unless it contains a
    /// control character, in which case the buffer is left unchanged; any
    /// other key leaves the buffer unchanged.
    pub fn apply_key(&mut self, key: &KeyInput) -> (submitted: Option<Vec<char>>)
        ensures
            final(self).text() == spec_apply_key(old(self).text(), *key),
            (match submitted {
                Some(text) => spec_submitted(old(self).text(), *key) == Some(text@),
                None => spec_submitted(old(self).text(), *key) is None,
            }),
    {
        match key {
            KeyInput::Enter => {
                let mut taken: Vec<char> = Vec::new();
                core::mem::swap(&mut taken, &mut self.chars);
                proof {
                    assert(self.text() =~= Seq::<char>::empty());
                }
                Some(taken)
            },
            KeyInput::Backspace => {
                if self.chars.len() > 0 {
                    let _ = self.chars.pop();
                }
                None
            },
            KeyInput::Character(text) => {
                let mut has_control = false;
                let n = text.len();
                let mut i: usize = 0;
                while i < n
                    invariant
                        i <= n,
                        n == text@.len(),
                        has_control == exists|j: int|
                            0 <= j < i && spec_is_control(#[trigger] text@[j]),
                    decreases n - i,
                {
                    if is_control_char(text[i]) {
                        has_control = true;
                    }
                    i = i + 1;
                }
                assert(has_control == spec_has_control(text@));
                if !has_control {
                    let mut k: usize = 0;
                    let ghost initial = self.text();
                    while k < n
                        invariant
                            k <= n,
                            n == text@.len(),
                            self.text() == initial + text@.take(k as int),
                        decreases n - k,
                    {
                        self.chars.push(text[k]);
                        proof {
                            assert(initial + text@.take(k as int + 1) =~= (initial + text@.take(
                                k as int,
                            )).push(text@[k as int]));
                        }
                        k = k + 1;
                    }
                    proof {
                        assert(initial + text@.take(n as int) =~= initial + text@);
                    }
                }
                None
            },
            KeyInput::Other => None,
        }
    }

    /// Apply a sequence of keyboard notifications in order, editing the
    /// buffer on every key press and skipping key releases, and return the
    /// texts submitted by Enter presses, oldest first.
    pub fn apply_events(&mut self, events: &Vec<KeyEvent>) -> (submitted: Vec<Vec<char>>)
        ensures
            final(self).text() == spec_apply_events(old(self).text(), events@),
    {
        let mut submitted: Vec<Vec<char>> = Vec::new();
        let ghost initial = self.text();
        proof {
            assert(events@.skip(0) =~= events@);
        }
        let n = events.len();
        let mut i: usize = 0;
        while i < n
            invariant
                i <= n,
                n == events@.len(),
                spec_apply_events(initial, events@) == spec_apply_events(
                    self.text(),
                    events@.skip(i as int),
                ),
            decreases n - i,
        {
            proof {
                assert(events@.skip(i as int).drop_first() =~= events@.skip(i as int + 1));
                assert(events@.skip(i as int)[0] == events@[i as int]);
            }
            let event = &events[i];
            if event.pressed {
                match self.apply_key(&event.key) {
                    Some(text) => submitted.push(text),
                    None => {},
                }
            }
            i = i + 1;
        }
        proof {
            assert(events@.skip(n as int) =~= Seq::<KeyEvent>::empty());
        }
        submitted
    }
}

/// Which text-input element, if any, holds the keyboard focus. Keyboard
/// events edit only the focused element's buffer.
#[derive(Clone, Copy, Debug)]
pub struct FocusState {
    focused: Option<u64>,
}

impl FocusState {
    /// The handle of the focused element, if one is focused.
    pub closed spec fn spec_focused(self) -> Option<u64> {
        self.focused
    }

    /// Initially nothing is focused.
    pub fn new() -> (state: FocusState)
        ensures
            state.spec_focused() is None,
    {
        FocusState { focused: None }
    }

    /// A click on a text-input element moves the focus to it: whatever held
    /// the focus before loses it, and the clicked element gains it.
    pub fn click(&mut self, target: u64)
        ensures
            final(self).spec_focused() == Some(target),
    {
        self.focused = Some(target);
    }

    /// Read the focused element's handle, if any.
    pub fn focused(&self) -> (r: Option<u64>)
        ensures
            r == self.spec_focused(),
    {
        self.focused
    }
}

/// Description of the text-input widget the UI spawns: a centered,
/// clickable text node. Extents are pixel counts.
#[derive(Clone, Copy, Debug, PartialEq, Eq, Structural)]
pub struct TextWidget {
    pub font_size: u32,
    pub height_px: u32,
    pub min_width_px: u32,
    pub border_px: u32,
    pub padding_px: u32,
    pub margin_px: u32,
}

/// The one text-input widget the UI ever spawns.
pub open spec fn standard_text_widget() -> TextWidget {
    TextWidget {
        font_size: 24,
        height_px: 24,
        min_width_px: 100,
        border_px: 2,
        padding_px: 20,
        margin_px: 20,
    }
}

/// Describe the text-input widget to spawn.
pub fn text_widget() -> (w: TextWidget)
    ensures
        w == standard_text_widget(),
{
    TextWidget {
        font_size: 24,
        height_px: 24,
        min_width_px: 100,
        border_px: 2,
        padding_px: 20,
        margin_px: 20,
    }
}

} // verus!
