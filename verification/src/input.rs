//! Keys, and the text fields of the login page.
use vstd::prelude::*;
use vstd::string::StringSliceAdditionalSpecFns;
use tui::style::Style;

verus! {

/// A key as the engine tells keys apart.
#[derive(Debug, Clone, Copy, PartialEq, Eq, Structural)]
pub enum Key {
    Enter,
    Backspace,
    Left,
    Right,
    Up,
    Down,
    Char(char),
    Other,
}

/// `String::pop` of std: takes the last character off and returns it; an
/// empty string stays as it is and nothing is returned.
pub assume_specification[ String::pop ](s: &mut String) -> (c: Option<char>)
    ensures
        old(s)@.len() > 0 ==> c == Some(old(s)@.last()) && final(s)@ == old(s)@.drop_last(),
        old(s)@.len() == 0 ==> c.is_none() && final(s)@ == old(s)@,
;

/// `Style` of tui: the colours and modifiers in which a piece of text is
/// drawn. The library carries a style along and never looks inside it.
#[verifier::external_type_specification]
#[verifier::external_body]
pub struct ExStyle(tui::style::Style);

/// `Style::clone` of tui, which `derive` wrote for a `Copy` type: the copy
/// is the style itself.
pub assume_specification[ <tui::style::Style as Clone>::clone ](style: &Style) -> (copy: Style)
    ensures
        copy == *style,
;

/// `Style::default` of tui, the style of a field that was given none.
/// Nothing is claimed of the style that it gives.
#[verifier::external_body]
fn plain_style() -> Style {
    Style::default()
}

/// One text field. Its style is for the screen alone: no step of the field
/// reads it or changes it.
#[derive(Debug, Clone)]
pub struct Input {
    pub block: bool,
    pub val: String,
    pub title: String,
    pub style: Style,
    pub focus: bool,
    pub is_password: bool,
    pub placeholder: String,
}

/// What a text field holds, with its texts as sequences of characters.
pub struct InputView {
    pub block: bool,
    pub val: Seq<char>,
    pub title: Seq<char>,
    pub style: Style,
    pub focus: bool,
    pub is_password: bool,
    pub placeholder: Seq<char>,
}

impl View for Input {
    type V = InputView;

    open spec fn view(&self) -> InputView {
        InputView {
            block: self.block,
            val: self.val@,
            title: self.title@,
            style: self.style,
            focus: self.focus,
            is_password: self.is_password,
            placeholder: self.placeholder@,
        }
    }
}

/// The fields of a form, each by its view.
pub open spec fn inputs_view(inputs: Seq<Input>) -> Seq<InputView> {
    inputs.map_values(|i: Input| i@)
}

impl InputView {
    /// The field after one key: a field without the focus ignores it; with
    /// the focus, Enter gives the focus up, Backspace takes the last character
    /// off, a character is appended, and any other key does nothing.
    pub open spec fn on_key(self, key: Key) -> InputView {
        if !self.focus {
            self
        } else {
            match key {
                Key::Enter => InputView { focus: false, ..self },
                Key::Backspace => InputView {
                    val: if self.val.len() > 0 {
                        self.val.drop_last()
                    } else {
                        self.val
                    },
                    ..self
                },
                Key::Char(c) => InputView { val: self.val.push(c), ..self },
                _ => self,
            }
        }
    }

    /// What the field shows: the placeholder while it is empty, one star for
    /// each of the `bytes` bytes of a password's encoding, the value otherwise.
    pub open spec fn shown(self, bytes: nat) -> Seq<char> {
        if bytes == 0 {
            self.placeholder
        } else if self.is_password {
            Seq::new(bytes, |i: int| '*')
        } else {
            self.val
        }
    }
}

impl Default for Input {
    fn default() -> (input: Self)
        ensures
            input@ == (InputView {
                block: true,
                val: Seq::empty(),
                title: Seq::empty(),
                style: input.style,
                focus: false,
                is_password: false,
                placeholder: Seq::empty(),
            }),
    {
        Self {
            block: true,
            val: String::new(),
            placeholder: String::new(),
            title: String::new(),
            style: plain_style(),
            focus: false,
            is_password: false,
        }
    }
}

impl Input {
    /// Handles one key.
    pub fn on_key(&mut self, key: Key)
        ensures
            final(self)@ == old(self)@.on_key(key),
    {
        if self.focus {
            match key {
                Key::Enter => {
                    self.focus = false;
                },
                Key::Backspace => {
                    self.val.pop();
                },
                Key::Char(c) => {
                    self.val.push(c);
                },
                _ => {},
            }
        }
    }

    pub fn block(self, block: bool) -> (input: Self)
        ensures
            input@ == (InputView { block, ..self@ }),
    {
        let mut input = self;
        input.block = block;
        input
    }

    pub fn style(self, style: Style) -> (input: Self)
        ensures
            input@ == (InputView { style, ..self@ }),
    {
        let mut input = self;
        input.style = style;
        input
    }

    pub fn placeholder(self, placeholder: String) -> (input: Self)
        ensures
            input@ == (InputView { placeholder: placeholder@, ..self@ }),
    {
        let mut input = self;
        input.placeholder = placeholder;
        input
    }

    pub fn title(self, title: String) -> (input: Self)
        ensures
            input@ == (InputView { title: title@, ..self@ }),
    {
        let mut input = self;
        input.title = title;
        input
    }

    pub fn val(self, val: String) -> (input: Self)
        ensures
            input@ == (InputView { val: val@, ..self@ }),
    {
        let mut input = self;
        input.val = val;
        input
    }

    pub fn is_password(self, is_password: bool) -> (input: Self)
        ensures
            input@ == (InputView { is_password, ..self@ }),
    {
        let mut input = self;
        input.is_password = is_password;
        input
    }

    /// The text that the field shows on the screen.
    pub fn display_text(&self) -> (text: String)
        ensures
            text@ == self@.shown(vstd::utf8::encode_utf8(self.val@).len()),
    {
        let n = self.val.as_str().as_bytes().len();
        if n == 0 {
            self.placeholder.clone()
        } else if self.is_password {
            let mut stars = String::new();
            let mut i: usize = 0;
            while i < n
                invariant
                    i <= n,
                    stars@ == Seq::new(i as nat, |k: int| '*'),
                decreases n - i,
            {
                stars.push('*');
                i += 1;
                proof {
                    assert(stars@ =~= Seq::new(i as nat, |k: int| '*'));
                }
            }
            proof {
                assert(stars@ =~= self@.shown(n as nat));
            }
            stars
        } else {
            self.val.clone()
        }
    }
}

/// Whether the cursor of a focused field is lit at this tick: it blinks, lit
/// on every odd tick.
pub fn cursor_lit(system_tick: u64) -> (lit: bool)
    ensures
        lit == (system_tick % 2 == 1),
{
    system_tick % 2 != 0
}

} // verus!
