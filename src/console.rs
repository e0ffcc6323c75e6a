use vstd::prelude::*;

verus! {

/// A key as the host terminal reports it.
#[derive(Clone, Copy, Debug, PartialEq, Eq, Structural)]
pub enum KeyCode {
    Char(char),
    Backspace,
    Enter,
    Left,
    Right,
    Up,
    Down,
    Home,
    Tab,
    Esc,
    /// Any other key (function keys, End, Page Up, Delete, ...).
    Other,
}

/// The modifiers held with a key; `other` stands for any modifier besides
/// Shift and Control.
#[derive(Clone, Copy, Debug, PartialEq, Eq, Structural)]
pub struct KeyModifiers {
    pub shift: bool,
    pub control: bool,
    pub other: bool,
}

/// A host input event.
#[derive(Clone, Copy, Debug, PartialEq, Eq, Structural)]
pub enum InputEvent {
    Key { code: KeyCode, modifiers: KeyModifiers },
    /// Mouse, resize, focus, paste and the like.
    Other,
}

/// The guest byte for a host event, if any: printable ASCII with no modifier
/// or Shift alone is itself; '`' to '~' with Control alone is its code minus
/// 0x60; a few named keys have fixed codes; everything else gives none.
pub open spec fn decode(ev: InputEvent) -> Option<u8> {
    match ev {
        InputEvent::Key { code, modifiers } => match code {
            KeyCode::Char(c) => if !modifiers.control && !modifiers.other {
                if 0x20 <= c as u32 <= 0x7E {
                    Some(c as u32 as u8)
                } else {
                    None
                }
            } else if modifiers.control && !modifiers.shift && !modifiers.other {
                if 0x60 <= c as u32 <= 0x7E {
                    Some((c as u32 - 0x60) as u8)
                } else {
                    None
                }
            } else {
                None
            },
            KeyCode::Backspace => Some(127u8),
            KeyCode::Enter => Some(13u8),
            KeyCode::Left => Some(8u8),
            KeyCode::Right => Some(12u8),
            KeyCode::Up => Some(11u8),
            KeyCode::Down => Some(10u8),
            KeyCode::Home => Some(30u8),
            KeyCode::Tab => Some(9u8),
            KeyCode::Esc => Some(27u8),
            KeyCode::Other => None,
        },
        InputEvent::Other => None,
    }
}

/// Decodes a host event into the byte the guest sees.
pub fn event_to_chat(ev: &InputEvent) -> (r: Option<u8>)
    ensures
        r == decode(*ev),
{
    match ev {
        InputEvent::Key { code, modifiers } => match code {
            KeyCode::Char(c) => {
                let n = *c as u32;
                if !modifiers.control && !modifiers.other {
                    if 0x20 <= n && n <= 0x7E {
                        Some(n as u8)
                    } else {
                        None
                    }
                } else if modifiers.control && !modifiers.shift && !modifiers.other {
                    if 0x60 <= n && n <= 0x7E {
                        Some((n - 0x60) as u8)
                    } else {
                        None
                    }
                } else {
                    None
                }
            },
            KeyCode::Backspace => Some(127),
            KeyCode::Enter => Some(13),
            KeyCode::Left => Some(8),
            KeyCode::Right => Some(12),
            KeyCode::Up => Some(11),
            KeyCode::Down => Some(10),
            KeyCode::Home => Some(30),
            KeyCode::Tab => Some(9),
            KeyCode::Esc => Some(27),
            KeyCode::Other => None,
        },
        InputEvent::Other => None,
    }
}

/// The console's input side: at most one decoded byte, kept between a status
/// check that found it and the read that hands it out.
pub struct Console {
    next_char: Option<u8>,
}

impl Console {
    pub closed spec fn view(&self) -> Option<u8> {
        self.next_char
    }

    /// A console with nothing buffered.
    pub fn new() -> (c: Console)
        ensures
            c.view() == None::<u8>,
    {
        Console { next_char: None }
    }

    /// Whether a byte is buffered.
    pub fn has_pending(&self) -> (r: bool)
        ensures
            r == self.view().is_some(),
    {
        self.next_char.is_some()
    }

    /// Hands a polled event to the console. A byte already buffered is kept;
    /// otherwise the event's byte, if it has one, is buffered. Returns whether
    /// a byte is now buffered; no decodable event is ever dropped.
    pub fn offer_event(&mut self, ev: &InputEvent) -> (r: bool)
        ensures
            final(self).view() == (if old(self).view().is_some() {
                old(self).view()
            } else {
                decode(*ev)
            }),
            r == final(self).view().is_some(),
    {
        if self.next_char.is_some() {
            true
        } else {
            let d = event_to_chat(ev);
            self.next_char = d;
            d.is_some()
        }
    }

    /// Hands out and clears the buffered byte, if any.
    pub fn take_pending(&mut self) -> (r: Option<u8>)
        ensures
            r == old(self).view(),
            final(self).view() == None::<u8>,
    {
        let r = self.next_char;
        self.next_char = None;
        r
    }
}

} // verus!
