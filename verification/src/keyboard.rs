//! Keyboard decoder: from the scancode bytes of a PS/2 keyboard to keys.
//!
//! The decoding tables and the modifier state are those of the `pc_keyboard`
//! crate, for a US 104-key layout and scancode set 1. This module owns the
//! policy around them: one byte at a time, most bytes yield nothing, and a
//! byte that cannot be decoded is dropped without a trace.

use pc_keyboard::layouts::Us104Key;
use pc_keyboard::{HandleControl, Keyboard, ScancodeSet1};
use vstd::prelude::*;

verus! {

/// First byte of every two-byte scancode.
pub const EXTENDED_PREFIX: u8 = 0xe0;

/// `pc_keyboard::KeyEvent`: a key and whether it went down or up. It is
/// carried from the scanner to the layout inside a [`KeyStroke`].
#[verifier::external_type_specification]
#[verifier::external_body]
pub struct ExKeyEvent(pc_keyboard::KeyEvent);

/// A key event of the scanner, together with what proofs may know of it:
/// the number of the key, which is its place among the key codes of
/// `pc_keyboard`, and whether the key went down. Events are made by the
/// scanner alone, which reads both off the event that it wraps.
#[derive(Debug, PartialEq, Eq)]
pub struct KeyStroke {
    event: pc_keyboard::KeyEvent,
    code: u8,
    pressed: bool,
}

impl KeyStroke {
    /// The number of the key.
    pub closed spec fn spec_code(&self) -> u8 {
        self.code
    }

    /// Whether the key went down; it went up otherwise.
    pub closed spec fn spec_pressed(&self) -> bool {
        self.pressed
    }

    /// The number of the key.
    #[verifier::when_used_as_spec(spec_code)]
    pub fn code(&self) -> (code: u8)
        ensures
            code == self.spec_code(),
    {
        self.code
    }

    /// Whether the key went down; it went up otherwise.
    #[verifier::when_used_as_spec(spec_pressed)]
    pub fn pressed(&self) -> (pressed: bool)
        ensures
            pressed == self.spec_pressed(),
    {
        self.pressed
    }

    /// The event as the scanner made it.
    pub fn event(&self) -> &pc_keyboard::KeyEvent {
        &self.event
    }
}

/// `pc_keyboard::Error`: why a byte was refused.
#[verifier::external_type_specification]
#[verifier::external_body]
pub struct ExError(pc_keyboard::Error);

/// The decoder: a `pc_keyboard::Keyboard` for [`Us104Key`] and
/// [`ScancodeSet1`] that leaves the control keys alone. Its fields are
/// those of the outside crate and are not visible to proofs.
#[verifier::external_body]
pub struct KeyboardDecoder {
    keyboard: Keyboard<Us104Key, ScancodeSet1>,
}

/// The bytes of an unfinished scancode that the decoder holds: nothing
/// between scancodes, the prefix byte after the first half of a two-byte
/// scancode.
pub uninterp spec fn pending(decoder: KeyboardDecoder) -> Seq<u8>;

/// The modifier and lock keys that the decoder holds as engaged, in the
/// order left shift, right shift, left control, right control, number
/// lock, capitals lock, right alt.
pub uninterp spec fn modifiers(decoder: KeyboardDecoder) -> Seq<bool>;

/// The modifiers of a decoder that has seen no key: the number lock alone.
pub open spec fn initial_modifiers() -> Seq<bool> {
    seq![false, false, false, false, true, false, false]
}

/// The key event that `byte` completes when it is fed to a decoder that
/// holds `pending`: the number of the key and whether it went down; or
/// nothing, where the byte completes no scancode of the set. The answer is
/// that of the scancode tables of `pc_keyboard`.
pub uninterp spec fn scancode_event(pending: Seq<u8>, byte: u8) -> Option<(u8, bool)>;

/// What the layout makes of a key event under the given modifiers: the key
/// that it gives, if any, and the modifiers afterwards. The answer is that
/// of `process_keyevent` of `pc_keyboard` for the US layout, with the
/// control keys left alone.
pub uninterp spec fn layout_step(modifiers: Seq<bool>, code: u8, pressed: bool) -> (
    Option<KeyView>,
    Seq<bool>,
);

/// Whether `byte`, fed to a decoder that holds `pending`, completes a
/// scancode of the set.
pub open spec fn completes_scancode(pending: Seq<u8>, byte: u8) -> bool {
    scancode_event(pending, byte) is Some
}

/// The key that the layout gives for a key event under the given modifiers.
pub open spec fn layout_key(modifiers: Seq<bool>, code: u8, pressed: bool) -> Option<KeyView> {
    layout_step(modifiers, code, pressed).0
}

/// The modifiers once the layout has taken a key event.
pub open spec fn modifiers_after(modifiers: Seq<bool>, code: u8, pressed: bool) -> Seq<bool> {
    layout_step(modifiers, code, pressed).1
}

/// What one byte makes of a decoder that holds `pending` and `modifiers`:
/// the key that it gives, if any, and the modifiers afterwards. A byte that
/// completes no scancode gives no key and leaves the modifiers alone.
pub open spec fn decoded(pending: Seq<u8>, modifiers: Seq<bool>, byte: u8) -> (
    Option<KeyView>,
    Seq<bool>,
) {
    match scancode_event(pending, byte) {
        Some((code, pressed)) => layout_step(modifiers, code, pressed),
        None => (None, modifiers),
    }
}

/// Whether `byte` starts a scancode that needs a second byte.
pub open spec fn opens_sequence(pending: Seq<u8>, byte: u8) -> bool {
    pending.len() == 0 && byte == EXTENDED_PREFIX
}

/// The unfinished scancode that is held once `byte` has been fed: a prefix
/// is kept, every other byte ends a scancode, known or not.
pub open spec fn pending_after(pending: Seq<u8>, byte: u8) -> Seq<u8> {
    if opens_sequence(pending, byte) {
        seq![byte]
    } else {
        Seq::empty()
    }
}

/// A key as the layout reports it.
#[derive(Debug, PartialEq, Eq)]
pub enum DecodedKey {
    /// A key without a character of its own, by its name.
    RawKey(String),
    /// A key with a character.
    Unicode(char),
}

/// A key as proofs see it: the name as its text.
pub enum KeyView {
    RawKey(Seq<char>),
    Unicode(char),
}

impl View for DecodedKey {
    type V = KeyView;

    open spec fn view(&self) -> KeyView {
        match self {
            DecodedKey::RawKey(name) => KeyView::RawKey(name@),
            DecodedKey::Unicode(character) => KeyView::Unicode(*character),
        }
    }
}

/// The view of a key that may be missing.
pub open spec fn key_view(key: Option<DecodedKey>) -> Option<KeyView> {
    match key {
        Some(key) => Some(key@),
        None => None,
    }
}

/// What one byte did to the scanner.
pub enum Scan {
    /// The byte completed a scancode.
    Event(KeyStroke),
    /// The byte is the first half of a scancode.
    Incomplete,
    /// The byte completed a sequence that is no scancode.
    Unknown,
}

/// `Keyboard::new` with the layout, the scancode set and
/// `HandleControl::Ignore`. A new decoder is between scancodes and holds
/// the number lock as engaged, and nothing else.
#[verifier::external_body]
fn keyboard_new() -> (decoder: KeyboardDecoder)
    ensures
        pending(decoder) == Seq::<u8>::empty(),
        modifiers(decoder) == initial_modifiers(),
{
    KeyboardDecoder { keyboard: Keyboard::new(Us104Key, ScancodeSet1, HandleControl::Ignore) }
}

/// `Keyboard::add_byte`. For scancode set 1 the scanner has two states. At
/// the start of a scancode the prefix byte is kept and `Ok(None)` returned;
/// in every other case the scanner is back at the start afterwards and the
/// result is a key event or an error. Which event it is depends on the
/// state and the byte alone; the modifiers are not touched. The event is
/// handed on with the number of its key code and its direction beside it.
#[verifier::external_body]
fn add_byte(decoder: &mut KeyboardDecoder, byte: u8) -> (scanned: Result<
    Option<KeyStroke>,
    pc_keyboard::Error,
>)
    ensures
        pending(*final(decoder)) == pending_after(pending(*old(decoder)), byte),
        modifiers(*final(decoder)) == modifiers(*old(decoder)),
        (scanned matches Ok(None)) <==> opens_sequence(pending(*old(decoder)), byte),
        scancode_event(pending(*old(decoder)), byte) == match scanned {
            Ok(Some(event)) => Some((event.code(), event.pressed())),
            _ => None,
        },
{
    match decoder.keyboard.add_byte(byte) {
        Ok(Some(event)) => Ok(Some(KeyStroke {
            code: event.code as u8,
            pressed: match event.state {
                pc_keyboard::KeyState::Down => true,
                pc_keyboard::KeyState::Up => false,
            },
            event,
        })),
        Ok(None) => Ok(None),
        Err(error) => Err(error),
    }
}

/// `Keyboard::process_keyevent`: updates the modifier keys and maps the
/// event through the layout. The scanner is not touched. The key and the
/// new modifiers depend on the modifiers and the event alone. A key without
/// a character is handed on by the name that its `Debug` form prints.
#[verifier::external_body]
fn process_keyevent(decoder: &mut KeyboardDecoder, event: KeyStroke) -> (key: Option<DecodedKey>)
    ensures
        pending(*final(decoder)) == pending(*old(decoder)),
        (key_view(key), modifiers(*final(decoder))) == layout_step(
            modifiers(*old(decoder)),
            event.code(),
            event.pressed(),
        ),
{
    match decoder.keyboard.process_keyevent(event.event) {
        Some(pc_keyboard::DecodedKey::RawKey(code)) => Some(DecodedKey::RawKey(format!("{:?}", code))),
        Some(pc_keyboard::DecodedKey::Unicode(character)) => Some(DecodedKey::Unicode(character)),
        None => None,
    }
}

/// `char::to_string`: the string that holds `character` and nothing else.
#[verifier::external_body]
fn char_to_string(character: char) -> (text: String)
    ensures
        text@ == seq![character],
{
    character.to_string()
}

impl DecodedKey {
    /// The text that stands for the key: its name, or its character.
    pub open spec fn spec_text(self) -> Seq<char> {
        match self {
            DecodedKey::RawKey(name) => name@,
            DecodedKey::Unicode(character) => seq![character],
        }
    }

    /// The text that stands for the key: its name, or its character.
    pub fn text(&self) -> (text: String)
        ensures
            text@ == self.spec_text(),
    {
        match self {
            DecodedKey::RawKey(name) => name.clone(),
            DecodedKey::Unicode(character) => char_to_string(*character),
        }
    }
}

impl KeyboardDecoder {
    /// A decoder that has seen no byte.
    pub fn new() -> (decoder: KeyboardDecoder)
        ensures
            pending(decoder) == Seq::<u8>::empty(),
            modifiers(decoder) == initial_modifiers(),
    {
        keyboard_new()
    }

    /// Feeds one byte to the scanner. The modifiers stay as they are.
    pub fn scan(&mut self, byte: u8) -> (scan: Scan)
        ensures
            pending(*final(self)) == pending_after(pending(*old(self)), byte),
            modifiers(*final(self)) == modifiers(*old(self)),
            scan is Incomplete <==> opens_sequence(pending(*old(self)), byte),
            scancode_event(pending(*old(self)), byte) == match scan {
                Scan::Event(event) => Some((event.code(), event.pressed())),
                _ => None,
            },
    {
        match add_byte(self, byte) {
            Ok(Some(event)) => Scan::Event(event),
            Ok(None) => Scan::Incomplete,
            Err(_) => Scan::Unknown,
        }
    }

    /// Turns the outcome of a scan into a key. A key event goes through the
    /// layout, which gives the key and takes note of the modifier keys; an
    /// unfinished or unknown sequence gives no key and leaves the decoder
    /// as it is.
    pub fn resolve(&mut self, scan: Scan) -> (key: Option<DecodedKey>)
        ensures
            pending(*final(self)) == pending(*old(self)),
            match scan {
                Scan::Event(event) => (key_view(key), modifiers(*final(self))) == layout_step(
                    modifiers(*old(self)),
                    event.code(),
                    event.pressed(),
                ),
                _ => key is None && *final(self) == *old(self),
            },
    {
        match scan {
            Scan::Event(event) => process_keyevent(self, event),
            Scan::Incomplete => None,
            Scan::Unknown => None,
        }
    }

    /// Feeds one raw byte and returns the key that it completed, if any:
    /// the key that the layout gives for the key event that the byte
    /// completes. A byte that does not complete a scancode, be it the first
    /// half of one or no part of any, gives no key and leaves the modifiers
    /// alone; and whatever the byte, the call returns.
    pub fn handle_byte(&mut self, byte: u8) -> (key: Option<DecodedKey>)
        ensures
            pending(*final(self)) == pending_after(pending(*old(self)), byte),
            (key_view(key), modifiers(*final(self))) == decoded(
                pending(*old(self)),
                modifiers(*old(self)),
                byte,
            ),
            !completes_scancode(pending(*old(self)), byte) ==> key is None,
            opens_sequence(pending(*old(self)), byte) ==> key is None,
    {
        let scan = self.scan(byte);
        self.resolve(scan)
    }
}

} // verus!
