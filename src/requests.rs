//! Encoders of the core requests that carry no variable-length payload, and
//! the decoder of the keyboard-grab reply.
use vstd::prelude::*;

use crate::error::RECORD_LEN;
use crate::xconsts::opcodes;
use crate::xio::{encode, field_at, write_primitive, ByteOrder, ByteSink, ByteSource, ReadError};
use crate::xtypes::{Atom, Timestamp, CARD16, CARD32, CARD8, WINDOW};

verus! {

/// Whether event processing goes on during a grab.
#[derive(Clone, Copy, PartialEq, Eq, Structural, Debug)]
pub enum SynchKind {
    Synchronous,
    Asynchronous,
}

impl SynchKind {
    pub open spec fn spec_code(&self) -> u8 {
        match self {
            SynchKind::Synchronous => 0,
            SynchKind::Asynchronous => 1,
        }
    }

    pub fn code(&self) -> (r: u8)
        ensures
            r == self.spec_code(),
    {
        match self {
            SynchKind::Synchronous => 0,
            SynchKind::Asynchronous => 1,
        }
    }
}

/// How frozen events are released.
#[derive(Clone, Copy, PartialEq, Eq, Structural, Debug)]
pub enum EventMode {
    AsyncPointer,
    SyncPointer,
    ReplayPointer,
    AsyncKeyboard,
    SyncKeyboard,
    ReplayKeyboard,
    AsyncBoth,
    SyncBoth,
}

impl EventMode {
    pub open spec fn spec_code(&self) -> u8 {
        match self {
            EventMode::AsyncPointer => 0,
            EventMode::SyncPointer => 1,
            EventMode::ReplayPointer => 2,
            EventMode::AsyncKeyboard => 3,
            EventMode::SyncKeyboard => 4,
            EventMode::ReplayKeyboard => 5,
            EventMode::AsyncBoth => 6,
            EventMode::SyncBoth => 7,
        }
    }

    pub fn code(&self) -> (r: u8)
        ensures
            r == self.spec_code(),
    {
        match self {
            EventMode::AsyncPointer => 0,
            EventMode::SyncPointer => 1,
            EventMode::ReplayPointer => 2,
            EventMode::AsyncKeyboard => 3,
            EventMode::SyncKeyboard => 4,
            EventMode::ReplayKeyboard => 5,
            EventMode::AsyncBoth => 6,
            EventMode::SyncBoth => 7,
        }
    }
}

/// Why a keyboard grab did not take.
#[derive(Clone, Copy, PartialEq, Eq, Structural, Debug)]
pub enum GrabErr {
    InvalidStatus,
    InvalidReplyHeader,
    AlreadyGrabbed,
    InvalidTime,
    NotViewable,
    Frozen,
    IO(ReadError),
}

pub type GrabResult = Result<(), GrabErr>;

/// Modifier value that matches any combination of modifiers.
pub const ANY_MODIFIER: u16 = 0x8000;

/// Common head of a request: opcode, one request-specific byte, length in words.
pub open spec fn request_head(o: ByteOrder, opcode: u8, data: u8, words: u16) -> Seq<u8> {
    seq![opcode, data] + encode(o, words)
}

pub open spec fn map_window_bytes(o: ByteOrder, window_id: u32) -> Seq<u8> {
    request_head(o, opcodes::MAP_WINDOW, 0, 2) + encode(o, window_id)
}

/// Writes a MapWindow request.
pub fn map_window(socket: &mut ByteSink, window_id: CARD32)
    ensures
        final(socket).byte_order() == old(socket).byte_order(),
        final(socket)@ == old(socket)@ + map_window_bytes(old(socket).byte_order(), window_id),
{
    write_primitive(socket, opcodes::MAP_WINDOW);
    write_primitive(socket, 0u8);
    write_primitive(socket, 2u16);
    write_primitive(socket, window_id);
    assert(socket@ =~= old(socket)@ + map_window_bytes(old(socket).byte_order(), window_id));
}

pub open spec fn grab_keyboard_bytes(
    o: ByteOrder,
    owner_events: bool,
    grab_window: Atom,
    timestamp: Timestamp,
    pointer_mode: SynchKind,
    keyboard_mode: SynchKind,
) -> Seq<u8> {
    request_head(o, opcodes::GRAB_KEYBOARD, if owner_events { 1 } else { 0 }, 4) + encode(
        o,
        grab_window,
    ) + encode(o, timestamp@) + seq![pointer_mode.spec_code(), keyboard_mode.spec_code(), 0u8, 0u8]
}

/// Writes a GrabKeyboard request; its reply is read by `read_grab_reply`.
pub fn grab_keyboard(
    socket: &mut ByteSink,
    owner_events: bool,
    grab_window: WINDOW,
    timestamp: Timestamp,
    pointer_mode: SynchKind,
    keyboard_mode: SynchKind,
)
    ensures
        final(socket).byte_order() == old(socket).byte_order(),
        final(socket)@ == old(socket)@ + grab_keyboard_bytes(
            old(socket).byte_order(),
            owner_events,
            grab_window,
            timestamp,
            pointer_mode,
            keyboard_mode,
        ),
{
    write_primitive(socket, opcodes::GRAB_KEYBOARD);
    write_primitive(socket, if owner_events { 1u8 } else { 0u8 });
    write_primitive(socket, 4u16);
    write_primitive(socket, grab_window);
    write_primitive(socket, timestamp.data());
    write_primitive(socket, pointer_mode.code());
    write_primitive(socket, keyboard_mode.code());
    write_primitive(socket, 0u8);
    write_primitive(socket, 0u8);
    assert(socket@ =~= old(socket)@ + grab_keyboard_bytes(
        old(socket).byte_order(),
        owner_events,
        grab_window,
        timestamp,
        pointer_mode,
        keyboard_mode,
    ));
}

/// What a grab reply whose first two bytes are `reply` and `status` means.
pub open spec fn grab_outcome(reply: u8, status: u8) -> GrabResult {
    if reply != 1 {
        Err(GrabErr::InvalidReplyHeader)
    } else if status == 0 {
        Ok(())
    } else if status == 1 {
        Err(GrabErr::AlreadyGrabbed)
    } else if status == 2 {
        Err(GrabErr::InvalidTime)
    } else if status == 3 {
        Err(GrabErr::NotViewable)
    } else if status == 4 {
        Err(GrabErr::Frozen)
    } else {
        Err(GrabErr::InvalidStatus)
    }
}

/// Reads the 32-byte reply to a GrabKeyboard request.
pub fn read_grab_reply(socket: &mut ByteSource) -> (r: GrabResult)
    ensures
        final(socket).byte_order() == old(socket).byte_order(),
        ({
            let s = old(socket)@;
            let o = old(socket).byte_order();
            if s.len() < RECORD_LEN {
                &&& r == Err::<(), GrabErr>(GrabErr::IO(ReadError::UnexpectedEof))
                &&& final(socket)@ == s
            } else {
                &&& r == grab_outcome(field_at::<u8>(o, s, 0), field_at::<u8>(o, s, 1))
                &&& final(socket)@ == s.skip(RECORD_LEN as int)
            }
        }),
{
    if socket.remaining() < RECORD_LEN {
        return Err(GrabErr::IO(ReadError::UnexpectedEof));
    }
    let reply: u8 = socket.peek(0);
    let status: u8 = socket.peek(1);
    let _ = socket.skip(RECORD_LEN);
    if reply != 1 {
        return Err(GrabErr::InvalidReplyHeader);
    }
    match status {
        0 => Ok(()),
        1 => Err(GrabErr::AlreadyGrabbed),
        2 => Err(GrabErr::InvalidTime),
        3 => Err(GrabErr::NotViewable),
        4 => Err(GrabErr::Frozen),
        _ => Err(GrabErr::InvalidStatus),
    }
}

pub open spec fn ungrab_keyboard_bytes(o: ByteOrder, timestamp: Timestamp) -> Seq<u8> {
    request_head(o, opcodes::UNGRAB_KEYBOARD, 0, 2) + encode(o, timestamp@)
}

/// Writes an UngrabKeyboard request.
pub fn ungrab_keyboard(socket: &mut ByteSink, timestamp: Timestamp)
    ensures
        final(socket).byte_order() == old(socket).byte_order(),
        final(socket)@ == old(socket)@ + ungrab_keyboard_bytes(old(socket).byte_order(), timestamp),
{
    write_primitive(socket, opcodes::UNGRAB_KEYBOARD);
    write_primitive(socket, 0u8);
    write_primitive(socket, 2u16);
    write_primitive(socket, timestamp.data());
    assert(socket@ =~= old(socket)@ + ungrab_keyboard_bytes(old(socket).byte_order(), timestamp));
}

pub open spec fn allow_events_bytes(o: ByteOrder, mode: EventMode, timestamp: Timestamp) -> Seq<
    u8,
> {
    request_head(o, opcodes::ALLOW_EVENTS, mode.spec_code(), 2) + encode(o, timestamp@)
}

/// Writes an AllowEvents request.
pub fn allow_events(socket: &mut ByteSink, mode: EventMode, timestamp: Timestamp)
    ensures
        final(socket).byte_order() == old(socket).byte_order(),
        final(socket)@ == old(socket)@ + allow_events_bytes(
            old(socket).byte_order(),
            mode,
            timestamp,
        ),
{
    write_primitive(socket, opcodes::ALLOW_EVENTS);
    write_primitive(socket, mode.code());
    write_primitive(socket, 2u16);
    write_primitive(socket, timestamp.data());
    assert(socket@ =~= old(socket)@ + allow_events_bytes(
        old(socket).byte_order(),
        mode,
        timestamp,
    ));
}

/// The modifiers given, or any modifier when none are.
pub open spec fn modifiers_or_any(modifiers: Option<u16>) -> u16 {
    match modifiers {
        Some(m) => m,
        None => ANY_MODIFIER,
    }
}

fn modifier_word(modifiers: Option<CARD16>) -> (r: u16)
    ensures
        r == modifiers_or_any(modifiers),
{
    match modifiers {
        Some(m) => m,
        None => ANY_MODIFIER,
    }
}

pub open spec fn grab_button_bytes(
    o: ByteOrder,
    owner_events: bool,
    grab_window: Atom,
    event_mask: u16,
    pointer_mode: SynchKind,
    keyboard_mode: SynchKind,
    confine_to: Atom,
    cursor: Atom,
    button: u8,
    modifiers: Option<u16>,
) -> Seq<u8> {
    request_head(o, opcodes::GRAB_BUTTON, if owner_events { 1 } else { 0 }, 6) + encode(
        o,
        grab_window,
    ) + encode(o, event_mask) + seq![pointer_mode.spec_code(), keyboard_mode.spec_code()] + encode(
        o,
        confine_to,
    ) + encode(o, cursor) + seq![button, 0u8] + encode(o, modifiers_or_any(modifiers))
}

/// Writes a GrabButton request.
pub fn grab_button(
    socket: &mut ByteSink,
    owner_events: bool,
    grab_window: Atom,
    event_mask: CARD16,
    pointer_mode: SynchKind,
    keyboard_mode: SynchKind,
    confine_to: Atom,
    cursor: Atom,
    button: CARD8,
    modifiers: Option<CARD16>,
)
    ensures
        final(socket).byte_order() == old(socket).byte_order(),
        final(socket)@ == old(socket)@ + grab_button_bytes(
            old(socket).byte_order(),
            owner_events,
            grab_window,
            event_mask,
            pointer_mode,
            keyboard_mode,
            confine_to,
            cursor,
            button,
            modifiers,
        ),
{
    write_primitive(socket, opcodes::GRAB_BUTTON);
    write_primitive(socket, if owner_events { 1u8 } else { 0u8 });
    write_primitive(socket, 6u16);
    write_primitive(socket, grab_window);
    write_primitive(socket, event_mask);
    write_primitive(socket, pointer_mode.code());
    write_primitive(socket, keyboard_mode.code());
    write_primitive(socket, confine_to);
    write_primitive(socket, cursor);
    write_primitive(socket, button);
    write_primitive(socket, 0u8);
    write_primitive(socket, modifier_word(modifiers));
    assert(socket@ =~= old(socket)@ + grab_button_bytes(
        old(socket).byte_order(),
        owner_events,
        grab_window,
        event_mask,
        pointer_mode,
        keyboard_mode,
        confine_to,
        cursor,
        button,
        modifiers,
    ));
}

pub open spec fn grab_key_bytes(
    o: ByteOrder,
    owner_events: bool,
    grab_window: Atom,
    modifiers: Option<u16>,
    key: u8,
    pointer_mode: SynchKind,
    keyboard_mode: SynchKind,
) -> Seq<u8> {
    request_head(o, opcodes::GRAB_KEY, if owner_events { 1 } else { 0 }, 4) + encode(
        o,
        grab_window,
    ) + encode(o, modifiers_or_any(modifiers)) + seq![
        key,
        pointer_mode.spec_code(),
        keyboard_mode.spec_code(),
        0u8,
        0u8,
        0u8,
    ]
}

/// Writes a GrabKey request.
pub fn grab_key(
    socket: &mut ByteSink,
    owner_events: bool,
    grab_window: Atom,
    modifiers: Option<CARD16>,
    key: CARD8,
    pointer_mode: SynchKind,
    keyboard_mode: SynchKind,
)
    ensures
        final(socket).byte_order() == old(socket).byte_order(),
        final(socket)@ == old(socket)@ + grab_key_bytes(
            old(socket).byte_order(),
            owner_events,
            grab_window,
            modifiers,
            key,
            pointer_mode,
            keyboard_mode,
        ),
{
    write_primitive(socket, opcodes::GRAB_KEY);
    write_primitive(socket, if owner_events { 1u8 } else { 0u8 });
    write_primitive(socket, 4u16);
    write_primitive(socket, grab_window);
    write_primitive(socket, modifier_word(modifiers));
    write_primitive(socket, key);
    write_primitive(socket, pointer_mode.code());
    write_primitive(socket, keyboard_mode.code());
    write_primitive(socket, 0u8);
    write_primitive(socket, 0u8);
    write_primitive(socket, 0u8);
    assert(socket@ =~= old(socket)@ + grab_key_bytes(
        old(socket).byte_order(),
        owner_events,
        grab_window,
        modifiers,
        key,
        pointer_mode,
        keyboard_mode,
    ));
}

} // verus!
