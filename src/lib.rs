//! Client side of a windowing-system wire protocol: a byte-order-aware codec,
//! the connection handshake, request encoders and response decoders.
pub mod connection;
pub mod error;
pub mod events;
pub mod property;
pub mod requests;
pub mod window;
pub mod xconsts;
pub mod xio;
pub mod xtypes;

pub use connection::{
    byte_order_marker, setup_reply_len, AuthProtocol, ConnectionAcceptedInfo, ConnectionErr,
    ConnectionResponse, ConnectionResult, ConnectionStatus, RefusedInfo, RequestConnection,
    XContext,
};
pub use error::{check_for_error, XErrorGeneric, XErrorHeader, XErrorKind};
pub use property::{change_property, change_property_request_len, PropertyFormat, PropertyMode};
pub use requests::{
    allow_events, grab_button, grab_key, grab_keyboard, map_window, read_grab_reply,
    ungrab_keyboard, EventMode, GrabErr, GrabResult, SynchKind,
};
pub use window::{WindowBuilder, WindowValue, XWindow};
pub use xconsts::{opcodes, predefined_atoms, value_masks};
pub use xio::{ByteOrder, ByteSink, ByteSource, HasBytes, ReadError};
pub use xtypes::{
    Atom, Timestamp, XClass, XDepth, XFormat, XScreen, XVisualType, XVisualTypeIntermediate, BOOL,
    CARD16, CARD32, CARD8, INT16, INT32, INT8, WINDOW,
};
