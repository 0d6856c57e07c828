//! Window creation: the CreateWindow request with its optional attributes, and
//! the requests that make a new window visible and responsive.
use vstd::prelude::*;
use vstd::string::StringSliceAdditionalSpecFns;

use crate::connection::{allocation, XContext};
use crate::property::{
    change_property, change_property_bytes, PropertyFormat, PropertyMode, MAX_PROPERTY_BYTES,
};
use crate::requests::{
    allow_events, allow_events_bytes, grab_button, grab_button_bytes, grab_key, grab_key_bytes,
    map_window, map_window_bytes, request_head, EventMode, SynchKind,
};
use crate::xconsts::{opcodes, predefined_atoms};
use crate::xio::{encode, write_primitive, ByteOrder, ByteSink};
use crate::xtypes::{Atom, Timestamp, CARD16, CARD32, CARD8, INT16};

verus! {

/// Optional window attributes; bit `i` of `value_mask` says whether the
/// `i`-th of them, in declaration order, is given.
#[derive(Clone, Copy, Debug)]
pub struct WindowValue {
    pub value_mask: CARD32,
    pub background_pixmap: Atom,
    pub background_pixel: CARD32,
    pub border_pixmap: Atom,
    pub border_pixel: CARD32,
    pub bit_gravity: CARD8,
    pub win_gravity: CARD8,
    pub backing_store: CARD8,
    pub backing_planes: CARD32,
    pub backing_pixel: CARD32,
    pub override_redirect: CARD8,
    pub save_under: CARD8,
    pub event_mask: CARD32,
    pub do_not_propagate_mask: CARD32,
    pub colormap: CARD32,
    pub cursor: CARD32,
}

/// The wire word of attribute `i` of `v`.
pub open spec fn attribute_word(v: WindowValue, i: int) -> u32 {
    if i == 0 {
        v.background_pixmap@
    } else if i == 1 {
        v.background_pixel
    } else if i == 2 {
        v.border_pixmap@
    } else if i == 3 {
        v.border_pixel
    } else if i == 4 {
        v.bit_gravity as u32
    } else if i == 5 {
        v.win_gravity as u32
    } else if i == 6 {
        v.backing_store as u32
    } else if i == 7 {
        v.backing_planes
    } else if i == 8 {
        v.backing_pixel
    } else if i == 9 {
        v.override_redirect as u32
    } else if i == 10 {
        v.save_under as u32
    } else if i == 11 {
        v.event_mask
    } else if i == 12 {
        v.do_not_propagate_mask
    } else if i == 13 {
        v.colormap
    } else {
        v.cursor
    }
}

/// Bit `i` of `mask` is set.
pub open spec fn bit_set(mask: u32, i: u32) -> bool {
    mask & (1u32 << i) != 0
}

/// The words of the attributes of `v` among the first `k`, in order, that its mask gives.
pub open spec fn value_words(v: WindowValue, k: nat) -> Seq<u32>
    decreases k,
{
    if k == 0 {
        Seq::empty()
    } else {
        let before = value_words(v, (k - 1) as nat);
        if bit_set(v.value_mask, (k - 1) as u32) {
            before.push(attribute_word(v, k - 1))
        } else {
            before
        }
    }
}

/// Each word of `ws`, in order, encoded in `o`.
pub open spec fn words_bytes(o: ByteOrder, ws: Seq<u32>) -> Seq<u8>
    decreases ws.len(),
{
    if ws.len() == 0 {
        Seq::empty()
    } else {
        words_bytes(o, ws.drop_last()) + encode(o, ws.last())
    }
}

proof fn lemma_value_words_len(v: WindowValue, k: nat)
    ensures
        value_words(v, k).len() <= k,
    decreases k,
{
    if k > 0 {
        lemma_value_words_len(v, (k - 1) as nat);
    }
}

impl WindowValue {
    /// No attribute given.
    pub fn empty() -> (r: WindowValue)
        ensures
            r.value_mask == 0,
    {
        WindowValue {
            value_mask: 0,
            background_pixmap: Atom::new(0),
            background_pixel: 0,
            border_pixmap: Atom::new(0),
            border_pixel: 0,
            bit_gravity: 0,
            win_gravity: 0,
            backing_store: 0,
            backing_planes: 0,
            backing_pixel: 0,
            override_redirect: 0,
            save_under: 0,
            event_mask: 0,
            do_not_propagate_mask: 0,
            colormap: 0,
            cursor: 0,
        }
    }

    /// The wire word of attribute `i`.
    pub fn attribute(&self, i: u32) -> (r: u32)
        ensures
            r == attribute_word(*self, i as int),
    {
        if i == 0 {
            self.background_pixmap.value()
        } else if i == 1 {
            self.background_pixel
        } else if i == 2 {
            self.border_pixmap.value()
        } else if i == 3 {
            self.border_pixel
        } else if i == 4 {
            self.bit_gravity as u32
        } else if i == 5 {
            self.win_gravity as u32
        } else if i == 6 {
            self.backing_store as u32
        } else if i == 7 {
            self.backing_planes
        } else if i == 8 {
            self.backing_pixel
        } else if i == 9 {
            self.override_redirect as u32
        } else if i == 10 {
            self.save_under as u32
        } else if i == 11 {
            self.event_mask
        } else if i == 12 {
            self.do_not_propagate_mask
        } else if i == 13 {
            self.colormap
        } else {
            self.cursor
        }
    }

    /// The words of the attributes that the mask gives, in bit order.
    pub fn present_words(&self) -> (r: Vec<u32>)
        ensures
            r@ == value_words(*self, 15),
            r@.len() <= 15,
    {
        let mut r: Vec<u32> = Vec::new();
        let mut i: u32 = 0;
        while i < 15
            invariant
                i <= 15,
                r@ == value_words(*self, i as nat),
            decreases 15 - i,
        {
            if self.value_mask & (1u32 << i) != 0 {
                r.push(self.attribute(i));
            }
            i = i + 1;
        }
        proof {
            lemma_value_words_len(*self, 15);
        }
        r
    }
}

/// A created window.
#[derive(Clone, Copy, Debug)]
pub struct XWindow {
    pub id: Atom,
    pub parent_id: Atom,
    pub x: INT16,
    pub y: INT16,
    pub w: CARD16,
    pub h: CARD16,
}

impl XWindow {
    pub fn parent(&self) -> (r: Atom)
        ensures
            r == self.parent_id,
    {
        self.parent_id
    }

    pub fn id(&self) -> (r: Atom)
        ensures
            r == self.id,
    {
        self.id
    }
}

/// The settings of a window to be created.
#[derive(Clone, Debug)]
pub struct WindowBuilder {
    pub depth: CARD8,
    pub window_id: Atom,
    pub parent: Atom,
    pub x: INT16,
    pub y: INT16,
    pub width: CARD16,
    pub height: CARD16,
    pub border_width: CARD16,
    pub class: CARD16,
    pub visual: Atom,
    pub value: WindowValue,
    pub title: Option<Vec<u8>>,
}

/// The eight-word head of the CreateWindow request for `b`, followed by `n` attribute words.
pub open spec fn create_window_head(o: ByteOrder, b: WindowBuilder, n: nat) -> Seq<u8> {
    request_head(o, opcodes::CREATE_WINDOW, b.depth, (8 + n) as u16) + encode(o, b.window_id)
        + encode(o, b.parent) + encode(o, b.x) + encode(o, b.y) + encode(o, b.width) + encode(
        o,
        b.height,
    ) + encode(o, b.border_width) + encode(o, b.class) + encode(o, b.visual) + encode(
        o,
        b.value.value_mask,
    )
}

/// The bytes of the CreateWindow request for `b`: a fixed head of eight words,
/// then one word for each of the fifteen attributes whose bit the value mask
/// sets. The mask itself is sent as given.
pub open spec fn create_window_bytes(o: ByteOrder, b: WindowBuilder) -> Seq<u8> {
    let words = value_words(b.value, 15);
    create_window_head(o, b, words.len()) + words_bytes(o, words)
}

/// The title property request of `b`, if it has a title.
pub open spec fn title_bytes(o: ByteOrder, b: WindowBuilder) -> Seq<u8> {
    match b.title {
        Some(t) => change_property_bytes(
            o,
            PropertyMode::Replace,
            Atom::spec_new(predefined_atoms::WM_NAME),
            Atom::spec_new(predefined_atoms::STRING),
            b.window_id@,
            PropertyFormat::Bytes,
            t@,
        ),
        None => Seq::empty(),
    }
}

/// Everything that `build` sends for `b`: create the window, map it, release
/// frozen events, name it, and grab its buttons and keys.
pub open spec fn window_setup_bytes(o: ByteOrder, b: WindowBuilder) -> Seq<u8> {
    create_window_bytes(o, b) + map_window_bytes(o, b.window_id@) + allow_events_bytes(
        o,
        EventMode::AsyncBoth,
        Timestamp::spec_current(),
    ) + title_bytes(o, b) + grab_button_bytes(
        o,
        false,
        b.window_id,
        0,
        SynchKind::Asynchronous,
        SynchKind::Asynchronous,
        Atom::spec_new(0),
        Atom::spec_new(0),
        0,
        None,
    ) + grab_key_bytes(
        o,
        false,
        b.window_id,
        None,
        0,
        SynchKind::Asynchronous,
        SynchKind::Asynchronous,
    )
}

/// A title short enough for one ChangeProperty request, or none.
pub open spec fn title_fits(b: WindowBuilder) -> bool {
    match b.title {
        Some(t) => t@.len() <= MAX_PROPERTY_BYTES,
        None => true,
    }
}

impl WindowBuilder {
    /// Settings for a new window: a fresh id from `state`, the root window as
    /// parent, everything else zero and no attributes.
    pub fn new(state: &mut XContext) -> (r: WindowBuilder)
        requires
            old(state).next_counter() < u32::MAX,
        ensures
            allocation(*old(state), *final(state), old(state).next_counter() | old(
                state,
            ).spec_info().resource_id_base),
            r.window_id == Atom::spec_new(
                old(state).next_counter() | old(state).spec_info().resource_id_base,
            ),
            r.parent == old(state).spec_info().list_of_screen@[0].root,
            r.depth == 0 && r.x == 0 && r.y == 0 && r.width == 0 && r.height == 0,
            r.border_width == 0 && r.class == 0 && r.visual@ == 0,
            r.value.value_mask == 0,
            r.title.is_none(),
    {
        let parent = state.root();
        let id = state.gen_id();
        proof {
            crate::xtypes::lemma_atom_mask(0);
        }
        let window_id = Atom::new(id);
        WindowBuilder {
            depth: 0,
            window_id,
            parent,
            x: 0,
            y: 0,
            width: 0,
            height: 0,
            border_width: 0,
            class: 0,
            visual: Atom::new(0),
            value: WindowValue::empty(),
            title: None,
        }
    }

    pub fn with_parent(self, parent: Atom) -> (r: WindowBuilder)
        ensures
            r == (WindowBuilder { parent, ..self }),
    {
        WindowBuilder { parent, ..self }
    }

    pub fn with_pos(self, pos: (i16, i16)) -> (r: WindowBuilder)
        ensures
            r == (WindowBuilder { x: pos.0, y: pos.1, ..self }),
    {
        WindowBuilder { x: pos.0, y: pos.1, ..self }
    }

    pub fn with_height(self, val: CARD16) -> (r: WindowBuilder)
        ensures
            r == (WindowBuilder { height: val, ..self }),
    {
        WindowBuilder { height: val, ..self }
    }

    pub fn with_width(self, val: CARD16) -> (r: WindowBuilder)
        ensures
            r == (WindowBuilder { width: val, ..self }),
    {
        WindowBuilder { width: val, ..self }
    }

    /// The visual of the new window, by id.
    pub fn with_visual(self, val: CARD32) -> (r: WindowBuilder)
        ensures
            r == (WindowBuilder { visual: Atom::spec_new(val), ..self }),
    {
        WindowBuilder { visual: Atom::new(val), ..self }
    }

    /// The optional attributes of the new window, with the mask that selects them.
    pub fn with_value(self, value: WindowValue) -> (r: WindowBuilder)
        ensures
            r == (WindowBuilder { value, ..self }),
    {
        WindowBuilder { value, ..self }
    }

    pub fn with_title(self, title: &str) -> (r: WindowBuilder)
        ensures
            r.title.is_some(),
            r.title.unwrap()@ == title.spec_bytes(),
            r == (WindowBuilder { title: r.title, ..self }),
    {
        let t = vstd::slice::slice_to_vec(title.as_bytes());
        WindowBuilder { title: Some(t), ..self }
    }

    fn write_create_window_head(&self, out: &mut ByteSink, n: usize)
        requires
            n <= 15,
        ensures
            final(out).byte_order() == old(out).byte_order(),
            final(out)@ == old(out)@ + create_window_head(old(out).byte_order(), *self, n as nat),
    {
        write_primitive(out, opcodes::CREATE_WINDOW);
        write_primitive(out, self.depth);
        write_primitive(out, (8 + n) as u16);
        write_primitive(out, self.window_id);
        write_primitive(out, self.parent);
        write_primitive(out, self.x);
        write_primitive(out, self.y);
        write_primitive(out, self.width);
        write_primitive(out, self.height);
        write_primitive(out, self.border_width);
        write_primitive(out, self.class);
        write_primitive(out, self.visual);
        write_primitive(out, self.value.value_mask);
        assert(out@ =~= old(out)@ + create_window_head(old(out).byte_order(), *self, n as nat));
    }

    /// Writes the CreateWindow request alone.
    pub fn write_create_window(&self, out: &mut ByteSink)
        ensures
            final(out).byte_order() == old(out).byte_order(),
            final(out)@ == old(out)@ + create_window_bytes(old(out).byte_order(), *self),
    {
        let words = self.value.present_words();
        let ghost o = out.byte_order();
        self.write_create_window_head(out, words.len());
        let ghost head = out@;
        let mut i: usize = 0;
        while i < words.len()
            invariant
                i <= words@.len(),
                out.byte_order() == o,
                out@ == head + words_bytes(o, words@.take(i as int)),
            decreases words.len() - i,
        {
            write_primitive(out, words[i]);
            proof {
                let t = words@.take(i as int + 1);
                assert(t.drop_last() =~= words@.take(i as int));
                assert(t.last() == words@[i as int]);
            }
            i = i + 1;
        }
        assert(words@.take(i as int) =~= words@);
        assert(out@ =~= old(out)@ + create_window_bytes(o, *self));
    }

    /// Writes the requests that create the window, map it, release frozen
    /// events, set its title (when it has one) and grab its buttons and keys.
    pub fn build(self, out: &mut ByteSink) -> (r: XWindow)
        requires
            title_fits(self),
        ensures
            final(out).byte_order() == old(out).byte_order(),
            final(out)@ == old(out)@ + window_setup_bytes(old(out).byte_order(), self),
            r == (XWindow {
                id: self.window_id,
                parent_id: self.parent,
                x: self.x,
                y: self.y,
                w: self.width,
                h: self.height,
            }),
    {
        let ghost o = out.byte_order();
        self.write_create_window(out);
        let ghost s1 = out@;
        map_window(out, self.window_id.value());
        allow_events(out, EventMode::AsyncBoth, Timestamp::current_time());
        let ghost s2 = out@;
        match &self.title {
            Some(t) => {
                change_property(
                    out,
                    PropertyMode::Replace,
                    Atom::new(predefined_atoms::WM_NAME),
                    Atom::new(predefined_atoms::STRING),
                    self.window_id.value(),
                    PropertyFormat::Bytes,
                    t.as_slice(),
                );
            },
            None => {},
        }
        assert(out@ =~= s2 + title_bytes(o, self));
        let ghost s3 = out@;
        grab_button(
            out,
            false,
            self.window_id,
            0,
            SynchKind::Asynchronous,
            SynchKind::Asynchronous,
            Atom::new(0),
            Atom::new(0),
            0,
            None,
        );
        grab_key(
            out,
            false,
            self.window_id,
            None,
            0,
            SynchKind::Asynchronous,
            SynchKind::Asynchronous,
        );
        assert(out@ =~= old(out)@ + window_setup_bytes(o, self));
        XWindow {
            id: self.window_id,
            parent_id: self.parent,
            x: self.x,
            y: self.y,
            w: self.width,
            h: self.height,
        }
    }
}

impl XContext {
    /// Settings for a new window whose id this context allocates.
    pub fn create_window(&mut self) -> (r: WindowBuilder)
        requires
            old(self).next_counter() < u32::MAX,
        ensures
            allocation(*old(self), *final(self), old(self).next_counter() | old(
                self,
            ).spec_info().resource_id_base),
            r.window_id == Atom::spec_new(
                old(self).next_counter() | old(self).spec_info().resource_id_base,
            ),
            r.parent == old(self).spec_info().list_of_screen@[0].root,
            r.value.value_mask == 0,
            r.title.is_none(),
    {
        WindowBuilder::new(self)
    }
}

} // verus!
