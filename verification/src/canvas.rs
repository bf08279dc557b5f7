//! The host-owned per-frame drawing context and its scoped capability
//! handles.
//!
//! A `Canvas` records the widgets the script asks for during one frame;
//! the host renders them afterwards. Access from scripted code is
//! granted through a `UiHandle` minted at the start of a frame and dead
//! once that frame ends: a draw call made with a stale handle is
//! rejected with an expired-handle error instead of touching the
//! canvas.

use vstd::prelude::*;

verus! {

/// One widget recorded on the canvas.
#[derive(Debug, Clone, PartialEq, Eq)]
pub enum Element {
    Heading(String),
}

/// What a drawn widget reported back: whether the rendered element was
/// clicked. The canvas records widgets for later rendering, so no
/// interaction has happened yet when a draw call returns.
#[derive(Debug, Clone, Copy, PartialEq, Eq, Structural)]
pub struct Interaction {
    pub clicked: bool,
}

impl Interaction {
    /// The interaction report of a freshly recorded widget.
    pub fn none() -> (r: Interaction)
        ensures
            !r.clicked,
    {
        Interaction { clicked: false }
    }
}

/// Why a draw call was rejected.
#[derive(Debug, Clone, Copy, PartialEq, Eq, Structural)]
pub enum HandleError {
    /// The handle's producing frame has ended (or has not begun).
    Expired,
}

/// A capability handle: the number of the frame that minted it. Cheap
/// to copy; every copy shares the same validity window.
#[derive(Debug, Clone, Copy, PartialEq, Eq, Structural)]
pub struct UiHandle {
    pub frame: u64,
}

/// The text of a recorded element.
pub open spec fn element_text(e: Element) -> Seq<char> {
    match e {
        Element::Heading(t) => t@,
    }
}

/// The texts of a run of recorded elements, in drawing order.
pub open spec fn texts_of(els: Seq<Element>) -> Seq<Seq<char>> {
    els.map_values(|e: Element| element_text(e))
}

/// Mathematical state of a canvas: the current frame number, whether a
/// frame is live, and the headings recorded so far this frame.
pub ghost struct CanvasView {
    pub frame: nat,
    pub bound: bool,
    pub headings: Seq<Seq<char>>,
}

/// A handle is live exactly while the frame that minted it is still
/// the current, open frame.
pub open spec fn handle_live(c: CanvasView, h: nat) -> bool {
    c.bound && h == c.frame
}

/// Beginning a frame: a new frame number, a live binding, an empty
/// canvas.
pub open spec fn begin_spec(c: CanvasView) -> CanvasView {
    CanvasView { frame: c.frame + 1, bound: true, headings: Seq::empty() }
}

/// Ending a frame: the binding dies; the recorded elements remain for
/// the host to render.
pub open spec fn end_spec(c: CanvasView) -> CanvasView {
    CanvasView { bound: false, ..c }
}

/// A draw call: with a live handle the heading is appended; with a dead
/// one the canvas is left untouched.
pub open spec fn heading_spec(c: CanvasView, h: nat, text: Seq<char>) -> CanvasView {
    if handle_live(c, h) {
        CanvasView { headings: c.headings.push(text), ..c }
    } else {
        c
    }
}

/// The per-frame drawing context, owned by the host.
pub struct Canvas {
    frame: u64,
    bound: bool,
    elements: Vec<Element>,
}

impl View for Canvas {
    type V = CanvasView;

    closed spec fn view(&self) -> CanvasView {
        CanvasView {
            frame: self.frame as nat,
            bound: self.bound,
            headings: texts_of(self.elements@),
        }
    }
}

impl Canvas {
    /// A canvas before any frame: nothing recorded, no live handle.
    pub fn new() -> (r: Canvas)
        ensures
            r@.frame == 0,
            !r@.bound,
            r@.headings == Seq::<Seq<char>>::empty(),
    {
        let r = Canvas { frame: 0, bound: false, elements: Vec::new() };
        assert(r@.headings =~= Seq::<Seq<char>>::empty());
        r
    }

    /// Open the next frame: clear the canvas and mint the handle that
    /// is valid for this frame only.
    pub fn begin_frame(&mut self) -> (h: UiHandle)
        requires
            old(self)@.frame < u64::MAX,
        ensures
            final(self)@ == begin_spec(old(self)@),
            h.frame as nat == final(self)@.frame,
    {
        self.frame = self.frame + 1;
        self.bound = true;
        self.elements = Vec::new();
        assert(self@.headings =~= Seq::<Seq<char>>::empty());
        UiHandle { frame: self.frame }
    }

    /// Close the current frame: every handle minted for it is dead from
    /// here on. The recorded elements remain readable.
    pub fn end_frame(&mut self)
        ensures
            final(self)@ == end_spec(old(self)@),
    {
        self.bound = false;
    }

    /// Record a heading, provided the handle is still live. A stale
    /// handle is rejected and the canvas is left untouched.
    pub fn heading(&mut self, h: &UiHandle, text: &str) -> (r: Result<Interaction, HandleError>)
        ensures
            final(self)@ == heading_spec(old(self)@, h.frame as nat, text@),
            r is Ok <==> handle_live(old(self)@, h.frame as nat),
            r is Ok ==> r == Result::<Interaction, HandleError>::Ok(Interaction { clicked: false }),
            r is Err ==> r == Result::<Interaction, HandleError>::Err(HandleError::Expired),
    {
        if self.bound && h.frame == self.frame {
            let ghost before = self.elements@;
            self.elements.push(Element::Heading(text.to_owned()));
            proof {
                assert(texts_of(self.elements@) =~= texts_of(before).push(text@));
            }
            Ok(Interaction::none())
        } else {
            Err(HandleError::Expired)
        }
    }

    /// The current frame number.
    pub fn frame_index(&self) -> (r: u64)
        ensures
            r as nat == self@.frame,
    {
        self.frame
    }

    /// The elements recorded during the last frame, in drawing order.
    pub fn elements(&self) -> (r: &Vec<Element>)
        ensures
            texts_of(r@) == self@.headings,
    {
        &self.elements
    }

    /// How many elements the last frame recorded.
    pub fn element_count(&self) -> (r: usize)
        ensures
            r == self@.headings.len(),
    {
        self.elements.len()
    }

    /// Reassert host authority after the canvas has passed through the
    /// script runtime: the frame number is pinned back to the host's
    /// counter and the frame is closed. The recorded elements are kept.
    pub fn close_frame(&mut self, frame: u64)
        ensures
            final(self)@.frame == frame as nat,
            !final(self)@.bound,
            final(self)@.headings == old(self)@.headings,
    {
        self.frame = frame;
        self.bound = false;
    }
}

/// A capability method invoked after its producing frame has ended is
/// rejected and leaves the canvas untouched.
pub proof fn lemma_ended_frame_rejects_handle(c: CanvasView, h: nat, text: Seq<char>)
    ensures
        !handle_live(end_spec(c), h),
        heading_spec(end_spec(c), h, text) == end_spec(c),
{
}

/// A handle minted in one frame is dead in the following frame, even
/// though that frame is live: a late draw call is rejected and changes
/// nothing.
pub proof fn lemma_handle_expires_next_frame(c: CanvasView, text: Seq<char>)
    ensures
        !handle_live(begin_spec(end_spec(begin_spec(c))), begin_spec(c).frame),
        heading_spec(begin_spec(end_spec(begin_spec(c))), begin_spec(c).frame, text)
            == begin_spec(end_spec(begin_spec(c))),
{
}

} // verus!
