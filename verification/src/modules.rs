//! The script-visible ui surface: the scoped capability value scripts
//! draw through, and the layout entry point that hands it to them.

use vstd::prelude::*;

use crate::canvas::{HandleError, Interaction};
use crate::runtime::{call_ui_callback, expired_handle_error, CanvasCell};

verus! {

/// The ui capability value handed to scripted code: a shared reference
/// to the frame's canvas, plus the frame number it was minted for.
/// Cheap to clone; every copy shares the same validity window, and all
/// of them die when that frame ends.
#[derive(Clone)]
pub struct RyeUi {
    cell: CanvasCell,
    frame: u64,
}

impl RyeUi {
    /// The shared cell this capability draws through.
    pub closed spec fn spec_cell(&self) -> CanvasCell {
        self.cell
    }

    /// The frame this capability was minted for; its draw calls are
    /// accepted exactly while that frame is the canvas's live one.
    pub closed spec fn spec_frame(&self) -> u64 {
        self.frame
    }

    /// Mint a ui value on the very cell given, for the frame its
    /// canvas currently shows. Which frame that is at the moment of
    /// the call is the shared cell's state, beyond a mathematical
    /// model of the capability alone; the canvas itself then judges
    /// every draw call against its live frame.
    pub fn bound_to(cell: &CanvasCell) -> (r: RyeUi)
        ensures
            r.spec_cell() == *cell,
    {
        let frame = cell.current_frame();
        RyeUi { cell: cell.clone(), frame }
    }

    /// Record a heading through this capability. Once the producing
    /// frame has ended the call is rejected with an expired-handle
    /// error instead of touching the canvas; a recorded widget reports
    /// no interaction yet. The capability itself is left as it was.
    pub fn heading(&mut self, text: &str) -> (r: Result<Interaction, HandleError>)
        ensures
            *final(self) == *old(self),
            r matches Err(e) ==> e == HandleError::Expired,
            r matches Ok(i) ==> !i.clicked,
    {
        self.cell.heading(self.frame, text)
    }

    /// `heading`, with a rejection surfaced to the script runtime as a
    /// script-level runtime error rather than a host-side failure.
    pub(crate) fn script_heading(&mut self, text: &str) -> (r: Result<
        Interaction,
        Box<rhai::EvalAltResult>,
    >)
        ensures
            *final(self) == *old(self),
            r matches Ok(i) ==> !i.clicked,
    {
        match self.cell.heading(self.frame, text) {
            Ok(i) => Ok(i),
            Err(_) => Err(expired_handle_error()),
        }
    }
}

/// Open the central layout region for the current frame: the returned
/// ui capability draws on this very cell, minted for the frame its
/// canvas currently shows.
pub fn central_panel(cell: &CanvasCell) -> (r: RyeUi)
    ensures
        r.spec_cell() == *cell,
{
    RyeUi::bound_to(cell)
}

/// Drive one scripted layout callback: mint a ui capability for the
/// current frame and re-invoke the script closure with it. The
/// capability — and every clone the script may have kept — expires
/// when the frame ends.
pub(crate) fn run_panel(
    ncc: &rhai::NativeCallContext,
    cb: &rhai::FnPtr,
    cell: &CanvasCell,
) -> (r: Result<(), Box<rhai::EvalAltResult>>) {
    let ui = central_panel(cell);
    call_ui_callback(ncc, cb, ui)
}

/// Record a heading on the current frame's canvas through the shared
/// cell; rejected as expired when no frame is open.
pub(crate) fn draw_heading_call(cell: &CanvasCell, text: &str) -> (r: Result<
    Interaction,
    Box<rhai::EvalAltResult>,
>)
    ensures
        r matches Ok(i) ==> !i.clicked,
{
    let mut ui = RyeUi::bound_to(cell);
    ui.script_heading(text)
}

} // verus!
