//! The trusted surface towards the external collaborators: the rhai
//! script runtime, and the shared cells that carry the canvas and the
//! mailbox across the host/script and thread boundaries.
//!
//! Everything here is declared, not proved: each item's doc comment
//! names the outside function it relies on. All logic worth proving
//! lives behind this surface, in the verified modules.

use vstd::prelude::*;

use crate::canvas::{Canvas, HandleError, Interaction, UiHandle};
use crate::data::Data;
use crate::mailbox::Mailbox;
use crate::modules::{run_panel, RyeUi};

verus! {

#[verifier::external_type_specification]
#[verifier::external_body]
pub struct ExEngine(rhai::Engine);

#[verifier::external_type_specification]
#[verifier::external_body]
pub struct ExAst(rhai::AST);

#[verifier::external_type_specification]
#[verifier::external_body]
pub struct ExParseError(rhai::ParseError);

#[verifier::external_type_specification]
#[verifier::external_body]
pub struct ExEvalAltResult(rhai::EvalAltResult);

#[verifier::external_type_specification]
#[verifier::external_body]
pub struct ExScope<'a>(rhai::Scope<'a>);

#[verifier::external_type_specification]
#[verifier::external_body]
pub struct ExNativeCallContext<'a>(rhai::NativeCallContext<'a>);

#[verifier::external_type_specification]
#[verifier::external_body]
pub struct ExFnPtr(rhai::FnPtr);

/// Shared store for the canvas while the script runtime executes a
/// frame: the registered native functions reach the live canvas only
/// through it. Holds an `Rc<RefCell<Canvas>>`; every mutation of the
/// contents goes through verified `Canvas` methods.
#[verifier::external_body]
pub struct CanvasCell {
    inner: std::rc::Rc<core::cell::RefCell<Canvas>>,
}

impl Clone for CanvasCell {
    /// Relies on `Rc::clone`: the copy is another pointer to the same
    /// allocation, so it denotes the very same shared cell.
    #[verifier::external_body]
    fn clone(&self) -> (r: Self)
        ensures
            r == *self,
    {
        CanvasCell { inner: self.inner.clone() }
    }
}

impl CanvasCell {
    /// Relies on `Rc::new` and `RefCell::new`: a fresh cell holding
    /// the given canvas.
    #[verifier::external_body]
    pub(crate) fn new(canvas: Canvas) -> (r: CanvasCell) {
        CanvasCell { inner: std::rc::Rc::new(core::cell::RefCell::new(canvas)) }
    }

    /// Relies on `RefCell::replace`: swaps the stored canvas for the
    /// given one and returns the previous occupant.
    #[verifier::external_body]
    pub(crate) fn replace(&self, canvas: Canvas) -> (r: Canvas) {
        self.inner.replace(canvas)
    }

    /// Relies on `RefCell::borrow_mut` for exclusive access within
    /// this call; the drawing itself is the verified `Canvas::heading`,
    /// whose contract pins the result shape for every stored canvas:
    /// a rejection is always the expired-handle error, and a recorded
    /// widget reports no interaction yet.
    #[verifier::external_body]
    pub(crate) fn heading(&self, frame: u64, text: &str) -> (r: Result<Interaction, HandleError>)
        ensures
            r matches Err(e) ==> e == HandleError::Expired,
            r matches Ok(i) ==> !i.clicked,
    {
        self.inner.borrow_mut().heading(&UiHandle { frame }, text)
    }

    /// Relies on `RefCell::borrow`; reads the verified frame counter
    /// of the stored canvas.
    #[verifier::external_body]
    pub(crate) fn current_frame(&self) -> (r: u64) {
        self.inner.borrow().frame_index()
    }
}

/// The mailbox slot shared between the watcher thread and the frame
/// thread. Holds an `Arc<parking_lot::Mutex<Mailbox>>`; the lock is
/// held only for the verified deposit or take, never across
/// compilation or execution. The last-write-wins contract is proved on
/// `Mailbox`.
#[verifier::external_body]
pub struct SharedSlot {
    inner: std::sync::Arc<parking_lot::Mutex<Mailbox>>,
}

impl Clone for SharedSlot {
    /// Relies on `Arc::clone`: the copy is another pointer to the same
    /// allocation, so it denotes the very same shared slot.
    #[verifier::external_body]
    fn clone(&self) -> (r: Self)
        ensures
            r == *self,
    {
        SharedSlot { inner: self.inner.clone() }
    }
}

impl SharedSlot {
    /// Relies on `Arc::new` and `parking_lot::Mutex::new`: a fresh
    /// shared slot around an empty verified mailbox.
    #[verifier::external_body]
    pub(crate) fn new() -> (r: SharedSlot) {
        SharedSlot { inner: std::sync::Arc::new(parking_lot::Mutex::new(Mailbox::new())) }
    }

    /// Relies on `parking_lot::Mutex::lock` for the critical section;
    /// the overwrite itself is the verified `Mailbox::deposit`.
    #[verifier::external_body]
    pub(crate) fn deposit(&self, text: String) {
        self.inner.lock().deposit(text)
    }

    /// Relies on `parking_lot::Mutex::lock` for the critical section;
    /// the removal itself is the verified `Mailbox::take`.
    #[verifier::external_body]
    pub(crate) fn take(&self) -> (r: Option<String>) {
        self.inner.lock().take()
    }
}

/// Relies on `rhai::Engine::new`: a fresh script engine with default
/// configuration.
#[verifier::external_body]
pub(crate) fn engine_new() -> (r: rhai::Engine) {
    rhai::Engine::new()
}

/// Relies on `rhai::Engine::set_max_expr_depths`: zero lifts the
/// expression-depth limits, a deliberate relaxation for trusted
/// embedding hosts.
#[verifier::external_body]
pub(crate) fn set_unbounded_depths(engine: &mut rhai::Engine) {
    engine.set_max_expr_depths(0, 0);
}

/// Relies on `rhai::Engine::compile`: parses the source into a
/// program, or reports a parse diagnostic. Whether a given source
/// parses is the collaborator's decision; the stale-on-error policy
/// around it is verified in the caller. Note that with the expression
/// depth limits lifted, a pathologically nested source can exhaust
/// the stack inside the recursive parser — the deliberate price of an
/// embedding host that trusts its own scripts.
#[verifier::external_body]
pub(crate) fn compile_source(engine: &rhai::Engine, source: &str) -> (r: Result<
    rhai::AST,
    rhai::ParseError,
>) {
    engine.compile(source)
}

/// Relies on `rhai::ParseError`'s `Display`: the diagnostic text,
/// including the source position where available.
#[verifier::external_body]
pub(crate) fn parse_error_text(err: &rhai::ParseError) -> (r: String) {
    format!("{}", err)
}

/// Relies on `rhai::Engine::run_ast_with_scope`: executes the compiled
/// program once against the given variable scope, calling registered
/// native functions as the script reaches them. The same stack-depth
/// caveat as for compilation applies while the limits are lifted.
#[verifier::external_body]
pub(crate) fn run_program(
    engine: &rhai::Engine,
    scope: &mut rhai::Scope<'static>,
    ast: &rhai::AST,
) -> (r: Result<(), Box<rhai::EvalAltResult>>) {
    engine.run_ast_with_scope(scope, ast)
}

/// Relies on `rhai::EvalAltResult`'s `Display`: the runtime
/// diagnostic text.
#[verifier::external_body]
pub(crate) fn eval_error_text(err: &rhai::EvalAltResult) -> (r: String) {
    format!("{}", err)
}

/// Relies on `rhai::EvalAltResult::ErrorRuntime`: wraps an
/// expired-handle rejection as a script-level runtime error.
#[verifier::external_body]
pub(crate) fn expired_handle_error() -> (r: Box<rhai::EvalAltResult>) {
    Box::new(rhai::EvalAltResult::ErrorRuntime(
        rhai::Dynamic::from("expired handle"),
        rhai::Position::NONE,
    ))
}

/// Relies on `rhai::Scope::new`: an empty variable scope.
#[verifier::external_body]
pub(crate) fn scope_new() -> (r: rhai::Scope<'static>) {
    rhai::Scope::new()
}

/// Relies on `rhai::Engine::register_type_with_name`: exposes the ui
/// capability type to scripts under the given name.
#[verifier::external_body]
pub(crate) fn register_type_ui(engine: &mut rhai::Engine, name: &str) {
    engine.register_type_with_name::<RyeUi>(name);
}

/// Relies on `rhai::Engine::register_type_with_name`: exposes the
/// interaction-result type to scripts under the given name.
#[verifier::external_body]
pub(crate) fn register_type_interaction(engine: &mut rhai::Engine, name: &str) {
    engine.register_type_with_name::<Interaction>(name);
}

/// Relies on `rhai::Engine::register_type`: exposes the host data
/// type to scripts under its natural type name.
#[verifier::external_body]
pub(crate) fn register_type_data(engine: &mut rhai::Engine) {
    engine.register_type::<Data>();
}

/// Relies on `rhai::Engine::register_fn`: exposes the verified
/// `RyeUi::script_heading` as a method on the ui capability type.
#[verifier::external_body]
pub(crate) fn register_heading(engine: &mut rhai::Engine, name: &str) {
    engine.register_fn(name.to_owned(), RyeUi::script_heading);
}

/// Relies on `rhai::Engine::register_fn`: exposes a free function
/// drawing on the current frame's canvas; the closure only calls the
/// verified `draw_heading_call`.
#[verifier::external_body]
pub(crate) fn register_draw_heading(engine: &mut rhai::Engine, name: &str, cell: CanvasCell) {
    engine.register_fn(
        name.to_owned(),
        move |text: &str| crate::modules::draw_heading_call(&cell, text),
    );
}

/// Relies on `rhai::Engine::register_fn`: exposes the layout entry
/// point that re-invokes a script closure; the closure only calls the
/// verified `run_panel`.
#[verifier::external_body]
pub(crate) fn register_central_panel(engine: &mut rhai::Engine, name: &str, cell: CanvasCell) {
    engine.register_fn(
        name.to_owned(),
        move |ncc: rhai::NativeCallContext, cb: rhai::FnPtr| run_panel(&ncc, &cb, &cell),
    );
}

/// Relies on `rhai::Engine::register_fn`: exposes the verified
/// `Data::frame_time_ns` as a method on the host data type.
#[verifier::external_body]
pub(crate) fn register_frame_time(engine: &mut rhai::Engine, name: &str) {
    engine.register_fn(name.to_owned(), Data::frame_time_ns);
}

/// Relies on `rhai::FnPtr::call_within_context`: re-invokes the script
/// closure from inside host code, handing it the ui capability value.
#[verifier::external_body]
pub(crate) fn call_ui_callback(
    ncc: &rhai::NativeCallContext,
    cb: &rhai::FnPtr,
    ui: RyeUi,
) -> (r: Result<(), Box<rhai::EvalAltResult>>) {
    match cb.call_within_context::<rhai::Dynamic>(ncc, (ui,)) {
        Ok(_) => Ok(()),
        Err(e) => Err(e),
    }
}

} // verus!
