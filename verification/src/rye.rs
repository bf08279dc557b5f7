//! The script engine: owns the runtime instance and the current
//! compiled program, recompiles pending edits with a stale-on-error
//! policy, and drives one scripted frame at a time.
//!
//! The engine's observable state is its view: the source of the
//! current compiled program, the catalog of script-visible bindings,
//! and the canvas. Replacing the runtime instance re-applies the full
//! catalog, so the script-visible surface survives replacement
//! unchanged.

use vstd::prelude::*;

use crate::canvas::{Canvas, CanvasView, Element};
use crate::canvas::texts_of;
use crate::mailbox::text_of;
use crate::registry::{Binding, BindingView, NativeFn, Registry};
use crate::registry::lookup_spec;
use crate::runtime::{
    compile_source, engine_new, eval_error_text, parse_error_text, register_central_panel,
    register_draw_heading, register_frame_time, register_heading, register_type_data,
    register_type_interaction, register_type_ui, run_program, scope_new, set_unbounded_depths,
    CanvasCell, SharedSlot,
};

verus! {

/// A malformed script: the diagnostic text, with the source location
/// where the parser reported one.
#[derive(Debug, Clone, PartialEq, Eq)]
pub struct CompileError {
    pub message: String,
}

/// A failure during execution: undefined symbol, type mismatch, or a
/// script-level exception. Reported, never propagated as a crash.
#[derive(Debug, Clone, PartialEq, Eq)]
pub struct RuntimeError {
    pub message: String,
}

/// What one frame's update observed: the script source taken from the
/// mailbox (if an edit was pending), and the errors the frame hit.
/// Both error kinds degrade to "keep the previous good state"; neither
/// aborts the host.
pub struct FrameReport {
    pub pending: Option<String>,
    pub compile_err: Option<CompileError>,
    pub runtime_err: Option<RuntimeError>,
}

impl FrameReport {
    /// Whether this frame consumed a pending edit that compiled: the
    /// host's change-listeners fire exactly when this holds. An edit
    /// that failed to compile is reported through `compile_err` and
    /// fires no notification.
    pub fn script_changed(&self) -> (r: bool)
        ensures
            r == (self.pending is Some && self.compile_err is None),
    {
        self.pending.is_some() && self.compile_err.is_none()
    }
}

/// Assemble one frame's report: the runtime-error field carries
/// exactly what the run returned, the other fields exactly what the
/// compile step yielded.
fn report_of(
    pending: Option<String>,
    compile_err: Option<CompileError>,
    run: Result<(), RuntimeError>,
) -> (r: FrameReport)
    ensures
        r.pending == pending,
        r.compile_err == compile_err,
        run is Ok ==> r.runtime_err is None,
        run matches Err(e) ==> r.runtime_err == Some(e),
{
    let runtime_err = match run {
        Ok(()) => None,
        Err(e) => Some(e),
    };
    FrameReport { pending, compile_err, runtime_err }
}

/// Mathematical state of the engine: the source of the current
/// compiled program, the binding catalog, and the canvas.
pub ghost struct RyeView {
    pub program: Option<Seq<char>>,
    pub bindings: Seq<BindingView>,
    pub canvas: CanvasView,
}

/// What a compile attempt leaves as the current program: the fresh
/// source if the collaborator accepted it, the previous program —
/// never "no program" — if it did not.
pub open spec fn compile_transition(
    program: Option<Seq<char>>,
    source: Seq<char>,
    accepted: bool,
) -> Option<Seq<char>> {
    if accepted {
        Some(source)
    } else {
        program
    }
}

/// What a run leaves as the current program: running never touches it.
pub open spec fn run_transition(program: Option<Seq<char>>) -> Option<Seq<char>> {
    program
}

/// The catalog every fresh engine starts with. A method is catalogued
/// under its receiver type's script-visible name; a free function,
/// callable from any script position, under the `global` namespace.
pub open spec fn standard_bindings() -> Seq<BindingView> {
    seq![
        BindingView { host_type: "Ui"@, method: "heading"@, func: NativeFn::Heading },
        BindingView { host_type: "global"@, method: "draw_heading"@, func: NativeFn::DrawHeading },
        BindingView { host_type: "global"@, method: "central_panel"@, func: NativeFn::CentralPanel },
    ]
}

/// The script engine. Owns one runtime instance, the current compiled
/// program, the shared mailbox, and the per-frame canvas.
pub struct Rye {
    engine: rhai::Engine,
    ast: Option<rhai::AST>,
    program_src: Option<String>,
    script: SharedSlot,
    cell: CanvasCell,
    canvas: Canvas,
    registry: Registry,
}

impl View for Rye {
    type V = RyeView;

    closed spec fn view(&self) -> RyeView {
        RyeView {
            program: text_of(self.program_src),
            bindings: self.registry@,
            canvas: self.canvas@,
        }
    }
}

impl Rye {
    /// There is always either no program or a last-known-good program,
    /// never a program without its source.
    pub closed spec fn wf(&self) -> bool {
        self.ast is Some <==> self.program_src is Some
    }

    /// A fresh engine: no program, the standard catalog registered,
    /// the canvas before its first frame.
    pub fn new() -> (r: Rye)
        ensures
            r.wf(),
            r@.program is None,
            r@.bindings == standard_bindings(),
            r@.canvas.frame == 0,
            !r@.canvas.bound,
    {
        let mut r = Rye {
            engine: engine_new(),
            ast: None,
            program_src: None,
            script: SharedSlot::new(),
            cell: CanvasCell::new(Canvas::new()),
            canvas: Canvas::new(),
            registry: standard_registry(),
        };
        r.setup_engine();
        r
    }

    /// The live runtime instance, as an abstract value.
    pub closed spec fn spec_engine(&self) -> rhai::Engine {
        self.engine
    }

    /// The engine's current runtime instance.
    pub fn engine(&self) -> (r: &rhai::Engine)
        ensures
            *r == self.spec_engine(),
    {
        &self.engine
    }

    /// The source of the current compiled program, if there is one.
    pub fn program_source(&self) -> (r: &Option<String>)
        ensures
            text_of(*r) == self@.program,
    {
        &self.program_src
    }

    /// The elements the last frame recorded, in drawing order; the
    /// host renders these.
    pub fn elements(&self) -> (r: &Vec<Element>)
        ensures
            texts_of(r@) == self@.canvas.headings,
    {
        self.canvas.elements()
    }

    /// The canvas's current frame number.
    pub fn frame_index(&self) -> (r: u64)
        ensures
            r as nat == self@.canvas.frame,
    {
        self.canvas.frame_index()
    }

    /// The mailbox slot this engine polls, as an abstract value.
    pub closed spec fn spec_slot(&self) -> SharedSlot {
        self.script
    }

    /// A producer-side handle on this engine's own mailbox, for the
    /// watcher thread: what it deposits is what `update` takes.
    pub fn handle(&self) -> (r: Handle)
        ensures
            r.spec_slot() == self.spec_slot(),
    {
        Handle { script: self.script.clone() }
    }

    /// The operation currently bound to a (type, method) pair.
    pub fn lookup(&self, host_type: &str, method: &str) -> (r: Option<NativeFn>)
        ensures
            r == lookup_spec(self@.bindings, host_type@, method@),
    {
        self.registry.lookup(host_type, method)
    }

    /// Register one more script-visible binding, on the live runtime
    /// instance and in the catalog, so it survives engine replacement.
    pub fn add_binding(&mut self, b: Binding)
        requires
            old(self).wf(),
        ensures
            final(self).wf(),
            final(self)@.program == old(self)@.program,
            final(self)@.bindings == old(self)@.bindings.push(b@),
            final(self)@.canvas == old(self)@.canvas,
            final(self).spec_slot() == old(self).spec_slot(),
    {
        apply_binding(&mut self.engine, &self.cell, &b);
        self.registry.register(b);
    }

    /// Compile the given source. On success the fresh program replaces
    /// the current one; on failure the diagnostic is returned and the
    /// previous good program is kept — a bad edit never downgrades the
    /// engine to "no program".
    pub fn compile(&mut self, source: &str) -> (r: Result<(), CompileError>)
        requires
            old(self).wf(),
        ensures
            final(self).wf(),
            final(self)@.program == compile_transition(old(self)@.program, source@, r is Ok),
            final(self)@.bindings == old(self)@.bindings,
            final(self)@.canvas == old(self)@.canvas,
            final(self).spec_slot() == old(self).spec_slot(),
    {
        match compile_source(&self.engine, source) {
            Ok(ast) => {
                self.ast = Some(ast);
                self.program_src = Some(source.to_owned());
                Ok(())
            },
            Err(e) => Err(CompileError { message: parse_error_text(&e) }),
        }
    }

    /// Poll the mailbox and recompile if an edit is pending. The taken
    /// source (if any) and the compile diagnostic (if any) are
    /// reported; the program changes exactly when a pending edit
    /// compiled.
    pub fn compile_ast(&mut self) -> (r: (Option<String>, Option<CompileError>))
        requires
            old(self).wf(),
        ensures
            final(self).wf(),
            final(self)@.bindings == old(self)@.bindings,
            final(self)@.canvas == old(self)@.canvas,
            match r.0 {
                None => r.1 is None && final(self)@.program == old(self)@.program,
                Some(src) => final(self)@.program == compile_transition(
                    old(self)@.program,
                    src@,
                    r.1 is None,
                ),
            },
            final(self).spec_slot() == old(self).spec_slot(),
    {
        match self.script.take() {
            None => (None, None),
            Some(src) => {
                match self.compile(src.as_str()) {
                    Ok(()) => (Some(src), None),
                    Err(e) => (Some(src), Some(e)),
                }
            },
        }
    }

    /// Execute the current program once against the given variable
    /// scope. The canvas passes through the script runtime for the
    /// duration: the frame opens, registered draw calls record
    /// elements, the frame closes and every capability handle minted
    /// for it dies. The program and the catalog are left untouched;
    /// a runtime failure stops this frame's script and nothing else.
    /// With no program there is nothing the collaborator could reject,
    /// so the run is owed success.
    pub fn run(&mut self, scope: &mut rhai::Scope<'static>) -> (r: Result<(), RuntimeError>)
        requires
            old(self).wf(),
            old(self)@.canvas.frame < u64::MAX,
        ensures
            final(self).wf(),
            final(self)@.program == run_transition(old(self)@.program),
            final(self)@.bindings == old(self)@.bindings,
            final(self)@.canvas.frame == old(self)@.canvas.frame + 1,
            !final(self)@.canvas.bound,
            old(self)@.program is None ==> r is Ok,
            final(self).spec_slot() == old(self).spec_slot(),
    {
        let h = self.canvas.begin_frame();
        let mut live = Canvas::new();
        core::mem::swap(&mut live, &mut self.canvas);
        let parked = self.cell.replace(live);
        let outcome = match &self.ast {
            Some(ast) => run_program(&self.engine, scope, ast),
            None => Ok(()),
        };
        let returned = self.cell.replace(parked);
        self.canvas = returned;
        self.canvas.close_frame(h.frame);
        match outcome {
            Ok(()) => Ok(()),
            Err(e) => Err(RuntimeError { message: eval_error_text(&e) }),
        }
    }

    /// One full frame: poll the mailbox, recompile a pending edit
    /// under the stale-on-error policy, then execute the current
    /// program against the given scope. Errors are reported in the
    /// frame report, never propagated.
    pub fn update_with_scope(&mut self, scope: &mut rhai::Scope<'static>) -> (r: FrameReport)
        requires
            old(self).wf(),
            old(self)@.canvas.frame < u64::MAX,
        ensures
            final(self).wf(),
            final(self)@.bindings == old(self)@.bindings,
            final(self)@.canvas.frame == old(self)@.canvas.frame + 1,
            !final(self)@.canvas.bound,
            match r.pending {
                None => r.compile_err is None && final(self)@.program == old(self)@.program,
                Some(src) => final(self)@.program == compile_transition(
                    old(self)@.program,
                    src@,
                    r.compile_err is None,
                ),
            },
            final(self)@.program is None ==> r.runtime_err is None,
            final(self).spec_slot() == old(self).spec_slot(),
    {
        let (pending, compile_err) = self.compile_ast();
        let run = self.run(scope);
        report_of(pending, compile_err, run)
    }

    /// One full frame against an empty scope.
    pub fn update(&mut self) -> (r: FrameReport)
        requires
            old(self).wf(),
            old(self)@.canvas.frame < u64::MAX,
        ensures
            final(self).wf(),
            final(self)@.bindings == old(self)@.bindings,
            final(self)@.canvas.frame == old(self)@.canvas.frame + 1,
            !final(self)@.canvas.bound,
            match r.pending {
                None => r.compile_err is None && final(self)@.program == old(self)@.program,
                Some(src) => final(self)@.program == compile_transition(
                    old(self)@.program,
                    src@,
                    r.compile_err is None,
                ),
            },
            final(self)@.program is None ==> r.runtime_err is None,
            final(self).spec_slot() == old(self).spec_slot(),
    {
        let mut scope = scope_new();
        self.update_with_scope(&mut scope)
    }

    /// Swap the live runtime instance for the given one and hand the
    /// displaced instance back. The full registration sequence is
    /// re-run against the new instance at once, so the script-visible
    /// catalog — and the compiled program — are those from before the
    /// replacement: a script calling a registered method observes the
    /// same bindings as before.
    pub fn replace_engine(&mut self, engine: rhai::Engine) -> (r: rhai::Engine)
        requires
            old(self).wf(),
        ensures
            final(self).wf(),
            final(self)@ == old(self)@,
            r == old(self).spec_engine(),
            final(self).spec_slot() == old(self).spec_slot(),
    {
        let mut displaced = engine;
        core::mem::swap(&mut self.engine, &mut displaced);
        self.setup_engine();
        displaced
    }

    /// Install the given runtime instance, dropping the previous one,
    /// and re-run the full registration sequence against it.
    pub fn set_engine(&mut self, engine: rhai::Engine)
        requires
            old(self).wf(),
        ensures
            final(self).wf(),
            final(self)@ == old(self)@,
            final(self).spec_slot() == old(self).spec_slot(),
    {
        self.engine = engine;
        self.setup_engine();
    }

    /// The repeatable registration sequence: configure the instance,
    /// expose the host types, then apply every catalog entry. Run
    /// against a fresh instance it reproduces identical script-visible
    /// capabilities.
    fn setup_engine(&mut self)
        requires
            old(self).wf(),
        ensures
            final(self).wf(),
            final(self)@ == old(self)@,
            final(self).spec_slot() == old(self).spec_slot(),
    {
        set_unbounded_depths(&mut self.engine);
        register_type_ui(&mut self.engine, "Ui");
        register_type_interaction(&mut self.engine, "UiResponse");
        register_type_data(&mut self.engine);
        let ghost pre = self@;
        let ghost pre_slot = self.spec_slot();
        let n = self.registry.len();
        let mut i: usize = 0;
        while i < n
            invariant
                n == self.registry@.len(),
                self@ == pre,
                self.spec_slot() == pre_slot,
                self.wf(),
            decreases n - i,
        {
            apply_binding(&mut self.engine, &self.cell, self.registry.get(i));
            i = i + 1;
        }
    }
}

impl Default for Rye {
    /// A fresh engine, as `new` builds it.
    fn default() -> (r: Rye)
        ensures
            r.wf(),
            r@.program is None,
            r@.bindings == standard_bindings(),
            r@.canvas.frame == 0,
            !r@.canvas.bound,
    {
        Rye::new()
    }
}

/// Register one catalog entry on a runtime instance, under the entry's
/// method name.
fn apply_binding(engine: &mut rhai::Engine, cell: &CanvasCell, b: &Binding) {
    match b.func {
        NativeFn::Heading => register_heading(engine, b.method.as_str()),
        NativeFn::DrawHeading => register_draw_heading(engine, b.method.as_str(), cell.clone()),
        NativeFn::CentralPanel => register_central_panel(
            engine,
            b.method.as_str(),
            cell.clone(),
        ),
        NativeFn::FrameTimeNs => register_frame_time(engine, b.method.as_str()),
    }
}

/// The standard catalog as a value.
fn standard_registry() -> (r: Registry)
    ensures
        r@ == standard_bindings(),
{
    let mut r = Registry::new();
    r.register(Binding::new("Ui".to_owned(), "heading".to_owned(), NativeFn::Heading));
    r.register(Binding::new("global".to_owned(), "draw_heading".to_owned(), NativeFn::DrawHeading));
    r.register(Binding::new("global".to_owned(), "central_panel".to_owned(), NativeFn::CentralPanel));
    assert(r@ =~= standard_bindings());
    r
}

/// A producer-side handle on the shared mailbox: the file-watch
/// callback deposits newly read script source through it, without ever
/// blocking the frame thread beyond the slot's critical section.
#[derive(Clone)]
pub struct Handle {
    script: SharedSlot,
}

impl Handle {
    /// The mailbox slot this handle deposits into, as an abstract
    /// value.
    pub closed spec fn spec_slot(&self) -> SharedSlot {
        self.script
    }

    /// Hand new script source to the engine: it overwrites any
    /// unconsumed previous deposit and is compiled on the next frame.
    /// Always succeeds.
    pub fn set_script(&self, script: &str) -> (r: Result<(), rhai::ParseError>)
        ensures
            r is Ok,
    {
        self.script.deposit(script.to_owned());
        Ok(())
    }
}

/// A successful compile installs the freshly compiled source as the
/// program, and a following run leaves exactly that program in place.
pub proof fn lemma_fresh_program_survives_run(program: Option<Seq<char>>, source: Seq<char>)
    ensures
        run_transition(compile_transition(program, source, true)) == Some(source),
{
}

/// A rejected compile leaves the program exactly as it was: the engine
/// never downgrades to "no program" because of a bad edit.
pub proof fn lemma_failed_compile_keeps_stale_program(
    program: Option<Seq<char>>,
    source: Seq<char>,
)
    ensures
        compile_transition(program, source, false) == program,
{
}

} // verus!
