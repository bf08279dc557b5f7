//! The declarative catalog of script-visible capabilities.
//!
//! Each entry names an exposed host type, the method name scripts use,
//! and the native operation behind it. Method names are namespaced per
//! type: two types may expose a method of the same name without
//! collision. Applying the catalog to a fresh script-engine instance
//! reproduces identical script-visible capabilities, which is what
//! makes engine replacement safe.

use vstd::prelude::*;

verus! {

/// The native operations the host exposes to scripts.
#[derive(Debug, Clone, Copy, PartialEq, Eq, Structural)]
pub enum NativeFn {
    /// Record a heading through a scoped ui capability value.
    Heading,
    /// Record a heading on the current frame's canvas directly.
    DrawHeading,
    /// Open the central layout region and re-invoke a script closure
    /// with a fresh ui capability value.
    CentralPanel,
    /// Read the host's last frame time, in nanoseconds.
    FrameTimeNs,
}

/// One registered binding: (exposed type name, method name, native
/// operation).
pub struct Binding {
    pub host_type: String,
    pub method: String,
    pub func: NativeFn,
}

/// Mathematical view of a binding.
pub ghost struct BindingView {
    pub host_type: Seq<char>,
    pub method: Seq<char>,
    pub func: NativeFn,
}

impl View for Binding {
    type V = BindingView;

    open spec fn view(&self) -> BindingView {
        BindingView {
            host_type: self.host_type@,
            method: self.method@,
            func: self.func,
        }
    }
}

impl Binding {
    /// A new catalog entry.
    pub fn new(host_type: String, method: String, func: NativeFn) -> (r: Binding)
        ensures
            r@.host_type == host_type@,
            r@.method == method@,
            r@.func == func,
    {
        Binding { host_type, method, func }
    }
}

/// The operation bound to a (type, method) pair: the most recently
/// registered matching entry, if any.
pub open spec fn lookup_spec(
    s: Seq<BindingView>,
    host_type: Seq<char>,
    method: Seq<char>,
) -> Option<NativeFn>
    decreases s.len(),
{
    if s.len() == 0 {
        None
    } else if s.last().host_type == host_type && s.last().method == method {
        Some(s.last().func)
    } else {
        lookup_spec(s.drop_last(), host_type, method)
    }
}

/// The catalog of registered bindings, in registration order.
pub struct Registry {
    entries: Vec<Binding>,
}

impl View for Registry {
    type V = Seq<BindingView>;

    closed spec fn view(&self) -> Seq<BindingView> {
        self.entries@.map_values(|b: Binding| b@)
    }
}

impl Registry {
    /// An empty catalog.
    pub fn new() -> (r: Registry)
        ensures
            r@ == Seq::<BindingView>::empty(),
    {
        let r = Registry { entries: Vec::new() };
        assert(r@ =~= Seq::<BindingView>::empty());
        r
    }

    /// How many bindings are registered.
    pub fn len(&self) -> (r: usize)
        ensures
            r == self@.len(),
    {
        self.entries.len()
    }

    /// The binding at the given position, in registration order.
    pub fn get(&self, i: usize) -> (r: &Binding)
        requires
            i < self@.len(),
        ensures
            r@ == self@[i as int],
    {
        &self.entries[i]
    }

    /// Register one more binding. Later entries shadow earlier ones
    /// with the same type and method names.
    pub fn register(&mut self, b: Binding)
        ensures
            final(self)@ == old(self)@.push(b@),
    {
        let ghost bv = b@;
        self.entries.push(b);
        assert(self@ =~= old(self)@.push(bv));
    }

    /// Look up the native operation bound to a (type, method) pair.
    pub fn lookup(&self, host_type: &str, method: &str) -> (r: Option<NativeFn>)
        ensures
            r == lookup_spec(self@, host_type@, method@),
    {
        let n = self.entries.len();
        let mut i: usize = n;
        assert(self@.take(n as int) =~= self@);
        while i > 0
            invariant
                i <= n,
                n == self@.len(),
                lookup_spec(self@, host_type@, method@) == lookup_spec(
                    self@.take(i as int),
                    host_type@,
                    method@,
                ),
            decreases i,
        {
            i = i - 1;
            let b = &self.entries[i];
            proof {
                assert(self@.take(i + 1).last() == self@[i as int]);
                assert(self@.take(i + 1).drop_last() =~= self@.take(i as int));
            }
            if str_eq(b.host_type.as_str(), host_type) && str_eq(
                b.method.as_str(),
                method,
            ) {
                return Some(b.func);
            }
        }
        assert(self@.take(0) =~= Seq::<BindingView>::empty());
        None
    }
}

/// Relies on str's `PartialEq`: two string slices compare equal
/// exactly when they hold the same characters.
#[verifier::external_body]
fn str_eq(a: &str, b: &str) -> (r: bool)
    ensures
        r <==> a@ == b@,
{
    a == b
}

/// Method names are namespaced per type: registering a method name for
/// two distinct types leaves each type's lookup bound to its own
/// native operation.
pub proof fn lemma_methods_namespaced(
    s: Seq<BindingView>,
    t1: Seq<char>,
    t2: Seq<char>,
    m: Seq<char>,
    f1: NativeFn,
    f2: NativeFn,
)
    requires
        t1 != t2,
    ensures
        ({
            let s2 = s.push(BindingView { host_type: t1, method: m, func: f1 }).push(
                BindingView { host_type: t2, method: m, func: f2 },
            );
            lookup_spec(s2, t1, m) == Some(f1) && lookup_spec(s2, t2, m) == Some(f2)
        }),
{
    let b1 = BindingView { host_type: t1, method: m, func: f1 };
    let b2 = BindingView { host_type: t2, method: m, func: f2 };
    let s2 = s.push(b1).push(b2);
    assert(s2.last() == b2);
    assert(s2.drop_last() =~= s.push(b1));
    assert(s.push(b1).last() == b1);
    assert(lookup_spec(s2, t2, m) == Some(f2));
    assert(lookup_spec(s2, t1, m) == lookup_spec(s.push(b1), t1, m));
    assert(lookup_spec(s.push(b1), t1, m) == Some(f1));
}

} // verus!
