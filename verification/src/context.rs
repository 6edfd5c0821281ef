use vstd::prelude::*;

verus! {

/// The per-thread slot that holds the runtime once it has been created.
pub struct Context<R> {
    pub runtime: Option<R>,
}

impl<R> Context<R> {
    /// A context in which no runtime has been created yet.
    pub fn new() -> (c: Self)
        ensures
            c.runtime is None,
    {
        Context { runtime: None }
    }

    /// Whether a runtime has been created in this context.
    pub fn has_runtime(&self) -> (b: bool)
        ensures
            b == self.runtime is Some,
    {
        self.runtime.is_some()
    }

    /// Installs `runtime`. A context holds one runtime for good: creating a
    /// second one is refused (the caller must not try).
    pub fn init_runtime(&mut self, runtime: R)
        requires
            old(self).runtime is None,
        ensures
            final(self).runtime == Some(runtime),
    {
        self.runtime = Some(runtime);
    }

    /// Runs `f` on the installed runtime and gives back what it returns.
    /// There must be a runtime.
    pub fn with_runtime<T, F: FnOnce(&R) -> T>(&self, f: F) -> (r: T)
        requires
            self.runtime is Some,
            f.requires((&self.runtime->0,)),
        ensures
            f.ensures((&self.runtime->0,), r),
    {
        let rt = self.runtime.as_ref().unwrap();
        f(rt)
    }
}

} // verus!
