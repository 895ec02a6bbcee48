use vstd::prelude::*;

verus! {

/// The process-wide record of GL function loading. Loading resolves every GL
/// entry point once and caches it globally, so it must run exactly once per
/// process, however many contexts are created and on however many threads.
/// The caller keeps a single `FunctionLoader` behind the same lock that
/// serialises context creation.
#[derive(Debug)]
pub struct FunctionLoader {
    loaded: bool,
    load_count: u32,
}

/// The answers of `n` consecutive `FunctionLoader::begin_load` calls, the
/// first made when the loader's state was `loaded`.
pub open spec fn load_answers(loaded: bool, n: nat) -> Seq<bool>
    decreases n,
{
    if n == 0 {
        Seq::empty()
    } else {
        seq![!loaded].add(load_answers(true, (n - 1) as nat))
    }
}

impl FunctionLoader {
    #[verifier::type_invariant]
    spec fn count_matches(self) -> bool {
        self.load_count == (if self.loaded { 1u32 } else { 0u32 })
    }

    pub closed spec fn loaded(self) -> bool {
        self.loaded
    }

    pub closed spec fn count(self) -> nat {
        self.load_count as nat
    }

    /// A loader for a process in which nothing has been loaded.
    pub fn new() -> (r: FunctionLoader)
        ensures
            !r.loaded(),
            r.count() == 0,
    {
        FunctionLoader { loaded: false, load_count: 0 }
    }

    /// Claims the load for the caller. Returns `true` to exactly the first
    /// claimant, which then resolves the entry points; everyone else is told
    /// that they have been resolved already.
    pub fn begin_load(&mut self) -> (r: bool)
        ensures
            r == !old(self).loaded(),
            final(self).loaded(),
            final(self).count() == 1,
    {
        proof {
            use_type_invariant(&*self);
        }
        if self.loaded {
            false
        } else {
            *self = FunctionLoader { loaded: true, load_count: 1 };
            true
        }
    }

    pub fn is_loaded(&self) -> (r: bool)
        ensures
            r == self.loaded(),
    {
        self.loaded
    }

    /// How many times the entry points have been loaded: zero or one.
    pub fn load_count(&self) -> (r: u32)
        ensures
            r == self.count(),
            r == (if self.loaded() { 1u32 } else { 0u32 }),
    {
        proof {
            use_type_invariant(self);
        }
        self.load_count
    }
}

/// Any number of creations, serialised through one loader that starts
/// unloaded, load the entry points exactly once: the first claim is answered
/// `true` and every later claim `false`.
pub proof fn lemma_functions_load_once(n: nat)
    requires
        n >= 1,
    ensures
        load_answers(false, n).len() == n,
        load_answers(false, n)[0],
        forall|i: int| 0 < i < n ==> !#[trigger] load_answers(false, n)[i],
{
    lemma_answers_after_load((n - 1) as nat);
    assert(load_answers(false, n) =~= seq![true].add(load_answers(true, (n - 1) as nat)));
}

/// Once the entry points are loaded, no claim is answered `true` again.
pub proof fn lemma_answers_after_load(n: nat)
    ensures
        load_answers(true, n).len() == n,
        forall|i: int| 0 <= i < n ==> !#[trigger] load_answers(true, n)[i],
    decreases n,
{
    if n > 0 {
        lemma_answers_after_load((n - 1) as nat);
    }
}

} // verus!
