//! The state that all requests of a process share, and the path of a request
//! through it.

use crate::error::InferError;
use crate::error::Missing;
use crate::graph::run;
use crate::graph::ExecutionContext;
use crate::graph::Graph;
use crate::metadata::Metadata;
use crate::metadata::MetadataView;
use crate::outside::acquire;
use crate::outside::guarded;
use std::sync::Mutex;
use vstd::prelude::*;

verus! {

/// The state that all requests share: the configuration, the bound on the
/// length of an output, and the execution context behind its lock. Each part
/// starts unset and is set at most once; a request needs the context and the
/// bound. The composition root of the process makes one service and hands it,
/// by reference, to every request handler.
#[verifier::reject_recursive_types(C)]
pub struct InferenceService<C> {
    slot: ContextSlot<C>,
    max_buffer_size: Option<usize>,
    metadata: Option<Metadata>,
}

/// The place of the execution context, with the count of the contexts that
/// were ever put there. The count is one where the place is filled and zero
/// where it is empty: a filled place is never filled again.
#[verifier::reject_recursive_types(C)]
struct ContextSlot<C> {
    shared: Option<Mutex<C>>,
    installed: Ghost<nat>,
}

impl<C> ContextSlot<C> {
    #[verifier::type_invariant]
    spec fn well_formed(self) -> bool {
        self.installed@ == (if self.shared is Some {
            1nat
        } else {
            0nat
        })
    }
}

/// How many contexts are installed after one more attempt, given how many
/// were before: an attempt that has a context to install installs it where
/// none is there yet, and no attempt does anything else.
pub open spec fn installed_after(installed: nat, built: bool) -> nat {
    if installed == 0 && built {
        1
    } else {
        installed
    }
}

/// How many contexts are installed after a run of attempts on a fresh
/// service; each entry says whether that attempt had a context to install.
pub open spec fn installed_after_all(attempts: Seq<bool>) -> nat
    decreases attempts.len(),
{
    if attempts.len() == 0 {
        0
    } else {
        installed_after(installed_after_all(attempts.drop_last()), attempts.last())
    }
}

/// However many attempts are made, exactly one context is installed where
/// any attempt had one to install, and none otherwise.
pub proof fn lemma_installed_at_most_once(attempts: Seq<bool>)
    ensures
        installed_after_all(attempts) == (if attempts.contains(true) {
            1nat
        } else {
            0nat
        }),
    decreases attempts.len(),
{
    if attempts.len() > 0 {
        let earlier = attempts.drop_last();
        lemma_installed_at_most_once(earlier);
        if earlier.contains(true) {
            let i = choose|i: int| 0 <= i < earlier.len() && earlier[i] == true;
            assert(attempts[i] == true);
        }
        if attempts.last() {
            assert(attempts[attempts.len() - 1] == true);
        }
        if attempts.contains(true) {
            let i = choose|i: int| 0 <= i < attempts.len() && attempts[i] == true;
            if i < earlier.len() {
                assert(earlier[i] == true);
            }
        }
    }
}

impl<C> InferenceService<C> {
    /// The execution context behind its lock, once it is installed.
    pub closed spec fn shared_context(&self) -> Option<Mutex<C>> {
        self.slot.shared
    }

    /// Whether an execution context has been installed.
    pub open spec fn has_context(&self) -> bool {
        self.shared_context() is Some
    }

    /// How many execution contexts have been installed since the service was
    /// made.
    pub closed spec fn installed(&self) -> nat {
        self.slot.installed@
    }

    /// The bound on the length of an output, once it is set.
    pub closed spec fn spec_max_buffer_size(&self) -> Option<usize> {
        self.max_buffer_size
    }

    /// The configuration, once it is set.
    pub closed spec fn spec_metadata(&self) -> Option<MetadataView> {
        match self.metadata {
            Some(metadata) => Some(metadata@),
            None => None,
        }
    }

    /// Whether a request can be served: the context is installed and the
    /// bound is set.
    pub open spec fn spec_is_ready(&self) -> bool {
        self.has_context() && self.spec_max_buffer_size() is Some
    }

    /// A service with every part unset.
    pub fn new() -> (service: Self)
        ensures
            !service.has_context(),
            service.installed() == 0,
            service.spec_max_buffer_size() is None,
            service.spec_metadata() is None,
    {
        InferenceService {
            slot: ContextSlot { shared: None, installed: Ghost(0) },
            max_buffer_size: None,
            metadata: None,
        }
    }

    /// Whether a request can be served. At most one context is ever
    /// installed, however often installing was tried.
    #[verifier::when_used_as_spec(spec_is_ready)]
    pub fn is_ready(&self) -> (ready: bool)
        ensures
            ready == self.spec_is_ready(),
            self.installed() == (if self.has_context() {
                1nat
            } else {
                0nat
            }),
    {
        proof {
            use_type_invariant(&self.slot);
        }
        self.slot.shared.is_some() && self.max_buffer_size.is_some()
    }

    /// The bound on the length of an output, once it is set.
    pub fn max_buffer_size(&self) -> (bound: Option<usize>)
        ensures
            bound == self.spec_max_buffer_size(),
    {
        self.max_buffer_size
    }

    /// The configuration, once it is set.
    pub fn metadata(&self) -> (metadata: Option<&Metadata>)
        ensures
            metadata is Some <==> self.spec_metadata() is Some,
            metadata matches Some(held) ==> self.spec_metadata() == Some(held@),
    {
        self.metadata.as_ref()
    }

    /// Fixes the bound on the length of an output. The first call sets it;
    /// every later call changes nothing and hands its argument back.
    pub fn set_max_buffer_size(&mut self, size: usize) -> (set: Result<(), usize>)
        ensures
            old(self).spec_max_buffer_size() is None ==> set is Ok
                && final(self).spec_max_buffer_size() == Some(size),
            old(self).spec_max_buffer_size() is Some ==> set == Err::<(), usize>(size)
                && final(self).spec_max_buffer_size() == old(self).spec_max_buffer_size(),
            final(self).shared_context() == old(self).shared_context(),
            final(self).installed() == old(self).installed(),
            final(self).spec_metadata() == old(self).spec_metadata(),
    {
        match self.max_buffer_size {
            Some(_) => Err(size),
            None => {
                self.max_buffer_size = Some(size);
                Ok(())
            },
        }
    }

    /// Fixes the configuration. The first call sets it; every later call
    /// changes nothing and hands its argument back.
    pub fn set_metadata(&mut self, metadata: Metadata) -> (set: Result<(), Metadata>)
        ensures
            old(self).spec_metadata() is None ==> set is Ok
                && final(self).spec_metadata() == Some(metadata@),
            old(self).spec_metadata() is Some ==> set == Err::<(), Metadata>(metadata)
                && final(self).spec_metadata() == old(self).spec_metadata(),
            final(self).shared_context() == old(self).shared_context(),
            final(self).installed() == old(self).installed(),
            final(self).spec_max_buffer_size() == old(self).spec_max_buffer_size(),
    {
        match self.metadata {
            Some(_) => Err(metadata),
            None => {
                self.metadata = Some(metadata);
                Ok(())
            },
        }
    }

    /// Installs the execution context behind a fresh lock. The first call
    /// installs it; every later call leaves the service as it was, with the
    /// context that is already there, and hands its argument back.
    pub fn install(&mut self, context: C) -> (done: Result<(), C>)
        ensures
            !old(self).has_context() ==> done is Ok && final(self).has_context(),
            final(self).installed() == installed_after(old(self).installed(), true),
            old(self).has_context() ==> done == Err::<(), C>(context) && *final(self) == *old(self),
            final(self).spec_max_buffer_size() == old(self).spec_max_buffer_size(),
            final(self).spec_metadata() == old(self).spec_metadata(),
    {
        proof {
            use_type_invariant(&self.slot);
        }
        match self.slot.shared {
            Some(_) => Err(context),
            None => {
                let ghost count = self.slot.installed@ + 1;
                self.slot = ContextSlot {
                    shared: Some(Mutex::new(context)),
                    installed: Ghost(count),
                };
                Ok(())
            },
        }
    }
}

impl<C: ExecutionContext> InferenceService<C> {
    /// Serves one request: the prompt's bytes in, the output's bytes out.
    ///
    /// Fails at once, touching nothing, where the context or the bound is
    /// unset. Otherwise it takes the lock, holds it over the whole request and
    /// gives it up on every way out; a lock that an earlier holder left
    /// poisoned fails the request before the context is used. An execution
    /// context must not, from inside one of its operations, ask the same
    /// service for another request: the lock is then already held by the
    /// thread that asks.
    pub fn infer(&self, prompt: &str) -> (outcome: Result<Vec<u8>, InferError>)
        ensures
            !self.has_context() ==> outcome == Err::<Vec<u8>, InferError>(
                InferError::NotInitialized(Missing::Graph),
            ),
            self.has_context() && self.spec_max_buffer_size() is None ==> outcome == Err::<
                Vec<u8>,
                InferError,
            >(InferError::NotInitialized(Missing::MaxBufferSize)),
            outcome matches Ok(output) ==> self.spec_max_buffer_size() matches Some(bound)
                && output.len() <= bound,
            outcome matches Err(failure) ==> (failure is NotInitialized <==> !self.spec_is_ready()),
            outcome matches Err(failure) ==> failure is NotInitialized || failure is LockPoisoned
                || failure is SetInputError || failure is ComputeError
                || failure is GetOutputError,
    {
        let shared = match &self.slot.shared {
            Some(shared) => shared,
            None => {
                return Err(InferError::NotInitialized(Missing::Graph));
            },
        };
        let capacity = match self.max_buffer_size {
            Some(capacity) => capacity,
            None => {
                return Err(InferError::NotInitialized(Missing::MaxBufferSize));
            },
        };
        let mut guard = match acquire(shared) {
            Ok(guard) => guard,
            Err(text) => {
                return Err(InferError::LockPoisoned(text));
            },
        };
        run(guarded(&mut guard), prompt, capacity)
    }
}

impl InferenceService<Graph> {
    /// Makes sure that the graph is loaded. Where it already is, nothing is
    /// built and the service stays as it was. Otherwise the graph is built
    /// from the model cached under `model_alias` with the configuration that
    /// was set, and installed; where that fails, the service stays as it was
    /// and a later call may try again.
    pub fn load_graph(&mut self, model_alias: &str) -> (done: Result<(), InferError>)
        ensures
            old(self).has_context() ==> done is Ok && *final(self) == *old(self),
            done is Err ==> *final(self) == *old(self),
            done is Ok ==> final(self).has_context(),
            final(self).installed() == installed_after(old(self).installed(), done is Ok),
            !old(self).has_context() && old(self).spec_metadata() is None ==> done == Err::<
                (),
                InferError,
            >(InferError::NotInitialized(Missing::Metadata)),
            done matches Err(failure) ==> failure is NotInitialized || failure is LoadError
                || failure is ContextError,
            done matches Err(failure) ==> (failure is NotInitialized
                <==> old(self).spec_metadata() is None),
            final(self).spec_max_buffer_size() == old(self).spec_max_buffer_size(),
            final(self).spec_metadata() == old(self).spec_metadata(),
    {
        proof {
            use_type_invariant(&self.slot);
        }
        if self.slot.shared.is_some() {
            return Ok(());
        }
        let built = match &self.metadata {
            Some(metadata) => Graph::new(model_alias, metadata),
            None => Err(InferError::NotInitialized(Missing::Metadata)),
        };
        match built {
            Ok(graph) => {
                let _ = self.install(graph);
                Ok(())
            },
            Err(failure) => Err(failure),
        }
    }
}

} // verus!
