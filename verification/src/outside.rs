//! The boundary to what this crate does not verify: the wasi-nn bindings of
//! `wasmedge_wasi_nn`, the standard library's `Mutex` and the string writer of
//! `serde_json`.
//!
//! Nothing here is proved. The bindings hand every call to the host runtime,
//! so nothing can be said of how the host answers. What is stated is what the
//! bindings themselves do: which request they hand to the host, with which
//! arguments, and that they return the host's answer. The comment above each
//! item says it in words. The bindings are made for `wasm32-wasi`: built
//! for another target, each backend call ends in the panic of the crate's own
//! stub.

use crate::record::readout_of;
use crate::record::Call;
use crate::wire::json_string;
use std::sync::Mutex;
use std::sync::MutexGuard;
use vstd::prelude::*;
use wasmedge_wasi_nn::ExecutionTarget;
use wasmedge_wasi_nn::Graph as WasiNnGraph;
use wasmedge_wasi_nn::GraphBuilder;
use wasmedge_wasi_nn::GraphEncoding;
use wasmedge_wasi_nn::GraphExecutionContext;
use wasmedge_wasi_nn::TensorType;

verus! {

/// `wasmedge_wasi_nn::Graph`: a loaded model, opaque.
#[verifier::external_type_specification]
#[verifier::external_body]
pub struct ExWasiNnGraph(WasiNnGraph);

/// `wasmedge_wasi_nn::GraphBuilder`: the settings of a graph to be built,
/// opaque.
#[verifier::external_type_specification]
#[verifier::external_body]
pub struct ExGraphBuilder(GraphBuilder);

/// `wasmedge_wasi_nn::GraphExecutionContext`: the mutable state of one graph,
/// opaque.
#[verifier::external_type_specification]
#[verifier::external_body]
pub struct ExGraphExecutionContext(GraphExecutionContext);

/// `wasmedge_wasi_nn::Error`: a failure reported by the bindings, opaque.
#[verifier::external_type_specification]
#[verifier::external_body]
pub struct ExBackendFault(wasmedge_wasi_nn::Error);

/// `wasmedge_wasi_nn::TensorType`: the element type of a tensor.
#[verifier::external_type_specification]
pub struct ExTensorType(TensorType);

/// `wasmedge_wasi_nn::GraphEncoding`: the format of a model.
#[verifier::external_type_specification]
pub struct ExGraphEncoding(GraphEncoding);

/// `wasmedge_wasi_nn::ExecutionTarget`: the device a graph runs on.
#[verifier::external_type_specification]
pub struct ExExecutionTarget(ExecutionTarget);

/// `std::sync::Mutex`, opaque: what it guards can change behind a shared
/// reference, so no contract speaks of it.
#[verifier::external_type_specification]
#[verifier::external_body]
#[verifier::reject_recursive_types(T)]
pub struct ExMutex<T: ?Sized>(Mutex<T>);

/// `std::sync::MutexGuard`, opaque: while it lives the lock is held, and
/// dropping it releases the lock.
#[verifier::external_type_specification]
#[verifier::external_body]
#[verifier::reject_recursive_types(T)]
pub struct ExMutexGuard<'a, T: ?Sized + 'a>(MutexGuard<'a, T>);

/// The settings that a builder holds: the encoding, the execution target and
/// the configuration payload, if one was set.
pub uninterp spec fn builder_settings(builder: GraphBuilder) -> (
    GraphEncoding,
    ExecutionTarget,
    Option<Seq<char>>,
);

/// What the bindings were given when they loaded a graph: the settings of the
/// builder, and the name of the cached model. This is what was handed to the
/// bindings, which is not always what reaches the host: a name or a payload
/// that holds a NUL byte reaches it as an empty text.
pub uninterp spec fn loaded_from(graph: WasiNnGraph) -> (
    (GraphEncoding, ExecutionTarget, Option<Seq<char>>),
    Seq<char>,
);

/// The graph for which an execution context was made.
pub uninterp spec fn made_for(context: GraphExecutionContext) -> WasiNnGraph;

/// The operations that were handed to the host through an execution context
/// since it was made, oldest first, each with the host's answer.
pub uninterp spec fn asked(context: GraphExecutionContext) -> Seq<Call>;

/// `GraphBuilder::new` makes a builder that holds the two settings and no
/// configuration.
pub assume_specification[ GraphBuilder::new ](
    encoding: GraphEncoding,
    target: ExecutionTarget,
) -> (builder: GraphBuilder)
    ensures
        builder_settings(builder) == (encoding, target, None::<Seq<char>>),
;

/// `GraphBuilder::config` stores the configuration payload and keeps the two
/// settings.
pub assume_specification[ GraphBuilder::config ](
    builder: GraphBuilder,
    config: String,
) -> (configured: GraphBuilder)
    ensures
        builder_settings(configured) == (
            builder_settings(builder).0,
            builder_settings(builder).1,
            Some(config@),
        ),
;

/// `GraphBuilder::build_from_cache` asks the host for the model cached under
/// `name`, with the builder's configuration. The host decides the outcome. A
/// graph that comes back was loaded from the builder's settings and `name`.
pub assume_specification[ GraphBuilder::build_from_cache ](
    builder: GraphBuilder,
    name: &str,
) -> (built: Result<WasiNnGraph, wasmedge_wasi_nn::Error>)
    ensures
        built matches Ok(graph) ==> loaded_from(graph) == (builder_settings(builder), name@),
;

/// `Graph::init_execution_context` asks the host for a context bound to the
/// graph. The host decides the outcome. A context that comes back was made
/// for this graph, and nothing has been asked through it yet.
pub assume_specification[ WasiNnGraph::init_execution_context ](
    loaded: &WasiNnGraph,
) -> (made: Result<GraphExecutionContext, wasmedge_wasi_nn::Error>)
    ensures
        made matches Ok(context) ==> made_for(context) == *loaded && asked(context).len() == 0,
;

/// `GraphExecutionContext::compute` hands one request for a full forward pass
/// to the host and returns the host's answer. The host decides the outcome.
#[verifier::external_body]
pub(crate) fn context_compute(context: &mut GraphExecutionContext) -> (done: Result<
    (),
    wasmedge_wasi_nn::Error,
>)
    ensures
        asked(*final(context)) == asked(*old(context)).push(Call::Compute { done: done is Ok }),
        made_for(*final(context)) == made_for(*old(context)),
{
    context.compute()
}

/// `GraphExecutionContext::compute_single` hands one request for a single
/// decode step to the host and returns the host's answer. The host decides the
/// outcome.
#[verifier::external_body]
pub(crate) fn context_compute_single(context: &mut GraphExecutionContext) -> (done: Result<
    (),
    wasmedge_wasi_nn::Error,
>)
    ensures
        asked(*final(context)) == asked(*old(context)).push(
            Call::ComputeSingle { done: done is Ok },
        ),
        made_for(*final(context)) == made_for(*old(context)),
{
    context.compute_single()
}

/// `Mutex::new` wraps the value in an unlocked, unpoisoned lock. Nothing is
/// claimed.
pub assume_specification<T>[ Mutex::<T>::new ](value: T) -> (mutex: Mutex<T>)
;

/// `GraphExecutionContext::set_input` hands one tensor to the host: its
/// index, element type and dimensions as given, and the bytes of `data`. It
/// returns the host's answer. The host decides the outcome.
#[verifier::external_body]
pub(crate) fn context_set_input(
    context: &mut GraphExecutionContext,
    index: usize,
    tensor_type: TensorType,
    dimensions: &[usize],
    data: &[u8],
) -> (staged: Result<(), wasmedge_wasi_nn::Error>)
    ensures
        asked(*final(context)) == asked(*old(context)).push(
            Call::SetInput {
                index,
                tensor_type,
                dimensions: dimensions@,
                data: data@,
                staged: staged is Ok,
            },
        ),
        made_for(*final(context)) == made_for(*old(context)),
{
    context.set_input(index, tensor_type, dimensions, data)
}

/// `GraphExecutionContext::get_output` hands the host one request to write
/// output `index` into the buffer and returns the size the host reports. The
/// buffer keeps its length, as every slice does. The reported size is the
/// host's word and is not bounded here.
#[verifier::external_body]
pub(crate) fn context_get_output(
    context: &mut GraphExecutionContext,
    index: usize,
    out_buffer: &mut [u8],
) -> (written: Result<usize, wasmedge_wasi_nn::Error>)
    ensures
        final(out_buffer)@.len() == old(out_buffer)@.len(),
        asked(*final(context)) == asked(*old(context)).push(
            Call::GetOutput {
                index,
                capacity: old(out_buffer)@.len(),
                read: readout_of(written, final(out_buffer)@),
            },
        ),
        made_for(*final(context)) == made_for(*old(context)),
{
    context.get_output(index, out_buffer)
}

/// `GraphExecutionContext::get_output_single` hands the host one request to
/// write the output of the last decode step into the buffer and returns the
/// size the host reports. The buffer keeps its length, as every slice does.
#[verifier::external_body]
pub(crate) fn context_get_output_single(
    context: &mut GraphExecutionContext,
    index: usize,
    out_buffer: &mut [u8],
) -> (written: Result<usize, wasmedge_wasi_nn::Error>)
    ensures
        final(out_buffer)@.len() == old(out_buffer)@.len(),
        asked(*final(context)) == asked(*old(context)).push(
            Call::GetOutputSingle {
                index,
                capacity: old(out_buffer)@.len(),
                read: readout_of(written, final(out_buffer)@),
            },
        ),
        made_for(*final(context)) == made_for(*old(context)),
{
    context.get_output_single(index, out_buffer)
}

/// `Display` of `wasmedge_wasi_nn::Error`, through `to_string`: the message
/// of the failure. Nothing is claimed of the text.
#[verifier::external_body]
pub(crate) fn fault_text(fault: &wasmedge_wasi_nn::Error) -> (text: String)
{
    fault.to_string()
}

/// `Display` of `serde_json::Value`, through `to_string`, on a string value:
/// the compact JSON for it. That is the text between double quotes, with the
/// quote and the backslash behind a backslash, backspace, form feed, line
/// feed, carriage return and tab as `\b`, `\f`, `\n`, `\r` and `\t`, every
/// other character below the space as `\u00` and two hexadecimal digits in
/// lower case, and every other character as it is.
#[verifier::external_body]
pub(crate) fn write_json_string(text: &str) -> (written: String)
    ensures
        written@ == json_string(text@),
{
    serde_json::Value::String(text.to_string()).to_string()
}

/// `Mutex::lock` blocks until the lock is free. It fails when an earlier
/// holder panicked; the failure is handed on as the text of the
/// `PoisonError`. Which of the two happens is not claimed. A thread that
/// already holds the lock must not ask for it again: the standard library
/// then blocks for ever or panics. A request takes the lock once and gives it
/// up before it returns.
#[verifier::external_body]
pub(crate) fn acquire<'a, T>(mutex: &'a Mutex<T>) -> (held: Result<MutexGuard<'a, T>, String>)
{
    match mutex.lock() {
        Ok(guard) => Ok(guard),
        Err(poisoned) => Err(poisoned.to_string()),
    }
}

/// `DerefMut` of `MutexGuard`: the guarded value, for as long as the guard is
/// borrowed. Nothing is claimed.
#[verifier::external_body]
pub(crate) fn guarded<'a, 'b, T>(guard: &'a mut MutexGuard<'b, T>) -> (value: &'a mut T)
{
    &mut **guard
}

} // verus!
