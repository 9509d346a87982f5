//! The graph handle and the path of one request through it.

use crate::error::InferError;
use crate::error::Missing;
use crate::metadata::Metadata;
use crate::outside::asked;
use crate::outside::context_compute;
use crate::outside::context_compute_single;
use crate::outside::context_get_output;
use crate::outside::context_get_output_single;
use crate::outside::context_set_input;
use crate::outside::fault_text;
use crate::outside::loaded_from;
use crate::outside::made_for;
use crate::record::readout_of;
use crate::record::Call;
use crate::service::InferenceService;
use crate::wire::wire_format;
use vstd::prelude::*;
use vstd::string::StringSliceAdditionalSpecFns;
use wasmedge_wasi_nn::ExecutionTarget;
use wasmedge_wasi_nn::Graph as WasiNnGraph;
use wasmedge_wasi_nn::GraphBuilder;
use wasmedge_wasi_nn::GraphEncoding;
use wasmedge_wasi_nn::GraphExecutionContext;
use wasmedge_wasi_nn::TensorType;

verus! {

/// What a request needs of an execution context: stage inputs, run, read the
/// output. Each operation hands exactly one request to the backend, which the
/// record then lists with what was handed over and how the backend answered.
/// How the backend answers is the backend's to decide.
pub trait ExecutionContext {
    /// The operations asked of this context so far, oldest first.
    spec fn calls(&self) -> Seq<Call>;

    /// Stages one input tensor.
    fn set_input(
        &mut self,
        index: usize,
        tensor_type: TensorType,
        dimensions: &[usize],
        data: &[u8],
    ) -> (staged: Result<(), wasmedge_wasi_nn::Error>)
        ensures
            final(self).calls() == old(self).calls().push(
                Call::SetInput {
                    index,
                    tensor_type,
                    dimensions: dimensions@,
                    data: data@,
                    staged: staged is Ok,
                },
            ),
    ;

    /// Runs one full forward pass over the staged inputs.
    fn compute(&mut self) -> (done: Result<(), wasmedge_wasi_nn::Error>)
        ensures
            final(self).calls() == old(self).calls().push(Call::Compute { done: done is Ok }),
    ;

    /// Runs one incremental decode step.
    fn compute_single(&mut self) -> (done: Result<(), wasmedge_wasi_nn::Error>)
        ensures
            final(self).calls() == old(self).calls().push(
                Call::ComputeSingle { done: done is Ok },
            ),
    ;

    /// Copies the computed output into `out_buffer` and returns the number of
    /// bytes that the backend reports. The buffer is a slice, so it keeps its
    /// length whatever is written.
    fn get_output(&mut self, index: usize, out_buffer: &mut [u8]) -> (written: Result<
        usize,
        wasmedge_wasi_nn::Error,
    >)
        ensures
            final(out_buffer)@.len() == old(out_buffer)@.len(),
            final(self).calls() == old(self).calls().push(
                Call::GetOutput {
                    index,
                    capacity: old(out_buffer)@.len(),
                    read: readout_of(written, final(out_buffer)@),
                },
            ),
    ;

    /// As `get_output`, for the output of the last decode step.
    fn get_output_single(&mut self, index: usize, out_buffer: &mut [u8]) -> (written: Result<
        usize,
        wasmedge_wasi_nn::Error,
    >)
        ensures
            final(out_buffer)@.len() == old(out_buffer)@.len(),
            final(self).calls() == old(self).calls().push(
                Call::GetOutputSingle {
                    index,
                    capacity: old(out_buffer)@.len(),
                    read: readout_of(written, final(out_buffer)@),
                },
            ),
    ;
}

/// A loaded model together with the one execution context bound to it.
pub struct Graph {
    _graph: WasiNnGraph,
    context: GraphExecutionContext,
}

/// Whether `graph` was loaded as this crate loads a graph: from the model
/// cached under `model_alias`, with `payload` as its configuration, for the
/// PyTorch encoding, on a target that the backend picks.
pub open spec fn is_loaded_as(
    graph: WasiNnGraph,
    model_alias: Seq<char>,
    payload: Seq<char>,
) -> bool {
    loaded_from(graph) == (
        (GraphEncoding::Pytorch, ExecutionTarget::AUTO, Some(payload)),
        model_alias,
    )
}

impl Graph {
    /// The loaded model that the handle owns.
    pub closed spec fn spec_graph(&self) -> WasiNnGraph {
        self._graph
    }

    /// The execution context that the handle owns.
    pub closed spec fn spec_context(&self) -> GraphExecutionContext {
        self.context
    }

    /// The operations asked of the backend through this handle so far, oldest
    /// first.
    pub open spec fn calls(&self) -> Seq<Call> {
        asked(self.spec_context())
    }

    /// Loads the model that the backend has cached under `model_alias`, with
    /// `options` as its configuration, and binds one execution context to it.
    /// The backend decides whether either step succeeds. A handle that comes
    /// back holds the graph that was loaded from just that alias and the
    /// payload of just those options, with a context made for that graph, of
    /// which nothing has been asked yet.
    pub fn new(model_alias: &str, options: &Metadata) -> (made: Result<Graph, InferError>)
        ensures
            made matches Ok(handle) ==> {
                &&& is_loaded_as(handle.spec_graph(), model_alias@, wire_format(options@))
                &&& made_for(handle.spec_context()) == handle.spec_graph()
                &&& handle.calls() == Seq::<Call>::empty()
            },
            made matches Err(failure) ==> failure is LoadError || failure is ContextError,
    {
        let config = options.to_json();
        let builder = GraphBuilder::new(GraphEncoding::Pytorch, ExecutionTarget::AUTO).config(
            config,
        );
        let loaded = match builder.build_from_cache(model_alias) {
            Ok(graph) => {
                let context = graph.init_execution_context();
                Ok((graph, context))
            },
            Err(fault) => Err(fault),
        };
        let made = Graph::from_backend(loaded);
        proof {
            if made is Ok {
                assert(made->Ok_0.calls() =~= Seq::<Call>::empty());
            }
        }
        made
    }

    /// Makes the handle out of what the backend answered to the two steps of
    /// loading: the graph, if it was built, and with it the execution context,
    /// if one was made. A graph that was not built is a load failure; a graph
    /// without a context is a context failure; a graph with its context is the
    /// handle.
    pub fn from_backend(
        loaded: Result<
            (WasiNnGraph, Result<GraphExecutionContext, wasmedge_wasi_nn::Error>),
            wasmedge_wasi_nn::Error,
        >,
    ) -> (made: Result<Graph, InferError>)
        ensures
            match loaded {
                Err(_) => made is Err && made->Err_0 is LoadError,
                Ok((_, Err(_))) => made is Err && made->Err_0 is ContextError,
                Ok((graph, Ok(context))) => made is Ok && made->Ok_0.spec_graph() == graph
                    && made->Ok_0.spec_context() == context,
            },
    {
        match loaded {
            Err(fault) => Err(InferError::LoadError(fault_text(&fault))),
            Ok((_, Err(fault))) => Err(InferError::ContextError(fault_text(&fault))),
            Ok((graph, Ok(context))) => Ok(Graph { _graph: graph, context }),
        }
    }

    /// Serves one request through the service that holds this graph. See
    /// `InferenceService::infer`.
    pub fn infer(service: &InferenceService<Graph>, prompt: &str) -> (outcome: Result<
        Vec<u8>,
        InferError,
    >)
        ensures
            !service.has_context() ==> outcome == Err::<Vec<u8>, InferError>(
                InferError::NotInitialized(Missing::Graph),
            ),
            service.has_context() && service.spec_max_buffer_size() is None ==> outcome == Err::<
                Vec<u8>,
                InferError,
            >(InferError::NotInitialized(Missing::MaxBufferSize)),
            outcome matches Ok(output) ==> service.spec_max_buffer_size() matches Some(bound)
                && output.len() <= bound,
            outcome matches Err(failure) ==> (failure is NotInitialized
                <==> !service.spec_is_ready()),
            outcome matches Err(failure) ==> failure is NotInitialized || failure is LockPoisoned
                || failure is SetInputError || failure is ComputeError
                || failure is GetOutputError,
    {
        service.infer(prompt)
    }

    /// Stages one input tensor in the execution context: hands the index, the
    /// element type, the dimensions and the bytes to the backend as they are,
    /// once, and returns the backend's answer. Nothing else is asked of the
    /// backend, and the loaded graph stays what it was.
    pub fn set_input(
        &mut self,
        index: usize,
        tensor_type: TensorType,
        dimensions: &[usize],
        data: &[u8],
    ) -> (staged: Result<(), wasmedge_wasi_nn::Error>)
        ensures
            final(self).calls() == old(self).calls().push(
                Call::SetInput {
                    index,
                    tensor_type,
                    dimensions: dimensions@,
                    data: data@,
                    staged: staged is Ok,
                },
            ),
            final(self).spec_graph() == old(self).spec_graph(),
            made_for(final(self).spec_context()) == made_for(old(self).spec_context()),
    {
        context_set_input(&mut self.context, index, tensor_type, dimensions, data)
    }

    /// Asks the backend for one full forward pass over the staged inputs and
    /// returns its answer. Nothing else is asked of the backend, and the
    /// loaded graph stays what it was.
    pub fn compute(&mut self) -> (done: Result<(), wasmedge_wasi_nn::Error>)
        ensures
            final(self).calls() == old(self).calls().push(Call::Compute { done: done is Ok }),
            final(self).spec_graph() == old(self).spec_graph(),
            made_for(final(self).spec_context()) == made_for(old(self).spec_context()),
    {
        context_compute(&mut self.context)
    }

    /// Asks the backend for one incremental decode step and returns its
    /// answer. Nothing else is asked of the backend, and the loaded graph
    /// stays what it was.
    pub fn compute_single(&mut self) -> (done: Result<(), wasmedge_wasi_nn::Error>)
        ensures
            final(self).calls() == old(self).calls().push(
                Call::ComputeSingle { done: done is Ok },
            ),
            final(self).spec_graph() == old(self).spec_graph(),
            made_for(final(self).spec_context()) == made_for(old(self).spec_context()),
    {
        context_compute_single(&mut self.context)
    }

    /// Asks the backend, once, to copy output `index` into `out_buffer`, which
    /// keeps its length, and returns the number of bytes that the backend
    /// reports. The loaded graph stays what it was.
    pub fn get_output(&mut self, index: usize, out_buffer: &mut [u8]) -> (written: Result<
        usize,
        wasmedge_wasi_nn::Error,
    >)
        ensures
            final(out_buffer)@.len() == old(out_buffer)@.len(),
            final(self).calls() == old(self).calls().push(
                Call::GetOutput {
                    index,
                    capacity: old(out_buffer)@.len(),
                    read: readout_of(written, final(out_buffer)@),
                },
            ),
            final(self).spec_graph() == old(self).spec_graph(),
            made_for(final(self).spec_context()) == made_for(old(self).spec_context()),
    {
        context_get_output(&mut self.context, index, out_buffer)
    }

    /// As `get_output`, for the output of the last decode step.
    pub fn get_output_single(&mut self, index: usize, out_buffer: &mut [u8]) -> (written: Result<
        usize,
        wasmedge_wasi_nn::Error,
    >)
        ensures
            final(out_buffer)@.len() == old(out_buffer)@.len(),
            final(self).calls() == old(self).calls().push(
                Call::GetOutputSingle {
                    index,
                    capacity: old(out_buffer)@.len(),
                    read: readout_of(written, final(out_buffer)@),
                },
            ),
            final(self).spec_graph() == old(self).spec_graph(),
            made_for(final(self).spec_context()) == made_for(old(self).spec_context()),
    {
        context_get_output_single(&mut self.context, index, out_buffer)
    }
}

impl ExecutionContext for Graph {
    open spec fn calls(&self) -> Seq<Call> {
        Graph::calls(self)
    }

    fn set_input(
        &mut self,
        index: usize,
        tensor_type: TensorType,
        dimensions: &[usize],
        data: &[u8],
    ) -> (staged: Result<(), wasmedge_wasi_nn::Error>) {
        Graph::set_input(self, index, tensor_type, dimensions, data)
    }

    fn compute(&mut self) -> (done: Result<(), wasmedge_wasi_nn::Error>) {
        Graph::compute(self)
    }

    fn compute_single(&mut self) -> (done: Result<(), wasmedge_wasi_nn::Error>) {
        Graph::compute_single(self)
    }

    fn get_output(&mut self, index: usize, out_buffer: &mut [u8]) -> (written: Result<
        usize,
        wasmedge_wasi_nn::Error,
    >) {
        Graph::get_output(self, index, out_buffer)
    }

    fn get_output_single(&mut self, index: usize, out_buffer: &mut [u8]) -> (written: Result<
        usize,
        wasmedge_wasi_nn::Error,
    >) {
        Graph::get_output_single(self, index, out_buffer)
    }
}

/// The bytes that a request returns when the backend reports `written` bytes
/// for a buffer that holds `buffer`: the first `written` of them, or all of
/// them where the report exceeds the buffer.
pub open spec fn spec_truncate_output(buffer: Seq<u8>, written: int) -> Seq<u8> {
    if written <= buffer.len() {
        buffer.take(written)
    } else {
        buffer
    }
}

/// Cuts the output buffer down to the length that the backend reported.
pub fn truncate_output(buffer: Vec<u8>, written: usize) -> (output: Vec<u8>)
    ensures
        output@ == spec_truncate_output(buffer@, written as int),
        output@ == buffer@.take(output.len() as int),
        output.len() == (if written <= buffer.len() {
            written
        } else {
            buffer.len()
        }),
{
    let mut output = buffer;
    output.truncate(written);
    output
}

/// The shape under which a prompt of `byte_length` bytes is staged: one row
/// of that many unsigned bytes.
pub fn prompt_shape(byte_length: usize) -> (shape: [usize; 2])
    ensures
        shape@ == seq![1usize, byte_length],
{
    [1, byte_length]
}

/// Whether `calls` are the operations of one request for a prompt of the
/// bytes `data` with room for `capacity` bytes of output, and `outcome` is
/// what the request returns for the way the backend answered them.
///
/// The request stages `data` as input 0, one row of unsigned bytes. Where the
/// backend refuses that, nothing more is asked and the request fails at that
/// stage. Else it asks for a full forward pass; where that fails, nothing more
/// is asked and the request fails at that stage. Else it reads output 0 into
/// a buffer of `capacity` bytes; where that fails, the request fails at that
/// stage, and else it returns the buffer cut down to the length reported.
pub open spec fn is_request(
    calls: Seq<Call>,
    data: Seq<u8>,
    capacity: usize,
    outcome: Result<Vec<u8>, InferError>,
) -> bool {
    &&& calls.len() >= 1
    &&& calls[0] == (Call::SetInput {
        index: 0,
        tensor_type: TensorType::U8,
        dimensions: seq![1usize, data.len() as usize],
        data,
        staged: calls[0]->staged,
    })
    &&& if !calls[0]->staged {
        &&& calls.len() == 1
        &&& outcome matches Err(failure)
        &&& failure is SetInputError
    } else {
        &&& calls.len() >= 2
        &&& calls[1] is Compute
        &&& if !calls[1]->Compute_done {
            &&& calls.len() == 2
            &&& outcome matches Err(failure)
            &&& failure is ComputeError
        } else {
            &&& calls.len() == 3
            &&& calls[2] == (Call::GetOutput {
                index: 0,
                capacity: capacity as nat,
                read: calls[2]->GetOutput_read,
            })
            &&& match calls[2]->GetOutput_read {
                Some(readout) => {
                    &&& readout.buffer.len() == capacity
                    &&& outcome matches Ok(output)
                    &&& output@ == spec_truncate_output(readout.buffer, readout.written as int)
                },
                None => {
                    &&& outcome matches Err(failure)
                    &&& failure is GetOutputError
                },
            }
        }
    }
}

/// Takes one prompt through an execution context that the caller holds
/// exclusively: stages the prompt's bytes as input 0, runs a full forward
/// pass, reads output 0 into a buffer of `capacity` bytes and cuts it down to
/// the length reported. The first operation that fails ends the request, and
/// nothing after it is attempted.
pub fn run<C: ExecutionContext>(context: &mut C, prompt: &str, capacity: usize) -> (outcome:
    Result<Vec<u8>, InferError>)
    ensures
        old(context).calls().is_prefix_of(final(context).calls()),
        is_request(
            final(context).calls().skip(old(context).calls().len() as int),
            prompt.spec_bytes(),
            capacity,
            outcome,
        ),
        outcome matches Ok(output) ==> output.len() <= capacity,
        outcome matches Err(failure) ==> failure is SetInputError || failure is ComputeError
            || failure is GetOutputError,
{
    let ghost before = context.calls();
    let tensor_data = prompt.as_bytes();
    let shape = prompt_shape(tensor_data.len());
    match context.set_input(0, TensorType::U8, &shape, tensor_data) {
        Ok(()) => {},
        Err(fault) => {
            proof {
                assert(context.calls().skip(before.len() as int) =~= seq![context.calls().last()]);
            }
            return Err(InferError::SetInputError(fault_text(&fault)));
        },
    }
    match context.compute() {
        Ok(()) => {},
        Err(fault) => {
            proof {
                let added = context.calls().skip(before.len() as int);
                assert(added.len() == 2);
                assert(added[0] == context.calls()[before.len() as int]);
                assert(added[1] == context.calls()[before.len() as int + 1]);
            }
            return Err(InferError::ComputeError(fault_text(&fault)));
        },
    }
    let mut output_buffer = vec![0u8; capacity];
    let read = context.get_output(0, output_buffer.as_mut_slice());
    proof {
        let added = context.calls().skip(before.len() as int);
        assert(added.len() == 3);
        assert(added[0] == context.calls()[before.len() as int]);
        assert(added[1] == context.calls()[before.len() as int + 1]);
        assert(added[2] == context.calls()[before.len() as int + 2]);
    }
    match read {
        Ok(written) => Ok(truncate_output(output_buffer, written)),
        Err(fault) => Err(InferError::GetOutputError(fault_text(&fault))),
    }
}

} // verus!
