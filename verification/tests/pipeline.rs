use wasm_embed::error::InferError;
use wasm_embed::error::Missing;
use wasm_embed::graph::prompt_shape;
use wasm_embed::graph::run;
use wasm_embed::graph::truncate_output;
use wasm_embed::graph::ExecutionContext;
use wasm_embed::graph::Graph;
use wasm_embed::record::Calls;
use wasm_embed::service::InferenceService;
use wasmedge_wasi_nn::BackendError;
use wasmedge_wasi_nn::Error;
use wasmedge_wasi_nn::TensorType;

/// An execution context that answers from a script and keeps a record of
/// what it was asked.
struct Scripted {
    reply: Vec<u8>,
    set_input_failures: usize,
    compute_fails: bool,
    get_output_fails: bool,
    calls: Vec<String>,
    staged: Vec<u8>,
    staged_shape: Vec<usize>,
    staged_type: Option<TensorType>,
    staged_index: Option<usize>,
}

impl Scripted {
    fn replying(reply: &[u8]) -> Scripted {
        Scripted {
            reply: reply.to_vec(),
            set_input_failures: 0,
            compute_fails: false,
            get_output_fails: false,
            calls: Vec::new(),
            staged: Vec::new(),
            staged_shape: Vec::new(),
            staged_type: None,
            staged_index: None,
        }
    }

    /// Answers with the prompt it was given, in upper case.
    fn shouting() -> Scripted {
        Scripted::replying(b"")
    }
}

impl ExecutionContext for Scripted {
    // The record of what was asked is read by proofs alone; a stand-in has
    // none, and nothing that runs asks for it.
    fn calls(&self) -> Calls {
        unreachable!()
    }

    fn set_input(
        &mut self,
        index: usize,
        tensor_type: TensorType,
        dimensions: &[usize],
        data: &[u8],
    ) -> Result<(), Error> {
        self.calls.push("set_input".to_string());
        if self.set_input_failures > 0 {
            self.set_input_failures -= 1;
            return Err(Error::BackendError(BackendError::InvalidArgument));
        }
        self.staged_index = Some(index);
        self.staged_type = Some(tensor_type);
        self.staged_shape = dimensions.to_vec();
        self.staged = data.to_vec();
        Ok(())
    }

    fn compute(&mut self) -> Result<(), Error> {
        self.calls.push("compute".to_string());
        if self.compute_fails {
            return Err(Error::BackendError(BackendError::RuntimeError));
        }
        if self.reply.is_empty() {
            self.reply = self.staged.to_ascii_uppercase();
        }
        Ok(())
    }

    fn compute_single(&mut self) -> Result<(), Error> {
        self.calls.push("compute_single".to_string());
        Ok(())
    }

    fn get_output(&mut self, index: usize, out_buffer: &mut [u8]) -> Result<usize, Error> {
        self.calls.push("get_output".to_string());
        if self.get_output_fails || index != 0 {
            return Err(Error::BackendError(BackendError::NotFound));
        }
        let n = self.reply.len().min(out_buffer.len());
        out_buffer[..n].copy_from_slice(&self.reply[..n]);
        Ok(self.reply.len())
    }

    fn get_output_single(&mut self, index: usize, out_buffer: &mut [u8]) -> Result<usize, Error> {
        self.get_output(index, out_buffer)
    }
}

fn service_with(context: Scripted, bound: usize) -> InferenceService<Scripted> {
    let mut service = InferenceService::new();
    assert_eq!(service.set_max_buffer_size(bound), Ok(()));
    assert!(service.install(context).is_ok());
    service
}

#[test]
fn five_bytes_in_a_buffer_of_sixteen() {
    let service = service_with(Scripted::replying(b"hello"), 16);
    assert_eq!(service.infer("any prompt"), Ok(b"hello".to_vec()));
}

#[test]
fn output_is_never_longer_than_the_bound() {
    let service = service_with(Scripted::replying(b"abcdefghijklmnopqrstuvwxyz"), 16);
    let output = service.infer("prompt").unwrap();
    assert_eq!(output, b"abcdefghijklmnop".to_vec());
    assert_eq!(output.len(), 16);
}

#[test]
fn output_that_fills_the_buffer_exactly() {
    let service = service_with(Scripted::replying(b"abcd"), 4);
    assert_eq!(service.infer("prompt"), Ok(b"abcd".to_vec()));
}

#[test]
fn empty_output() {
    let mut context = Scripted::replying(b"x");
    context.reply = Vec::new();
    let service = service_with(context, 8);
    assert_eq!(service.infer(""), Ok(Vec::new()));
}

#[test]
fn bound_of_zero_gives_empty_output() {
    let service = service_with(Scripted::replying(b"hello"), 0);
    assert_eq!(service.infer("prompt"), Ok(Vec::new()));
}

#[test]
fn infer_before_anything_is_set() {
    let service: InferenceService<Scripted> = InferenceService::new();
    assert!(!service.is_ready());
    assert_eq!(
        service.infer("prompt"),
        Err(InferError::NotInitialized(Missing::Graph))
    );
}

#[test]
fn infer_with_bound_but_without_context() {
    let mut service: InferenceService<Scripted> = InferenceService::new();
    assert_eq!(service.set_max_buffer_size(16), Ok(()));
    assert!(!service.is_ready());
    assert_eq!(
        service.infer("prompt"),
        Err(InferError::NotInitialized(Missing::Graph))
    );
}

#[test]
fn infer_with_context_but_without_bound() {
    let mut service = InferenceService::new();
    assert!(service.install(Scripted::replying(b"hello")).is_ok());
    assert!(!service.is_ready());
    assert_eq!(
        service.infer("prompt"),
        Err(InferError::NotInitialized(Missing::MaxBufferSize))
    );
}

#[test]
fn failed_set_input_leaves_the_service_usable() {
    let mut context = Scripted::replying(b"hello");
    context.set_input_failures = 1;
    let service = service_with(context, 16);
    let first = service.infer("prompt");
    assert!(matches!(first, Err(InferError::SetInputError(_))));
    assert_eq!(
        first.unwrap_err().message(),
        "Failed to set input tensor: Backend Error: WASI-NN Backend Error: Caller module passed an invalid argument"
    );
    assert_eq!(service.infer("prompt"), Ok(b"hello".to_vec()));
}

#[test]
fn failed_compute_is_reported_as_such() {
    let mut context = Scripted::replying(b"hello");
    context.compute_fails = true;
    let service = service_with(context, 16);
    let outcome = service.infer("prompt");
    assert!(matches!(outcome, Err(InferError::ComputeError(_))));
    let failure = outcome.unwrap_err();
    assert!(!failure.is_fatal());
    assert_eq!(
        failure.message(),
        "Failed to execute model inference: Backend Error: WASI-NN Backend Error: Runtime Error"
    );
}

#[test]
fn failed_get_output_is_reported_as_such() {
    let mut context = Scripted::replying(b"hello");
    context.get_output_fails = true;
    let service = service_with(context, 16);
    let outcome = service.infer("prompt");
    assert!(matches!(outcome, Err(InferError::GetOutputError(_))));
    assert_eq!(
        outcome.unwrap_err().message(),
        "Failed to get output tensor: Backend Error: WASI-NN Backend Error: Not Found"
    );
}

#[test]
fn two_requests_one_after_the_other() {
    let service = service_with(Scripted::shouting(), 32);
    assert_eq!(service.infer("first"), Ok(b"FIRST".to_vec()));
    // the stand-in keeps its first answer: the context is one and the same
    assert_eq!(service.infer("second"), Ok(b"FIRST".to_vec()));
}

#[test]
fn prompt_is_staged_as_one_row_of_bytes() {
    let mut context = Scripted::shouting();
    let outcome = run(&mut context, "héllo", 32);
    assert_eq!(context.staged_index, Some(0));
    assert_eq!(context.staged_type, Some(TensorType::U8));
    assert_eq!(context.staged_shape, vec![1, 6]);
    assert_eq!(context.staged, "héllo".as_bytes().to_vec());
    assert_eq!(
        context.calls,
        vec!["set_input".to_string(), "compute".to_string(), "get_output".to_string()]
    );
    assert_eq!(outcome, Ok("héllo".as_bytes().to_ascii_uppercase()));
}

#[test]
fn nothing_is_computed_after_a_failed_set_input() {
    let mut context = Scripted::replying(b"hello");
    context.set_input_failures = 1;
    let outcome = run(&mut context, "prompt", 16);
    assert!(matches!(outcome, Err(InferError::SetInputError(_))));
    assert_eq!(context.calls, vec!["set_input".to_string()]);
}

#[test]
fn run_bounds_the_output_by_the_capacity() {
    let mut context = Scripted::replying(b"hello world");
    assert_eq!(run(&mut context, "prompt", 5), Ok(b"hello".to_vec()));
    // the same context serves the next request
    assert_eq!(run(&mut context, "prompt", 32), Ok(b"hello world".to_vec()));
}

#[test]
fn nothing_is_read_after_a_failed_compute() {
    let mut context = Scripted::replying(b"hello");
    context.compute_fails = true;
    let outcome = run(&mut context, "prompt", 16);
    assert!(matches!(outcome, Err(InferError::ComputeError(_))));
    assert_eq!(
        context.calls,
        vec!["set_input".to_string(), "compute".to_string()]
    );
}

#[test]
fn a_failed_read_is_reported_after_all_three_operations() {
    let mut context = Scripted::replying(b"hello");
    context.get_output_fails = true;
    let outcome = run(&mut context, "prompt", 16);
    assert!(matches!(outcome, Err(InferError::GetOutputError(_))));
    assert_eq!(
        context.calls,
        vec!["set_input".to_string(), "compute".to_string(), "get_output".to_string()]
    );
}

#[test]
fn truncate_output_keeps_the_reported_bytes() {
    let mut buffer = vec![0u8; 16];
    buffer[..5].copy_from_slice(b"hello");
    assert_eq!(truncate_output(buffer, 5), b"hello".to_vec());
}

#[test]
fn truncate_output_with_a_report_beyond_the_buffer() {
    assert_eq!(truncate_output(b"abcd".to_vec(), 9), b"abcd".to_vec());
    assert_eq!(truncate_output(b"abcd".to_vec(), 4), b"abcd".to_vec());
    assert_eq!(truncate_output(b"abcd".to_vec(), 0), Vec::<u8>::new());
    assert_eq!(truncate_output(Vec::new(), 3), Vec::<u8>::new());
}

#[test]
fn prompt_shape_is_one_row() {
    assert_eq!(prompt_shape(0), [1, 0]);
    assert_eq!(prompt_shape(12), [1, 12]);
}

#[test]
fn second_install_is_refused_and_the_first_context_stays() {
    let mut service = service_with(Scripted::replying(b"first"), 16);
    let refused = service.install(Scripted::replying(b"second"));
    assert_eq!(refused.err().map(|context| context.reply), Some(b"second".to_vec()));
    assert!(service.is_ready());
    assert_eq!(service.infer("prompt"), Ok(b"first".to_vec()));
}

#[test]
fn bound_is_set_once() {
    let mut service: InferenceService<Scripted> = InferenceService::new();
    assert_eq!(service.max_buffer_size(), None);
    assert_eq!(service.set_max_buffer_size(16), Ok(()));
    assert_eq!(service.set_max_buffer_size(32), Err(32));
    assert_eq!(service.max_buffer_size(), Some(16));
}

#[test]
fn graph_that_the_backend_did_not_build_is_a_load_failure() {
    let made = Graph::from_backend(Err(Error::BackendError(BackendError::ModelNotFound)));
    let failure = made.err().unwrap();
    assert!(matches!(failure, InferError::LoadError(_)));
    assert_eq!(
        failure.message(),
        "Fail to load model into wasi-nn: Backend Error: WASI-NN Backend Error: Model Not Found"
    );
}
