use std::sync::Arc;
use std::sync::Mutex;
use wasm_embed::graph::ExecutionContext;
use wasm_embed::record::Calls;
use wasm_embed::service::InferenceService;
use wasmedge_wasi_nn::Error;
use wasmedge_wasi_nn::TensorType;

/// An execution context that answers each prompt with its bytes reversed and
/// writes down, in a log that the test keeps, where each request begins and
/// ends.
struct Logging {
    staged: Vec<u8>,
    log: Arc<Mutex<Vec<String>>>,
}

impl ExecutionContext for Logging {
    // Read by proofs alone; nothing that runs asks for it.
    fn calls(&self) -> Calls {
        unreachable!()
    }

    fn set_input(
        &mut self,
        _index: usize,
        _tensor_type: TensorType,
        _dimensions: &[usize],
        data: &[u8],
    ) -> Result<(), Error> {
        self.staged = data.to_vec();
        let entry = format!("begin {}", String::from_utf8_lossy(data));
        self.log.lock().unwrap().push(entry);
        Ok(())
    }

    fn compute(&mut self) -> Result<(), Error> {
        self.staged.reverse();
        Ok(())
    }

    fn compute_single(&mut self) -> Result<(), Error> {
        Ok(())
    }

    fn get_output(&mut self, _index: usize, out_buffer: &mut [u8]) -> Result<usize, Error> {
        let n = self.staged.len().min(out_buffer.len());
        out_buffer[..n].copy_from_slice(&self.staged[..n]);
        let mut answer = self.staged.clone();
        answer.reverse();
        let entry = format!("end {}", String::from_utf8_lossy(&answer));
        self.log.lock().unwrap().push(entry);
        Ok(self.staged.len())
    }

    fn get_output_single(&mut self, index: usize, out_buffer: &mut [u8]) -> Result<usize, Error> {
        self.get_output(index, out_buffer)
    }
}

#[test]
fn requests_on_one_service_run_whole_and_in_turn() {
    let log = Arc::new(Mutex::new(Vec::new()));
    let mut service = InferenceService::new();
    assert_eq!(service.set_max_buffer_size(64), Ok(()));
    assert!(service
        .install(Logging { staged: Vec::new(), log: log.clone() })
        .is_ok());
    let shared = &service;
    let prompts = ["alpha", "bravo", "charlie", "delta"];
    let outputs: Vec<Vec<u8>> = prompts
        .iter()
        .map(|prompt| shared.infer(prompt).unwrap())
        .collect();
    assert_eq!(
        outputs,
        vec![
            b"ahpla".to_vec(),
            b"ovarb".to_vec(),
            b"eilrahc".to_vec(),
            b"atled".to_vec()
        ]
    );
    let log = log.lock().unwrap();
    assert_eq!(
        *log,
        vec![
            "begin alpha", "end alpha", "begin bravo", "end bravo", "begin charlie",
            "end charlie", "begin delta", "end delta"
        ]
    );
}
