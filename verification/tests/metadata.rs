use wasm_embed::metadata::Metadata;
use wasm_embed::number::JsonNumber;
use wasm_embed::service::InferenceService;
use wasm_embed::graph::Graph;
use wasm_embed::error::InferError;
use wasm_embed::error::Missing;

fn number(text: &str) -> JsonNumber {
    JsonNumber::parse(text).unwrap()
}

fn sample() -> Metadata {
    Metadata {
        log_enable: true,
        ctx_size: 1024,
        n_predict: 1,
        n_gpu_layers: 0,
        batch_size: 1,
        temp: number("0.7"),
        repeat_penalty: number("1.0"),
        ..Metadata::default()
    }
}

#[test]
fn payload_without_reverse_prompt() {
    assert_eq!(
        sample().to_json(),
        "{\"enable-log\":true,\"ctx-size\":1024,\"n-predict\":1,\"n-gpu-layers\":0,\"batch-size\":1,\"temp\":0.7,\"repeat-penalty\":1.0}"
    );
}

#[test]
fn payload_of_the_default() {
    assert_eq!(
        Metadata::default().to_json(),
        "{\"enable-log\":false,\"ctx-size\":0,\"n-predict\":0,\"n-gpu-layers\":0,\"batch-size\":0,\"temp\":0.0,\"repeat-penalty\":0.0}"
    );
}

#[test]
fn payload_with_reverse_prompt() {
    let mut metadata = sample();
    metadata.reverse_prompt = Some("### Human:".to_string());
    assert_eq!(
        metadata.to_json(),
        "{\"enable-log\":true,\"ctx-size\":1024,\"n-predict\":1,\"n-gpu-layers\":0,\"batch-size\":1,\"temp\":0.7,\"repeat-penalty\":1.0,\"reverse-prompt\":\"### Human:\"}"
    );
}

#[test]
fn reverse_prompt_is_escaped() {
    let mut metadata = Metadata::default();
    metadata.reverse_prompt = Some("a\"b\\c\nd\u{1}é".to_string());
    assert_eq!(
        metadata.to_json(),
        "{\"enable-log\":false,\"ctx-size\":0,\"n-predict\":0,\"n-gpu-layers\":0,\"batch-size\":0,\"temp\":0.0,\"repeat-penalty\":0.0,\"reverse-prompt\":\"a\\\"b\\\\c\\nd\\u0001é\"}"
    );
}

#[test]
fn every_kind_of_escape() {
    let mut metadata = Metadata::default();
    metadata.reverse_prompt =
        Some("\u{8}\u{c}\n\r\t\u{0}\u{b}\u{1f} \u{7f}/\"\\\u{80}\u{10348}".to_string());
    let payload = metadata.to_json();
    let written = payload
        .strip_prefix("{\"enable-log\":false,\"ctx-size\":0,\"n-predict\":0,\"n-gpu-layers\":0,\"batch-size\":0,\"temp\":0.0,\"repeat-penalty\":0.0,\"reverse-prompt\":")
        .unwrap()
        .strip_suffix("}")
        .unwrap();
    assert_eq!(
        written,
        "\"\\b\\f\\n\\r\\t\\u0000\\u000b\\u001f \u{7f}/\\\"\\\\\u{80}\u{10348}\""
    );
}

#[test]
fn empty_reverse_prompt_is_still_a_field() {
    let mut metadata = Metadata::default();
    metadata.reverse_prompt = Some(String::new());
    assert!(metadata.to_json().ends_with(",\"reverse-prompt\":\"\"}"));
}

#[test]
fn largest_counts() {
    let mut metadata = Metadata::default();
    metadata.ctx_size = u64::MAX;
    metadata.batch_size = 10;
    metadata.n_predict = 909;
    assert_eq!(
        metadata.to_json(),
        "{\"enable-log\":false,\"ctx-size\":18446744073709551615,\"n-predict\":909,\"n-gpu-layers\":0,\"batch-size\":10,\"temp\":0.0,\"repeat-penalty\":0.0}"
    );
}

#[test]
fn payload_read_back_by_another_decoder() {
    let mut metadata = sample();
    metadata.ctx_size = 4096;
    metadata.n_gpu_layers = 33;
    metadata.batch_size = 512;
    metadata.temp = number("-1.5e-3");
    metadata.reverse_prompt = Some("</s>\t\"stop\"".to_string());
    let decoded: serde_json::Value = serde_json::from_str(&metadata.to_json()).unwrap();
    let object = decoded.as_object().unwrap();
    assert_eq!(object.len(), 8);
    assert_eq!(object["enable-log"].as_bool(), Some(true));
    assert_eq!(object["ctx-size"].as_u64(), Some(4096));
    assert_eq!(object["n-predict"].as_u64(), Some(1));
    assert_eq!(object["n-gpu-layers"].as_u64(), Some(33));
    assert_eq!(object["batch-size"].as_u64(), Some(512));
    assert_eq!(object["temp"].as_f64(), Some(-0.0015));
    assert_eq!(object["repeat-penalty"].as_f64(), Some(1.0));
    assert_eq!(object["reverse-prompt"].as_str(), Some("</s>\t\"stop\""));
}

#[test]
fn unset_reverse_prompt_has_no_field() {
    let decoded: serde_json::Value = serde_json::from_str(&sample().to_json()).unwrap();
    let object = decoded.as_object().unwrap();
    assert_eq!(object.len(), 7);
    assert!(!object.contains_key("reverse-prompt"));
    assert!(!sample().to_json().contains("reverse-prompt"));
    assert!(!sample().to_json().contains("null"));
}

#[test]
fn number_that_is_no_number_is_written_as_null() {
    let mut metadata = Metadata::default();
    metadata.temp = number("null");
    let decoded: serde_json::Value = serde_json::from_str(&metadata.to_json()).unwrap();
    assert!(decoded["temp"].is_null());
}

#[test]
fn clone_keeps_every_field() {
    let mut metadata = sample();
    metadata.reverse_prompt = Some("stop".to_string());
    assert_eq!(metadata.clone(), metadata);
    assert_eq!(metadata.clone().to_json(), metadata.to_json());
}

#[test]
fn number_tokens_that_are_accepted() {
    for text in [
        "0", "-0", "7", "10", "0.7", "1.0", "-12.5", "1e10", "1E10", "1e+10", "1e-10", "0.1e5",
        "-0.0", "3.4028235e38", "1e-45", "123456789", "null",
    ] {
        let parsed = JsonNumber::parse(text);
        assert!(parsed.is_some(), "{}", text);
        assert_eq!(parsed.unwrap().as_str(), text);
    }
}

#[test]
fn number_tokens_that_are_refused() {
    for text in [
        "", "-", "+1", "01", "00", "-01", "1.", ".5", "1.e5", "1e", "1e+", "1e-", "1e1.5", "1 ",
        " 1", "1,2", "0x10", "NaN", "inf", "nul", "nulll", "Null", "true", "1.0,\"x\":1", "１", "1é",
        "--1", "1ee5", "1.2.3", "e5",
    ] {
        assert!(JsonNumber::parse(text).is_none(), "{}", text);
    }
}

#[test]
fn default_number_is_zero() {
    assert_eq!(JsonNumber::default().as_str(), "0.0");
    assert_eq!(JsonNumber::default(), number("0.0"));
}

#[test]
fn metadata_is_set_once() {
    let mut service: InferenceService<Graph> = InferenceService::new();
    assert!(service.metadata().is_none());
    assert!(service.set_metadata(sample()).is_ok());
    let refused = service.set_metadata(Metadata::default());
    assert_eq!(refused, Err(Metadata::default()));
    assert_eq!(service.metadata(), Some(&sample()));
}

#[test]
fn graph_is_not_loaded_without_metadata() {
    let mut service: InferenceService<Graph> = InferenceService::new();
    assert_eq!(
        service.load_graph("default"),
        Err(InferError::NotInitialized(Missing::Metadata))
    );
    assert!(!service.is_ready());
    assert_eq!(
        Graph::infer(&service, "prompt"),
        Err(InferError::NotInitialized(Missing::Graph))
    );
}
