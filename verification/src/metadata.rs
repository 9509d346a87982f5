//! The inference configuration and the payload under which the backend
//! receives it.

use crate::number::is_number_token;
use crate::number::JsonNumber;
use crate::outside::write_json_string;
use crate::wire::decimal;
use crate::wire::digit_char;
use crate::wire::wire_format;
use crate::wire::wire_head;
use vstd::prelude::*;
use vstd::string::StringExecFns;

verus! {

/// The values of a configuration.
pub struct MetadataView {
    pub log_enable: bool,
    pub ctx_size: u64,
    pub n_predict: u64,
    pub n_gpu_layers: u64,
    pub batch_size: u64,
    pub temp: Seq<char>,
    pub repeat_penalty: Seq<char>,
    pub reverse_prompt: Option<Seq<char>>,
}

/// The text of one digit.
fn digit_text(d: u64) -> (text: &'static str)
    requires
        d < 10,
    ensures
        text@ == seq![digit_char(d as nat)],
{
    proof {
        reveal_strlit("0");
        reveal_strlit("1");
        reveal_strlit("2");
        reveal_strlit("3");
        reveal_strlit("4");
        reveal_strlit("5");
        reveal_strlit("6");
        reveal_strlit("7");
        reveal_strlit("8");
        reveal_strlit("9");
    }
    let text = match d {
        0 => "0",
        1 => "1",
        2 => "2",
        3 => "3",
        4 => "4",
        5 => "5",
        6 => "6",
        7 => "7",
        8 => "8",
        _ => "9",
    };
    assert(text@ =~= seq![digit_char(d as nat)]);
    text
}

/// Writes `n` in decimal behind what `out` holds.
fn append_decimal(out: &mut String, n: u64)
    ensures
        final(out)@ == old(out)@ + decimal(n as nat),
    decreases n,
{
    if n >= 10 {
        append_decimal(out, n / 10);
    }
    out.append(digit_text(n % 10));
    assert(out@ =~= old(out)@ + decimal(n as nat));
}

/// The inference configuration. It is made once, before the graph is built,
/// and read from then on. The two numbers that are not integers are held as
/// number tokens; whether their values suit the backend is for the caller to
/// see to.
#[derive(Debug, PartialEq, Eq)]
pub struct Metadata {
    pub log_enable: bool,
    pub ctx_size: u64,
    pub n_predict: u64,
    pub n_gpu_layers: u64,
    pub batch_size: u64,
    pub temp: JsonNumber,
    pub repeat_penalty: JsonNumber,
    pub reverse_prompt: Option<String>,
}

impl View for Metadata {
    type V = MetadataView;

    open spec fn view(&self) -> MetadataView {
        MetadataView {
            log_enable: self.log_enable,
            ctx_size: self.ctx_size,
            n_predict: self.n_predict,
            n_gpu_layers: self.n_gpu_layers,
            batch_size: self.batch_size,
            temp: self.temp@,
            repeat_penalty: self.repeat_penalty@,
            reverse_prompt: match self.reverse_prompt {
                Some(prompt) => Some(prompt@),
                None => None,
            },
        }
    }
}

impl Clone for Metadata {
    fn clone(&self) -> (copy: Metadata)
        ensures
            copy@ == self@,
    {
        Metadata {
            log_enable: self.log_enable,
            ctx_size: self.ctx_size,
            n_predict: self.n_predict,
            n_gpu_layers: self.n_gpu_layers,
            batch_size: self.batch_size,
            temp: self.temp.clone(),
            repeat_penalty: self.repeat_penalty.clone(),
            reverse_prompt: match &self.reverse_prompt {
                Some(prompt) => Some(prompt.clone()),
                None => None,
            },
        }
    }
}

impl Default for Metadata {
    /// Logging off, every count zero, both numbers `0.0`, no reverse prompt.
    fn default() -> (metadata: Metadata)
        ensures
            metadata@ == (MetadataView {
                log_enable: false,
                ctx_size: 0,
                n_predict: 0,
                n_gpu_layers: 0,
                batch_size: 0,
                temp: seq!['0', '.', '0'],
                repeat_penalty: seq!['0', '.', '0'],
                reverse_prompt: None,
            }),
    {
        Metadata {
            log_enable: false,
            ctx_size: 0,
            n_predict: 0,
            n_gpu_layers: 0,
            batch_size: 0,
            temp: JsonNumber::default(),
            repeat_penalty: JsonNumber::default(),
            reverse_prompt: None,
        }
    }
}

impl MetadataView {
    /// Whether the two numbers are number tokens, as they are in every
    /// configuration that the program holds.
    pub open spec fn wf(self) -> bool {
        is_number_token(self.temp) && is_number_token(self.repeat_penalty)
    }
}

impl Metadata {
    /// Writes the configuration as the payload for the backend.
    pub fn to_json(&self) -> (payload: String)
        ensures
            payload@ == wire_format(self@),
            self@.wf(),
    {
        let mut out = String::from_str("{\"enable-log\":");
        out.append(
            if self.log_enable {
                "true"
            } else {
                "false"
            },
        );
        out.append(",\"ctx-size\":");
        append_decimal(&mut out, self.ctx_size);
        out.append(",\"n-predict\":");
        append_decimal(&mut out, self.n_predict);
        out.append(",\"n-gpu-layers\":");
        append_decimal(&mut out, self.n_gpu_layers);
        out.append(",\"batch-size\":");
        append_decimal(&mut out, self.batch_size);
        out.append(",\"temp\":");
        out.append(self.temp.as_str());
        out.append(",\"repeat-penalty\":");
        out.append(self.repeat_penalty.as_str());
        assert(out@ == wire_head(self@));
        match &self.reverse_prompt {
            Some(prompt) => {
                out.append(",\"reverse-prompt\":");
                let written = write_json_string(prompt.as_str());
                out.append(written.as_str());
            },
            None => {},
        }
        out.append("}");
        out
    }
}

} // verus!
