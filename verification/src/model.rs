//! The language models that can be selected, how a selection is read back
//! from the stored settings, and the command line of the model server.
use vstd::prelude::*;
use crate::text::str_eq;

verus! {

/// A selectable language model: the Qwen3.5 model of 2B, 4B or 9B
/// parameters, quantised to Q4_K_M.
#[derive(Clone, Copy, Debug, PartialEq, Eq, Structural)]
pub enum ModelSelection {
    /// The lightest model (2B, 1.3 GB).
    E2B,
    /// The default model, tuned for speed (4B, 2.7 GB).
    E4B,
    /// The most accurate model (9B, 5.7 GB).
    E9B,
}

/// The identifier under which a selection is stored.
pub open spec fn model_id(m: ModelSelection) -> Seq<char> {
    match m {
        ModelSelection::E2B => "e2b"@,
        ModelSelection::E4B => "e4b"@,
        ModelSelection::E9B => "e9b"@,
    }
}

/// The file name of the model weights.
pub open spec fn model_filename(m: ModelSelection) -> Seq<char> {
    match m {
        ModelSelection::E2B => "Qwen3.5-2B-Q4_K_M.gguf"@,
        ModelSelection::E4B => "Qwen3.5-4B-Q4_K_M.gguf"@,
        ModelSelection::E9B => "Qwen3.5-9B-Q4_K_M.gguf"@,
    }
}

/// Where the model weights are downloaded from.
pub open spec fn model_url(m: ModelSelection) -> Seq<char> {
    match m {
        ModelSelection::E2B => "https://huggingface.co/unsloth/Qwen3.5-2B-GGUF/resolve/main/Qwen3.5-2B-Q4_K_M.gguf"@,
        ModelSelection::E4B => "https://huggingface.co/unsloth/Qwen3.5-4B-GGUF/resolve/main/Qwen3.5-4B-Q4_K_M.gguf"@,
        ModelSelection::E9B => "https://huggingface.co/unsloth/Qwen3.5-9B-GGUF/resolve/main/Qwen3.5-9B-Q4_K_M.gguf"@,
    }
}

/// The selection named by a stored identifier, if any.
pub open spec fn selection_of(s: Seq<char>) -> Option<ModelSelection> {
    if s == "e2b"@ {
        Some(ModelSelection::E2B)
    } else if s == "e4b"@ {
        Some(ModelSelection::E4B)
    } else if s == "e9b"@ {
        Some(ModelSelection::E9B)
    } else {
        None
    }
}

/// The model used when no valid selection is stored: the 4B model.
pub open spec fn default_model() -> ModelSelection {
    ModelSelection::E4B
}

/// The selection in force for a stored value: the named model when the
/// value is a known identifier, otherwise the default model.
pub open spec fn selection_or_default(stored: Option<Seq<char>>) -> ModelSelection {
    match stored {
        Some(s) => match selection_of(s) {
            Some(m) => m,
            None => default_model(),
        },
        None => default_model(),
    }
}

impl ModelSelection {
    pub fn id(self) -> (r: &'static str)
        ensures
            r@ == model_id(self),
    {
        match self {
            ModelSelection::E2B => "e2b",
            ModelSelection::E4B => "e4b",
            ModelSelection::E9B => "e9b",
        }
    }

    pub fn filename(self) -> (r: &'static str)
        ensures
            r@ == model_filename(self),
    {
        match self {
            ModelSelection::E2B => "Qwen3.5-2B-Q4_K_M.gguf",
            ModelSelection::E4B => "Qwen3.5-4B-Q4_K_M.gguf",
            ModelSelection::E9B => "Qwen3.5-9B-Q4_K_M.gguf",
        }
    }

    pub fn url(self) -> (r: &'static str)
        ensures
            r@ == model_url(self),
    {
        match self {
            ModelSelection::E2B => "https://huggingface.co/unsloth/Qwen3.5-2B-GGUF/resolve/main/Qwen3.5-2B-Q4_K_M.gguf",
            ModelSelection::E4B => "https://huggingface.co/unsloth/Qwen3.5-4B-GGUF/resolve/main/Qwen3.5-4B-Q4_K_M.gguf",
            ModelSelection::E9B => "https://huggingface.co/unsloth/Qwen3.5-9B-GGUF/resolve/main/Qwen3.5-9B-Q4_K_M.gguf",
        }
    }

    pub fn parse(s: &str) -> (r: Option<Self>)
        ensures
            r == selection_of(s@),
    {
        if str_eq(s, "e2b") {
            Some(ModelSelection::E2B)
        } else if str_eq(s, "e4b") {
            Some(ModelSelection::E4B)
        } else if str_eq(s, "e9b") {
            Some(ModelSelection::E9B)
        } else {
            None
        }
    }
}

/// The model selection in force, given the stored settings value under the
/// key `model` when it is present and a string.
pub fn read_model_selection(stored: Option<&str>) -> (r: ModelSelection)
    ensures
        r == selection_or_default(
            match stored {
                Some(s) => Some(s@),
                None => None,
            },
        ),
{
    match stored {
        Some(s) => match ModelSelection::parse(s) {
            Some(m) => m,
            None => ModelSelection::E4B,
        },
        None => ModelSelection::E4B,
    }
}

/// The download address of the model in force for a stored settings value.
pub fn resolve_model_url(stored: Option<&str>) -> (r: &'static str)
    ensures
        r@ == model_url(
            selection_or_default(
                match stored {
                    Some(s) => Some(s@),
                    None => None,
                },
            ),
        ),
{
    read_model_selection(stored).url()
}

/// The message with which a switch to an unknown model is refused.
pub open spec fn unknown_model_message(selection: Seq<char>) -> Seq<char> {
    "unknown model selection: "@ + selection
}

/// Checks a requested model switch: the selection it names, or the error
/// message returned to the caller when the identifier is unknown.
pub fn validate_model_selection(selection: &str) -> (r: Result<ModelSelection, String>)
    ensures
        match selection_of(selection@) {
            Some(m) => r == Ok::<ModelSelection, String>(m),
            None => r is Err && r->Err_0@ == unknown_model_message(selection@),
        },
{
    match ModelSelection::parse(selection) {
        Some(m) => Ok(m),
        None => {
            let mut msg: String = "unknown model selection: ".to_owned();
            msg.append(selection);
            Err(msg)
        },
    }
}

/// The arguments with which the model server is started on a model file.
pub open spec fn server_args(model: Seq<char>) -> Seq<Seq<char>> {
    seq![
        "-m"@, model, "--host"@, "127.0.0.1"@, "--port"@, "18080"@, "-c"@, "4096"@,
        "-ngl"@, "99"@, "--jinja"@,
    ]
}

/// The command-line arguments of the model server for a model path.
pub fn llama_server_args(model: &str) -> (r: Vec<String>)
    ensures
        r@.len() == server_args(model@).len(),
        forall|i: int| 0 <= i < r@.len() ==> #[trigger] r@[i]@ == server_args(model@)[i],
{
    let mut v: Vec<String> = Vec::new();
    v.push("-m".to_owned());
    v.push(model.to_owned());
    v.push("--host".to_owned());
    v.push("127.0.0.1".to_owned());
    v.push("--port".to_owned());
    v.push("18080".to_owned());
    v.push("-c".to_owned());
    v.push("4096".to_owned());
    v.push("-ngl".to_owned());
    v.push("99".to_owned());
    v.push("--jinja".to_owned());
    v
}

/// A stored identifier names the selection it was made from, and only that
/// one: parsing an identifier gives back its model, and a parsed model's
/// identifier is the text it was parsed from.
pub proof fn lemma_selection_id_round_trip(m: ModelSelection, s: Seq<char>)
    ensures
        selection_of(model_id(m)) == Some(m),
        selection_of(s) == Some(m) ==> model_id(m) == s,
{
    reveal_strlit("e2b");
    reveal_strlit("e4b");
    reveal_strlit("e9b");
    assert("e2b"@[1] != "e4b"@[1]);
    assert("e2b"@[1] != "e9b"@[1]);
    assert("e4b"@[1] != "e9b"@[1]);
    assert("e2b"@ != "e4b"@);
    assert("e2b"@ != "e9b"@);
    assert("e4b"@ != "e9b"@);
}

/// An absent or unknown stored value falls back to the 4B model.
pub proof fn lemma_unknown_selection_defaults(stored: Option<Seq<char>>)
    requires
        stored is None || selection_of(stored->Some_0) is None,
    ensures
        selection_or_default(stored) == ModelSelection::E4B,
{
}

} // verus!
