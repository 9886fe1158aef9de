use muku::model::{
    llama_server_args, read_model_selection, resolve_model_url, validate_model_selection,
    ModelSelection,
};

#[test]
fn model_ids_and_files() {
    assert_eq!(ModelSelection::E2B.id(), "e2b");
    assert_eq!(ModelSelection::E4B.id(), "e4b");
    assert_eq!(ModelSelection::E9B.id(), "e9b");
    assert_eq!(ModelSelection::E2B.filename(), "Qwen3.5-2B-Q4_K_M.gguf");
    assert_eq!(ModelSelection::E4B.filename(), "Qwen3.5-4B-Q4_K_M.gguf");
    assert_eq!(ModelSelection::E9B.filename(), "Qwen3.5-9B-Q4_K_M.gguf");
    assert_eq!(
        ModelSelection::E2B.url(),
        "https://huggingface.co/unsloth/Qwen3.5-2B-GGUF/resolve/main/Qwen3.5-2B-Q4_K_M.gguf"
    );
    assert_eq!(
        ModelSelection::E4B.url(),
        "https://huggingface.co/unsloth/Qwen3.5-4B-GGUF/resolve/main/Qwen3.5-4B-Q4_K_M.gguf"
    );
    assert_eq!(
        ModelSelection::E9B.url(),
        "https://huggingface.co/unsloth/Qwen3.5-9B-GGUF/resolve/main/Qwen3.5-9B-Q4_K_M.gguf"
    );
}

#[test]
fn model_parse_known_and_unknown() {
    assert_eq!(ModelSelection::parse("e2b"), Some(ModelSelection::E2B));
    assert_eq!(ModelSelection::parse("e4b"), Some(ModelSelection::E4B));
    assert_eq!(ModelSelection::parse("e9b"), Some(ModelSelection::E9B));
    assert_eq!(ModelSelection::parse("E4B"), None);
    assert_eq!(ModelSelection::parse(""), None);
    assert_eq!(ModelSelection::parse("e4b "), None);
}

#[test]
fn model_parse_id_round_trip() {
    for m in [ModelSelection::E2B, ModelSelection::E4B, ModelSelection::E9B] {
        assert_eq!(ModelSelection::parse(m.id()), Some(m));
    }
}

#[test]
fn stored_selection_defaults_to_4b() {
    assert_eq!(read_model_selection(None), ModelSelection::E4B);
    assert_eq!(read_model_selection(Some("qwen")), ModelSelection::E4B);
    assert_eq!(read_model_selection(Some("e2b")), ModelSelection::E2B);
    assert_eq!(read_model_selection(Some("e9b")), ModelSelection::E9B);
    assert_eq!(resolve_model_url(Some("e2b")), ModelSelection::E2B.url());
    assert_eq!(resolve_model_url(None), ModelSelection::E4B.url());
}

#[test]
fn switch_to_unknown_model_is_refused() {
    assert_eq!(validate_model_selection("e9b"), Ok(ModelSelection::E9B));
    assert_eq!(
        validate_model_selection("9b"),
        Err("unknown model selection: 9b".to_string())
    );
}

#[test]
fn server_command_line() {
    let args = llama_server_args("C:/models/m.gguf");
    let expected = vec![
        "-m", "C:/models/m.gguf", "--host", "127.0.0.1", "--port", "18080", "-c", "4096", "-ngl",
        "99", "--jinja",
    ];
    assert_eq!(args, expected);
}
