use openhuman::embeddings::ollama::{
    OllamaEmbedding, DEFAULT_OLLAMA_DIMENSIONS, DEFAULT_OLLAMA_MODEL, DEFAULT_OLLAMA_URL,
};

#[test]
fn defaults() {
    let p = OllamaEmbedding::default();
    assert_eq!(p.base_url(), DEFAULT_OLLAMA_URL);
    assert_eq!(p.model(), DEFAULT_OLLAMA_MODEL);
    assert_eq!(p.dimensions(), DEFAULT_OLLAMA_DIMENSIONS);
}

#[test]
fn name_is_ollama() {
    let p = OllamaEmbedding::default();
    assert_eq!(p.name(), "ollama");
}

#[test]
fn custom_values() {
    let p = OllamaEmbedding::new("http://gpu-box:11434/", "mxbai-embed-large", 1024);
    assert_eq!(p.base_url(), "http://gpu-box:11434");
    assert_eq!(p.model(), "mxbai-embed-large");
    assert_eq!(p.dimensions(), 1024);
}

#[test]
fn empty_values_use_defaults() {
    let p = OllamaEmbedding::new("", "", 0);
    assert_eq!(p.base_url(), DEFAULT_OLLAMA_URL);
    assert_eq!(p.model(), DEFAULT_OLLAMA_MODEL);
    assert_eq!(p.dimensions(), DEFAULT_OLLAMA_DIMENSIONS);
}

#[test]
fn whitespace_only_values_use_defaults() {
    let p = OllamaEmbedding::new("   ", "  ", 0);
    assert_eq!(p.base_url(), DEFAULT_OLLAMA_URL);
    assert_eq!(p.model(), DEFAULT_OLLAMA_MODEL);
}

#[test]
fn trailing_slash_stripped() {
    let p = OllamaEmbedding::new("http://host:1234/", "m", 1);
    assert_eq!(p.base_url(), "http://host:1234");
}

#[test]
fn model_trimmed() {
    let p = OllamaEmbedding::new("", "  nomic-embed-text  ", 768);
    assert_eq!(p.model(), "nomic-embed-text");
}

#[test]
fn embed_url_format() {
    let p = OllamaEmbedding::default();
    assert_eq!(p.embed_url(), "http://localhost:11434/api/embed");
}

#[test]
fn accessor_methods() {
    let p = OllamaEmbedding::new("http://x:1", "m", 42);
    assert_eq!(p.base_url(), "http://x:1");
    assert_eq!(p.model(), "m");
    assert_eq!(p.dimensions(), 42);
}

#[test]
fn embed_request_trims_and_drops_blank_inputs() {
    let p = OllamaEmbedding::default();
    let req = p.embed_request(&["  hello ", "   ", "world"]).expect("non-empty");
    assert_eq!(req.model, DEFAULT_OLLAMA_MODEL);
    assert_eq!(req.input, vec!["hello".to_string(), "world".to_string()]);
    assert!(p.embed_request(&["", "  "]).is_none());
}
