//! Ollama-based embedding provider: configuration, request preparation and
//! error reporting.
//!
//! Calls go to the local Ollama server's `/api/embed` endpoint; the HTTP
//! exchange and the floating-point vectors it returns are handled by the
//! caller. Default model: `nomic-embed-text:latest` (768 dimensions).

use vstd::prelude::*;
use crate::text::{blank, chars_of, decimal, is_blank, owned, push_str, string_of_range, trim, trim_str, u64_to_string};

verus! {

/// Default Ollama base URL.
pub const DEFAULT_OLLAMA_URL: &'static str = "http://localhost:11434";

/// Default embedding model for Ollama.
pub const DEFAULT_OLLAMA_MODEL: &'static str = "nomic-embed-text:latest";

/// Default dimensions for nomic-embed-text.
pub const DEFAULT_OLLAMA_DIMENSIONS: usize = 768;

/// `s` without its trailing `/` characters (`str::trim_end_matches('/')`).
pub open spec fn strip_trailing_slashes(s: Seq<char>) -> Seq<char>
    decreases s.len(),
{
    if s.len() > 0 && s.last() == '/' {
        strip_trailing_slashes(s.drop_last())
    } else {
        s
    }
}

/// The base URL a provider uses for a configured value.
pub open spec fn spec_base_url(base_url: Seq<char>) -> Seq<char> {
    if is_blank(base_url) {
        DEFAULT_OLLAMA_URL@
    } else {
        strip_trailing_slashes(base_url)
    }
}

/// The model a provider uses for a configured value.
pub open spec fn spec_model(model: Seq<char>) -> Seq<char> {
    if is_blank(model) {
        DEFAULT_OLLAMA_MODEL@
    } else {
        trim(model)
    }
}

/// The dimensions a provider reports for a configured value.
pub open spec fn spec_dims(dims: usize) -> usize {
    if dims == 0 {
        DEFAULT_OLLAMA_DIMENSIONS
    } else {
        dims
    }
}

/// Embedding provider backed by a local Ollama instance.
pub struct OllamaEmbedding {
    base_url: String,
    model: String,
    dims: usize,
}

/// The request body of `/api/embed`.
pub struct OllamaEmbedRequest {
    pub model: String,
    pub input: Vec<String>,
}

/// The inputs actually sent: each text trimmed, blank ones dropped.
pub open spec fn spec_inputs(texts: Seq<&str>) -> Seq<Seq<char>>
    decreases texts.len(),
{
    if texts.len() == 0 {
        Seq::empty()
    } else {
        let rest = spec_inputs(texts.drop_last());
        if is_blank(texts.last()@) {
            rest
        } else {
            rest.push(trim(texts.last()@))
        }
    }
}

/// The views of a vector of strings.
pub open spec fn views(v: Seq<String>) -> Seq<Seq<char>> {
    v.map_values(|s: String| s@)
}

fn strip_slashes(s: &str) -> (r: String)
    ensures
        r@ == strip_trailing_slashes(s@),
{
    let v = chars_of(s);
    let mut n = v.len();
    assert(v@.subrange(0, n as int) =~= v@);
    while n > 0 && v[n - 1] == '/'
        invariant
            n <= v@.len(),
            strip_trailing_slashes(v@) == strip_trailing_slashes(v@.subrange(0, n as int)),
        decreases n,
    {
        proof {
            assert(v@.subrange(0, n as int).drop_last() =~= v@.subrange(0, n - 1));
        }
        n = n - 1;
    }
    proof {
        if n > 0 {
            assert(v@.subrange(0, n as int).last() == v@[n - 1]);
        }
    }
    string_of_range(&v, 0, n)
}

impl OllamaEmbedding {
    /// The configured base URL.
    pub closed spec fn spec_base(&self) -> Seq<char> {
        self.base_url@
    }

    /// The configured model name.
    pub closed spec fn spec_model_name(&self) -> Seq<char> {
        self.model@
    }

    /// The configured dimensions.
    pub closed spec fn spec_dimensions(&self) -> usize {
        self.dims
    }

    /// Creates a provider. Blank URL or model, or zero dimensions, fall back
    /// to the defaults; trailing slashes are stripped from the URL and the
    /// model name is trimmed.
    pub fn new(base_url: &str, model: &str, dims: usize) -> (r: Self)
        ensures
            r.spec_base() == spec_base_url(base_url@),
            r.spec_model_name() == spec_model(model@),
            r.spec_dimensions() == spec_dims(dims),
    {
        let base_url = if blank(base_url) {
            owned(DEFAULT_OLLAMA_URL)
        } else {
            strip_slashes(base_url)
        };
        let model = if blank(model) {
            owned(DEFAULT_OLLAMA_MODEL)
        } else {
            trim_str(model)
        };
        let dims = if dims == 0 {
            DEFAULT_OLLAMA_DIMENSIONS
        } else {
            dims
        };
        OllamaEmbedding { base_url, model, dims }
    }

    /// Creates a provider with all defaults.
    pub fn default() -> (r: Self)
        ensures
            r.spec_base() == spec_base_url(DEFAULT_OLLAMA_URL@),
            r.spec_model_name() == spec_model(DEFAULT_OLLAMA_MODEL@),
            r.spec_dimensions() == DEFAULT_OLLAMA_DIMENSIONS,
    {
        Self::new(DEFAULT_OLLAMA_URL, DEFAULT_OLLAMA_MODEL, DEFAULT_OLLAMA_DIMENSIONS)
    }

    /// Returns the configured base URL.
    pub fn base_url(&self) -> (s: &str)
        ensures
            s@ == self.spec_base(),
    {
        self.base_url.as_str()
    }

    /// Returns the configured model name.
    pub fn model(&self) -> (s: &str)
        ensures
            s@ == self.spec_model_name(),
    {
        self.model.as_str()
    }

    /// The provider's name.
    pub fn name(&self) -> (s: &'static str)
        ensures
            s@ == "ollama"@,
    {
        "ollama"
    }

    /// Returns the number of dimensions in the generated embeddings.
    pub fn dimensions(&self) -> (d: usize)
        ensures
            d == self.spec_dimensions(),
    {
        self.dims
    }

    /// The embed endpoint URL.
    pub fn embed_url(&self) -> (s: String)
        ensures
            s@ == self.spec_base() + "/api/embed"@,
    {
        let mut s = self.base_url.clone();
        push_str(&mut s, "/api/embed");
        s
    }

    /// The request for a batch of texts: every text trimmed, blank ones
    /// dropped; `None` when nothing is left to embed (the result is then
    /// an empty list of embeddings, without any request).
    pub fn embed_request(&self, texts: &[&str]) -> (r: Option<OllamaEmbedRequest>)
        ensures
            match r {
                Some(req) => req.model@ == self.spec_model_name() && views(req.input@) == spec_inputs(texts@)
                    && req.input@.len() > 0,
                None => spec_inputs(texts@).len() == 0,
            },
    {
        let mut input: Vec<String> = Vec::new();
        let mut i: usize = 0;
        while i < texts.len()
            invariant
                i <= texts@.len(),
                views(input@) == spec_inputs(texts@.take(i as int)),
            decreases texts@.len() - i,
        {
            let t = texts[i];
            proof {
                assert(texts@.take(i + 1).drop_last() =~= texts@.take(i as int));
                assert(texts@.take(i + 1).last() == t);
            }
            if !blank(t) {
                let s = trim_str(t);
                input.push(s);
                proof {
                    assert(views(input@) =~= spec_inputs(texts@.take(i as int)).push(trim(t@)));
                }
            }
            i = i + 1;
        }
        assert(texts@.take(texts@.len() as int) =~= texts@);
        if input.len() == 0 {
            None
        } else {
            Some(OllamaEmbedRequest { model: self.model.clone(), input })
        }
    }

    /// The error reported when the server cannot be reached.
    pub fn connection_error(&self, err: &str) -> (s: String)
        ensures
            s@ == "ollama embed request failed (is Ollama running at "@ + self.spec_base() + "?): "@ + err@,
    {
        let mut s = owned("ollama embed request failed (is Ollama running at ");
        push_str(&mut s, self.base_url.as_str());
        push_str(&mut s, "?): ");
        push_str(&mut s, err);
        s
    }
}

/// The error reported for a non-success HTTP status: the status, then the
/// trimmed response body after `: ` unless the body is blank.
pub open spec fn spec_status_error(status: Seq<char>, body: Seq<char>) -> Seq<char> {
    "ollama embed failed with status "@ + status + if is_blank(body) {
        Seq::empty()
    } else {
        ": "@ + trim(body)
    }
}

/// The error reported for a non-success HTTP status.
pub fn status_error(status: &str, body: &str) -> (s: String)
    ensures
        s@ == spec_status_error(status@, body@),
{
    let mut s = owned("ollama embed failed with status ");
    push_str(&mut s, status);
    if !blank(body) {
        push_str(&mut s, ": ");
        let t = trim_str(body);
        push_str(&mut s, t.as_str());
    }
    s
}

/// The error reported when the response body is not the expected JSON.
pub fn parse_error(err: &str) -> (s: String)
    ensures
        s@ == "ollama embed response parse failed: "@ + err@,
{
    let mut s = owned("ollama embed response parse failed: ");
    push_str(&mut s, err);
    s
}

/// The error reported when the server answered with no embeddings.
pub const NO_EMBEDDINGS_ERROR: &'static str = "ollama embed returned no embeddings";

/// The error reported when a single-text embedding came back empty.
pub const EMPTY_EMBEDDING_RESULT: &'static str = "Empty embedding result";


/// The error when the server returned a number of vectors other than one
/// per input text; none when the counts agree.
pub fn embedding_count_error(got: usize, expected: usize) -> (r: Option<String>)
    ensures
        got == expected ==> r is None,
        got != expected ==> (r matches Some(e) && e@ == "embedding count mismatch: got "@ + decimal(got as nat)
            + " embeddings for "@ + decimal(expected as nat) + " entries"@),
{
    if got == expected {
        None
    } else {
        let mut e = owned("embedding count mismatch: got ");
        push_str(&mut e, u64_to_string(got as u64).as_str());
        push_str(&mut e, " embeddings for ");
        push_str(&mut e, u64_to_string(expected as u64).as_str());
        push_str(&mut e, " entries");
        Some(e)
    }
}

} // verus!
