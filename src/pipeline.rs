use vstd::prelude::*;
use vstd::string::StringExecFns;

use crate::chunk::{block_of, extract_line_and_block, line_at, texts};
use crate::error::PipelineError;
use crate::prompt::{filled_prompt, Prompt};
use crate::store::{Collection, Distance, IndexedPoint, PointView, MAX_DIMENSION};

verus! {

/// The dimension of the vectors that the index flow stores.
pub const EMBEDDINGS_DIMENSION: usize = 384;

/// The interchangeable embedding and completion backends.
#[derive(Debug, Clone, Copy, PartialEq, Eq, Structural)]
pub enum Backend {
    Ollama,
    OpenAi,
}

impl Backend {
    pub open spec fn spec_embedding_dimension(self) -> usize {
        match self {
            Backend::Ollama => 384,
            Backend::OpenAi => 1536,
        }
    }

    /// The length of the vectors that this backend's embedding model returns.
    pub fn embedding_dimension(self) -> (r: usize)
        ensures
            r == self.spec_embedding_dimension(),
    {
        match self {
            Backend::Ollama => 384,
            Backend::OpenAi => 1536,
        }
    }

    /// The model asked for embeddings.
    pub fn embedding_model(self) -> (r: &'static str)
        ensures
            self == Backend::Ollama ==> r@ == "all-minilm"@,
            self == Backend::OpenAi ==> r@ == "text-embedding-3-small"@,
    {
        proof {
            reveal_strlit("all-minilm");
            reveal_strlit("text-embedding-3-small");
        }
        match self {
            Backend::Ollama => "all-minilm",
            Backend::OpenAi => "text-embedding-3-small",
        }
    }

    /// The model asked for completions.
    pub fn completion_model(self) -> (r: &'static str)
        ensures
            self == Backend::Ollama ==> r@ == "mistral:latest"@,
            self == Backend::OpenAi ==> r@ == "gpt-4"@,
    {
        proof {
            reveal_strlit("mistral:latest");
            reveal_strlit("gpt-4");
        }
        match self {
            Backend::Ollama => "mistral:latest",
            Backend::OpenAi => "gpt-4",
        }
    }
}

/// A provider whose vectors have `provider_dimension` components cannot write into a
/// collection configured for `collection_dimension`.
pub open spec fn dimension_mismatch(provider_dimension: int, collection_dimension: int) -> bool {
    provider_dimension != collection_dimension
}

/// Rejects, before anything is written, a provider whose vectors do not fit the collection.
pub fn check_dimension(provider_dimension: usize, collection_dimension: usize) -> (r: Result<(), PipelineError>)
    ensures
        dimension_mismatch(provider_dimension as int, collection_dimension as int) <==> r is Err,
        r is Err ==> r == Err::<(), PipelineError>(PipelineError::Config {
            expected: collection_dimension,
            found: provider_dimension,
        }),
{
    if provider_dimension != collection_dimension {
        Err(PipelineError::Config { expected: collection_dimension, found: provider_dimension })
    } else {
        Ok(())
    }
}

/// Two providers whose vectors differ in length cannot both pass the dimension check of
/// one collection: at least one of them is rejected before it writes.
pub proof fn lemma_mismatched_providers_rejected(d1: int, d2: int, collection_dimension: int)
    requires
        d1 != d2,
    ensures
        dimension_mismatch(d1, collection_dimension) || dimension_mismatch(d2, collection_dimension),
{
}

/// A source file to index: its path and the vector its text was embedded as.
pub struct Document {
    pub path: String,
    pub embedding: Vec<i16>,
}

pub ghost struct DocumentView {
    pub path: Seq<char>,
    pub embedding: Seq<i16>,
}

impl Document {
    pub open spec fn view(&self) -> DocumentView {
        DocumentView { path: self.path@, embedding: self.embedding@ }
    }
}

pub open spec fn document_views(docs: Seq<Document>) -> Seq<DocumentView> {
    docs.map_values(|d: Document| d@)
}

/// The points that indexing the first `n` documents stores: document `i` becomes point
/// `i` with the document's path as payload; a document whose vector does not have the
/// collection's dimension is skipped.
pub open spec fn indexed_points(docs: Seq<DocumentView>, dimension: nat, n: int) -> Seq<PointView>
    decreases n,
{
    if n <= 0 {
        Seq::empty()
    } else {
        let rest = indexed_points(docs, dimension, n - 1);
        let d = docs[n - 1];
        if d.embedding.len() == dimension {
            rest.push(PointView { id: (n - 1) as u64, vector: d.embedding, payload: d.path })
        } else {
            rest
        }
    }
}

fn copy_vector(v: &Vec<i16>) -> (r: Vec<i16>)
    ensures
        r@ == v@,
{
    let mut r: Vec<i16> = Vec::new();
    let mut i: usize = 0;
    while i < v.len()
        invariant
            i <= v@.len(),
            r@ == v@.subrange(0, i as int),
        decreases v@.len() - i,
    {
        r.push(v[i]);
        i = i + 1;
        assert(r@ =~= v@.subrange(0, i as int));
    }
    assert(r@ =~= v@);
    r
}

/// Runs the index flow: checks the provider's dimension against the collection's before
/// any write, recreates the collection from scratch with the given distance, and stores one point per document.
/// A document whose vector has the wrong length is skipped and the others are still stored.
pub fn index_documents(
    name: String,
    provider_dimension: usize,
    dimension: usize,
    distance: Distance,
    docs: &Vec<Document>,
) -> (r: Result<Collection, PipelineError>)
    requires
        dimension <= MAX_DIMENSION,
    ensures
        dimension_mismatch(provider_dimension as int, dimension as int) <==> r is Err,
        match r {
            Ok(c) => {
                &&& c.wf()
                &&& c.spec_name() == name@
                &&& c.spec_dimension() == dimension
                &&& c.spec_distance() == distance
                &&& c.points() == indexed_points(document_views(docs@), dimension as nat, docs@.len() as int)
            },
            Err(e) => e == PipelineError::Config { expected: dimension, found: provider_dimension },
        },
{
    match check_dimension(provider_dimension, dimension) {
        Err(e) => {
            return Err(e);
        },
        Ok(()) => {},
    }
    let ghost dv = document_views(docs@);
    let mut c = Collection::recreate(name, dimension, distance);
    let mut i: usize = 0;
    while i < docs.len()
        invariant
            dv == document_views(docs@),
            i <= docs@.len(),
            c.wf(),
            c.spec_name() == name@,
            c.spec_dimension() == dimension,
            c.spec_distance() == distance,
            c.points() == indexed_points(dv, dimension as nat, i as int),
            forall|k: int| 0 <= k < c.points().len() ==> (#[trigger] c.points()[k].id as int) < i,
        decreases docs@.len() - i,
    {
        let doc = &docs[i];
        assert(dv[i as int] == doc@);
        if doc.embedding.len() == dimension {
            let point = IndexedPoint {
                id: i as u64,
                vector: copy_vector(&doc.embedding),
                payload: doc.path.clone(),
            };
            let ghost before = c.points();
            let res = c.upsert(point);
            assert(res is Ok);
            assert(c.points() == before.push(point@));
        }
        i = i + 1;
    }
    Ok(c)
}

/// The prompt for completing the line numbered `line_number` of a text given line by
/// line: the line itself and the block `start_block..=end_block` fill the template's slots.
pub fn prepare_code_prompt(
    lines: &Vec<String>,
    context: &str,
    line_number: usize,
    start_block: usize,
    end_block: usize,
) -> (r: String)
    ensures
        r@ == filled_prompt(
            context@,
            line_at(texts(lines@), line_number as int),
            block_of(texts(lines@), start_block as int, end_block as int),
        ),
{
    let (line, block) = extract_line_and_block(lines, line_number, start_block, end_block);
    let prompt = Prompt { context: String::from_str(context), current_line: line, surrounding_lines: block };
    prompt.render()
}

/// The prompt for free text: `text` fills the surrounding-block slot and the current line is `0`.
pub fn prepare_text_prompt(context: &str, text: &str) -> (r: String)
    ensures
        r@ == filled_prompt(context@, "0"@, text@),
{
    let prompt = Prompt {
        context: String::from_str(context),
        current_line: String::from_str("0"),
        surrounding_lines: String::from_str(text),
    };
    prompt.render()
}

/// What a completion backend answered.
pub enum Completion {
    Text(String),
    /// The backend returned no choice, or a choice without content.
    NoResponse,
}

/// The first choice of a backend's answer, or `NoResponse` when there is none.
pub fn completion_from_choices(choices: &Vec<Option<String>>) -> (r: Completion)
    ensures
        choices@.len() == 0 ==> r is NoResponse,
        choices@.len() > 0 ==> match choices@[0] {
            Some(s) => r matches Completion::Text(t) && t@ == s@,
            None => r is NoResponse,
        },
{
    if choices.len() == 0 {
        return Completion::NoResponse;
    }
    match &choices[0] {
        Some(s) => Completion::Text(s.clone()),
        None => Completion::NoResponse,
    }
}

impl Completion {
    /// The generated text, with `no response.` standing for a missing answer.
    pub fn into_text(self) -> (r: String)
        ensures
            match self {
                Completion::Text(t) => r@ == t@,
                Completion::NoResponse => r@ == "no response."@,
            },
    {
        match self {
            Completion::Text(t) => t,
            Completion::NoResponse => {
                proof {
                    reveal_strlit("no response.");
                }
                String::from_str("no response.")
            },
        }
    }
}

} // verus!
