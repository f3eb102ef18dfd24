use nvim_llama::error::PipelineError;
use nvim_llama::pipeline::{
    check_dimension, completion_from_choices, index_documents, prepare_code_prompt,
    prepare_text_prompt, Backend, Completion, Document, EMBEDDINGS_DIMENSION,
};
use nvim_llama::prompt::{default_prompt_template, Prompt};
use nvim_llama::store::{Distance, MAX_DIMENSION};

fn filled(context: &str, line: &str, block: &str) -> String {
    default_prompt_template()
        .replace("{context}", context)
        .replace("{current_line}", line)
        .replace("{surrounding_lines}", block)
}

#[test]
fn render_fills_the_three_slots() {
    let p = Prompt {
        context: "ctx".to_string(),
        current_line: "let x = 1;".to_string(),
        surrounding_lines: "fn f() {}\n".to_string(),
    };
    let s = p.render();
    assert_eq!(s, filled("ctx", "let x = 1;", "fn f() {}\n"));
    assert_ne!(s, default_prompt_template());
}

#[test]
fn code_prompt_uses_extracted_line_and_block() {
    let lines: Vec<String> = (1..=5).map(|i| format!("x{}", i)).collect();
    let s = prepare_code_prompt(&lines, "", 2, 1, 3);
    assert_eq!(s, filled("", "x2", "x1\nx2\nx3\n"));
}

#[test]
fn text_prompt_puts_zero_as_current_line() {
    let s = prepare_text_prompt("c", "hello");
    assert_eq!(s, filled("c", "0", "hello"));
}

#[test]
fn dimension_check_rejects_mismatch() {
    assert_eq!(check_dimension(384, 384), Ok(()));
    assert_eq!(
        check_dimension(1536, EMBEDDINGS_DIMENSION),
        Err(PipelineError::Config { expected: 384, found: 1536 })
    );
}

#[test]
fn two_providers_of_different_dimensions_cannot_share_a_collection() {
    let a = Backend::Ollama.embedding_dimension();
    let b = Backend::OpenAi.embedding_dimension();
    assert_eq!(a, 384);
    assert_eq!(b, 1536);
    let ra = index_documents("code".to_string(), a, EMBEDDINGS_DIMENSION, Distance::Cosine, &Vec::new());
    let rb = index_documents("code".to_string(), b, EMBEDDINGS_DIMENSION, Distance::Cosine, &Vec::new());
    assert!(ra.is_ok());
    assert_eq!(rb.err(), Some(PipelineError::Config { expected: 384, found: 1536 }));
}

#[test]
fn index_two_files_and_query_first() {
    let docs = vec![
        Document { path: "a.py".to_string(), embedding: vec![3, 1, 0] },
        Document { path: "b.py".to_string(), embedding: vec![0, 1, 3] },
    ];
    let c = index_documents("code".to_string(), 3, 3, Distance::Cosine, &docs).unwrap();
    assert_eq!(c.len(), 2);
    let hits = c.search(&vec![3, 1, 0], 1, true).unwrap();
    assert_eq!(hits.len(), 1);
    assert_eq!(hits[0].payload, "a.py");
    assert_eq!(hits[0].id, 0);
}

#[test]
fn index_skips_document_of_wrong_length() {
    let docs = vec![
        Document { path: "a.py".to_string(), embedding: vec![1, 2] },
        Document { path: "b.py".to_string(), embedding: vec![1, 2, 3] },
    ];
    let c = index_documents("code".to_string(), 3, 3, Distance::Cosine, &docs).unwrap();
    assert_eq!(c.len(), 1);
    let hits = c.search(&vec![0, 0, 1], 5, true).unwrap();
    assert_eq!(hits.len(), 1);
    assert_eq!(hits[0].id, 1);
    assert_eq!(hits[0].payload, "b.py");
}

#[test]
fn missing_choice_gives_sentinel() {
    assert_eq!(completion_from_choices(&Vec::new()).into_text(), "no response.");
    assert_eq!(completion_from_choices(&vec![None]).into_text(), "no response.");
    let c = completion_from_choices(&vec![Some("x = 1".to_string()), None]);
    assert!(matches!(c, Completion::Text(_)));
    assert_eq!(c.into_text(), "x = 1");
}

#[test]
fn backend_models() {
    assert_eq!(Backend::Ollama.completion_model(), "mistral:latest");
    assert_eq!(Backend::OpenAi.completion_model(), "gpt-4");
    assert_eq!(Backend::Ollama.embedding_model(), "all-minilm");
    assert_eq!(Backend::OpenAi.embedding_model(), "text-embedding-3-small");
}

#[test]
fn render_keeps_markup_characters_verbatim() {
    let p = Prompt {
        context: "<ctx>".to_string(),
        current_line: "if a < b && c > \"d\" {".to_string(),
        surrounding_lines: "x = 'y' & z;\n".to_string(),
    };
    let s = p.render();
    assert_eq!(s, filled("<ctx>", "if a < b && c > \"d\" {", "x = 'y' & z;\n"));
    assert!(s.contains("if a < b && c"));
    assert!(!s.contains("&lt;"));
}

#[test]
fn template_has_the_three_slots() {
    let t = default_prompt_template();
    assert!(t.starts_with("You are a code suggestion engine\n"));
    assert!(t.contains("Code context section:\n{context}\n\nCurrent line:\n{current_line}\n\nSurrounding block of code:\n{surrounding_lines}\n\nSuggested code:\n"));
}

#[test]
fn index_scaled_copy_still_finds_first_file() {
    let mut a = vec![0i16; EMBEDDINGS_DIMENSION];
    let mut b = vec![0i16; EMBEDDINGS_DIMENSION];
    a[0] = 1;
    b[0] = 2;
    assert!(EMBEDDINGS_DIMENSION <= MAX_DIMENSION);
    let docs = vec![
        Document { path: "a.py".to_string(), embedding: a.clone() },
        Document { path: "b.py".to_string(), embedding: b },
    ];
    let c = index_documents("code".to_string(), 384, 384, Distance::Cosine, &docs).unwrap();
    let hits = c.search(&a, 1, true).unwrap();
    assert_eq!(hits.len(), 1);
    assert_eq!(hits[0].payload, "a.py");
}
