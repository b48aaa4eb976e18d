use omega_agi::agent::knowledge::{
    chunk_id, is_chunkable, try_chunk_text, chunk_text, matching_documents, query_terms, terms_of_chunk, Document, KeywordIndex,
    KnowledgeConfig,
};

#[test]
fn test_chunking() {
    let config = KnowledgeConfig { chunk_size: 20, chunk_overlap: 5, max_chunks_per_doc: 10 };
    let text = "This is a longer text that should be split into multiple chunks for processing.";
    let chunks = chunk_text(text, &config);
    assert!(chunks.len() > 1, "Text should be split into chunks");
    assert!(chunks.iter().all(|c| c.len() <= 25));
}

#[test]
fn test_small_text_no_chunking() {
    let text = "Short text.";
    let chunks = chunk_text(text, &KnowledgeConfig::default());
    assert_eq!(chunks.len(), 1);
}

#[test]
fn chunks_overlap_and_stop_at_the_limit() {
    let config = KnowledgeConfig { chunk_size: 20, chunk_overlap: 5, max_chunks_per_doc: 10 };
    let text = "This is a longer text that should be split into multiple chunks for processing.";
    let chunks = chunk_text(text, &config);
    assert_eq!(chunks.len(), 10);
    assert_eq!(chunks[0], "This is a longer tex");
    assert_eq!(chunks[1], "r text that should b");
    assert_eq!(chunks[4], "nks for processing.");
    assert_eq!(chunks[9], "sing.");
}

#[test]
fn chunks_cut_after_a_sentence_or_at_a_line_break() {
    let config = KnowledgeConfig { chunk_size: 30, chunk_overlap: 0, max_chunks_per_doc: 2 };
    let chunks = chunk_text("First sentence here. Second sentence follows and goes on for a while.", &config);
    assert_eq!(chunks, vec!["First sentence here.".to_string(), String::new()]);
    let config = KnowledgeConfig { chunk_size: 12, chunk_overlap: 0, max_chunks_per_doc: 1 };
    assert_eq!(chunk_text("line one\nline two is longer than the rest", &config), vec!["line one".to_string()]);
}

#[test]
fn zero_chunk_limit_gives_nothing_for_long_text() {
    let config = KnowledgeConfig { chunk_size: 4, chunk_overlap: 0, max_chunks_per_doc: 0 };
    assert!(chunk_text("longer than four", &config).is_empty());
}

#[test]
fn chunk_ids_keep_sixteen_alphanumerics() {
    assert_eq!(chunk_id("test", 0), "kb-test-0");
    assert_eq!(chunk_id("doc-1234/abcdefghijklmnop", 12), "kb-doc1234abcdefghi-12");
}

#[test]
fn chunk_terms_are_cleaned_and_lowercased() {
    assert_eq!(
        terms_of_chunk("Rust is a Systems-language, OK?"),
        vec!["rust".to_string(), "systemslanguage".to_string()]
    );
    assert_eq!(query_terms("Programming LANGUAGE of"), vec!["programming".to_string(), "language".to_string()]);
}

#[test]
fn keyword_index_appends_positions() {
    let mut ix = KeywordIndex::new();
    assert_eq!(ix.get("rust"), None);
    ix.add("rust", 0);
    ix.add("safety", 0);
    ix.add("rust", 3);
    assert_eq!(ix.get("rust"), Some(vec![0, 3]));
    assert_eq!(ix.get("safety"), Some(vec![0]));
    ix.index_chunk("Rust programming language", 1);
    assert_eq!(ix.get("rust"), Some(vec![0, 3, 1]));
    assert_eq!(ix.get("programming"), Some(vec![1]));
    assert_eq!(ix.keyword_hits("programming RUST xy"), vec![1, 0, 3, 1]);
}

fn doc(title: &str, content: &str) -> Document {
    Document {
        id: "doc-1".to_string(),
        title: title.to_string(),
        content: content.to_string(),
        source: "book".to_string(),
        content_type: "text/markdown".to_string(),
        chunk_ids: vec![],
        created_at: "2024-01-01T00:00:00Z".to_string(),
    }
}

#[test]
fn documents_match_title_or_content_case_insensitively() {
    let docs = vec![
        doc("Rust Book", "Rust programming language introduction"),
        doc("Cooking", "Bread and butter"),
        doc("Notes", "about rust"),
    ];
    assert_eq!(matching_documents(&docs, "Rust"), vec![0, 2]);
    assert_eq!(matching_documents(&docs, "BREAD"), vec![1]);
    assert!(matching_documents(&docs, "python").is_empty());
}

#[test]
fn chunking_inside_a_character_is_refused() {
    let config = KnowledgeConfig { chunk_size: 3, chunk_overlap: 0, max_chunks_per_doc: 4 };
    assert!(!is_chunkable("éééééé", &config));
    assert_eq!(try_chunk_text("éééééé", &config), None);
    let config = KnowledgeConfig { chunk_size: 4, chunk_overlap: 0, max_chunks_per_doc: 4 };
    assert!(is_chunkable("éééééé", &config));
    assert_eq!(
        try_chunk_text("éééééé", &config),
        Some(vec!["éé".to_string(), "éé".to_string(), "éé".to_string()])
    );
}
