use omega_agi::research::extract_tags;
use omega_agi::research::reporter::{ReportFormat, Reporter};
use omega_agi::research::searcher::{Searcher, Source};

fn source(url: &str, title: &str, snippet: &str) -> Source {
    Source { url: url.to_string(), title: title.to_string(), snippet: snippet.to_string(), relevance_pct: 50 }
}

#[test]
fn fetch_reads_knowledge_entries() {
    let s = Searcher::new(2);
    assert_eq!(s.search_depth(), 2);
    let c = s.fetch(&source("knowledge://rust/entry_0", "ignored", "snip")).unwrap();
    assert_eq!(c.title, "Rust Programming");
    assert!(c.content.starts_with("Rust is a systems programming language"));
    assert_eq!(c.word_count, c.content.split_whitespace().count());
    let c = s.fetch(&source("knowledge://agi/entry_1", "t", "s")).unwrap();
    assert_eq!(c.title, "AGI Architecture");
    let c = s.fetch(&source("knowledge://agi/entry_x", "t", "s")).unwrap();
    assert_eq!(c.title, "What is AGI?");
    let c = s.fetch(&source("knowledge://agi/entry_9", "title", "two words")).unwrap();
    assert_eq!((c.title.as_str(), c.content.as_str(), c.word_count), ("title", "two words", 2));
    let c = s.fetch(&source("https://example.org", "Example", "  some   snippet text ")).unwrap();
    assert_eq!(c.word_count, 3);
    assert_eq!(c.url, "https://example.org");
}

#[test]
fn tags_from_topic_and_points() {
    let tags = extract_tags(
        "Rust Memory safety",
        &vec!["Ownership, (borrowing) and lifetimes!".to_string(), "Rust memory".to_string()],
    );
    assert_eq!(
        tags,
        vec![
            "rust".to_string(),
            "memory".to_string(),
            "safety".to_string(),
            "ownership".to_string(),
            "borrowing".to_string(),
            "lifetimes".to_string(),
        ]
    );
}

#[test]
fn reporter_format() {
    assert_eq!(Reporter::new(ReportFormat::Json).format(), ReportFormat::Json);
    assert_eq!(ReportFormat::default(), ReportFormat::Markdown);
}

#[test]
fn search_ranks_knowledge_before_the_web() {
    let s = Searcher::new(2);
    let r = s.search("AGI systems");
    let urls: Vec<&str> = r.iter().map(|x| x.url.as_str()).collect();
    assert_eq!(
        urls,
        vec![
            "knowledge://agi/entry_1",
            "knowledge://agi/entry_0",
            "https://research.omega-agi.org/search?q=systems",
        ]
    );
    assert_eq!(r[0].relevance_pct, 85);
    assert_eq!(r[1].relevance_pct, 80);
    assert_eq!(r[1].title, "What is AGI?");
    assert_eq!(r[1].snippet.len(), 100);
    assert_eq!(r[2].title, "Research results for 'systems'");
    assert_eq!(r[2].snippet, "Autonomous research findings related to systems...");
    assert_eq!(r[2].relevance_pct, 50);
}

#[test]
fn search_keeps_five_per_page() {
    let s = Searcher::new(1);
    let r = s.search("alpha beta gamma delta epsilon zeta");
    assert_eq!(r.len(), 5);
    assert!(r.iter().all(|x| x.relevance_pct == 50));
    assert_eq!(r[0].url, "https://research.omega-agi.org/search?q=alpha");
    assert!(Searcher::new(0).search("rust").is_empty());
    let r = Searcher::new(3).search("Rust");
    assert_eq!(r.len(), 2);
    assert_eq!(r[0].url, "knowledge://rust/entry_0");
    assert_eq!(r[1].url, "https://research.omega-agi.org/search?q=rust");
}

#[test]
fn search_and_fetch_reads_entries() {
    let s = Searcher::new(2);
    let c = s.search_and_fetch("rust");
    assert_eq!(c.len(), 2);
    assert_eq!(c[0].title, "Rust Programming");
    assert!(c[0].content.ends_with("high-performance AI systems."));
    assert_eq!(c[1].content, "Autonomous research findings related to rust...");
    assert_eq!(c[1].word_count, 6);
}

use omega_agi::research::extractor::{extract, topic_word_hits};
use omega_agi::research::knowledge::KnowledgeGraph;
use omega_agi::research::searcher::{preview, FetchedContent};

fn content(url: &str, text: &str) -> FetchedContent {
    FetchedContent {
        url: url.to_string(),
        title: format!("title of {}", url),
        content: text.to_string(),
        word_count: text.split_whitespace().count(),
    }
}

#[test]
fn extract_without_sources() {
    let e = extract("Rust", &[]);
    assert_eq!(e.summary, "No sources found for 'Rust'");
    assert!(e.key_points.is_empty());
    assert_eq!(e.word_count, 0);
    assert!(e.source_hits.is_empty());
}

#[test]
fn extract_gathers_sentences_by_score() {
    let a = content(
        "a",
        "Rust memory safety comes from ownership. Short rust. Memory is managed without a collector! Rust memory safety comes from ownership.",
    );
    let b = content("b", "Nothing relevant is written in this sentence at all? Rust gives memory safety guarantees");
    let e = extract("Rust Memory", &[a.clone(), b.clone()]);
    assert_eq!(e.word_count, a.word_count + b.word_count);
    assert_eq!(e.source_hits, vec![2, 2]);
    assert_eq!(
        e.key_points,
        vec![
            "Rust memory safety comes from ownership".to_string(),
            "Rust gives memory safety guarantees".to_string(),
            "Memory is managed without a collector".to_string(),
        ]
    );
    assert_eq!(
        e.summary,
        "Rust memory safety comes from ownership. Memory is managed without a collector. Rust gives memory safety guarantees"
    );
}

#[test]
fn extract_without_points_reports_counts() {
    let a = content("a", "tiny. words only");
    let e = extract("quantum", &[a]);
    assert!(e.key_points.is_empty());
    assert_eq!(e.source_hits, vec![0]);
    assert_eq!(
        e.summary,
        "Research on 'quantum' found 1 sources with 3 total words. Key insights are being compiled."
    );
}

#[test]
fn extract_keeps_ten_points() {
    let text: String = (0..12).map(|i| format!("The rust sentence number {} is long enough. ", i)).collect();
    let e = extract("rust", &[content("a", &text)]);
    assert_eq!(e.key_points.len(), 10);
    assert_eq!(e.key_points[0], "The rust sentence number 0 is long enough");
    assert_eq!(topic_word_hits("Rust and MEMORY", "rust memory safety"), (2, 3));
}

#[test]
fn preview_uses_the_snippet() {
    let s = Searcher::new(1).search("Rust");
    let c = preview(&s[0]);
    assert_eq!(c.url, s[0].url);
    assert_eq!(c.content, s[0].snippet);
    assert_eq!(c.word_count, s[0].snippet.split_whitespace().count());
}

#[test]
fn knowledge_graph_links_topics_through_concepts() {
    let mut g = KnowledgeGraph::new(true);
    g.ingest("rust", &[content("u1", "x")], &["Ownership prevents races".to_string()]);
    assert_eq!(g.node_count(), 4);
    assert!(g.get_insights().is_empty());
    g.ingest("go", &[content("u2", "y")], &["(Ownership) matters".to_string()]);
    assert_eq!(g.node_count(), 7);
    assert_eq!(g.get_insights(), vec!["Cross-topic connection: 'ownership' links [rust, go]".to_string()]);
    g.ingest("go", &[], &["ownership again".to_string()]);
    assert_eq!(g.get_insights().len(), 1);
    let mut off = KnowledgeGraph::new(false);
    off.ingest("rust", &[content("u1", "x")], &["Ownership prevents races".to_string()]);
    assert_eq!(off.node_count(), 0);
}
