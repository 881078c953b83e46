use repo_cache::index::{doc_id, doc_title, matches_folded, DocumentIndex};

fn sample() -> DocumentIndex {
    let mut index = DocumentIndex::new();
    index.add_document("a", "Getting Started", "/d/a.md", "Install the CLI.".to_string(), "guide", "dynamo");
    index.add_document("b", "Routing", "/d/b.md", "The KV ROUTER picks a worker.".to_string(), "architecture", "dynamo");
    index.add_document("c", "Dotfiles", "/d/c.md", "Shell setup.".to_string(), "getting_started", "dots");
    index
}

#[test]
fn search_ignores_case() {
    let index = sample();
    let found = index.search("kv router");
    assert_eq!(found.len(), 1);
    assert_eq!(found[0].id, "b");
    let found = index.search("GETTING");
    assert_eq!(found.len(), 1);
    assert_eq!(found[0].id, "a");
    assert!(index.search("nothing like this").is_empty());
    assert_eq!(index.search("").len(), 3);
}

#[test]
fn search_keeps_index_order() {
    let index = sample();
    let ids: Vec<String> = index.search("s").into_iter().map(|d| d.id).collect();
    assert_eq!(ids, vec!["a".to_string(), "b".to_string(), "c".to_string()]);
}

#[test]
fn same_id_replaces_document() {
    let mut index = sample();
    index.add_document("b", "Routing v2", "/d/b2.md", "new".to_string(), "architecture", "dynamo");
    assert_eq!(index.len(), 3);
    let doc = index.get("b").unwrap();
    assert_eq!(doc.title, "Routing v2");
    assert_eq!(doc.content, "new");
    assert_eq!(index.documents()[1].path, "/d/b2.md");
    assert!(index.get("z").is_none());
    index.clear();
    assert_eq!(index.len(), 0);
}

#[test]
fn folded_match() {
    assert!(matches_folded("kv", "kv routing", ""));
    assert!(matches_folded("kv", "", "the kv cache"));
    assert!(!matches_folded("kv", "KV", "Kv"));
}

#[test]
fn document_names() {
    assert_eq!(doc_title("kv_cache_routing.md"), "kv cache routing.md");
    assert_eq!(doc_id("arch", "kv_cache.md"), "arch-kv_cache");
    assert_eq!(doc_id("guide", "a.md.md"), "guide-a");
    assert_eq!(doc_id("guide", "readme"), "guide-readme");
    assert_eq!(doc_id("guide", ".md"), "guide-");
}
