//! Knowledge-base processing stubs: document processing, semantic search
//! and the vector store live behind these types.

use vstd::prelude::*;

verus! {

/// Turns raw document content into indexable text.
#[derive(Debug, Clone, Copy)]
pub struct DocumentProcessor;

impl DocumentProcessor {
    pub fn new() -> (r: Self) {
        DocumentProcessor
    }
}

/// Answers semantic queries over indexed documents.
#[derive(Debug, Clone, Copy)]
pub struct SemanticSearch;

impl SemanticSearch {
    pub fn new() -> (r: Self) {
        SemanticSearch
    }
}

/// Stores and searches embedding vectors.
#[derive(Debug, Clone, Copy)]
pub struct VectorStore;

impl VectorStore {
    pub fn new() -> (r: Self) {
        VectorStore
    }
}

} // verus!
