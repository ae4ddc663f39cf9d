//! The configuration that agent requests carry: memory, storage and
//! knowledge base settings, and the request to hire an agent.

use vstd::prelude::*;
use crate::kv::StringMap;
use crate::text::{
    concat, owned, seq_starts_with, starts_with, str_eq, suffix_from, to_lowercase,
    unicode_lowercase,
};

verus! {

/// Memory type options for agents.
#[derive(Debug, Clone, PartialEq, Eq)]
pub enum MemoryType {
    /// No persistent memory (`None` in the wire format)
    NoMemory,
    /// Basic conversation memory
    Conversation,
    /// Formation's persistent memory
    FormationPersistent,
    /// Pinecone vector database
    PineconeVectorDB,
    /// ChromaDB vector database
    ChromaDB,
    /// LanceDB vector database
    LanceDB,
    /// Qdrant vector database
    Qdrant,
    /// Custom memory type
    Custom(String),
}

/// The text of a memory type.
pub open spec fn spec_memory_type_text(m: MemoryType) -> Seq<char> {
    match m {
        MemoryType::NoMemory => "none"@,
        MemoryType::Conversation => "conversation"@,
        MemoryType::FormationPersistent => "formation_persistent"@,
        MemoryType::PineconeVectorDB => "pinecone"@,
        MemoryType::ChromaDB => "chroma"@,
        MemoryType::LanceDB => "lancedb"@,
        MemoryType::Qdrant => "qdrant"@,
        MemoryType::Custom(s) => "custom:"@ + s@,
    }
}

/// The memory type that lower-case text names: one of the fixed names, or
/// `custom:` followed by a custom type's name; an error naming the text
/// otherwise.
pub open spec fn spec_memory_type_of_lower(l: Seq<char>) -> Result<MemoryType, Seq<char>> {
    if l == "none"@ {
        Ok(MemoryType::NoMemory)
    } else if l == "conversation"@ {
        Ok(MemoryType::Conversation)
    } else if l == "formation_persistent"@ {
        Ok(MemoryType::FormationPersistent)
    } else if l == "pinecone"@ {
        Ok(MemoryType::PineconeVectorDB)
    } else if l == "chroma"@ {
        Ok(MemoryType::ChromaDB)
    } else if l == "lancedb"@ {
        Ok(MemoryType::LanceDB)
    } else if l == "qdrant"@ {
        Ok(MemoryType::Qdrant)
    } else if seq_starts_with(l, "custom:"@) {
        Ok(MemoryType::Custom(arbitrary()))
    } else {
        Err("Unknown memory type: "@ + l)
    }
}

impl MemoryType {
    /// The text of the memory type (`custom:` and the name for a custom one).
    pub fn as_text(&self) -> (r: String)
        ensures
            r@ == spec_memory_type_text(*self),
    {
        match self {
            MemoryType::NoMemory => owned("none"),
            MemoryType::Conversation => owned("conversation"),
            MemoryType::FormationPersistent => owned("formation_persistent"),
            MemoryType::PineconeVectorDB => owned("pinecone"),
            MemoryType::ChromaDB => owned("chroma"),
            MemoryType::LanceDB => owned("lancedb"),
            MemoryType::Qdrant => owned("qdrant"),
            MemoryType::Custom(s) => concat("custom:", s.as_str()),
        }
    }

    /// Reads a memory type from text, ignoring case.
    pub fn parse(s: &str) -> (r: Result<MemoryType, String>)
        ensures
            match (r, spec_memory_type_of_lower(unicode_lowercase(s@))) {
                (Ok(MemoryType::Custom(name)), Ok(MemoryType::Custom(_))) =>
                    name@ == unicode_lowercase(s@).subrange(7, unicode_lowercase(s@).len() as int),
                (Ok(MemoryType::Custom(_)), _) => false,
                (Ok(m), Ok(n)) => m == n,
                (Err(e), Err(f)) => e@ == f,
                _ => false,
            },
    {
        let lower = to_lowercase(s);
        let l = lower.as_str();
        if str_eq(l, "none") {
            Ok(MemoryType::NoMemory)
        } else if str_eq(l, "conversation") {
            Ok(MemoryType::Conversation)
        } else if str_eq(l, "formation_persistent") {
            Ok(MemoryType::FormationPersistent)
        } else if str_eq(l, "pinecone") {
            Ok(MemoryType::PineconeVectorDB)
        } else if str_eq(l, "chroma") {
            Ok(MemoryType::ChromaDB)
        } else if str_eq(l, "lancedb") {
            Ok(MemoryType::LanceDB)
        } else if str_eq(l, "qdrant") {
            Ok(MemoryType::Qdrant)
        } else if starts_with(l, "custom:") {
            proof {
                reveal_strlit("custom:");
            }
            Ok(MemoryType::Custom(owned(suffix_from(l, 7))))
        } else {
            Err(concat("Unknown memory type: ", l))
        }
    }
}

impl std::str::FromStr for MemoryType {
    type Err = String;

    fn from_str(s: &str) -> (r: Result<Self, Self::Err>)
        ensures
            match (r, spec_memory_type_of_lower(unicode_lowercase(s@))) {
                (Ok(MemoryType::Custom(name)), Ok(MemoryType::Custom(_))) =>
                    name@ == unicode_lowercase(s@).subrange(7, unicode_lowercase(s@).len() as int),
                (Ok(MemoryType::Custom(_)), _) => false,
                (Ok(m), Ok(n)) => m == n,
                (Err(e), Err(f)) => e@ == f,
                _ => false,
            },
    {
        MemoryType::parse(s)
    }
}

/// The text of a memory type names that type again (before case is
/// ignored): a fixed type itself, a custom type a custom type of the same
/// name.
pub proof fn lemma_memory_type_roundtrip(m: MemoryType)
    ensures
        match spec_memory_type_of_lower(spec_memory_type_text(m)) {
            Ok(MemoryType::Custom(_)) => m is Custom,
            Ok(n) => n == m,
            Err(_) => false,
        },
        m matches MemoryType::Custom(s) ==> spec_memory_type_text(m).subrange(7, spec_memory_type_text(m).len() as int) == s@,
{
    reveal_strlit("none");
    reveal_strlit("conversation");
    reveal_strlit("formation_persistent");
    reveal_strlit("pinecone");
    reveal_strlit("chroma");
    reveal_strlit("lancedb");
    reveal_strlit("qdrant");
    reveal_strlit("custom:");
    let t = spec_memory_type_text(m);
    assert("none"@[0] == 'n' && "conversation"@[0] == 'c' && "formation_persistent"@[0] == 'f');
    assert("pinecone"@[0] == 'p' && "chroma"@[0] == 'c' && "lancedb"@[0] == 'l' && "qdrant"@[0] == 'q');
    assert("conversation"@[1] == 'o' && "chroma"@[1] == 'h' && "custom:"@[1] == 'u');
    if let MemoryType::Custom(s) = m {
        assert(t.subrange(0, 7) =~= "custom:"@);
        assert(t.subrange(7, t.len() as int) =~= s@);
        assert(t[1] == 'u');
        assert(t != "none"@ && t != "conversation"@ && t != "formation_persistent"@ && t != "pinecone"@
            && t != "chroma"@ && t != "lancedb"@ && t != "qdrant"@) by {
            assert("none"@[1] != 'u');
            assert("conversation"@[1] != 'u');
            assert("formation_persistent"@[1] != 'u');
            assert("pinecone"@[1] != 'u');
            assert("chroma"@[1] != 'u');
            assert("lancedb"@[1] != 'u');
            assert("qdrant"@[1] != 'u');
        }
    }
}

/// Configuration for agent memory.
#[derive(Debug, Clone)]
pub struct MemoryConfig {
    /// Type of memory to use
    pub memory_type: MemoryType,
    /// Endpoint URL for the memory service
    pub endpoint: Option<String>,
    /// API key for the memory service
    pub api_key: Option<String>,
    /// Collection name in the memory service
    pub collection_name: Option<String>,
    /// Conversation ID for this interaction
    pub conversation_id: Option<String>,
}

/// Storage types for files and artifacts.
#[derive(Debug, Clone)]
pub enum StorageType {
    /// No storage (`None` in the wire format)
    NoStorage,
    /// Formation's built-in storage
    FormationStorage,
    /// Amazon S3 compatible storage
    S3,
    /// Google Cloud Storage
    GCS,
    /// Azure Blob Storage
    Azure,
    /// Custom storage provider
    Custom(String),
}

/// Configuration for file storage.
#[derive(Debug, Clone)]
pub struct StorageConfig {
    /// Type of storage to use
    pub storage_type: StorageType,
    /// Endpoint URL for the storage service
    pub endpoint: Option<String>,
    /// API key for the storage service
    pub api_key: Option<String>,
    /// Bucket name in the storage service
    pub bucket_name: Option<String>,
    /// Folder path within the bucket
    pub folder_path: Option<String>,
}

/// Knowledge base types.
#[derive(Debug, Clone)]
pub enum KnowledgeBaseType {
    /// No knowledge base (`None` in the wire format)
    NoKnowledgeBase,
    /// Formation's RAG system
    FormationRAG,
    /// Pinecone knowledge base
    Pinecone,
    /// Weaviate knowledge base
    Weaviate,
    /// Qdrant knowledge base
    Qdrant,
    /// Custom knowledge base
    Custom(String),
}

/// Configuration for knowledge base access.
#[derive(Debug, Clone)]
pub struct KnowledgeBaseConfig {
    /// Type of knowledge base
    pub kb_type: KnowledgeBaseType,
    /// Endpoint URL for the knowledge base
    pub endpoint: Option<String>,
    /// API key for the knowledge base
    pub api_key: Option<String>,
    /// Index name in the knowledge base
    pub index_name: Option<String>,
}

/// Request structure for the hire_agent endpoint.
#[derive(Debug, Clone)]
pub struct HireAgentRequest {
    /// JWT token for authentication
    pub jwt: String,
    /// Optional metadata for the hiring transaction
    pub metadata: Option<StringMap>,
}

impl HireAgentRequest {
    /// Create a new agent hiring request, without metadata.
    pub fn new(jwt: String) -> (r: Self)
        ensures
            r.jwt == jwt,
            r.metadata is None,
    {
        HireAgentRequest { jwt, metadata: None }
    }

    /// Add metadata to the request, replacing any earlier metadata.
    pub fn with_metadata(self, metadata: StringMap) -> (r: Self)
        ensures
            r.jwt == self.jwt,
            r.metadata matches Some(m) && m@ == metadata@,
    {
        HireAgentRequest { jwt: self.jwt, metadata: Some(metadata) }
    }
}

} // verus!
