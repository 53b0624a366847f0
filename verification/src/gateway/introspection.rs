//! Query definitions and embedding configuration loaded from `introspect.json`.
use vstd::prelude::*;
use pbjson_types::Struct;

use crate::proto::RequestType;

verus! {

/// OpenAI embedding models.
#[derive(Debug, Clone, Copy, PartialEq, Eq, Structural)]
pub enum OpenAIModel {
    TextEmbedding3Large,
    TextEmbedding3Small,
    TextEmbeddingAda002,
}

/// Azure OpenAI embedding models.
#[derive(Debug, Clone, Copy, PartialEq, Eq, Structural)]
pub enum AzureModel {
    TextEmbedding3Large,
    TextEmbedding3Small,
    TextEmbeddingAda002,
}

/// Gemini embedding models.
#[derive(Debug, Clone, Copy, PartialEq, Eq, Structural)]
pub enum GeminiModel {
    Embedding001,
}

#[derive(Debug, Clone)]
pub struct OpenAIEmbeddingConfig {
    pub model: OpenAIModel,
}

#[derive(Debug, Clone)]
pub struct AzureEmbeddingConfig {
    pub model: AzureModel,
    pub deployment_id: String,
}

#[derive(Debug, Clone)]
pub struct GeminiEmbeddingConfig {
    pub model: GeminiModel,
    pub task_type: String,
}

#[derive(Debug, Clone)]
pub struct LocalEmbeddingConfig {
    pub url: String,
}

/// Embedding provider configuration.
#[derive(Debug, Clone)]
pub enum ProviderConfig {
    OpenAI(OpenAIEmbeddingConfig),
    Azure(AzureEmbeddingConfig),
    Gemini(GeminiEmbeddingConfig),
    Local(LocalEmbeddingConfig),
}

/// How a query's parameters are embedded before the query is sent to the backend.
#[derive(Debug, Clone)]
pub struct EmbeddingConfig {
    pub provider_config: ProviderConfig,
    pub embedded_variables: Vec<String>,
}

/// The task type that a Gemini configuration gets when none is given.
pub open spec fn spec_default_task_type() -> Seq<char> {
    seq!['R', 'E', 'T', 'R', 'I', 'E', 'V', 'A', 'L', '_', 'D', 'O', 'C', 'U', 'M', 'E', 'N', 'T']
}

/// The task type that a Gemini configuration gets when none is given.
pub fn default_task_type() -> (r: String)
    ensures
        r@ == spec_default_task_type(),
{
    let s = "RETRIEVAL_DOCUMENT";
    proof {
        reveal_strlit("RETRIEVAL_DOCUMENT");
    }
    assert(s@ =~= spec_default_task_type());
    s.to_owned()
}

/// The endpoint of the local embedding service when none is given.
pub open spec fn spec_default_local_url() -> Seq<char> {
    seq!['h', 't', 't', 'p', ':', '/', '/', 'l', 'o', 'c', 'a', 'l', 'h', 'o', 's', 't', ':', '8', '6', '9', '9', '/', 'e', 'm', 'b', 'e', 'd']
}

/// The endpoint of the local embedding service when none is given.
pub fn default_local_url() -> (r: String)
    ensures
        r@ == spec_default_local_url(),
{
    let s = "http://localhost:8699/embed";
    proof {
        reveal_strlit("http://localhost:8699/embed");
    }
    assert(s@ =~= spec_default_local_url());
    s.to_owned()
}

/// Which embedding providers the configured queries need.
#[derive(Debug, Clone)]
pub struct RequiredProviders {
    pub needs_openai: bool,
    pub needs_azure: bool,
    pub needs_gemini: bool,
    /// Each local embedding endpoint, once.
    pub local_urls: Vec<String>,
}

/// A JSON value of the schema description, carried through unchanged.
#[verifier::external_type_specification]
#[verifier::external_body]
pub struct ExJsonValue(sonic_rs::Value);

/// `sonic_rs::Value::clone`; nothing is claimed of the copy.
pub assume_specification[ <sonic_rs::Value as Clone>::clone ](v: &sonic_rs::Value) -> sonic_rs::Value;

/// A single query definition loaded from `introspect.json`.
#[derive(Debug, Clone)]
pub struct DbQuery {
    pub request_type: RequestType,
    pub parameters: Struct,
    pub return_types: Struct,
    pub embedding_config: Option<EmbeddingConfig>,
}

/// The query definitions and schema loaded from `introspect.json`.
///
/// Queries and schema entries are listed with their names, and a well-formed value
/// (`wf`) names each at most once, as the keys of a map do. Lookups find the first
/// entry of a name, which in a well-formed value is its only one.
#[derive(Debug, Clone)]
pub struct Introspection {
    pub queries: Vec<(String, DbQuery)>,
    pub schema: Vec<(String, sonic_rs::Value)>,
}

impl Default for Introspection {
    fn default() -> (r: Introspection)
        ensures
            r.wf(),
            r.queries@.len() == 0,
            r.schema@.len() == 0,
    {
        Introspection { queries: Vec::new(), schema: Vec::new() }
    }
}

/// Whether the query at index `i` is the first one named `name`.
pub open spec fn first_named(queries: Seq<(String, DbQuery)>, name: Seq<char>, i: int) -> bool {
    &&& 0 <= i < queries.len()
    &&& queries[i].0@ == name
    &&& forall|j: int| 0 <= j < i ==> (#[trigger] queries[j]).0@ != name
}

/// Whether some query is named `name`.
pub open spec fn has_query_named(queries: Seq<(String, DbQuery)>, name: Seq<char>) -> bool {
    exists|i: int| 0 <= i < queries.len() && (#[trigger] queries[i]).0@ == name
}

/// The provider that a query's embedding configuration names, if any.
pub open spec fn query_provider(q: DbQuery) -> Option<ProviderConfig> {
    match q.embedding_config {
        Some(c) => Some(c.provider_config),
        None => None,
    }
}

pub open spec fn uses_openai(q: DbQuery) -> bool {
    query_provider(q) matches Some(ProviderConfig::OpenAI(_))
}

pub open spec fn uses_azure(q: DbQuery) -> bool {
    query_provider(q) matches Some(ProviderConfig::Azure(_))
}

pub open spec fn uses_gemini(q: DbQuery) -> bool {
    query_provider(q) matches Some(ProviderConfig::Gemini(_))
}

/// Whether a query embeds through the local service at `url`.
pub open spec fn uses_local_url(q: DbQuery, url: Seq<char>) -> bool {
    query_provider(q) matches Some(ProviderConfig::Local(cfg)) && cfg.url@ == url
}

/// Whether no two strings of a list hold the same text.
pub open spec fn distinct_texts(v: Seq<String>) -> bool {
    forall|i: int, j: int| 0 <= i < v.len() && 0 <= j < v.len() && i != j ==> v[i]@ != v[j]@
}

/// Whether some string of a list holds `text`.
pub open spec fn holds_text(v: Seq<String>, text: Seq<char>) -> bool {
    exists|i: int| 0 <= i < v.len() && (#[trigger] v[i])@ == text
}

/// Whether `r` is what `required_providers` gives for the queries `qs`: each flag is
/// set where some query uses its provider, and the local endpoints are those of the
/// queries that embed locally, each once.
pub open spec fn describes_providers(r: RequiredProviders, qs: Seq<(String, DbQuery)>) -> bool {
    &&& r.needs_openai == exists|i: int| 0 <= i < qs.len() && uses_openai(#[trigger] qs[i].1)
    &&& r.needs_azure == exists|i: int| 0 <= i < qs.len() && uses_azure(#[trigger] qs[i].1)
    &&& r.needs_gemini == exists|i: int| 0 <= i < qs.len() && uses_gemini(#[trigger] qs[i].1)
    &&& distinct_texts(r.local_urls@)
    &&& forall|u: Seq<char>|
        holds_text(r.local_urls@, u) <==> exists|i: int|
            0 <= i < qs.len() && uses_local_url(#[trigger] qs[i].1, u)
}

/// Whether some string of the list holds the same text as `s`.
fn contains_text(v: &Vec<String>, s: &String) -> (r: bool)
    ensures
        r == holds_text(v@, s@),
{
    let mut i: usize = 0;
    while i < v.len()
        invariant
            i <= v@.len(),
            forall|j: int| 0 <= j < i ==> (#[trigger] v@[j])@ != s@,
        decreases v@.len() - i,
    {
        if v[i] == *s {
            assert(v@[i as int]@ == s@);
            return true;
        }
        i = i + 1;
    }
    false
}

/// In a well-formed value, the query that a name finds is the one entry of that name.
pub proof fn lemma_named_query_found(intro: Introspection, name: Seq<char>, i: int)
    requires
        intro.wf(),
        0 <= i < intro.queries@.len(),
        intro.queries@[i].0@ == name,
    ensures
        intro.spec_query(name) == Some(intro.queries@[i].1),
{
    assert forall|j: int| 0 <= j < i implies (#[trigger] intro.queries@[j]).0@ != name by {
        assert(intro.queries@[j].0@ != intro.queries@[i].0@);
    }
    assert(first_named(intro.queries@, name, i));
    let c = choose|c: int| first_named(intro.queries@, name, c);
    lemma_first_named_unique(intro.queries@, name, c, i);
}

/// At most one index is the first one named `name`.
pub proof fn lemma_first_named_unique(queries: Seq<(String, DbQuery)>, name: Seq<char>, i: int, j: int)
    requires
        first_named(queries, name, i),
        first_named(queries, name, j),
    ensures
        i == j,
{
    if i < j {
        assert(queries[i].0@ != name);
    } else if j < i {
        assert(queries[j].0@ != name);
    }
}

/// Where some index names `name`, some index is the first one that does.
pub proof fn lemma_first_named_exists(queries: Seq<(String, DbQuery)>, name: Seq<char>, k: int)
    requires
        0 <= k < queries.len(),
        queries[k].0@ == name,
    ensures
        exists|i: int| first_named(queries, name, i),
    decreases k,
{
    if exists|j: int| 0 <= j < k && (#[trigger] queries[j]).0@ == name {
        let j = choose|j: int| 0 <= j < k && (#[trigger] queries[j]).0@ == name;
        lemma_first_named_exists(queries, name, j);
    } else {
        assert(first_named(queries, name, k));
    }
}

impl Introspection {
    /// No two queries, and no two schema entries, have the same name.
    pub open spec fn wf(&self) -> bool {
        &&& forall|i: int, j: int|
            0 <= i < self.queries@.len() && 0 <= j < self.queries@.len() && i != j
                ==> (#[trigger] self.queries@[i]).0@ != (#[trigger] self.queries@[j]).0@
        &&& forall|i: int, j: int|
            0 <= i < self.schema@.len() && 0 <= j < self.schema@.len() && i != j
                ==> (#[trigger] self.schema@[i]).0@ != (#[trigger] self.schema@[j]).0@
    }

    /// The definition of the query named `name`: that of its first entry.
    pub open spec fn spec_query(&self, name: Seq<char>) -> Option<DbQuery> {
        if exists|i: int| first_named(self.queries@, name, i) {
            let i = choose|i: int| first_named(self.queries@, name, i);
            Some(self.queries@[i].1)
        } else {
            None
        }
    }

    /// The first query named `name`, if any.
    pub fn query(&self, name: &str) -> (r: Option<&DbQuery>)
        ensures
            r is None <==> !has_query_named(self.queries@, name@),
            r is None <==> self.spec_query(name@) is None,
            r matches Some(q) ==> self.spec_query(name@) == Some(*q),
    {
        let wanted = name.to_owned();
        let mut i: usize = 0;
        while i < self.queries.len()
            invariant
                i <= self.queries@.len(),
                wanted@ == name@,
                forall|j: int| 0 <= j < i ==> (#[trigger] self.queries@[j]).0@ != name@,
            decreases self.queries@.len() - i,
        {
            if self.queries[i].0 == wanted {
                assert(first_named(self.queries@, name@, i as int));
                proof {
                    let c = choose|c: int| first_named(self.queries@, name@, c);
                    lemma_first_named_unique(self.queries@, name@, c, i as int);
                }
                return Some(&self.queries[i].1);
            }
            i = i + 1;
        }
        None
    }

    /// Scans all queries to find which embedding providers are needed, so that only
    /// their clients are set up at startup.
    pub fn required_providers(&self) -> (r: RequiredProviders)
        ensures
            describes_providers(r, self.queries@),
    {
        let mut required = RequiredProviders {
            needs_openai: false,
            needs_azure: false,
            needs_gemini: false,
            local_urls: Vec::new(),
        };
        let mut i: usize = 0;
        while i < self.queries.len()
            invariant
                i <= self.queries@.len(),
                describes_providers(required, self.queries@.take(i as int)),
            decreases self.queries@.len() - i,
        {
            let ghost before = required;
            let ghost prefix = self.queries@.take(i as int);
            let ghost next = self.queries@.take(i + 1);
            assert(next =~= prefix.push(self.queries@[i as int]));
            let query = &self.queries[i].1;
            match &query.embedding_config {
                Some(config) => match &config.provider_config {
                    ProviderConfig::OpenAI(_) => {
                        required.needs_openai = true;
                    },
                    ProviderConfig::Azure(_) => {
                        required.needs_azure = true;
                    },
                    ProviderConfig::Gemini(_) => {
                        required.needs_gemini = true;
                    },
                    ProviderConfig::Local(cfg) => {
                        if !contains_text(&required.local_urls, &cfg.url) {
                            required.local_urls.push(cfg.url.clone());
                        }
                    },
                },
                None => {},
            }
            proof {
                assert forall|j: int| 0 <= j < prefix.len() implies (#[trigger] next[j]) == prefix[j] by {}
                assert(next[i as int] == self.queries@[i as int]);
                assert forall|u: Seq<char>|
                    holds_text(required.local_urls@, u) <==> exists|k: int|
                        0 <= k < next.len() && uses_local_url(#[trigger] next[k].1, u) by {
                    if holds_text(required.local_urls@, u) {
                        let w = choose|w: int|
                            0 <= w < required.local_urls@.len() && (#[trigger] required.local_urls@[w])@ == u;
                        if w < before.local_urls@.len() {
                            assert(required.local_urls@[w] == before.local_urls@[w]);
                            assert(holds_text(before.local_urls@, u));
                            let k = choose|k: int|
                                0 <= k < prefix.len() && uses_local_url(#[trigger] prefix[k].1, u);
                            assert(next[k] == prefix[k]);
                        } else {
                            assert(uses_local_url(next[i as int].1, u));
                        }
                    }
                    if exists|k: int| 0 <= k < next.len() && uses_local_url(#[trigger] next[k].1, u) {
                        let k = choose|k: int| 0 <= k < next.len() && uses_local_url(#[trigger] next[k].1, u);
                        if k < i {
                            assert(next[k] == prefix[k]);
                            assert(holds_text(before.local_urls@, u));
                            let w = choose|w: int|
                                0 <= w < before.local_urls@.len() && (#[trigger] before.local_urls@[w])@ == u;
                            assert(required.local_urls@[w] == before.local_urls@[w]);
                        } else {
                            if !holds_text(before.local_urls@, u) {
                                let last = required.local_urls@.len() - 1;
                                assert(required.local_urls@[last]@ == u);
                            } else {
                                let w = choose|w: int|
                                    0 <= w < before.local_urls@.len() && (#[trigger] before.local_urls@[w])@ == u;
                                assert(required.local_urls@[w] == before.local_urls@[w]);
                            }
                        }
                    }
                }
            }
            i = i + 1;
        }
        assert(self.queries@.take(self.queries@.len() as int) =~= self.queries@);
        required
    }
}

} // verus!
