use helix_gateway::gateway::embeddings::texts_to_embed;
use helix_gateway::gateway::introspection::{
    default_local_url, default_task_type, AzureEmbeddingConfig, AzureModel, DbQuery,
    EmbeddingConfig, GeminiEmbeddingConfig, GeminiModel, Introspection, LocalEmbeddingConfig,
    OpenAIEmbeddingConfig, OpenAIModel, ProviderConfig,
};
use helix_gateway::proto::RequestType;

fn query(provider: Option<ProviderConfig>) -> DbQuery {
    DbQuery {
        request_type: RequestType::Read,
        parameters: pbjson_types::Struct::default(),
        return_types: pbjson_types::Struct::default(),
        embedding_config: provider.map(|p| EmbeddingConfig {
            provider_config: p,
            embedded_variables: vec!["query_text".to_string()],
        }),
    }
}

fn local(url: &str) -> ProviderConfig {
    ProviderConfig::Local(LocalEmbeddingConfig {
        url: url.to_string(),
    })
}

#[test]
fn test_defaults() {
    assert_eq!(default_task_type(), "RETRIEVAL_DOCUMENT");
    assert_eq!(default_local_url(), "http://localhost:8699/embed");
}

#[test]
fn test_required_providers_none() {
    let intro = Introspection {
        queries: vec![("get_users".to_string(), query(None))],
        schema: vec![],
    };
    let r = intro.required_providers();
    assert!(!r.needs_openai && !r.needs_azure && !r.needs_gemini);
    assert!(r.local_urls.is_empty());
}

#[test]
fn test_required_providers_all() {
    let intro = Introspection {
        queries: vec![
            (
                "a".to_string(),
                query(Some(ProviderConfig::OpenAI(OpenAIEmbeddingConfig {
                    model: OpenAIModel::TextEmbedding3Large,
                }))),
            ),
            (
                "b".to_string(),
                query(Some(ProviderConfig::Azure(AzureEmbeddingConfig {
                    model: AzureModel::TextEmbeddingAda002,
                    deployment_id: "dep".to_string(),
                }))),
            ),
            (
                "c".to_string(),
                query(Some(ProviderConfig::Gemini(GeminiEmbeddingConfig {
                    model: GeminiModel::Embedding001,
                    task_type: default_task_type(),
                }))),
            ),
            ("d".to_string(), query(Some(local("http://one/embed")))),
            ("e".to_string(), query(Some(local("http://two/embed")))),
            ("f".to_string(), query(Some(local("http://one/embed")))),
        ],
        schema: vec![],
    };
    let r = intro.required_providers();
    assert!(r.needs_openai && r.needs_azure && r.needs_gemini);
    let mut urls = r.local_urls.clone();
    urls.sort();
    assert_eq!(urls, vec!["http://one/embed".to_string(), "http://two/embed".to_string()]);
}

#[test]
fn test_query_lookup() {
    let mut w = query(None);
    w.request_type = RequestType::Write;
    let intro = Introspection {
        queries: vec![
            ("get_users".to_string(), query(None)),
            ("create_user".to_string(), w),
        ],
        schema: vec![],
    };
    assert_eq!(intro.query("create_user").unwrap().request_type, RequestType::Write);
    assert_eq!(intro.query("get_users").unwrap().request_type, RequestType::Read);
    assert!(intro.query("unknown_query").is_none());
    assert!(Introspection::default().query("get_users").is_none());
}

#[test]
fn test_texts_to_embed() {
    let config = EmbeddingConfig {
        provider_config: local("http://x"),
        embedded_variables: vec![
            "query_text".to_string(),
            "limit".to_string(),
            "absent".to_string(),
            "title".to_string(),
        ],
    };
    let params = vec![
        ("limit".to_string(), None),
        ("title".to_string(), Some("Dune".to_string())),
        ("query_text".to_string(), Some("space opera".to_string())),
    ];
    let texts = texts_to_embed(&config, &params);
    assert_eq!(
        texts,
        vec![
            ("query_text".to_string(), "space opera".to_string()),
            ("title".to_string(), "Dune".to_string()),
        ]
    );
}
