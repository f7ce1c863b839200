use embed_bridge::direct::{
    batch_embeddings, directory_documents, file_documents, inject_metadata, loaded_model,
    query_embedding,
};
use embed_bridge::failure::{
    classify_directory_failure, classify_file_failure, classify_load_failure,
    directory_failure_message, failure_message, file_failure_message, load_failure_message,
};
use embed_bridge::payload::{convert_file_result, embed_data_to_dense, embed_data_vec_to_batch};
use embed_bridge::text::{contains_text, signed_decimal, unsigned_decimal};
use embed_bridge::worker::{
    batch_verdict, directory_verdict, engine_fault_verdict, file_verdict, load_verdict, text_verdict,
};
use embed_bridge::{
    clear_last_error, metadata_json, metadata_json_of, set_last_error, take_last_error,
    AsyncResultData, EmbedData, EmbeddingResult, FailureKind, Metadata, Verdict,
};
use embed_bridge::failure::{classify_batch_failure, classify_query_failure, query_failure_message};
use std::collections::HashMap;

fn meta(pairs: &[(&str, &str)]) -> Metadata {
    let mut m = Metadata::new();
    for (k, v) in pairs {
        m = m.inserted(k.to_string(), v.to_string());
    }
    m
}

fn entries(m: &Option<Metadata>) -> Vec<(String, String)> {
    m.as_ref().unwrap().entries().clone()
}

fn pairs(p: &[(&str, &str)]) -> Vec<(String, String)> {
    p.iter().map(|(k, v)| (k.to_string(), v.to_string())).collect()
}

fn dense(v: Vec<f32>) -> EmbedData<f32> {
    EmbedData { embedding: EmbeddingResult::DenseVector(v), text: None, metadata: None }
}

fn failure(v: Verdict<f32, String>) -> String {
    match v {
        Verdict::Failure(m) => m,
        Verdict::Success(_) => panic!("expected a failure"),
    }
}

#[test]
fn test_embed_data_to_c_dense_vector() {
    let embedding = EmbeddingResult::DenseVector(vec![0.1, 0.2, 0.3]);
    let text = Some("test text".to_string());
    let metadata = meta(&[("file_path", "/path/to/file.txt"), ("chunk_index", "0")]);
    let embed_data = EmbedData { embedding, text, metadata: Some(metadata) };

    let result = embed_data_to_dense(embed_data);

    assert!(result.is_ok());
    let c_data = result.ok().unwrap();
    assert!(!c_data.values.is_empty());
    assert_eq!(c_data.values.len(), 3);
    assert!(c_data.text.is_some());
    assert!(c_data.metadata.is_some());
}

#[test]
fn test_embed_data_to_c_multi_vector_error() {
    let embedding = EmbeddingResult::MultiVector(vec![vec![0.1, 0.2], vec![0.3, 0.4]]);
    let embed_data = EmbedData { embedding, text: None, metadata: None };

    let result = embed_data_to_dense(embed_data);

    assert!(result.is_err());
    if let Err(err) = result {
        assert!(err.contains("MULTI_VECTOR_NOT_SUPPORTED"));
    } else {
        panic!("Expected error but got Ok");
    }
}

#[test]
fn test_embed_data_to_c_null_text_and_metadata() {
    let embedding = EmbeddingResult::DenseVector(vec![1.0, 2.0]);
    let embed_data = EmbedData { embedding, text: None, metadata: None };

    let result = embed_data_to_dense(embed_data);

    assert!(result.is_ok());
    let c_data = result.ok().unwrap();
    assert!(!c_data.values.is_empty());
    assert_eq!(c_data.values.len(), 2);
    assert!(c_data.text.is_none());
    assert!(c_data.metadata.is_none());
}

#[test]
fn test_error_storage() {
    let mut slot: Option<String> = None;
    clear_last_error(&mut slot);

    set_last_error(&mut slot, "TEST_ERROR: This is a test error");
    let error = take_last_error(&mut slot);

    assert!(error.is_some());
    assert_eq!(error.unwrap(), "TEST_ERROR: This is a test error");
    let error2 = take_last_error(&mut slot);
    assert!(error2.is_none());
}

#[test]
fn set_last_error_replaces_earlier() {
    let mut slot: Option<String> = None;
    set_last_error(&mut slot, "a");
    set_last_error(&mut slot, "b");
    assert_eq!(take_last_error(&mut slot).as_deref(), Some("b"));
}

#[test]
fn load_failure_404_is_model_not_found() {
    assert_eq!(
        load_failure_message("nonexistent/model", "request error: HTTP status client error (404 Not Found)"),
        "MODEL_NOT_FOUND: nonexistent/model"
    );
    assert_eq!(
        load_failure_message("m", "connection refused"),
        "EMBEDDING_FAILED: Failed to load model 'm': connection refused"
    );
}

#[test]
fn classification_of_lowered_text() {
    assert_eq!(classify_load_failure("m", "E 404", "e 404"), "MODEL_NOT_FOUND: m");
    assert_eq!(classify_load_failure("m", "E", "e"), "EMBEDDING_FAILED: Failed to load model 'm': E");
    assert_eq!(classify_file_failure("/f", "No such file", "no such file"), "FILE_NOT_FOUND: /f");
    assert_eq!(classify_file_failure("/f", "x", "not found"), "FILE_NOT_FOUND: /f");
    assert_eq!(classify_file_failure("/f", "Bad Format", "bad format"), "UNSUPPORTED_FORMAT: /f");
    assert_eq!(classify_file_failure("/f", "x", "unsupported"), "UNSUPPORTED_FORMAT: /f");
    assert_eq!(classify_file_failure("/f", "Permission", "permission"), "FILE_READ_ERROR: Permission");
    assert_eq!(classify_file_failure("/f", "E", "access denied"), "FILE_READ_ERROR: E");
    assert_eq!(classify_file_failure("/f", "Boom", "boom"), "EMBEDDING_FAILED: Boom");
    assert_eq!(classify_directory_failure("/d", "x", "not found"), "FILE_NOT_FOUND: /d");
    assert_eq!(classify_directory_failure("/d", "P", "permission"), "FILE_READ_ERROR: P");
    assert_eq!(
        classify_directory_failure("/d", "Bad format", "bad format"),
        "EMBEDDING_FAILED: Directory embedding failed - Bad format"
    );
}

#[test]
fn classification_is_case_insensitive() {
    // Only lower-casing lets the upper-case words match.
    assert_eq!(file_failure_message("/f", "PERMISSION DENIED"), "FILE_READ_ERROR: PERMISSION DENIED");
    assert_eq!(file_failure_message("/f", "File NOT FOUND"), "FILE_NOT_FOUND: /f");
    assert_eq!(directory_failure_message("/d", "Access Denied"), "FILE_READ_ERROR: Access Denied");
    assert_eq!(directory_failure_message("/d", "oops"), "EMBEDDING_FAILED: Directory embedding failed - oops");
}

#[test]
fn failure_tags() {
    assert_eq!(failure_message(FailureKind::InvalidConfig, "d"), "INVALID_CONFIG: d");
    assert_eq!(failure_message(FailureKind::FfiError, "d"), "FFI_ERROR: d");
    assert_eq!(failure_message(FailureKind::ModelNotFound, "d"), "MODEL_NOT_FOUND: d");
    assert_eq!(failure_message(FailureKind::FileNotFound, "d"), "FILE_NOT_FOUND: d");
    assert_eq!(failure_message(FailureKind::UnsupportedFormat, "d"), "UNSUPPORTED_FORMAT: d");
    assert_eq!(failure_message(FailureKind::FileReadError, "d"), "FILE_READ_ERROR: d");
    assert_eq!(failure_message(FailureKind::EmbeddingFailed, "d"), "EMBEDDING_FAILED: d");
    assert_eq!(failure_message(FailureKind::MultiVector, "d"), "MULTI_VECTOR: d");
    assert_eq!(failure_message(FailureKind::MultiVectorNotSupported, "d"), "MULTI_VECTOR_NOT_SUPPORTED: d");
}

#[test]
fn substring_search() {
    assert!(contains_text("http 404 not found", "404"));
    assert!(contains_text("abc", ""));
    assert!(contains_text("abc", "abc"));
    assert!(!contains_text("ab", "abc"));
    assert!(!contains_text("a4o4", "404"));
    assert!(contains_text("ééx", "éx"));
}

#[test]
fn decimal_rendering() {
    assert_eq!(unsigned_decimal(0), "0");
    assert_eq!(unsigned_decimal(1234567890), "1234567890");
    assert_eq!(unsigned_decimal(u64::MAX), "18446744073709551615");
    assert_eq!(signed_decimal(-42), "-42");
    assert_eq!(signed_decimal(i64::MAX), "9223372036854775807");
}

#[test]
fn text_verdict_cases() {
    match text_verdict::<f32, String>(Ok(vec![dense(vec![0.5, 1.5])])) {
        Verdict::Success(AsyncResultData::SingleEmbedding(s)) => assert_eq!(s.values, vec![0.5, 1.5]),
        _ => panic!("expected a vector"),
    }
    assert_eq!(
        failure(text_verdict(Ok(vec![]))),
        "EMBEDDING_FAILED: embed_query returned empty result"
    );
    assert_eq!(
        failure(text_verdict(Ok(vec![dense(vec![])]))),
        "EMBEDDING_FAILED: Generated embedding vector is empty"
    );
    let multi = EmbedData { embedding: EmbeddingResult::MultiVector(vec![vec![1.0]]), text: None, metadata: None };
    assert_eq!(
        failure(text_verdict(Ok(vec![multi]))),
        "MULTI_VECTOR: Multi-vector embeddings are not supported"
    );
    assert_eq!(
        failure(text_verdict(Err("bad".to_string()))),
        "EMBEDDING_FAILED: Text embedding generation failed: bad"
    );
}

#[test]
fn batch_verdict_cases() {
    let ok = batch_verdict::<f32, String>(
        2,
        Ok(vec![EmbeddingResult::DenseVector(vec![1.0]), EmbeddingResult::DenseVector(vec![2.0])]),
    );
    match ok {
        Verdict::Success(AsyncResultData::BatchEmbedding(b)) => assert_eq!(b.embeddings, vec![vec![1.0], vec![2.0]]),
        _ => panic!("expected a batch"),
    }
    let first_bad = batch_verdict::<f32, String>(
        3,
        Ok(vec![
            EmbeddingResult::DenseVector(vec![1.0]),
            EmbeddingResult::DenseVector(vec![]),
            EmbeddingResult::MultiVector(vec![]),
        ]),
    );
    assert_eq!(failure(first_bad), "EMBEDDING_FAILED: Generated embedding vector is empty");
    let multi = batch_verdict::<f32, String>(1, Ok(vec![EmbeddingResult::MultiVector(vec![vec![1.0]])]));
    assert_eq!(failure(multi), "MULTI_VECTOR: Multi-vector embeddings are not supported");
    assert_eq!(
        failure(batch_verdict(12, Err("oom".to_string()))),
        "EMBEDDING_FAILED: Batch embedding generation failed for 12 texts: oom"
    );
}

#[test]
fn load_file_directory_verdicts() {
    match load_verdict::<f32, String>("m", Ok("handle".to_string())) {
        Verdict::Success(AsyncResultData::ModelLoad(m)) => assert_eq!(m.embedder, "handle"),
        _ => panic!("expected a model"),
    }
    assert_eq!(
        failure(load_verdict("nonexistent/model", Err("404".to_string()))),
        "MODEL_NOT_FOUND: nonexistent/model"
    );
    match file_verdict::<f32, String>("/f", Ok(Some(vec![dense(vec![1.0])]))) {
        Verdict::Success(AsyncResultData::FileEmbedding(f)) => assert_eq!(f.items.len(), 1),
        _ => panic!("expected items"),
    }
    assert_eq!(failure(file_verdict("/f", Ok(None))), "EMBEDDING_FAILED: embed_file returned None");
    assert_eq!(failure(file_verdict("/f", Err("Unsupported file".to_string()))), "UNSUPPORTED_FORMAT: /f");
    assert_eq!(
        failure(directory_verdict("/d", Ok(None))),
        "EMBEDDING_FAILED: embed_directory_stream returned None"
    );
    assert_eq!(failure(directory_verdict("/d", Err("Permission denied".to_string()))), "FILE_READ_ERROR: Permission denied");
    assert_eq!(failure(engine_fault_verdict()), "EMBEDDING_FAILED: engine call aborted");
}

#[test]
fn synchronous_results() {
    assert_eq!(loaded_model("m", Ok(5u8)), Ok(5u8));
    assert_eq!(loaded_model::<u8>("x/y", Err("HTTP 404".to_string())), Err("MODEL_NOT_FOUND: x/y".to_string()));
    assert_eq!(query_embedding(Ok(vec![dense(vec![3.0])])), Ok(vec![3.0f32]));
    let multi = EmbedData { embedding: EmbeddingResult::<f32>::MultiVector(vec![]), text: None, metadata: None };
    assert_eq!(
        query_embedding(Ok(vec![multi])),
        Err("MULTI_VECTOR: Multi-vector embeddings are not supported in this version".to_string())
    );
    assert_eq!(
        batch_embeddings::<f32>(1, Ok(vec![EmbeddingResult::DenseVector(vec![])])),
        Err("EMBEDDING_FAILED: Generated embedding vector is empty".to_string())
    );
    assert_eq!(
        batch_embeddings::<f32>(2, Ok(vec![EmbeddingResult::DenseVector(vec![1.0]), EmbeddingResult::DenseVector(vec![2.0])])),
        Ok(vec![vec![1.0f32], vec![2.0]])
    );
}

#[test]
fn file_documents_fill_missing_metadata() {
    let items = vec![
        EmbedData {
            embedding: EmbeddingResult::DenseVector(vec![1.0f32]),
            text: Some("chunk text".to_string()),
            metadata: Some(meta(&[("page_number", "5")])),
        },
        dense(vec![2.0]),
    ];
    let extracted = Some(meta(&[("file_name", "a.pdf")]));
    let docs = file_documents("/test/file.pdf", Ok(Some(items)), extracted).ok().unwrap();
    assert_eq!(docs.len(), 2);
    assert_eq!(entries(&docs[0].metadata), pairs(&[("page_number", "5")]));
    assert_eq!(entries(&docs[1].metadata), pairs(&[("file_name", "a.pdf")]));
    assert_eq!(docs[0].text.as_deref(), Some("chunk text"));

    let filled = inject_metadata(vec![dense(vec![1.0])], &None);
    assert!(filled[0].metadata.is_none());

    let multi = vec![EmbedData { embedding: EmbeddingResult::<f32>::MultiVector(vec![]), text: None, metadata: None }];
    assert_eq!(
        file_documents("/f", Ok(Some(multi)), None).err().unwrap(),
        "MULTI_VECTOR_NOT_SUPPORTED: Multi-vector embeddings are not supported in this version"
    );
    assert_eq!(
        file_documents::<f32>("/f", Err("no such file or directory".to_string()), None).err().unwrap(),
        "FILE_NOT_FOUND: /f"
    );
}

#[test]
fn directory_documents_cases() {
    let docs = directory_documents("/d", Ok(Some(vec![dense(vec![1.0]), dense(vec![2.0, 3.0])]))).ok().unwrap();
    assert_eq!(docs[1].values, vec![2.0, 3.0]);
    assert_eq!(
        directory_documents::<f32>("/d", Ok(None)).err().unwrap(),
        "EMBEDDING_FAILED: embed_directory_stream returned None"
    );
}

#[test]
fn batch_conversions_all_or_nothing() {
    let ok = embed_data_vec_to_batch(vec![dense(vec![1.0]), dense(vec![2.0])]).ok().unwrap();
    assert_eq!(ok.len(), 2);
    let multi = EmbedData { embedding: EmbeddingResult::<f32>::MultiVector(vec![]), text: None, metadata: None };
    assert!(convert_file_result(vec![dense(vec![1.0]), multi]).is_err());
    assert_eq!(convert_file_result::<f32>(vec![]).ok().unwrap().len(), 0);
}

#[test]
fn text_query_failures_are_classified() {
    assert_eq!(
        failure(text_verdict(Err("HTTP status client error (404 Not Found)".to_string()))),
        "MODEL_NOT_FOUND: HTTP status client error (404 Not Found)"
    );
    assert_eq!(
        failure(text_verdict(Err("Permission denied".to_string()))),
        "FILE_READ_ERROR: Permission denied"
    );
    assert_eq!(query_failure_message("PERMISSION denied"), "FILE_READ_ERROR: PERMISSION denied");
    assert_eq!(classify_query_failure("E404", "e404"), "MODEL_NOT_FOUND: E404");
    assert_eq!(
        classify_query_failure("x", "x"),
        "EMBEDDING_FAILED: Text embedding generation failed: x"
    );
    assert_eq!(
        query_embedding::<f32>(Err("got 404".to_string())),
        Err("MODEL_NOT_FOUND: got 404".to_string())
    );
}

#[test]
fn batch_failures_are_classified() {
    assert_eq!(failure(batch_verdict(3, Err("404".to_string()))), "MODEL_NOT_FOUND: 404");
    assert_eq!(failure(batch_verdict(3, Err("no permission".to_string()))), "FILE_READ_ERROR: no permission");
    assert_eq!(
        classify_batch_failure(7, "E", "e"),
        "EMBEDDING_FAILED: Batch embedding generation failed for 7 texts: E"
    );
    assert_eq!(
        batch_embeddings::<f32>(2, Err("Permission".to_string())),
        Err("FILE_READ_ERROR: Permission".to_string())
    );
}

#[test]
fn load_file_directory_failures_share_the_classes() {
    assert_eq!(load_failure_message("m", "Permission denied"), "FILE_READ_ERROR: Permission denied");
    assert_eq!(load_failure_message("m", "404 and permission"), "MODEL_NOT_FOUND: m");
    assert_eq!(file_failure_message("/f", "HTTP 404"), "FILE_NOT_FOUND: /f");
    assert_eq!(directory_failure_message("/d", "HTTP 404"), "FILE_NOT_FOUND: /d");
    assert_eq!(directory_failure_message("/d", "404 access denied"), "FILE_READ_ERROR: 404 access denied");
}

#[test]
fn metadata_keys_are_unique() {
    let m = meta(&[("a", "1"), ("b", "2"), ("a", "3")]);
    assert_eq!(m.len(), 2);
    assert_eq!(m.entries().clone(), pairs(&[("a", "3"), ("b", "2")]));
    assert_eq!(m.copy().entries().clone(), pairs(&[("a", "3"), ("b", "2")]));
}

#[test]
fn test_metadata_json_serialization() {
    let metadata = meta(&[("file_path", "/test/file.pdf"), ("page_number", "5"), ("chunk_index", "2")]);
    let json_str = metadata_json(&metadata);
    let parsed: HashMap<String, String> = serde_json::from_str(&json_str).unwrap();
    assert_eq!(parsed.get("file_path").unwrap(), "/test/file.pdf");
    assert_eq!(parsed.get("page_number").unwrap(), "5");
    assert_eq!(parsed.get("chunk_index").unwrap(), "2");
    assert_eq!(metadata_json(&Metadata::new()), "{}");
    assert!(metadata_json_of(&None).is_none());
    assert_eq!(metadata_json_of(&Some(meta(&[("k", "v")]))), Some("{\"k\":\"v\"}".to_string()));
}
