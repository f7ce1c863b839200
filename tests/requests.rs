use embed_bridge::request::{validate_embed_directory, validate_embed_file, validate_load_model};
use embed_bridge::{
    poll_async_result, register_operation, start_embed_directory, start_embed_file,
    start_embed_text, start_embed_texts_batch, start_load_model, ArgText, Dtype, PollOutcome,
    Registry,
};

type Reg = Registry<f32, String>;

fn valid(s: &str) -> ArgText {
    ArgText::Valid(s.to_string())
}

fn model() -> Option<String> {
    Some("model".to_string())
}

#[test]
fn test_embed_file_null_embedder() {
    let r = validate_embed_file::<String, u32>(None, valid("test.txt"), None, false);
    assert!(r.is_err());
    let error_str = r.err().unwrap();
    assert!(error_str.contains("FFI_ERROR"));
}

#[test]
fn test_embed_directory_stream_null_directory() {
    let r = validate_embed_directory::<String, u32>(None, ArgText::Missing, None, None, false);
    assert!(r.is_err());
    assert!(!r.err().unwrap().is_empty());
}

#[test]
fn load_model_checks_in_order() {
    let e = validate_load_model(ArgText::Missing, ArgText::Malformed, 9).err().unwrap();
    assert_eq!(e, "INVALID_CONFIG: model_id: cannot be null");
    let e = validate_load_model(ArgText::Malformed, ArgText::Missing, 0).err().unwrap();
    assert_eq!(e, "INVALID_CONFIG: model_id: invalid UTF-8 encoding");
    let e = validate_load_model(valid("m"), ArgText::Malformed, 0).err().unwrap();
    assert_eq!(e, "INVALID_CONFIG: revision: invalid UTF-8 encoding");
    let e = validate_load_model(valid("m"), ArgText::Missing, 7).err().unwrap();
    assert_eq!(e, "INVALID_CONFIG: dtype: invalid value 7");
    let e = validate_load_model(valid("m"), ArgText::Missing, -2).err().unwrap();
    assert_eq!(e, "INVALID_CONFIG: dtype: invalid value -2");
}

#[test]
fn load_model_maps_dtype_codes() {
    let r = validate_load_model(valid("org/m"), valid("main"), 0).ok().unwrap();
    assert_eq!(r.model_id, "org/m");
    assert_eq!(r.revision.as_deref(), Some("main"));
    assert_eq!(r.dtype, Some(Dtype::F32));
    let r = validate_load_model(valid("org/m"), ArgText::Missing, 1).ok().unwrap();
    assert_eq!(r.dtype, Some(Dtype::F16));
    assert!(r.revision.is_none());
    let r = validate_load_model(valid("org/m"), ArgText::Missing, -1).ok().unwrap();
    assert_eq!(r.dtype, None);
}

#[test]
fn rejected_starts_leave_registry_untouched() {
    let mut reg: Reg = Registry::new();
    let _ = register_operation(&mut reg).unwrap();
    let before = reg.len();

    assert!(start_load_model(&mut reg, ArgText::Missing, ArgText::Missing, -1).is_err());
    assert!(start_load_model(&mut reg, valid("m"), ArgText::Missing, 5).is_err());
    assert!(start_embed_text(&mut reg, None, valid("hello")).is_err());
    assert!(start_embed_text(&mut reg, model(), ArgText::Missing).is_err());
    assert!(start_embed_texts_batch(&mut reg, model(), None).is_err());
    let e = start_embed_texts_batch(&mut reg, model(), Some(vec![])).err().unwrap();
    assert_eq!(e, "INVALID_CONFIG: count: must be greater than 0");
    assert!(start_embed_file(&mut reg, model(), ArgText::Missing, Some(1u32), true).is_err());
    assert!(start_embed_file(&mut reg, model(), valid("/x"), None::<u32>, true).is_err());
    assert!(start_embed_directory(&mut reg, model(), valid("/d"), None, Some(1u32), false).is_err());

    assert_eq!(reg.len(), before);
    // The next accepted start gets the next id: nothing was consumed.
    let s = start_embed_text(&mut reg, model(), valid("hello")).ok().unwrap();
    assert_eq!(s.op_id, 2);
    assert_eq!(reg.len(), before + 1);
}

#[test]
fn empty_batch_issues_no_id() {
    let mut reg: Reg = Registry::new();
    assert!(start_embed_texts_batch(&mut reg, model(), Some(vec![])).is_err());
    assert_eq!(reg.len(), 0);
    let s = start_embed_texts_batch(&mut reg, model(), Some(vec![valid("a")])).ok().unwrap();
    assert_eq!(s.op_id, 1);
}

#[test]
fn batch_reports_first_bad_text() {
    let mut reg: Reg = Registry::new();
    let e = start_embed_texts_batch(
        &mut reg,
        model(),
        Some(vec![valid("a"), ArgText::Malformed, ArgText::Missing]),
    )
    .err()
    .unwrap();
    assert_eq!(e, "INVALID_CONFIG: texts: array contains invalid UTF-8");
    let e = start_embed_texts_batch(&mut reg, model(), Some(vec![ArgText::Missing, ArgText::Malformed]))
        .err()
        .unwrap();
    assert_eq!(e, "INVALID_CONFIG: texts: array contains null pointer");
    let e = start_embed_texts_batch(&mut reg, None, None).err().unwrap();
    assert_eq!(e, "FFI_ERROR: embedder pointer is null");
    let e = start_embed_texts_batch(&mut reg, model(), None).err().unwrap();
    assert_eq!(e, "INVALID_CONFIG: texts: cannot be null");
    assert_eq!(reg.len(), 0);
}

#[test]
fn batch_keeps_texts_in_order() {
    let mut reg: Reg = Registry::new();
    let s = start_embed_texts_batch(&mut reg, model(), Some(vec![valid("x"), valid("y"), valid("z")]))
        .ok()
        .unwrap();
    assert_eq!(s.request.texts, vec!["x".to_string(), "y".to_string(), "z".to_string()]);
    assert_eq!(s.request.embedder, "model");
    assert!(matches!(poll_async_result(&mut reg, s.op_id), PollOutcome::Pending));
    assert!(!s.cancel_token.is_cancelled());
}

#[test]
fn text_request_messages() {
    let mut reg: Reg = Registry::new();
    assert_eq!(
        start_embed_text(&mut reg, model(), ArgText::Missing).err().unwrap(),
        "INVALID_CONFIG: text: cannot be null"
    );
    assert_eq!(
        start_embed_text(&mut reg, model(), ArgText::Malformed).err().unwrap(),
        "INVALID_CONFIG: text: invalid UTF-8 encoding"
    );
    let s = start_embed_text(&mut reg, model(), valid("hello")).ok().unwrap();
    assert_eq!(s.request.text, "hello");
    assert_eq!(s.op_id, 1);
}

#[test]
fn file_request_messages() {
    let f = |emb: Option<String>, p: ArgText, c: Option<u32>, exists: bool| {
        validate_embed_file(emb, p, c, exists).err().unwrap()
    };
    assert_eq!(f(model(), ArgText::Missing, None, false), "INVALID_CONFIG: file_path: cannot be null");
    assert_eq!(f(model(), ArgText::Malformed, None, false), "INVALID_CONFIG: config: cannot be null");
    assert_eq!(f(model(), ArgText::Malformed, Some(1), false), "INVALID_CONFIG: file_path: invalid UTF-8 encoding");
    assert_eq!(f(model(), valid("/no/file"), Some(1), false), "FILE_NOT_FOUND: /no/file");
    let ok = validate_embed_file(model(), valid("/a.txt"), Some(3u32), true).ok().unwrap();
    assert_eq!(ok.path, "/a.txt");
    assert_eq!(ok.config, 3);
}

#[test]
fn directory_request_messages() {
    let d = |dir: ArgText, exts: Option<Vec<ArgText>>, c: Option<u32>, exists: bool| {
        validate_embed_directory(model(), dir, exts, c, exists)
    };
    assert_eq!(d(ArgText::Missing, None, Some(1), true).err().unwrap(), "INVALID_CONFIG: directory_path: cannot be null");
    assert_eq!(d(valid("/d"), None, None, true).err().unwrap(), "INVALID_CONFIG: config: cannot be null");
    assert_eq!(
        d(ArgText::Malformed, None, Some(1), true).err().unwrap(),
        "INVALID_CONFIG: directory_path: invalid UTF-8 encoding"
    );
    assert_eq!(d(valid("/big/dir"), None, Some(1), false).err().unwrap(), "FILE_NOT_FOUND: /big/dir");
    assert_eq!(
        d(valid("/d"), Some(vec![valid("md"), ArgText::Missing]), Some(1), true).err().unwrap(),
        "INVALID_CONFIG: extensions: array contains null pointer"
    );
    assert_eq!(
        d(valid("/d"), Some(vec![ArgText::Malformed]), Some(1), true).err().unwrap(),
        "INVALID_CONFIG: extensions: invalid UTF-8"
    );
    let ok = d(valid("/d"), Some(vec![]), Some(1), true).ok().unwrap();
    assert!(ok.extensions.is_none());
    let ok = d(valid("/d"), Some(vec![valid("md"), valid("txt")]), Some(1), true).ok().unwrap();
    assert_eq!(ok.extensions, Some(vec!["md".to_string(), "txt".to_string()]));
    assert_eq!(ok.dir, "/d");
}

#[test]
fn directory_start_then_cancel_ends_cancelled() {
    let mut reg: Reg = Registry::new();
    let s = start_embed_directory(&mut reg, model(), valid("/big/dir"), None, Some(1u32), true).ok().unwrap();
    assert_eq!(embed_bridge::cancel_async_operation(&reg, s.op_id), 0);
    let stop = embed_bridge::worker_checkpoint(&mut reg, s.op_id, s.cancel_token.is_cancelled());
    assert!(stop);
    assert!(matches!(poll_async_result(&mut reg, s.op_id), PollOutcome::Cancelled));
}
