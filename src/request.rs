//! Checking the arguments of a start call, and registering the operation when
//! they pass. A rejected call registers nothing.

use crate::failure::{failure_message, failure_text, FailureKind};
use crate::registry::{register_operation, Registry, RegistryView};
use crate::text::{decimal_text, signed_decimal};
use tokio_util::sync::CancellationToken;
use vstd::prelude::*;

verus! {

/// A text argument as the foreign caller handed it.
pub enum ArgText {
    /// No text was given (a null pointer).
    Missing,
    /// The bytes given are not valid UTF-8.
    Malformed,
    /// A valid text.
    Valid(String),
}

/// Weight precision for a model.
#[derive(Debug, Clone, Copy, PartialEq, Eq, Structural)]
pub enum Dtype {
    F32,
    F16,
}

/// A checked request to load a model.
pub struct LoadRequest {
    pub model_id: String,
    pub revision: Option<String>,
    /// `None`: the model's default precision.
    pub dtype: Option<Dtype>,
}

/// A checked request to embed one text with `embedder`.
pub struct TextRequest<M> {
    pub embedder: M,
    pub text: String,
}

/// A checked request to embed several texts with `embedder`.
pub struct BatchRequest<M> {
    pub embedder: M,
    pub texts: Vec<String>,
}

/// A checked request to embed the file at `path` with `embedder`.
pub struct FileRequest<M, C> {
    pub embedder: M,
    pub path: String,
    pub config: C,
}

/// A checked request to embed the files of the directory `dir`, restricted to
/// `extensions` when given.
pub struct DirectoryRequest<M, C> {
    pub embedder: M,
    pub dir: String,
    pub extensions: Option<Vec<String>>,
    pub config: C,
}

/// A registered operation: its id, the worker's handle on its cancellation
/// token, and the checked request the worker is to carry out.
pub struct StartedOperation<R> {
    pub op_id: i64,
    pub cancel_token: CancellationToken,
    pub request: R,
}

/// The message for a required argument that was not given.
pub open spec fn null_arg_text(name: Seq<char>) -> Seq<char> {
    failure_text(FailureKind::InvalidConfig, name + ": cannot be null"@)
}

/// The message for an argument that is not valid UTF-8.
pub open spec fn utf8_arg_text(name: Seq<char>) -> Seq<char> {
    failure_text(FailureKind::InvalidConfig, name + ": invalid UTF-8 encoding"@)
}

/// The message for a missing model handle.
pub open spec fn null_embedder_text() -> Seq<char> {
    failure_text(FailureKind::FfiError, "embedder pointer is null"@)
}

/// The message when no operation id is left to issue.
pub open spec fn ids_exhausted_text() -> Seq<char> {
    failure_text(FailureKind::FfiError, "no operation id left"@)
}

/// The precision a dtype code selects: 0 is F32, 1 is F16, -1 the default.
pub open spec fn dtype_of(code: i32) -> Option<Dtype> {
    if code == 0 {
        Some(Dtype::F32)
    } else if code == 1 {
        Some(Dtype::F16)
    } else {
        None
    }
}

/// Why a model-load request is rejected, if it is.
pub open spec fn load_rejection(model_id: ArgText, revision: ArgText, dtype: i32) -> Option<Seq<char>> {
    if model_id is Missing {
        Some(null_arg_text("model_id"@))
    } else if model_id is Malformed {
        Some(utf8_arg_text("model_id"@))
    } else if revision is Malformed {
        Some(utf8_arg_text("revision"@))
    } else if !(dtype == 0 || dtype == 1 || dtype == -1) {
        Some(failure_text(FailureKind::InvalidConfig, "dtype: invalid value "@ + decimal_text(dtype as int)))
    } else {
        None
    }
}

/// Why a list of text arguments is rejected: the first that is missing or
/// malformed decides.
pub open spec fn list_rejection(s: Seq<ArgText>, null_msg: Seq<char>, utf8_msg: Seq<char>) -> Option<Seq<char>>
    decreases s.len(),
{
    if s.len() == 0 {
        None
    } else if s[0] is Missing {
        Some(null_msg)
    } else if s[0] is Malformed {
        Some(utf8_msg)
    } else {
        list_rejection(s.drop_first(), null_msg, utf8_msg)
    }
}

/// Why a single-text request is rejected, if it is.
pub open spec fn text_rejection(has_embedder: bool, text: ArgText) -> Option<Seq<char>> {
    if !has_embedder {
        Some(null_embedder_text())
    } else if text is Missing {
        Some(null_arg_text("text"@))
    } else if text is Malformed {
        Some(utf8_arg_text("text"@))
    } else {
        None
    }
}

/// Why a batch request is rejected, if it is (`texts` is `None` when no array
/// was given).
pub open spec fn batch_rejection(has_embedder: bool, texts: Option<Seq<ArgText>>) -> Option<Seq<char>> {
    if !has_embedder {
        Some(null_embedder_text())
    } else if texts is None {
        Some(null_arg_text("texts"@))
    } else if texts->0.len() == 0 {
        Some(failure_text(FailureKind::InvalidConfig, "count: must be greater than 0"@))
    } else {
        list_rejection(
            texts->0,
            failure_text(FailureKind::InvalidConfig, "texts: array contains null pointer"@),
            failure_text(FailureKind::InvalidConfig, "texts: array contains invalid UTF-8"@),
        )
    }
}

/// Why a file request is rejected, if it is. `path_exists` says whether the
/// path names something on disk.
pub open spec fn file_rejection(has_embedder: bool, path: ArgText, has_config: bool, path_exists: bool) -> Option<Seq<char>> {
    if !has_embedder {
        Some(null_embedder_text())
    } else if path is Missing {
        Some(null_arg_text("file_path"@))
    } else if !has_config {
        Some(null_arg_text("config"@))
    } else if path is Malformed {
        Some(utf8_arg_text("file_path"@))
    } else if !path_exists {
        Some(failure_text(FailureKind::FileNotFound, path->Valid_0@))
    } else {
        None
    }
}

/// Why a directory request is rejected, if it is. An extension list that is
/// absent or empty means every file.
pub open spec fn directory_rejection(
    has_embedder: bool,
    dir: ArgText,
    has_config: bool,
    dir_exists: bool,
    extensions: Option<Seq<ArgText>>,
) -> Option<Seq<char>> {
    if !has_embedder {
        Some(null_embedder_text())
    } else if dir is Missing {
        Some(null_arg_text("directory_path"@))
    } else if !has_config {
        Some(null_arg_text("config"@))
    } else if dir is Malformed {
        Some(utf8_arg_text("directory_path"@))
    } else if !dir_exists {
        Some(failure_text(FailureKind::FileNotFound, dir->Valid_0@))
    } else if extensions is Some && extensions->0.len() > 0 {
        list_rejection(
            extensions->0,
            failure_text(FailureKind::InvalidConfig, "extensions: array contains null pointer"@),
            failure_text(FailureKind::InvalidConfig, "extensions: invalid UTF-8"@),
        )
    } else {
        None
    }
}

/// `kept` is the extension filter made from the arguments `extensions`: none
/// when absent or empty, else every text in order.
pub open spec fn extensions_kept(extensions: Option<Seq<ArgText>>, kept: Option<Vec<String>>) -> bool {
    match extensions {
        None => kept is None,
        Some(s) => if s.len() == 0 {
            kept is None
        } else {
            kept is Some && kept->0.len() == s.len() && forall|k: int|
                0 <= k < s.len() ==> #[trigger] s[k] == ArgText::Valid(kept->0@[k])
        },
    }
}

/// `req` is the model-load request made from these arguments.
pub open spec fn load_accepts(model_id: ArgText, revision: ArgText, dtype: i32, req: LoadRequest) -> bool {
    &&& model_id == ArgText::Valid(req.model_id)
    &&& req.dtype == dtype_of(dtype)
    &&& (revision is Missing ==> req.revision is None)
    &&& (revision matches ArgText::Valid(s) ==> req.revision == Some(s))
}

/// `req` is the single-text request made from these arguments.
pub open spec fn text_accepts<M>(embedder: Option<M>, text: ArgText, req: TextRequest<M>) -> bool {
    embedder == Some(req.embedder) && text == ArgText::Valid(req.text)
}

/// `req` is the batch request made from these arguments, texts in order.
pub open spec fn batch_accepts<M>(embedder: Option<M>, texts: Option<Vec<ArgText>>, req: BatchRequest<M>) -> bool {
    &&& embedder == Some(req.embedder)
    &&& texts is Some
    &&& req.texts.len() == texts->0.len()
    &&& forall|k: int| 0 <= k < req.texts.len() ==> #[trigger] texts->0@[k] == ArgText::Valid(req.texts@[k])
}

/// `req` is the file request made from these arguments.
pub open spec fn file_accepts<M, C>(embedder: Option<M>, path: ArgText, config: Option<C>, req: FileRequest<M, C>) -> bool {
    embedder == Some(req.embedder) && path == ArgText::Valid(req.path) && config == Some(req.config)
}

/// `req` is the directory request made from these arguments.
pub open spec fn directory_accepts<M, C>(
    embedder: Option<M>,
    dir: ArgText,
    extensions: Option<Vec<ArgText>>,
    config: Option<C>,
    req: DirectoryRequest<M, C>,
) -> bool {
    &&& embedder == Some(req.embedder)
    &&& dir == ArgText::Valid(req.dir)
    &&& config == Some(req.config)
    &&& extensions_kept(if extensions is Some { Some(extensions->0@) } else { None }, req.extensions)
}

/// `r` is `Err` exactly when `rejection` names a reason, with that message.
pub open spec fn rejects_as<T>(r: Result<T, String>, rejection: Option<Seq<char>>) -> bool {
    &&& (r is Err <==> rejection is Some)
    &&& (r matches Err(e) ==> e@ == rejection->0)
}

fn null_arg_message(name: &str) -> (r: String)
    ensures
        r@ == null_arg_text(name@),
{
    let detail = String::from_str(name).concat(": cannot be null");
    failure_message(FailureKind::InvalidConfig, detail.as_str())
}

fn utf8_arg_message(name: &str) -> (r: String)
    ensures
        r@ == utf8_arg_text(name@),
{
    let detail = String::from_str(name).concat(": invalid UTF-8 encoding");
    failure_message(FailureKind::InvalidConfig, detail.as_str())
}

fn null_embedder_message() -> (r: String)
    ensures
        r@ == null_embedder_text(),
{
    failure_message(FailureKind::FfiError, "embedder pointer is null")
}

/// The texts of a list of arguments, or the message for the first one that is
/// missing or malformed.
fn collect_texts(args: Vec<ArgText>, null_msg: &str, utf8_msg: &str) -> (r: Result<Vec<String>, String>)
    ensures
        rejects_as(r, list_rejection(args@, null_msg@, utf8_msg@)),
        r matches Ok(texts) ==> texts.len() == args.len() && forall|k: int|
            0 <= k < args.len() ==> #[trigger] args@[k] == ArgText::Valid(texts@[k]),
{
    let ghost orig = args@;
    let mut out: Vec<String> = Vec::new();
    proof {
        assert(orig.subrange(0, orig.len() as int) =~= orig);
    }
    for a in it: args.into_iter()
        invariant
            it.seq() == orig,
            out@.len() == it.index(),
            forall|k: int| 0 <= k < it.index() ==> #[trigger] orig[k] == ArgText::Valid(out@[k]),
            list_rejection(orig, null_msg@, utf8_msg@) == list_rejection(
                orig.subrange(it.index() as int, orig.len() as int),
                null_msg@,
                utf8_msg@,
            ),
    {
        let ghost i = it.index() as int;
        let ghost rest = orig.subrange(i, orig.len() as int);
        proof {
            assert(rest[0] == orig[i]);
            assert(rest.drop_first() =~= orig.subrange(i + 1, orig.len() as int));
        }
        match a {
            ArgText::Missing => {
                return Err(String::from_str(null_msg));
            },
            ArgText::Malformed => {
                return Err(String::from_str(utf8_msg));
            },
            ArgText::Valid(t) => {
                out.push(t);
            },
        }
    }
    proof {
        assert(orig.subrange(orig.len() as int, orig.len() as int).len() == 0);
    }
    Ok(out)
}

/// Checks a model-load request.
pub fn validate_load_model(model_id: ArgText, revision: ArgText, dtype: i32) -> (r: Result<LoadRequest, String>)
    ensures
        rejects_as(r, load_rejection(model_id, revision, dtype)),
        r matches Ok(req) ==> load_accepts(model_id, revision, dtype, req),
{
    let model_id = match model_id {
        ArgText::Missing => {
            return Err(null_arg_message("model_id"));
        },
        ArgText::Malformed => {
            return Err(utf8_arg_message("model_id"));
        },
        ArgText::Valid(s) => s,
    };
    let revision = match revision {
        ArgText::Missing => None,
        ArgText::Malformed => {
            return Err(utf8_arg_message("revision"));
        },
        ArgText::Valid(s) => Some(s),
    };
    let dtype = if dtype == 0 {
        Some(Dtype::F32)
    } else if dtype == 1 {
        Some(Dtype::F16)
    } else if dtype == -1 {
        None
    } else {
        let digits = signed_decimal(dtype as i64);
        let detail = String::from_str("dtype: invalid value ").concat(digits.as_str());
        return Err(failure_message(FailureKind::InvalidConfig, detail.as_str()));
    };
    Ok(LoadRequest { model_id, revision, dtype })
}

/// Checks a single-text request.
pub fn validate_embed_text<M>(embedder: Option<M>, text: ArgText) -> (r: Result<TextRequest<M>, String>)
    ensures
        rejects_as(r, text_rejection(embedder is Some, text)),
        r matches Ok(req) ==> text_accepts(embedder, text, req),
{
    let embedder = match embedder {
        None => {
            return Err(null_embedder_message());
        },
        Some(m) => m,
    };
    match text {
        ArgText::Missing => Err(null_arg_message("text")),
        ArgText::Malformed => Err(utf8_arg_message("text")),
        ArgText::Valid(text) => Ok(TextRequest { embedder, text }),
    }
}

/// Checks a batch request; `texts` is `None` when no array was given.
pub fn validate_embed_texts_batch<M>(embedder: Option<M>, texts: Option<Vec<ArgText>>) -> (r: Result<BatchRequest<M>, String>)
    ensures
        rejects_as(r, batch_rejection(embedder is Some, if texts is Some { Some(texts->0@) } else { None })),
        r matches Ok(req) ==> batch_accepts(embedder, texts, req),
{
    let embedder = match embedder {
        None => {
            return Err(null_embedder_message());
        },
        Some(m) => m,
    };
    let texts = match texts {
        None => {
            return Err(null_arg_message("texts"));
        },
        Some(t) => t,
    };
    if texts.len() == 0 {
        return Err(failure_message(FailureKind::InvalidConfig, "count: must be greater than 0"));
    }
    let null_msg = failure_message(FailureKind::InvalidConfig, "texts: array contains null pointer");
    let utf8_msg = failure_message(FailureKind::InvalidConfig, "texts: array contains invalid UTF-8");
    match collect_texts(texts, null_msg.as_str(), utf8_msg.as_str()) {
        Ok(texts) => Ok(BatchRequest { embedder, texts }),
        Err(e) => Err(e),
    }
}

/// Checks a file request; `path_exists` says whether the path names something
/// on disk.
pub fn validate_embed_file<M, C>(embedder: Option<M>, path: ArgText, config: Option<C>, path_exists: bool) -> (r: Result<FileRequest<M, C>, String>)
    ensures
        rejects_as(r, file_rejection(embedder is Some, path, config is Some, path_exists)),
        r matches Ok(req) ==> file_accepts(embedder, path, config, req),
{
    let embedder = match embedder {
        None => {
            return Err(null_embedder_message());
        },
        Some(m) => m,
    };
    if matches!(path, ArgText::Missing) {
        return Err(null_arg_message("file_path"));
    }
    let config = match config {
        None => {
            return Err(null_arg_message("config"));
        },
        Some(c) => c,
    };
    let path = match path {
        ArgText::Valid(p) => p,
        _ => {
            return Err(utf8_arg_message("file_path"));
        },
    };
    if !path_exists {
        return Err(failure_message(FailureKind::FileNotFound, path.as_str()));
    }
    Ok(FileRequest { embedder, path, config })
}

/// Checks a directory request; `dir_exists` says whether the directory is on
/// disk, and `extensions` is `None` when no list was given.
pub fn validate_embed_directory<M, C>(
    embedder: Option<M>,
    dir: ArgText,
    extensions: Option<Vec<ArgText>>,
    config: Option<C>,
    dir_exists: bool,
) -> (r: Result<DirectoryRequest<M, C>, String>)
    ensures
        rejects_as(
            r,
            directory_rejection(
                embedder is Some,
                dir,
                config is Some,
                dir_exists,
                if extensions is Some { Some(extensions->0@) } else { None },
            ),
        ),
        r matches Ok(req) ==> directory_accepts(embedder, dir, extensions, config, req),
{
    let embedder = match embedder {
        None => {
            return Err(null_embedder_message());
        },
        Some(m) => m,
    };
    if matches!(dir, ArgText::Missing) {
        return Err(null_arg_message("directory_path"));
    }
    let config = match config {
        None => {
            return Err(null_arg_message("config"));
        },
        Some(c) => c,
    };
    let dir = match dir {
        ArgText::Valid(p) => p,
        _ => {
            return Err(utf8_arg_message("directory_path"));
        },
    };
    if !dir_exists {
        return Err(failure_message(FailureKind::FileNotFound, dir.as_str()));
    }
    let extensions = match extensions {
        None => None,
        Some(list) => if list.len() == 0 {
            None
        } else {
            let null_msg = failure_message(FailureKind::InvalidConfig, "extensions: array contains null pointer");
            let utf8_msg = failure_message(FailureKind::InvalidConfig, "extensions: invalid UTF-8");
            match collect_texts(list, null_msg.as_str(), utf8_msg.as_str()) {
                Ok(exts) => Some(exts),
                Err(e) => {
                    return Err(e);
                },
            }
        },
    };
    Ok(DirectoryRequest { embedder, dir, extensions, config })
}

/// The id a start call registered, if any.
pub open spec fn started_id<R>(r: Result<StartedOperation<R>, String>) -> Option<i64> {
    match r {
        Ok(s) => Some(s.op_id),
        Err(_) => None,
    }
}

/// `r` is what a start call with the rejection `rejection` does to a registry
/// going from `before` to `after`: a rejected call fails with its message and
/// leaves the registry as it was; an accepted one registers a fresh pending
/// operation, unless no id is left.
pub open spec fn starts<E, M, R>(
    before: RegistryView<E, M>,
    after: RegistryView<E, M>,
    rejection: Option<Seq<char>>,
    r: Result<StartedOperation<R>, String>,
) -> bool {
    &&& (r is Err ==> after == before)
    &&& (rejection is Some ==> (r matches Err(e) && e@ == rejection->0))
    &&& (rejection is None ==> (r is Ok <==> before.next_id < i64::MAX))
    &&& (rejection is None && r is Err ==> r->Err_0@ == ids_exhausted_text())
    &&& (r matches Ok(s) ==> before.registers(after, s.op_id))
    &&& before.step_to(after, started_id(r))
}

/// Registers a checked request under a fresh id.
fn launch<E, M, R>(registry: &mut Registry<E, M>, request: R) -> (r: Result<StartedOperation<R>, String>)
    requires
        old(registry).wf(),
    ensures
        final(registry).wf(),
        starts(old(registry)@, final(registry)@, None, r),
        r matches Ok(s) ==> s.request == request,
{
    match register_operation(registry) {
        Some((op_id, cancel_token)) => Ok(StartedOperation { op_id, cancel_token, request }),
        None => Err(failure_message(FailureKind::FfiError, "no operation id left")),
    }
}

/// Starts loading a model: checks the arguments and, when they pass, registers
/// a pending operation for a worker to carry out.
pub fn start_load_model<E, M>(registry: &mut Registry<E, M>, model_id: ArgText, revision: ArgText, dtype: i32) -> (r: Result<StartedOperation<LoadRequest>, String>)
    requires
        old(registry).wf(),
    ensures
        final(registry).wf(),
        starts(old(registry)@, final(registry)@, load_rejection(model_id, revision, dtype), r),
        r matches Ok(s) ==> load_accepts(model_id, revision, dtype, s.request),
{
    match validate_load_model(model_id, revision, dtype) {
        Ok(req) => launch(registry, req),
        Err(e) => Err(e),
    }
}

/// Starts embedding one text.
pub fn start_embed_text<E, M>(registry: &mut Registry<E, M>, embedder: Option<M>, text: ArgText) -> (r: Result<StartedOperation<TextRequest<M>>, String>)
    requires
        old(registry).wf(),
    ensures
        final(registry).wf(),
        starts(old(registry)@, final(registry)@, text_rejection(embedder is Some, text), r),
        r matches Ok(s) ==> text_accepts(embedder, text, s.request),
{
    match validate_embed_text(embedder, text) {
        Ok(req) => launch(registry, req),
        Err(e) => Err(e),
    }
}

/// Starts embedding a batch of texts; `texts` is `None` when no array was given.
pub fn start_embed_texts_batch<E, M>(registry: &mut Registry<E, M>, embedder: Option<M>, texts: Option<Vec<ArgText>>) -> (r: Result<StartedOperation<BatchRequest<M>>, String>)
    requires
        old(registry).wf(),
    ensures
        final(registry).wf(),
        starts(
            old(registry)@,
            final(registry)@,
            batch_rejection(embedder is Some, if texts is Some { Some(texts->0@) } else { None }),
            r,
        ),
        r matches Ok(s) ==> batch_accepts(embedder, texts, s.request),
{
    match validate_embed_texts_batch(embedder, texts) {
        Ok(req) => launch(registry, req),
        Err(e) => Err(e),
    }
}

/// Starts embedding a file; `path_exists` says whether the path is on disk.
pub fn start_embed_file<E, M, C>(registry: &mut Registry<E, M>, embedder: Option<M>, path: ArgText, config: Option<C>, path_exists: bool) -> (r: Result<StartedOperation<FileRequest<M, C>>, String>)
    requires
        old(registry).wf(),
    ensures
        final(registry).wf(),
        starts(old(registry)@, final(registry)@, file_rejection(embedder is Some, path, config is Some, path_exists), r),
        r matches Ok(s) ==> file_accepts(embedder, path, config, s.request),
{
    match validate_embed_file(embedder, path, config, path_exists) {
        Ok(req) => launch(registry, req),
        Err(e) => Err(e),
    }
}

/// Starts embedding a directory; `dir_exists` says whether it is on disk, and
/// `extensions` is `None` when no list was given.
pub fn start_embed_directory<E, M, C>(
    registry: &mut Registry<E, M>,
    embedder: Option<M>,
    dir: ArgText,
    extensions: Option<Vec<ArgText>>,
    config: Option<C>,
    dir_exists: bool,
) -> (r: Result<StartedOperation<DirectoryRequest<M, C>>, String>)
    requires
        old(registry).wf(),
    ensures
        final(registry).wf(),
        starts(
            old(registry)@,
            final(registry)@,
            directory_rejection(
                embedder is Some,
                dir,
                config is Some,
                dir_exists,
                if extensions is Some { Some(extensions->0@) } else { None },
            ),
            r,
        ),
        r matches Ok(s) ==> directory_accepts(embedder, dir, extensions, config, s.request),
{
    match validate_embed_directory(embedder, dir, extensions, config, dir_exists) {
        Ok(req) => launch(registry, req),
        Err(e) => Err(e),
    }
}

} // verus!
