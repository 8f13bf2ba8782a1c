//! The request handlers and the ingestion pipeline: the sequence that
//! turns an inbound multipart upload into a stored, critiqued artifact,
//! and the thin mapping from store and collaborator outcomes to
//! responses.
//!
//! Disk writes, database transport and the scoring HTTP exchange happen
//! outside the library; their outcomes enter the pipeline as plain
//! values, and the pipeline's contracts say what is recorded and what
//! is answered for every such outcome.

use vstd::prelude::*;

use crate::auth::{
    bcrypt_check, create_jwt_at, hash_password, jwt_payload, password_verdict, verify_password,
    Claims, TOKEN_LIFETIME_SECONDS,
};
use crate::errors::{ApiError, CodecError};
use crate::models::{
    AiCritiqueRequest, AiCritiqueResponse, AuthResponse, CritiqueResponse, CritiqueScores,
    HistoryResponse, LoginRequest, RegisterRequest, UploadResponse, UserResponse,
};
use crate::store::{
    critique_owner, email_taken, lemma_user_with_email_meaning, user_with_email, Store,
};

verus! {

/// One decoded part of a multipart body, fully buffered.
pub struct Part {
    pub name: String,
    pub filename: Option<String>,
    pub content_type: Option<String>,
    pub data: Vec<u8>,
}

/// The document part picked out of an upload: its name, declared type
/// and raw bytes, with the documented defaults filled in.
pub struct UploadFile {
    pub filename: String,
    pub content_type: String,
    pub data: Vec<u8>,
}

/// What the scoring exchange came back with: nothing at all, or a
/// status and, where the body parsed, the parsed reply.
pub enum ScoringOutcome {
    /// The collaborator could not be reached.
    TransportError,
    /// A reply with this status; `None` where the body did not parse
    /// into the expected shape.
    Reply(u16, Option<AiCritiqueResponse>),
}

/// The index of the first part named `"resume"`, if any.
pub open spec fn resume_part_index(parts: Seq<Part>, from: int) -> Option<int>
    decreases parts.len() - from,
{
    if from < 0 || from >= parts.len() {
        None
    } else if parts[from].name@ == "resume"@ {
        Some(from)
    } else {
        resume_part_index(parts, from + 1)
    }
}

/// The filename an upload part declares, or the documented default.
pub open spec fn part_filename(p: Part) -> Seq<char> {
    match p.filename {
        Some(f) => f@,
        None => "resume.pdf"@,
    }
}

/// The content type an upload part declares, or the documented default.
pub open spec fn part_content_type(p: Part) -> Seq<char> {
    match p.content_type {
        Some(c) => c@,
        None => "application/pdf"@,
    }
}

/// What parsing a multipart body yields: the named part's filename,
/// content type and bytes — or nothing, when no part is named
/// `"resume"` or the named part carries no bytes.
pub open spec fn parsed_upload(parts: Seq<Part>) -> Option<(Seq<char>, Seq<char>, Seq<u8>)> {
    match resume_part_index(parts, 0) {
        Some(i) => if parts[i].data@.len() == 0 {
            None
        } else {
            Some((part_filename(parts[i]), part_content_type(parts[i]), parts[i].data@))
        },
        None => None,
    }
}

/// Picks the part named `"resume"` out of a decoded multipart body,
/// filling in the default filename and content type. Rejects the
/// upload exactly when no such part exists or its byte buffer is
/// empty.
pub fn parse_upload(parts: &Vec<Part>) -> (r: Result<UploadFile, ApiError>)
    ensures
        r matches Ok(f) ==> parsed_upload(parts@) matches Some(p) && f.filename@ == p.0
            && f.content_type@ == p.1 && f.data@ == p.2,
        r matches Err(e) ==> e == ApiError::BadRequest && parsed_upload(parts@) is None,
{
    let mut i: usize = 0;
    while i < parts.len()
        invariant
            0 <= i <= parts@.len(),
            resume_part_index(parts@, 0) == resume_part_index(parts@, i as int),
        decreases parts@.len() - i,
    {
        if parts[i].name == String::from_str("resume") {
            if parts[i].data.len() == 0 {
                return Err(ApiError::BadRequest);
            }
            let filename = match &parts[i].filename {
                Some(f) => f.clone(),
                None => String::from_str("resume.pdf"),
            };
            let content_type = match &parts[i].content_type {
                Some(c) => c.clone(),
                None => String::from_str("application/pdf"),
            };
            let data = copy_bytes(&parts[i].data);
            return Ok(UploadFile { filename, content_type, data });
        }
        i = i + 1;
    }
    Err(ApiError::BadRequest)
}

/// An owned copy of a byte buffer.
fn copy_bytes(data: &Vec<u8>) -> (r: Vec<u8>)
    ensures
        r@ == data@,
{
    let mut out: Vec<u8> = Vec::new();
    let mut i: usize = 0;
    while i < data.len()
        invariant
            0 <= i <= data@.len(),
            out@ == data@.subrange(0, i as int),
        decreases data@.len() - i,
    {
        out.push(data[i]);
        i = i + 1;
    }
    assert(out@ == data@);
    out
}

/// The collision-resistant path an upload is written to: the storage
/// directory, a fresh identifier, and the original filename.
pub fn storage_path(upload_dir: &str, file_id: &str, filename: &str) -> (r: String)
    ensures
        r@ == upload_dir@ + "/"@ + file_id@ + "-"@ + filename@,
{
    let mut path = String::from_str(upload_dir);
    path.append("/");
    path.append(file_id);
    path.append("-");
    path.append(filename);
    path
}

/// A fresh globally unique identifier for a stored file.
///
/// Relies on uuid::Uuid::new_v4 and its display form: the hyphenated
/// lowercase rendering is 36 characters long.
#[verifier::external_body]
pub fn fresh_file_id() -> (r: String)
    ensures
        r@.len() == 36,
{
    uuid::Uuid::new_v4().to_string()
}

/// The characters that best-effort text decoding makes of a byte
/// buffer, replacement characters standing in for invalid sequences.
/// The result depends on the bytes alone.
pub uninterp spec fn utf8_lossy(bytes: Seq<u8>) -> Seq<char>;

/// Decodes raw bytes as best-effort text.
///
/// Relies on String::from_utf8_lossy: a pure function of the bytes,
/// substituting replacement characters for invalid sequences.
#[verifier::external_body]
fn decode_utf8_lossy(data: &Vec<u8>) -> (r: String)
    ensures
        r@ == utf8_lossy(data@),
{
    String::from_utf8_lossy(data).to_string()
}

/// The text the pipeline extracts from an upload: the extractor's
/// answer (or its lossy fallback) for a PDF, a best-effort decoding
/// for plain text, a fixed placeholder for any other declared type —
/// an unknown type never rejects the upload.
pub open spec fn extracted_content(
    content_type: Seq<char>,
    data: Seq<u8>,
    pdf_text: Option<Seq<char>>,
) -> Seq<char> {
    if content_type == "application/pdf"@ {
        match pdf_text {
            Some(t) => t,
            None => "PDF content extraction failed"@,
        }
    } else if content_type == "text/plain"@ {
        utf8_lossy(data)
    } else {
        "Unsupported file type"@
    }
}

/// Extracts text from the buffered upload. `pdf_text` is the document
/// extractor's answer for the stored file, consulted only for a PDF;
/// `None` stands for its failure, which degrades to a placeholder
/// rather than failing the request.
pub fn extract_content(file: &UploadFile, pdf_text: &Option<String>) -> (r: String)
    ensures
        r@ == extracted_content(
            file.content_type@,
            file.data@,
            match pdf_text {
                Some(t) => Some(t@),
                None => None,
            },
        ),
{
    if file.content_type == String::from_str("application/pdf") {
        match pdf_text {
            Some(t) => t.clone(),
            None => String::from_str("PDF content extraction failed"),
        }
    } else if file.content_type == String::from_str("text/plain") {
        decode_utf8_lossy(&file.data)
    } else {
        String::from_str("Unsupported file type")
    }
}

/// The request body the scoring collaborator is sent: the extracted
/// text and the original filename.
pub fn scoring_request(content: &String, filename: &String) -> (r: AiCritiqueRequest)
    ensures
        r.resume_text@ == content@,
        r.filename@ == filename@,
{
    AiCritiqueRequest { resume_text: content.clone(), filename: filename.clone() }
}

/// The verdict on a scoring exchange: unavailable on a transport
/// failure or a non-success status, malformed on a success status
/// whose body did not parse, otherwise the parsed reply.
pub open spec fn scoring_verdict(outcome: ScoringOutcome) -> Result<AiCritiqueResponse, ApiError> {
    match outcome {
        ScoringOutcome::TransportError => Err(ApiError::ScoringUnavailable),
        ScoringOutcome::Reply(status, parsed) => if !(200 <= status < 300) {
            Err(ApiError::ScoringUnavailable)
        } else {
            match parsed {
                Some(reply) => Ok(reply),
                None => Err(ApiError::ScoringMalformed),
            }
        },
    }
}

/// Classifies what came back from the scoring exchange.
pub fn interpret_scoring_reply(outcome: &ScoringOutcome) -> (r: Result<
    &AiCritiqueResponse,
    ApiError,
>)
    ensures
        r matches Ok(reply) ==> scoring_verdict(*outcome) == Ok::<_, ApiError>(*reply),
        r matches Err(e) ==> scoring_verdict(*outcome) == Err::<AiCritiqueResponse, _>(e),
{
    match outcome {
        ScoringOutcome::TransportError => Err(ApiError::ScoringUnavailable),
        ScoringOutcome::Reply(status, parsed) => {
            if !(200 <= *status && *status < 300) {
                Err(ApiError::ScoringUnavailable)
            } else {
                match parsed {
                    Some(reply) => Ok(reply),
                    None => Err(ApiError::ScoringMalformed),
                }
            }
        },
    }
}

/// Answers the identity a verified token names. The display name is a
/// fixed placeholder, not a store lookup.
pub fn get_current_user(claims: &Claims) -> (r: UserResponse)
    ensures
        r.id == claims.sub,
        r.email@ == claims.email@,
        r.name@ == "Current User"@,
{
    UserResponse {
        id: claims.sub,
        email: claims.email.clone(),
        name: String::from_str("Current User"),
    }
}

/// The view of an optional text.
pub open spec fn text_view(o: Option<String>) -> Option<Seq<char>> {
    match o {
        Some(t) => Some(t@),
        None => None,
    }
}

/// The path an upload is stored under: directory, fresh identifier,
/// original filename.
pub open spec fn upload_path(dir: Seq<char>, file_id: Seq<char>, filename: Seq<char>) -> Seq<
    char,
> {
    dir + "/"@ + file_id + "-"@ + filename
}

/// What the resume row recorded for an upload holds: the parsed part
/// `p` (filename, content type, bytes), the text extracted from it,
/// the storage path, and the byte count.
pub open spec fn recorded_resume(
    res: crate::models::Resume,
    id: int,
    user_id: i32,
    p: (Seq<char>, Seq<char>, Seq<u8>),
    path: Seq<char>,
    pdf_text: Option<Seq<char>>,
    now: u64,
) -> bool {
    &&& res.id as int == id
    &&& res.user_id == user_id
    &&& res.filename@ == p.0
    &&& res.original_content@ == extracted_content(p.1, p.2, pdf_text)
    &&& res.file_path matches Some(q) && q@ == path
    &&& res.file_size == Some(p.2.len() as i32)
    &&& res.mime_type matches Some(m) && m@ == p.1
    &&& res.uploaded_at == now
}

/// What the critique row recorded for a scoring reply holds.
pub open spec fn recorded_critique(
    c: crate::models::Critique,
    id: int,
    resume_id: i32,
    reply: AiCritiqueResponse,
    now: u64,
) -> bool {
    &&& c.id as int == id
    &&& c.resume_id == resume_id
    &&& c.overall_score == reply.overall_score
    &&& c.structure_score == reply.structure_score
    &&& c.keywords_score == reply.keywords_score
    &&& c.action_verbs_score == reply.action_verbs_score
    &&& c.quantified_impact_score == reply.quantified_impact_score
    &&& c.readability_score == reply.readability_score
    &&& c.detailed_feedback@ == reply.detailed_feedback@
    &&& c.improvement_suggestions@ == reply.improvement_suggestions@
    &&& c.created_at == now
}

/// What one run of the ingestion pipeline came to: the response owed
/// to the client, and the path handed to the disk write where one was
/// attempted.
pub struct UploadRun {
    pub outcome: Result<UploadResponse, ApiError>,
    pub file_write: Option<String>,
}

/// What a pipeline run guarantees, whatever file identifier it drew:
/// a rejected upload answers the bad request and writes nothing; a
/// failed disk write records nothing; past a successful write exactly
/// one resume row is appended, recording the parsed part, the written
/// path and the extracted text; a failed scoring exchange then answers
/// its error and leaves that row with no critique; and only the fully
/// successful run appends the one critique row, referencing the new
/// resume, and answers its identifier.
pub open spec fn upload_post(
    pre: Store,
    post: Store,
    r: UploadRun,
    user_id: i32,
    parts: Seq<Part>,
    pdf_text: Option<Seq<char>>,
    disk_ok: bool,
    scoring: ScoringOutcome,
    now: u64,
) -> bool {
    match parsed_upload(parts) {
        None => {
            &&& r.outcome == Err::<UploadResponse, ApiError>(ApiError::BadRequest)
            &&& r.file_write is None
            &&& post.resumes@ == pre.resumes@
            &&& post.critiques@ == pre.critiques@
        },
        Some(p) => match r.file_write {
            None => false,
            Some(path) => {
                &&& !disk_ok ==> {
                    &&& r.outcome == Err::<UploadResponse, ApiError>(ApiError::Internal)
                    &&& post.resumes@ == pre.resumes@
                    &&& post.critiques@ == pre.critiques@
                }
                &&& disk_ok ==> {
                    &&& post.resumes@ == pre.resumes@.push(post.resumes@.last())
                    &&& recorded_resume(
                        post.resumes@.last(),
                        pre.resumes@.len() as int + 1,
                        user_id,
                        p,
                        path@,
                        pdf_text,
                        now,
                    )
                    &&& match scoring_verdict(scoring) {
                        Err(e) => {
                            &&& r.outcome == Err::<UploadResponse, ApiError>(e)
                            &&& post.critiques@ == pre.critiques@
                        },
                        Ok(reply) => {
                            &&& post.critiques@ == pre.critiques@.push(post.critiques@.last())
                            &&& recorded_critique(
                                post.critiques@.last(),
                                pre.critiques@.len() as int + 1,
                                post.resumes@.last().id,
                                reply,
                                now,
                            )
                            &&& r.outcome matches Ok(u) && u.critique_id
                                == post.critiques@.last().id && u.message@
                                == "Resume uploaded and analyzed successfully"@
                        },
                    }
                }
            },
        },
    }
}

/// What the pipeline's recording prefix came to: whether a resume row
/// now stands, and the path handed to the disk write where one was
/// attempted.
pub struct UploadStart {
    pub begun: Result<StartedUpload, ApiError>,
    pub file_write: Option<String>,
}

/// A recorded resume row, with everything the scoring exchange needs.
pub struct StartedUpload {
    pub resume_id: i32,
    pub content: String,
    pub filename: String,
}

/// What the pipeline's recording prefix guarantees: a rejected upload
/// answers the bad request and writes nothing; a failed disk write
/// records nothing; past a successful write exactly one resume row is
/// appended, recording the parsed part, the written path and the
/// extracted text, and the started upload carries that row's id, its
/// text and its filename. Critiques are never touched.
pub open spec fn upload_start_post(
    pre: Store,
    post: Store,
    r: UploadStart,
    user_id: i32,
    parts: Seq<Part>,
    pdf_text: Option<Seq<char>>,
    disk_ok: bool,
    now: u64,
) -> bool {
    match parsed_upload(parts) {
        None => {
            &&& r.begun == Err::<StartedUpload, ApiError>(ApiError::BadRequest)
            &&& r.file_write is None
            &&& post.resumes@ == pre.resumes@
        },
        Some(p) => match r.file_write {
            None => false,
            Some(path) => {
                &&& !disk_ok ==> {
                    &&& r.begun == Err::<StartedUpload, ApiError>(ApiError::Internal)
                    &&& post.resumes@ == pre.resumes@
                }
                &&& disk_ok ==> {
                    &&& post.resumes@ == pre.resumes@.push(post.resumes@.last())
                    &&& recorded_resume(
                        post.resumes@.last(),
                        pre.resumes@.len() as int + 1,
                        user_id,
                        p,
                        path@,
                        pdf_text,
                        now,
                    )
                    &&& r.begun matches Ok(s) && s.resume_id == post.resumes@.last().id
                        && s.content@ == extracted_content(p.1, p.2, pdf_text) && s.filename@
                        == p.0
                }
            },
        },
    }
}

/// The pipeline's recording prefix: parse the multipart body, form the
/// storage path, take the disk write outcome, extract text, and record
/// the resume row. It hands back everything the scoring exchange
/// needs, so a caller can make that exchange only after the row
/// stands — the pipeline's order.
pub fn record_upload(
    store: &mut Store,
    user_id: i32,
    parts: &Vec<Part>,
    upload_dir: &str,
    file_id: &str,
    pdf_text: &Option<String>,
    disk_ok: bool,
    now: u64,
) -> (r: UploadStart)
    requires
        old(store).wf(),
        old(store).resumes@.len() + 1 < 0x7fff_ffff,
    ensures
        final(store).wf(),
        final(store).users@ == old(store).users@,
        final(store).critiques@ == old(store).critiques@,
        upload_start_post(
            *old(store),
            *final(store),
            r,
            user_id,
            parts@,
            text_view(*pdf_text),
            disk_ok,
            now,
        ),
        parsed_upload(parts@) matches Some(p) ==> r.file_write matches Some(path) && path@
            == upload_path(upload_dir@, file_id@, p.0),
{
    let file = match parse_upload(parts) {
        Ok(f) => f,
        Err(e) => {
            return UploadStart { begun: Err(e), file_write: None };
        },
    };
    let path = storage_path(upload_dir, file_id, file.filename.as_str());
    if !disk_ok {
        return UploadStart { begun: Err(ApiError::Internal), file_write: Some(path) };
    }
    let content = extract_content(&file, pdf_text);
    let size = file.data.len() as i32;
    let rix = store.create_resume(
        user_id,
        &file.filename,
        &content,
        &path,
        size,
        &file.content_type,
        now,
    );
    let resume_id = store.resumes[rix].id;
    UploadStart {
        begun: Ok(StartedUpload { resume_id, content, filename: file.filename }),
        file_write: Some(path),
    }
}

/// The pipeline's closing step, after the scoring exchange: classify
/// the outcome, record the critique row referencing the resume, and
/// assemble the response. A failed exchange answers its error and
/// leaves the resume row with no critique.
pub fn record_critique(
    store: &mut Store,
    resume_id: i32,
    scoring: &ScoringOutcome,
    now: u64,
) -> (r: Result<UploadResponse, ApiError>)
    requires
        old(store).wf(),
        old(store).critiques@.len() + 1 < 0x7fff_ffff,
        1 <= resume_id && resume_id as int <= old(store).resumes@.len(),
        old(store).time_admits(now),
    ensures
        final(store).wf(),
        final(store).users@ == old(store).users@,
        final(store).resumes@ == old(store).resumes@,
        match scoring_verdict(*scoring) {
            Err(e) => r == Err::<UploadResponse, ApiError>(e) && final(store).critiques@ == old(
                store,
            ).critiques@,
            Ok(reply) => {
                &&& final(store).critiques@ == old(store).critiques@.push(
                    final(store).critiques@.last(),
                )
                &&& recorded_critique(
                    final(store).critiques@.last(),
                    old(store).critiques@.len() as int + 1,
                    resume_id,
                    reply,
                    now,
                )
                &&& r matches Ok(u) && u.critique_id == final(store).critiques@.last().id
                    && u.message@ == "Resume uploaded and analyzed successfully"@
            },
        },
{
    let reply = match interpret_scoring_reply(scoring) {
        Ok(rep) => rep,
        Err(e) => {
            return Err(e);
        },
    };
    let cix = store.create_critique(
        resume_id,
        reply.overall_score,
        reply.structure_score,
        reply.keywords_score,
        reply.action_verbs_score,
        reply.quantified_impact_score,
        reply.readability_score,
        &reply.detailed_feedback,
        &reply.improvement_suggestions,
        now,
    );
    let critique_id = store.critiques[cix].id;
    Ok(
        UploadResponse {
            message: String::from_str("Resume uploaded and analyzed successfully"),
            critique_id,
        },
    )
}

/// The whole ingestion pipeline in one call, its two recording steps
/// in sequence with every collaborator outcome (the disk write, the
/// document extractor, the scoring exchange) supplied as a plain
/// value: a rejected upload writes nothing; a failed disk write
/// records nothing; a failed scoring exchange leaves the resume row
/// with no critique; only the fully successful run records both rows,
/// the critique referencing the resume. The caller supplies the file
/// identifier, so the written path is pinned down exactly.
pub fn run_upload(
    store: &mut Store,
    user_id: i32,
    parts: &Vec<Part>,
    upload_dir: &str,
    file_id: &str,
    pdf_text: &Option<String>,
    disk_ok: bool,
    scoring: &ScoringOutcome,
    now: u64,
) -> (r: UploadRun)
    requires
        old(store).wf(),
        old(store).resumes@.len() + 1 < 0x7fff_ffff,
        old(store).critiques@.len() + 1 < 0x7fff_ffff,
        old(store).time_admits(now),
    ensures
        final(store).wf(),
        final(store).users@ == old(store).users@,
        upload_post(
            *old(store),
            *final(store),
            r,
            user_id,
            parts@,
            text_view(*pdf_text),
            disk_ok,
            *scoring,
            now,
        ),
        parsed_upload(parts@) matches Some(p) ==> r.file_write matches Some(path) && path@
            == upload_path(upload_dir@, file_id@, p.0),
{
    let start = record_upload(store, user_id, parts, upload_dir, file_id, pdf_text, disk_ok, now);
    let started = match start.begun {
        Ok(s) => s,
        Err(e) => {
            return UploadRun { outcome: Err(e), file_write: start.file_write };
        },
    };
    let outcome = record_critique(store, started.resume_id, scoring, now);
    UploadRun { outcome, file_write: start.file_write }
}

/// The ingestion pipeline with a freshly drawn file identifier. The
/// identifier is random, so the contract holds whatever was drawn: the
/// recorded row and the reported write agree on one path, and
/// everything else is as an identified run guarantees.
pub fn upload_resume(
    store: &mut Store,
    user_id: i32,
    parts: &Vec<Part>,
    upload_dir: &str,
    pdf_text: &Option<String>,
    disk_ok: bool,
    scoring: &ScoringOutcome,
    now: u64,
) -> (r: UploadRun)
    requires
        old(store).wf(),
        old(store).resumes@.len() + 1 < 0x7fff_ffff,
        old(store).critiques@.len() + 1 < 0x7fff_ffff,
        old(store).time_admits(now),
    ensures
        final(store).wf(),
        final(store).users@ == old(store).users@,
        upload_post(
            *old(store),
            *final(store),
            r,
            user_id,
            parts@,
            text_view(*pdf_text),
            disk_ok,
            *scoring,
            now,
        ),
{
    let file_id = fresh_file_id();
    run_upload(store, user_id, parts, upload_dir, file_id.as_str(), pdf_text, disk_ok, scoring, now)
}

/// The document extractor's placeholder answer for a stored file: the
/// extraction stub names the file rather than reading it.
pub fn extract_pdf_text(file_path: &str) -> (r: String)
    ensures
        r@ == "PDF content from file: "@ + file_path@,
{
    let mut text = String::from_str("PDF content from file: ");
    text.append(file_path);
    text
}

/// Checks the presented credentials: unknown email, wrong password and
/// a fresh token for the matching user are told apart exactly as the
/// store and the codec answer.
pub fn login(store: &Store, request: &LoginRequest, secret: &str, now: u64) -> (r: Result<
    AuthResponse,
    ApiError,
>)
    requires
        store.wf(),
        now + TOKEN_LIFETIME_SECONDS <= u64::MAX,
    ensures
        match user_with_email(store.users@, request.email@, 0) {
            None => r == Err::<AuthResponse, ApiError>(ApiError::UserNotFound),
            Some(i) => {
                if password_verdict(request.password@, store.users@[i].password_hash@)
                    == Ok::<bool, CodecError>(true) {
                    r matches Ok(a) && a.user.id == store.users@[i].id && a.user.email@
                        == store.users@[i].email@ && a.user.name@ == store.users@[i].name@
                        && jwt_payload(a.token@, secret@) == Some(
                        (store.users@[i].id, store.users@[i].email@, (now
                            + TOKEN_LIFETIME_SECONDS) as u64),
                    )
                } else {
                    r == Err::<AuthResponse, ApiError>(ApiError::InvalidCredentials)
                }
            },
        },
{
    proof {
        lemma_user_with_email_meaning(store.users@, request.email@, 0);
    }
    match store.find_user_by_email(&request.email) {
        None => Err(ApiError::UserNotFound),
        Some(i) => {
            let u = &store.users[i];
            let ok = match verify_password(request.password.as_str(), u.password_hash.as_str()) {
                Ok(b) => b,
                Err(_) => false,
            };
            if ok {
                match create_jwt_at(u.id, u.email.as_str(), secret, now) {
                    Ok(token) => Ok(
                        AuthResponse {
                            token,
                            user: UserResponse {
                                id: u.id,
                                email: u.email.clone(),
                                name: u.name.clone(),
                            },
                        },
                    ),
                    Err(_) => Err(ApiError::Internal),
                }
            } else {
                Err(ApiError::InvalidCredentials)
            }
        },
    }
}

/// Registers a new identity: refuses a taken email with a conflict
/// before any other work, hashes the password, records the user, and
/// issues a token for the new row. An error writes nothing; only the
/// hasher itself can fail on a fresh email.
pub fn register(store: &mut Store, request: &RegisterRequest, secret: &str, now: u64) -> (r:
    Result<AuthResponse, ApiError>)
    requires
        old(store).wf(),
        old(store).users@.len() + 1 < 0x7fff_ffff,
        now + TOKEN_LIFETIME_SECONDS <= u64::MAX,
    ensures
        final(store).wf(),
        final(store).resumes@ == old(store).resumes@,
        final(store).critiques@ == old(store).critiques@,
        r == Err::<AuthResponse, ApiError>(ApiError::Conflict) <==> email_taken(
            old(store).users@,
            request.email@,
        ),
        r matches Err(e) ==> e == ApiError::Conflict || e == ApiError::Internal,
        r is Err ==> final(store).users@ == old(store).users@,
        r matches Ok(a) ==> {
            &&& !email_taken(old(store).users@, request.email@)
            &&& final(store).users@ == old(store).users@.push(final(store).users@.last())
            &&& final(store).users@.last().email@ == request.email@
            &&& final(store).users@.last().name@ == request.name@
            &&& bcrypt_check(request.password@, final(store).users@.last().password_hash@)
                == Some(true)
            &&& a.user.id == final(store).users@.last().id
            &&& a.user.id as int == old(store).users@.len() + 1
            &&& a.user.email@ == request.email@
            &&& a.user.name@ == request.name@
            &&& jwt_payload(a.token@, secret@) == Some(
                (a.user.id, request.email@, (now + TOKEN_LIFETIME_SECONDS) as u64),
            )
        },
{
    if store.find_user_by_email(&request.email).is_some() {
        return Err(ApiError::Conflict);
    }
    let password_hash = match hash_password(request.password.as_str()) {
        Ok(h) => h,
        Err(_) => {
            return Err(ApiError::Internal);
        },
    };
    let i = match store.create_user(&request.email, &password_hash, &request.name, now) {
        Ok(i) => i,
        Err(e) => {
            return Err(e);
        },
    };
    let u = &store.users[i];
    match create_jwt_at(u.id, u.email.as_str(), secret, now) {
        Ok(token) => Ok(
            AuthResponse {
                token,
                user: UserResponse { id: u.id, email: u.email.clone(), name: u.name.clone() },
            },
        ),
        Err(_) => Err(ApiError::Internal),
    }
}

/// Whether a served critique is the row at index `i`, joined with the
/// filename of the resume it references.
pub open spec fn is_response_for(resp: CritiqueResponse, s: Store, i: int) -> bool {
    let c = s.critiques@[i];
    &&& resp.id == c.id
    &&& resp.resume_filename@ == s.resumes@[c.resume_id - 1].filename@
    &&& resp.overall_score == c.overall_score
    &&& resp.scores.structure == c.structure_score
    &&& resp.scores.keywords == c.keywords_score
    &&& resp.scores.action_verbs == c.action_verbs_score
    &&& resp.scores.quantified_impact == c.quantified_impact_score
    &&& resp.scores.readability == c.readability_score
    &&& resp.detailed_feedback@ == c.detailed_feedback@
    &&& resp.improvement_suggestions@ == c.improvement_suggestions@
    &&& resp.created_at == c.created_at
}

/// Serves one critique by identifier, joined with its filename: a
/// read, never a write, answering not-found exactly when no row
/// carries the identifier.
pub fn get_critique(store: &Store, critique_id: i32) -> (r: Result<CritiqueResponse, ApiError>)
    requires
        store.wf(),
    ensures
        r matches Ok(resp) ==> 1 <= critique_id && critique_id as int <= store.critiques@.len()
            && is_response_for(resp, *store, critique_id - 1),
        r matches Err(e) ==> e == ApiError::CritiqueNotFound && !(1 <= critique_id
            && critique_id as int <= store.critiques@.len()),
{
    if critique_id >= 1 && critique_id as usize <= store.critiques.len() {
        let i = (critique_id - 1) as usize;
        let c = &store.critiques[i];
        let rix = (c.resume_id - 1) as usize;
        Ok(
            CritiqueResponse {
                id: c.id,
                resume_filename: store.resumes[rix].filename.clone(),
                overall_score: c.overall_score,
                scores: CritiqueScores {
                    structure: c.structure_score,
                    keywords: c.keywords_score,
                    action_verbs: c.action_verbs_score,
                    quantified_impact: c.quantified_impact_score,
                    readability: c.readability_score,
                },
                detailed_feedback: c.detailed_feedback.clone(),
                improvement_suggestions: c.improvement_suggestions.clone(),
                created_at: c.created_at,
            },
        )
    } else {
        Err(ApiError::CritiqueNotFound)
    }
}

/// The indices of the critiques owned by `uid` below row `hi`, newest
/// row first.
pub open spec fn owned_down(s: Store, uid: i32, hi: int) -> Seq<int>
    decreases hi,
{
    if hi <= 0 {
        Seq::empty()
    } else if critique_owner(s, hi - 1) == uid {
        seq![hi - 1] + owned_down(s, uid, hi - 1)
    } else {
        owned_down(s, uid, hi - 1)
    }
}

/// Serves every critique of the authenticated user, newest first: the
/// `k`-th entry is the row at the `k`-th owned index, walking the rows
/// from the newest down.
pub fn get_history(store: &Store, claims: &Claims) -> (r: HistoryResponse)
    requires
        store.wf(),
    ensures
        r.critiques@.len() == owned_down(*store, claims.sub, store.critiques@.len() as int).len(),
        forall|k: int|
            0 <= k < r.critiques@.len() ==> is_response_for(
                #[trigger] r.critiques@[k],
                *store,
                owned_down(*store, claims.sub, store.critiques@.len() as int)[k],
            ),
{
    let ghost all = owned_down(*store, claims.sub, store.critiques@.len() as int);
    proof {
        lemma_owned_down_meaning(*store, claims.sub, store.critiques@.len() as int);
    }
    let mut out: Vec<CritiqueResponse> = Vec::new();
    let mut i: usize = store.critiques.len();
    while i > 0
        invariant
            store.wf(),
            0 <= i <= store.critiques@.len(),
            all == owned_down(*store, claims.sub, store.critiques@.len() as int),
            out@.len() + owned_down(*store, claims.sub, i as int).len() == all.len(),
            all =~= all.subrange(0, out@.len() as int) + owned_down(*store, claims.sub, i as int),
            forall|k: int|
                0 <= k < out@.len() ==> is_response_for(#[trigger] out@[k], *store, all[k]),
        decreases i,
    {
        let ghost prev = i as int;
        i = i - 1;
        proof {
            lemma_owned_down_meaning(*store, claims.sub, prev);
        }
        let c = &store.critiques[i];
        let rix = (c.resume_id - 1) as usize;
        if store.resumes[rix].user_id == claims.sub {
            proof {
                assert(owned_down(*store, claims.sub, prev) == seq![i as int] + owned_down(
                    *store,
                    claims.sub,
                    i as int,
                ));
                assert(all[out@.len() as int] == i as int);
            }
            let resp = CritiqueResponse {
                id: c.id,
                resume_filename: store.resumes[rix].filename.clone(),
                overall_score: c.overall_score,
                scores: CritiqueScores {
                    structure: c.structure_score,
                    keywords: c.keywords_score,
                    action_verbs: c.action_verbs_score,
                    quantified_impact: c.quantified_impact_score,
                    readability: c.readability_score,
                },
                detailed_feedback: c.detailed_feedback.clone(),
                improvement_suggestions: c.improvement_suggestions.clone(),
                created_at: c.created_at,
            };
            out.push(resp);
        }
    }
    HistoryResponse { critiques: out }
}

/// Every index the owned-critiques walk lists lies below its bound and
/// belongs to the user.
proof fn lemma_owned_down_meaning(s: Store, uid: i32, hi: int)
    ensures
        forall|k: int|
            0 <= k < owned_down(s, uid, hi).len() ==> 0 <= #[trigger] owned_down(s, uid, hi)[k]
                < hi && critique_owner(s, owned_down(s, uid, hi)[k]) == uid,
    decreases hi,
{
    if hi > 0 {
        lemma_owned_down_meaning(s, uid, hi - 1);
        let tail = owned_down(s, uid, hi - 1);
        if critique_owner(s, hi - 1) == uid {
            assert forall|k: int|
                0 <= k < owned_down(s, uid, hi).len() implies 0 <= #[trigger] owned_down(
                s,
                uid,
                hi,
            )[k] < hi && critique_owner(s, owned_down(s, uid, hi)[k]) == uid by {
                if k > 0 {
                    assert(owned_down(s, uid, hi)[k] == tail[k - 1]);
                }
            }
        }
    }
}

/// A history listing is complete, duplicate-free and newest-first: it
/// lists exactly the rows whose resume belongs to the user, in
/// strictly descending row order, so creation times never increase
/// along it — however many critiques of other users stand between
/// them.
pub proof fn lemma_history_newest_first(s: Store, uid: i32, hi: int)
    requires
        s.wf(),
        0 <= hi <= s.critiques@.len(),
    ensures
        forall|k: int|
            0 <= k < owned_down(s, uid, hi).len() ==> 0 <= #[trigger] owned_down(s, uid, hi)[k]
                < hi && critique_owner(s, owned_down(s, uid, hi)[k]) == uid,
        forall|i: int|
            0 <= i < hi && critique_owner(s, i) == uid ==> owned_down(s, uid, hi).contains(i),
        forall|k1: int, k2: int|
            0 <= k1 < k2 < owned_down(s, uid, hi).len() ==> owned_down(s, uid, hi)[k1]
                > owned_down(s, uid, hi)[k2],
        forall|k1: int, k2: int|
            0 <= k1 < k2 < owned_down(s, uid, hi).len() ==> s.critiques@[owned_down(
                s,
                uid,
                hi,
            )[k1]].created_at >= s.critiques@[owned_down(s, uid, hi)[k2]].created_at,
    decreases hi,
{
    lemma_owned_down_meaning(s, uid, hi);
    if hi > 0 {
        lemma_history_newest_first(s, uid, hi - 1);
        let tail = owned_down(s, uid, hi - 1);
        if critique_owner(s, hi - 1) == uid {
            let cur = owned_down(s, uid, hi);
            assert(cur == seq![hi - 1] + tail);
            assert forall|i: int|
                0 <= i < hi && critique_owner(s, i) == uid implies cur.contains(i) by {
                if i == hi - 1 {
                    assert(cur[0] == i);
                } else {
                    let k = choose|k: int| 0 <= k < tail.len() && tail[k] == i;
                    assert(cur[k + 1] == i);
                }
            }
        } else {
            assert forall|i: int|
                0 <= i < hi && critique_owner(s, i) == uid implies owned_down(
                s,
                uid,
                hi,
            ).contains(i) by {
                let k = choose|k: int| 0 <= k < tail.len() && tail[k] == i;
                assert(owned_down(s, uid, hi)[k] == i);
            }
        }
    }
}

} // verus!
