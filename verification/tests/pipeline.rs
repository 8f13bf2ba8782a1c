use resume_critique::auth::{verify_jwt_at, Claims};
use resume_critique::config::Config;
use resume_critique::errors::{handle_rejection, ApiError};
use resume_critique::handlers::{
    extract_content, extract_pdf_text, get_critique, get_current_user, get_history, login,
    parse_upload, record_critique, record_upload, register, run_upload, scoring_request,
    storage_path, upload_resume, Part, ScoringOutcome, UploadFile,
};
use resume_critique::models::{AiCritiqueResponse, LoginRequest, RegisterRequest};
use resume_critique::store::Store;

fn part(name: &str, filename: Option<&str>, content_type: Option<&str>, data: &[u8]) -> Part {
    Part {
        name: name.to_string(),
        filename: filename.map(|s| s.to_string()),
        content_type: content_type.map(|s| s.to_string()),
        data: data.to_vec(),
    }
}

fn reply(overall: u32) -> AiCritiqueResponse {
    AiCritiqueResponse {
        overall_score: overall,
        structure_score: 7000,
        keywords_score: 6500,
        action_verbs_score: 7200,
        quantified_impact_score: 5000,
        readability_score: 9000,
        detailed_feedback: "{\"summary\":\"solid\"}".to_string(),
        improvement_suggestions: "[\"quantify results\"]".to_string(),
    }
}

#[test]
fn successful_upload_records_one_resume_one_critique() {
    let mut store = Store::new();
    let parts = vec![part("resume", Some("cv.txt"), Some("text/plain"), b"hello resume")];
    let run = run_upload(
        &mut store,
        1,
        &parts,
        "./uploads",
        "fixed-id",
        &None,
        true,
        &ScoringOutcome::Reply(200, Some(reply(8000))),
        42,
    );
    let resp = run.outcome.unwrap();
    assert_eq!(resp.message, "Resume uploaded and analyzed successfully");
    assert_eq!(resp.critique_id, 1);
    assert_eq!(store.resumes.len(), 1);
    assert_eq!(store.critiques.len(), 1);
    assert_eq!(store.critiques[0].resume_id, store.resumes[0].id);
    assert_eq!(store.resumes[0].user_id, 1);
    assert_eq!(store.resumes[0].filename, "cv.txt");
    assert_eq!(store.resumes[0].original_content, "hello resume");
    assert_eq!(store.resumes[0].file_size, Some(12));
    assert_eq!(store.resumes[0].mime_type.as_deref(), Some("text/plain"));
    assert_eq!(store.critiques[0].overall_score, 8000);
    assert_eq!(store.critiques[0].detailed_feedback, "{\"summary\":\"solid\"}");
    assert_eq!(run.file_write.as_deref(), Some("./uploads/fixed-id-cv.txt"));
    assert_eq!(store.resumes[0].file_path.as_deref(), Some("./uploads/fixed-id-cv.txt"));
}

#[test]
fn upload_without_resume_part_is_bad_request() {
    let mut store = Store::new();
    let parts = vec![part("avatar", Some("me.png"), Some("image/png"), b"pngbytes")];
    let run = run_upload(
        &mut store,
        1,
        &parts,
        "./uploads",
        "fixed-id",
        &None,
        true,
        &ScoringOutcome::Reply(200, Some(reply(8000))),
        42,
    );
    assert_eq!(run.outcome.unwrap_err(), ApiError::BadRequest);
    assert!(run.file_write.is_none());
    assert_eq!(store.users.len(), 0);
    assert_eq!(store.resumes.len(), 0);
    assert_eq!(store.critiques.len(), 0);
}

#[test]
fn upload_with_empty_file_is_bad_request() {
    let mut store = Store::new();
    let parts = vec![part("resume", Some("cv.txt"), Some("text/plain"), b"")];
    let run = run_upload(
        &mut store,
        1,
        &parts,
        "./uploads",
        "fixed-id",
        &None,
        true,
        &ScoringOutcome::Reply(200, Some(reply(8000))),
        42,
    );
    assert_eq!(run.outcome.unwrap_err(), ApiError::BadRequest);
    assert!(run.file_write.is_none());
    assert_eq!(store.resumes.len(), 0);
    assert_eq!(store.critiques.len(), 0);
}

#[test]
fn failed_disk_write_records_nothing() {
    let mut store = Store::new();
    let parts = vec![part("resume", Some("cv.txt"), Some("text/plain"), b"hello")];
    let run = run_upload(
        &mut store,
        1,
        &parts,
        "./uploads",
        "fixed-id",
        &None,
        false,
        &ScoringOutcome::Reply(200, Some(reply(8000))),
        42,
    );
    assert_eq!(run.outcome.unwrap_err(), ApiError::Internal);
    assert_eq!(run.file_write.as_deref(), Some("./uploads/fixed-id-cv.txt"));
    assert_eq!(store.resumes.len(), 0);
    assert_eq!(store.critiques.len(), 0);
}

#[test]
fn failed_scoring_leaves_resume_without_critique() {
    let mut store = Store::new();
    let parts = vec![part("resume", Some("cv.txt"), Some("text/plain"), b"hello")];
    let run = run_upload(
        &mut store,
        1,
        &parts,
        "./uploads",
        "fixed-id",
        &None,
        true,
        &ScoringOutcome::Reply(503, None),
        42,
    );
    assert_eq!(run.outcome.unwrap_err(), ApiError::ScoringUnavailable);
    assert_eq!(store.resumes.len(), 1);
    assert_eq!(store.critiques.len(), 0);

    let transport = run_upload(
        &mut store,
        1,
        &parts,
        "./uploads",
        "id-two",
        &None,
        true,
        &ScoringOutcome::TransportError,
        43,
    );
    assert_eq!(transport.outcome.unwrap_err(), ApiError::ScoringUnavailable);

    let malformed = run_upload(
        &mut store,
        1,
        &parts,
        "./uploads",
        "id-three",
        &None,
        true,
        &ScoringOutcome::Reply(200, None),
        44,
    );
    assert_eq!(malformed.outcome.unwrap_err(), ApiError::ScoringMalformed);
    assert_eq!(store.resumes.len(), 3);
    assert_eq!(store.critiques.len(), 0);
}

#[test]
fn parse_upload_fills_documented_defaults() {
    let parts = vec![part("resume", None, None, b"raw")];
    let file = parse_upload(&parts).unwrap();
    assert_eq!(file.filename, "resume.pdf");
    assert_eq!(file.content_type, "application/pdf");
    assert_eq!(file.data, b"raw".to_vec());
}

#[test]
fn parse_upload_takes_first_resume_part() {
    let parts = vec![
        part("other", Some("x.txt"), Some("text/plain"), b"zzz"),
        part("resume", Some("first.txt"), Some("text/plain"), b"first"),
        part("resume", Some("second.txt"), Some("text/plain"), b"second"),
    ];
    let file = parse_upload(&parts).unwrap();
    assert_eq!(file.filename, "first.txt");
    assert_eq!(file.data, b"first".to_vec());
}

#[test]
fn extraction_dispatches_on_content_type() {
    let pdf = UploadFile {
        filename: "cv.pdf".to_string(),
        content_type: "application/pdf".to_string(),
        data: b"%PDF".to_vec(),
    };
    assert_eq!(
        extract_content(&pdf, &Some("extracted words".to_string())),
        "extracted words"
    );
    assert_eq!(extract_content(&pdf, &None), "PDF content extraction failed");

    let text = UploadFile {
        filename: "cv.txt".to_string(),
        content_type: "text/plain".to_string(),
        data: vec![104, 105, 0xFF, 33],
    };
    assert_eq!(extract_content(&text, &None), "hi\u{FFFD}!");

    let other = UploadFile {
        filename: "cv.docx".to_string(),
        content_type: "application/msword".to_string(),
        data: b"bytes".to_vec(),
    };
    assert_eq!(extract_content(&other, &None), "Unsupported file type");
}

#[test]
fn storage_path_joins_directory_id_and_name() {
    assert_eq!(storage_path("./uploads", "abc-123", "cv.pdf"), "./uploads/abc-123-cv.pdf");
}

#[test]
fn scoring_request_carries_text_and_filename() {
    let req = scoring_request(&"some text".to_string(), &"cv.pdf".to_string());
    assert_eq!(req.resume_text, "some text");
    assert_eq!(req.filename, "cv.pdf");
}

#[test]
fn register_login_me_scenario() {
    let mut store = Store::new();
    let request = RegisterRequest {
        email: "a@b.com".to_string(),
        password: "pw123456".to_string(),
        name: "A".to_string(),
    };
    let registered = register(&mut store, &request, "s3cret", 1000).unwrap();
    assert_eq!(registered.user.id, 1);
    assert_eq!(registered.user.email, "a@b.com");
    assert_eq!(registered.user.name, "A");
    assert!(!registered.token.is_empty());
    assert_eq!(store.users.len(), 1);

    let logged_in = login(
        &store,
        &LoginRequest { email: "a@b.com".to_string(), password: "pw123456".to_string() },
        "s3cret",
        2000,
    )
    .unwrap();
    let claims = verify_jwt_at(&logged_in.token, "s3cret", 2000).unwrap();
    assert_eq!(claims.sub, registered.user.id);
    assert_eq!(claims.email, "a@b.com");

    let me = get_current_user(&claims);
    assert_eq!(me.id, 1);
    assert_eq!(me.email, "a@b.com");
    assert_eq!(me.name, "Current User");
}

#[test]
fn duplicate_registration_creates_no_second_row() {
    let mut store = Store::new();
    let request = RegisterRequest {
        email: "a@b.com".to_string(),
        password: "pw123456".to_string(),
        name: "A".to_string(),
    };
    register(&mut store, &request, "s3cret", 1000).unwrap();
    let again = RegisterRequest {
        email: "a@b.com".to_string(),
        password: "differentpw".to_string(),
        name: "B".to_string(),
    };
    let second = register(&mut store, &again, "s3cret", 2000);
    assert_eq!(second.unwrap_err(), ApiError::Conflict);
    assert_eq!(store.users.len(), 1);
    assert_eq!(store.users[0].name, "A");
}

#[test]
fn login_tells_unknown_email_from_wrong_password() {
    let mut store = Store::new();
    let request = RegisterRequest {
        email: "a@b.com".to_string(),
        password: "pw123456".to_string(),
        name: "A".to_string(),
    };
    register(&mut store, &request, "s3cret", 1000).unwrap();

    let unknown = login(
        &store,
        &LoginRequest { email: "nobody@b.com".to_string(), password: "pw123456".to_string() },
        "s3cret",
        2000,
    );
    assert_eq!(unknown.unwrap_err(), ApiError::UserNotFound);

    let wrong = login(
        &store,
        &LoginRequest { email: "a@b.com".to_string(), password: "wrongpass".to_string() },
        "s3cret",
        2000,
    );
    assert_eq!(wrong.unwrap_err(), ApiError::InvalidCredentials);
}

#[test]
fn missing_critique_is_not_found_and_reads_nothing() {
    let store = Store::new();
    let miss = get_critique(&store, 1);
    assert_eq!(miss.unwrap_err(), ApiError::CritiqueNotFound);
    assert_eq!(store.users.len(), 0);
    assert_eq!(store.resumes.len(), 0);
    assert_eq!(store.critiques.len(), 0);

    let mut filled = Store::new();
    let parts = vec![part("resume", Some("cv.txt"), Some("text/plain"), b"hello")];
    run_upload(
        &mut filled,
        1,
        &parts,
        "./uploads",
        "fixed-id",
        &None,
        true,
        &ScoringOutcome::Reply(200, Some(reply(8000))),
        42,
    )
    .outcome
    .unwrap();
    assert_eq!(get_critique(&filled, 99).unwrap_err(), ApiError::CritiqueNotFound);
    assert_eq!(get_critique(&filled, 0).unwrap_err(), ApiError::CritiqueNotFound);
    assert_eq!(get_critique(&filled, -4).unwrap_err(), ApiError::CritiqueNotFound);
    let hit = get_critique(&filled, 1).unwrap();
    assert_eq!(hit.id, 1);
    assert_eq!(hit.resume_filename, "cv.txt");
    assert_eq!(hit.overall_score, 8000);
    assert_eq!(hit.scores.structure, 7000);
    assert_eq!(hit.scores.readability, 9000);
    assert_eq!(hit.created_at, 42);
}

#[test]
fn history_lists_own_critiques_newest_first() {
    let mut store = Store::new();
    let parts_a = vec![part("resume", Some("a1.txt"), Some("text/plain"), b"one")];
    let parts_b = vec![part("resume", Some("b1.txt"), Some("text/plain"), b"two")];
    let parts_c = vec![part("resume", Some("a2.txt"), Some("text/plain"), b"three")];
    let score = ScoringOutcome::Reply(200, Some(reply(8000)));
    run_upload(&mut store, 1, &parts_a, "./u", "i1", &None, true, &score, 10).outcome.unwrap();
    run_upload(&mut store, 2, &parts_b, "./u", "i2", &None, true, &score, 20).outcome.unwrap();
    run_upload(&mut store, 1, &parts_c, "./u", "i3", &None, true, &score, 30).outcome.unwrap();

    let claims = Claims { sub: 1, email: "a@b.com".to_string(), exp: 0 };
    let history = get_history(&store, &claims);
    assert_eq!(history.critiques.len(), 2);
    assert_eq!(history.critiques[0].resume_filename, "a2.txt");
    assert_eq!(history.critiques[0].created_at, 30);
    assert_eq!(history.critiques[1].resume_filename, "a1.txt");
    assert_eq!(history.critiques[1].created_at, 10);

    let other = Claims { sub: 2, email: "b@b.com".to_string(), exp: 0 };
    let history_b = get_history(&store, &other);
    assert_eq!(history_b.critiques.len(), 1);
    assert_eq!(history_b.critiques[0].resume_filename, "b1.txt");

    let nobody = Claims { sub: 9, email: "x@b.com".to_string(), exp: 0 };
    assert_eq!(get_history(&store, &nobody).critiques.len(), 0);
}

#[test]
fn rejection_mapping_follows_the_taxonomy() {
    assert_eq!(handle_rejection(&ApiError::BadRequest), (400, "No file uploaded".to_string()));
    assert_eq!(handle_rejection(&ApiError::Unauthorized), (401, "Unauthorized".to_string()));
    assert_eq!(
        handle_rejection(&ApiError::InvalidCredentials),
        (401, "Invalid credentials".to_string())
    );
    assert_eq!(handle_rejection(&ApiError::NotFound), (404, "Not Found".to_string()));
    assert_eq!(
        handle_rejection(&ApiError::CritiqueNotFound),
        (404, "Critique not found".to_string())
    );
    assert_eq!(handle_rejection(&ApiError::UserNotFound), (404, "User not found".to_string()));
    assert_eq!(
        handle_rejection(&ApiError::Conflict),
        (409, "Email already registered".to_string())
    );
    assert_eq!(handle_rejection(&ApiError::Storage).0, 500);
    assert_eq!(handle_rejection(&ApiError::ScoringUnavailable), (500, "AI service failed".to_string()));
    assert_eq!(handle_rejection(&ApiError::ScoringMalformed).0, 500);
    assert_eq!(handle_rejection(&ApiError::Internal).0, 500);
}

#[test]
fn config_fills_documented_defaults() {
    let config = Config::from_parts(
        "postgres://localhost/app".to_string(),
        "s3cret".to_string(),
        None,
        None,
        None,
    );
    assert_eq!(config.ai_service_url, "http://localhost:8001");
    assert_eq!(config.upload_dir, "./uploads");
    assert_eq!(config.max_file_size, 10485760);

    let explicit = Config::from_parts(
        "postgres://localhost/app".to_string(),
        "s3cret".to_string(),
        Some("http://scoring:9000".to_string()),
        Some("/var/uploads".to_string()),
        Some(1024),
    );
    assert_eq!(explicit.ai_service_url, "http://scoring:9000");
    assert_eq!(explicit.upload_dir, "/var/uploads");
    assert_eq!(explicit.max_file_size, 1024);
}

#[test]
fn fresh_upload_draws_an_identifier() {
    let mut store = Store::new();
    let parts = vec![part("resume", Some("cv.txt"), Some("text/plain"), b"hello")];
    let run = upload_resume(
        &mut store,
        1,
        &parts,
        "./uploads",
        &None,
        true,
        &ScoringOutcome::Reply(200, Some(reply(8000))),
        42,
    );
    assert_eq!(run.outcome.unwrap().critique_id, 1);
    let path = run.file_write.unwrap();
    assert!(path.starts_with("./uploads/"));
    assert!(path.ends_with("-cv.txt"));
    assert_eq!(store.resumes[0].file_path.as_deref(), Some(path.as_str()));
}

#[test]
fn pdf_extraction_stub_names_the_file() {
    assert_eq!(
        extract_pdf_text("./uploads/id-cv.pdf"),
        "PDF content from file: ./uploads/id-cv.pdf"
    );
}

#[test]
fn pipeline_steps_record_resume_then_critique() {
    let mut store = Store::new();
    let parts = vec![part("resume", Some("cv.txt"), Some("text/plain"), b"stepwise")];
    let start = record_upload(&mut store, 4, &parts, "./uploads", "step-id", &None, true, 7);
    let started = start.begun.unwrap();
    assert_eq!(started.resume_id, 1);
    assert_eq!(started.content, "stepwise");
    assert_eq!(started.filename, "cv.txt");
    assert_eq!(store.resumes.len(), 1);
    assert_eq!(store.critiques.len(), 0);
    assert_eq!(start.file_write.as_deref(), Some("./uploads/step-id-cv.txt"));

    let outcome = record_critique(
        &mut store,
        started.resume_id,
        &ScoringOutcome::Reply(200, Some(reply(9100))),
        7,
    );
    let response = outcome.unwrap();
    assert_eq!(response.critique_id, 1);
    assert_eq!(store.critiques.len(), 1);
    assert_eq!(store.critiques[0].resume_id, 1);
    assert_eq!(store.critiques[0].overall_score, 9100);
}
