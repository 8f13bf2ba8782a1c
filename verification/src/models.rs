//! The entities of the service and the request/response shapes of its
//! transport boundary.
//!
//! Timestamps are unix seconds. Scores are hundredths of a point on the
//! collaborator's 0..=100 scale, so a whole scale fits in an integer.
//! The two structured payloads of a critique (feedback, suggestions)
//! are opaque to this system and carried as their serialized text.

use vstd::prelude::*;

verus! {

/// A registered identity. Created at registration, immutable afterward.
#[derive(Debug)]
pub struct User {
    pub id: i32,
    pub email: String,
    pub password_hash: String,
    pub name: String,
    pub created_at: u64,
    pub updated_at: u64,
}

/// One uploaded document: its extracted text and its durable location.
#[derive(Debug)]
pub struct Resume {
    pub id: i32,
    pub user_id: i32,
    pub filename: String,
    pub original_content: String,
    pub file_path: Option<String>,
    pub file_size: Option<i32>,
    pub mime_type: Option<String>,
    pub uploaded_at: u64,
}

/// The structured scoring result for one resume, created exactly once
/// right after the resume row and the scoring call both succeeded.
#[derive(Debug)]
pub struct Critique {
    pub id: i32,
    pub resume_id: i32,
    pub overall_score: u32,
    pub structure_score: u32,
    pub keywords_score: u32,
    pub action_verbs_score: u32,
    pub quantified_impact_score: u32,
    pub readability_score: u32,
    pub detailed_feedback: String,
    pub improvement_suggestions: String,
    pub created_at: u64,
}

/// A versioned note tying a critique back to a user; kept for the
/// store's schema, not written by any current path.
#[derive(Debug)]
pub struct FeedbackHistory {
    pub id: i32,
    pub user_id: i32,
    pub resume_id: i32,
    pub critique_id: i32,
    pub version_number: i32,
    pub notes: Option<String>,
    pub created_at: u64,
}

/// Credentials presented at login.
#[derive(Debug)]
pub struct LoginRequest {
    pub email: String,
    pub password: String,
}

/// The fields a new registration carries.
#[derive(Debug)]
pub struct RegisterRequest {
    pub email: String,
    pub password: String,
    pub name: String,
}

/// A fresh bearer token together with the identity it names.
#[derive(Debug)]
pub struct AuthResponse {
    pub token: String,
    pub user: UserResponse,
}

/// The public face of a user: no hash crosses the boundary.
#[derive(Debug)]
pub struct UserResponse {
    pub id: i32,
    pub email: String,
    pub name: String,
}

/// One critique as served back to a client, joined with the filename
/// of the resume it scores.
#[derive(Debug)]
pub struct CritiqueResponse {
    pub id: i32,
    pub resume_filename: String,
    pub overall_score: u32,
    pub scores: CritiqueScores,
    pub detailed_feedback: String,
    pub improvement_suggestions: String,
    pub created_at: u64,
}

/// The five sub-scores of a critique, in hundredths of a point.
#[derive(Debug)]
pub struct CritiqueScores {
    pub structure: u32,
    pub keywords: u32,
    pub action_verbs: u32,
    pub quantified_impact: u32,
    pub readability: u32,
}

/// The terminal success of an upload: the new critique's identifier.
#[derive(Debug)]
pub struct UploadResponse {
    pub message: String,
    pub critique_id: i32,
}

/// Every critique of one user, newest first.
#[derive(Debug)]
pub struct HistoryResponse {
    pub critiques: Vec<CritiqueResponse>,
}

/// The request body sent to the scoring collaborator.
#[derive(Debug)]
pub struct AiCritiqueRequest {
    pub resume_text: String,
    pub filename: String,
}

/// The parsed reply of the scoring collaborator.
#[derive(Debug)]
pub struct AiCritiqueResponse {
    pub overall_score: u32,
    pub structure_score: u32,
    pub keywords_score: u32,
    pub action_verbs_score: u32,
    pub quantified_impact_score: u32,
    pub readability_score: u32,
    pub detailed_feedback: String,
    pub improvement_suggestions: String,
}

} // verus!
