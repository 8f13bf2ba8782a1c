//! A model of the relational artifact store.
//!
//! The store keeps users, resumes and critiques as rows in insertion
//! order. Identifiers are assigned serially from 1, so a row's id is
//! its position plus one; emails are unique among users; every critique
//! references an existing resume; and critiques carry non-decreasing
//! creation times, which is what lets a history listing walk them
//! newest-first. Each operation is a single read or a single durable
//! write, exactly as narrow as the adapter it stands for. The model
//! itself is always reachable: the collaborator's own unavailability —
//! the storage failure of the error taxonomy — arises only at the
//! process boundary that carries these rows, never in here.

use vstd::prelude::*;

use crate::errors::ApiError;
use crate::models::{Critique, Resume, User};

verus! {

/// The rows of the store.
pub struct Store {
    pub users: Vec<User>,
    pub resumes: Vec<Resume>,
    pub critiques: Vec<Critique>,
}

/// The index of the first user carrying `email`, if any.
pub open spec fn user_with_email(users: Seq<User>, email: Seq<char>, from: int) -> Option<int>
    decreases users.len() - from,
{
    if from < 0 || from >= users.len() {
        None
    } else if users[from].email@ == email {
        Some(from)
    } else {
        user_with_email(users, email, from + 1)
    }
}

/// Whether some user already carries `email`.
pub open spec fn email_taken(users: Seq<User>, email: Seq<char>) -> bool {
    user_with_email(users, email, 0) is Some
}

/// The user that owns the critique at index `i`: the owner of the
/// resume it references.
pub open spec fn critique_owner(s: Store, i: int) -> i32 {
    s.resumes@[s.critiques@[i].resume_id - 1].user_id
}

impl Store {
    /// Row identifiers are serial from 1, emails are unique, every
    /// critique references an existing resume, and creation times of
    /// critiques never decrease along the row order.
    pub open spec fn wf(self) -> bool {
        &&& self.users@.len() < 0x7fff_ffff
        &&& self.resumes@.len() < 0x7fff_ffff
        &&& self.critiques@.len() < 0x7fff_ffff
        &&& forall|i: int|
            0 <= i < self.users@.len() ==> (#[trigger] self.users@[i].id) as int == i + 1
        &&& forall|i: int, j: int|
            0 <= i < j < self.users@.len() ==> (#[trigger] self.users@[i].email@)
                != (#[trigger] self.users@[j].email@)
        &&& forall|i: int|
            0 <= i < self.resumes@.len() ==> (#[trigger] self.resumes@[i].id) as int == i + 1
        &&& forall|i: int|
            0 <= i < self.critiques@.len() ==> (#[trigger] self.critiques@[i].id) as int == i + 1
        &&& forall|i: int|
            0 <= i < self.critiques@.len() ==> 1 <= (#[trigger] self.critiques@[i].resume_id)
                && self.critiques@[i].resume_id as int <= self.resumes@.len()
        &&& forall|i: int, j: int|
            0 <= i <= j < self.critiques@.len() ==> (#[trigger] self.critiques@[i].created_at)
                <= (#[trigger] self.critiques@[j].created_at)
    }

    /// No critique may be recorded with a creation time behind the
    /// newest row already present.
    pub open spec fn time_admits(self, now: u64) -> bool {
        self.critiques@.len() == 0 || self.critiques@.last().created_at <= now
    }

    /// An empty store.
    pub fn new() -> (r: Store)
        ensures
            r.wf(),
            r.users@.len() == 0,
            r.resumes@.len() == 0,
            r.critiques@.len() == 0,
    {
        Store { users: Vec::new(), resumes: Vec::new(), critiques: Vec::new() }
    }

    /// Looks a user up by email: the index of the first row carrying
    /// it, or `None` when no row does.
    pub fn find_user_by_email(&self, email: &String) -> (r: Option<usize>)
        ensures
            r matches Some(i) ==> user_with_email(self.users@, email@, 0) == Some(i as int),
            r is None ==> user_with_email(self.users@, email@, 0) is None,
    {
        let mut i: usize = 0;
        while i < self.users.len()
            invariant
                0 <= i <= self.users@.len(),
                forall|k: int|
                    0 <= k < i ==> (#[trigger] self.users@[k].email@) != email@,
                user_with_email(self.users@, email@, 0) == user_with_email(
                    self.users@,
                    email@,
                    i as int,
                ),
            decreases self.users@.len() - i,
        {
            if self.users[i].email == *email {
                return Some(i);
            }
            i = i + 1;
        }
        None
    }

    /// Records a new user. Fails with `Conflict`, and writes nothing,
    /// exactly when the email is already present; a pre-check by the
    /// caller does not make the conflict case unreachable.
    pub fn create_user(
        &mut self,
        email: &String,
        password_hash: &String,
        name: &String,
        now: u64,
    ) -> (r: Result<usize, ApiError>)
        requires
            old(self).wf(),
            old(self).users@.len() + 1 < 0x7fff_ffff,
        ensures
            final(self).wf(),
            final(self).resumes@ == old(self).resumes@,
            final(self).critiques@ == old(self).critiques@,
            r matches Err(e) ==> e == ApiError::Conflict && email_taken(old(self).users@, email@)
                && final(self).users@ == old(self).users@,
            r matches Ok(i) ==> {
                &&& !email_taken(old(self).users@, email@)
                &&& i as int == old(self).users@.len()
                &&& final(self).users@.len() == old(self).users@.len() + 1
                &&& final(self).users@ == old(self).users@.push(final(self).users@[i as int])
                &&& final(self).users@[i as int].id as int == i + 1
                &&& final(self).users@[i as int].email@ == email@
                &&& final(self).users@[i as int].password_hash@ == password_hash@
                &&& final(self).users@[i as int].name@ == name@
                &&& final(self).users@[i as int].created_at == now
                &&& final(self).users@[i as int].updated_at == now
            },
    {
        if self.find_user_by_email(email).is_some() {
            return Err(ApiError::Conflict);
        }
        proof {
            lemma_user_with_email_meaning(self.users@, email@, 0);
        }
        let i = self.users.len();
        let user = User {
            id: (i + 1) as i32,
            email: email.clone(),
            password_hash: password_hash.clone(),
            name: name.clone(),
            created_at: now,
            updated_at: now,
        };
        self.users.push(user);
        Ok(i)
    }

    /// Records a new resume row with the extracted text and the path
    /// of the file already written to disk.
    pub fn create_resume(
        &mut self,
        user_id: i32,
        filename: &String,
        content: &String,
        path: &String,
        size: i32,
        mime_type: &String,
        now: u64,
    ) -> (r: usize)
        requires
            old(self).wf(),
            old(self).resumes@.len() + 1 < 0x7fff_ffff,
        ensures
            final(self).wf(),
            final(self).users@ == old(self).users@,
            final(self).critiques@ == old(self).critiques@,
            r as int == old(self).resumes@.len(),
            final(self).resumes@ == old(self).resumes@.push(final(self).resumes@[r as int]),
            final(self).resumes@[r as int].id as int == r + 1,
            final(self).resumes@[r as int].user_id == user_id,
            final(self).resumes@[r as int].filename@ == filename@,
            final(self).resumes@[r as int].original_content@ == content@,
            final(self).resumes@[r as int].file_path matches Some(p) && p@ == path@,
            final(self).resumes@[r as int].file_size == Some(size),
            final(self).resumes@[r as int].mime_type matches Some(m) && m@ == mime_type@,
            final(self).resumes@[r as int].uploaded_at == now,
    {
        let i = self.resumes.len();
        let resume = Resume {
            id: (i + 1) as i32,
            user_id,
            filename: filename.clone(),
            original_content: content.clone(),
            file_path: Some(path.clone()),
            file_size: Some(size),
            mime_type: Some(mime_type.clone()),
            uploaded_at: now,
        };
        self.resumes.push(resume);
        i
    }

    /// Records a new critique row referencing an existing resume.
    pub fn create_critique(
        &mut self,
        resume_id: i32,
        overall_score: u32,
        structure_score: u32,
        keywords_score: u32,
        action_verbs_score: u32,
        quantified_impact_score: u32,
        readability_score: u32,
        detailed_feedback: &String,
        improvement_suggestions: &String,
        now: u64,
    ) -> (r: usize)
        requires
            old(self).wf(),
            old(self).critiques@.len() + 1 < 0x7fff_ffff,
            1 <= resume_id && resume_id as int <= old(self).resumes@.len(),
            old(self).time_admits(now),
        ensures
            final(self).wf(),
            final(self).users@ == old(self).users@,
            final(self).resumes@ == old(self).resumes@,
            r as int == old(self).critiques@.len(),
            final(self).critiques@ == old(self).critiques@.push(final(self).critiques@[r as int]),
            final(self).critiques@[r as int].id as int == r + 1,
            final(self).critiques@[r as int].resume_id == resume_id,
            final(self).critiques@[r as int].overall_score == overall_score,
            final(self).critiques@[r as int].structure_score == structure_score,
            final(self).critiques@[r as int].keywords_score == keywords_score,
            final(self).critiques@[r as int].action_verbs_score == action_verbs_score,
            final(self).critiques@[r as int].quantified_impact_score == quantified_impact_score,
            final(self).critiques@[r as int].readability_score == readability_score,
            final(self).critiques@[r as int].detailed_feedback@ == detailed_feedback@,
            final(self).critiques@[r as int].improvement_suggestions@ == improvement_suggestions@,
            final(self).critiques@[r as int].created_at == now,
    {
        let i = self.critiques.len();
        let critique = Critique {
            id: (i + 1) as i32,
            resume_id,
            overall_score,
            structure_score,
            keywords_score,
            action_verbs_score,
            quantified_impact_score,
            readability_score,
            detailed_feedback: detailed_feedback.clone(),
            improvement_suggestions: improvement_suggestions.clone(),
            created_at: now,
        };
        self.critiques.push(critique);
        i
    }
}

/// A hit reported by the scan is a row carrying the email, and a miss
/// means no row from the scan's start carries it.
pub proof fn lemma_user_with_email_meaning(users: Seq<User>, email: Seq<char>, from: int)
    requires
        0 <= from <= users.len(),
    ensures
        user_with_email(users, email, from) matches Some(i) ==> from <= i < users.len()
            && users[i].email@ == email,
        user_with_email(users, email, from) is None ==> forall|k: int|
            from <= k < users.len() ==> (#[trigger] users[k].email@) != email,
    decreases users.len() - from,
{
    if from < users.len() && users[from].email@ != email {
        lemma_user_with_email_meaning(users, email, from + 1);
    }
}

} // verus!
