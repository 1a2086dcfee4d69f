use vstd::prelude::*;
use vstd::string::*;

verus! {

/// A request to fine-tune `base_model` on the records in `file_path`.
pub struct Trainer {
    pub file_path: String,
    pub base_model: String,
}

/// A fine-tuning job as first reported: its id, its status and, once it has one,
/// the model it produced.
#[derive(Debug, PartialEq)]
pub struct Job {
    pub job_id: String,
    pub status: String,
    pub output_model: String,
}

pub trait Trainable {
    /// `j` is a job that this request may start as.
    spec fn starts(&self, j: Job) -> bool;

    fn train(&self) -> (j: Job)
        ensures
            self.starts(j);
}

/// The hyphenated text of the UUID whose 128 bits are `bits`.
pub uninterp spec fn uuid_text(bits: u128) -> Seq<char>;

/// Relies on uuid::Uuid::new_v4: fresh random bits with the version-4 marks.
/// Nothing is known of them.
#[verifier::external_body]
fn random_uuid_bits() -> u128 {
    uuid::Uuid::new_v4().as_u128()
}

/// Relies on uuid::Uuid::from_u128 and its text form: the 36-character hyphenated
/// form, which depends on the bits alone.
#[verifier::external_body]
fn uuid_string(bits: u128) -> (r: String)
    ensures
        r@ == uuid_text(bits),
        r@.len() == 36,
{
    uuid::Uuid::from_u128(bits).to_string()
}

impl Job {
    /// A pending job under the UUID made of `bits`, with no output model yet.
    pub fn pending(bits: u128) -> (r: Job)
        ensures
            r.job_id@ == uuid_text(bits),
            r.job_id@.len() == 36,
            r.status@ == "pending"@,
            r.output_model@.len() == 0,
    {
        Job { job_id: uuid_string(bits), status: String::from_str("pending"), output_model: String::new() }
    }
}

impl Trainer {
    pub fn new(file_path: String, base_model: String) -> (r: Trainer)
        ensures
            r.file_path == file_path,
            r.base_model == base_model,
    {
        Trainer { file_path, base_model }
    }
}

impl Trainable for Trainer {
    open spec fn starts(&self, j: Job) -> bool {
        &&& j.status@ == "pending"@
        &&& j.output_model@.len() == 0
        &&& exists|bits: u128| j.job_id@ == uuid_text(bits)
    }

    /// A new job under a fresh random id, pending, with no output model yet.
    fn train(&self) -> (j: Job) {
        let bits = random_uuid_bits();
        Job::pending(bits)
    }
}

} // verus!
