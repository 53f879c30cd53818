//! Naming of the daily log files and the choice of the files that are ready to
//! be uploaded.

use vstd::prelude::*;

verus! {

/// How often the log directory is swept for files to upload, and the age a file
/// must exceed before it is uploaded.
pub const UPLOAD_MIN_AGE_SECS: u64 = 30;

/// The name of the log file of a day: `logs-{day}.jsonl`, `day` being
/// formatted as `YYYY-MM-DD`.
pub fn log_file_name(day: &str) -> (name: String)
    ensures
        name@ == "logs-"@ + day@ + ".jsonl"@,
{
    let name = String::from_str("logs-");
    let name = name.concat(day);
    name.concat(".jsonl")
}

/// Whether a file of the log directory is to be uploaded: never today's file,
/// which is still being written, and only once it is older than
/// `UPLOAD_MIN_AGE_SECS`. A name that is not valid text is never today's.
pub fn should_upload(file_name: &Option<String>, today: &String, age_secs: u64) -> (upload: bool)
    ensures
        upload <==> !(file_name matches Some(n) && n@ == today@) && age_secs > UPLOAD_MIN_AGE_SECS,
{
    let is_today = match file_name {
        Some(n) => n.eq(today),
        None => false,
    };
    !is_today && age_secs > UPLOAD_MIN_AGE_SECS
}

} // verus!
