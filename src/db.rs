//! Storage of jobs. The store is a stand-in: saving succeeds unless the job's
//! name asks for a failure, and loading gives a fixed job named after the path.

use vstd::prelude::*;
use crate::state::{BendDirection, BendStep, Job, MaterialName, SheetMetal};

verus! {

broadcast use vstd::string::group_string_axioms;

/// Why a job could not be saved or loaded.
#[derive(Debug)]
pub enum JobStorageError {
    IoError(std::io::Error),
    SerializationError(String),
    DeserializationError(String),
    NotFound(String),
}

/// Relies on `std::io::Error::new` with `ErrorKind::Other`, to build an I/O error
/// that carries a message.
#[verifier::external_body]
fn other_io_error(msg: &str) -> (r: std::io::Error) {
    std::io::Error::new(std::io::ErrorKind::Other, msg)
}

/// `s` holds `pat` as a run of consecutive characters.
pub open spec fn contains_text(s: Seq<char>, pat: Seq<char>) -> bool {
    exists|i: int| 0 <= i && i + pat.len() <= s.len() && #[trigger] s.subrange(i, i + pat.len()) == pat
}

/// What follows the last `/` of a path, or the whole path where it has none.
pub open spec fn last_segment(p: Seq<char>) -> Seq<char>
    decreases p.len(),
{
    if p.len() == 0 {
        p
    } else if p.last() == '/' {
        seq![]
    } else {
        last_segment(p.drop_last()).push(p.last())
    }
}

pub fn text_contains(s: &str, pat: &str) -> (r: bool)
    ensures
        r == contains_text(s@, pat@),
{
    let n = s.unicode_len();
    let m = pat.unicode_len();
    if m > n {
        return false;
    }
    let mut i: usize = 0;
    while i <= n - m
        invariant
            n == s@.len(),
            m == pat@.len(),
            m <= n,
            forall|k: int| 0 <= k < i ==> #[trigger] s@.subrange(k, k + m) != pat@,
        decreases n - m + 1 - i,
    {
        let mut j: usize = 0;
        let mut same = true;
        while j < m
            invariant
                n == s@.len(),
                m == pat@.len(),
                i + m <= n,
                j <= m,
                same == (forall|t: int| 0 <= t < j ==> s@[i + t] == pat@[t]),
            decreases m - j,
        {
            if s.get_char(i + j) != pat.get_char(j) {
                same = false;
            }
            j = j + 1;
        }
        if same {
            assert(s@.subrange(i as int, i + m) =~= pat@);
            return true;
        }
        assert(s@.subrange(i as int, i + m) != pat@) by {
            if s@.subrange(i as int, i + m) == pat@ {
                assert forall|t: int| 0 <= t < m implies s@[i + t] == pat@[t] by {
                    assert(s@.subrange(i as int, i + m)[t] == s@[i + t]);
                }
            }
        }
        i = i + 1;
    }
    false
}

pub fn path_last_segment(p: &str) -> (r: &str)
    ensures
        r@ == last_segment(p@),
{
    let n = p.unicode_len();
    let mut start: usize = 0;
    let mut i: usize = 0;
    while i < n
        invariant
            n == p@.len(),
            start <= i <= n,
            last_segment(p@.take(i as int)) == p@.subrange(start as int, i as int),
        decreases n - i,
    {
        let c = p.get_char(i);
        proof {
            assert(p@.take(i + 1).drop_last() =~= p@.take(i as int));
            assert(p@.take(i + 1).last() == c);
        }
        if c == '/' {
            start = i + 1;
            assert(p@.subrange(start as int, i + 1) =~= seq![]);
        } else {
            assert(p@.subrange(start as int, i + 1) =~= p@.subrange(start as int, i as int).push(c));
        }
        i = i + 1;
    }
    assert(p@.take(n as int) =~= p@);
    p.substring_char(start, n)
}

/// Saving succeeds exactly when the job's name does not hold `fail_save`.
pub open spec fn save_succeeds(job: Job) -> bool {
    !contains_text(job.name@, "fail_save"@)
}

/// The single bend of a loaded job.
pub open spec fn loaded_step() -> BendStep {
    BendStep {
        sequence_order: 1,
        position_um: 50_000,
        target_angle_mdeg: 90_000,
        radius_um: 2_000,
        direction: BendDirection::Up,
    }
}

/// `job` is the job that loading from `path` gives.
pub open spec fn is_loaded_job(job: Job, path: Seq<char>) -> bool {
    &&& job.name@ == "LoadedJob_"@ + last_segment(path)
    &&& job.sheet.id@ == "DefaultSheet-001"@
    &&& job.sheet.original_length_um == 300_000
    &&& job.sheet.thickness_um == 2_000
    &&& job.sheet.width_um == 100_000
    &&& job.sheet.material_name == MaterialName::Steel
    &&& job.steps@ == seq![loaded_step()]
}

pub fn save_job_to_file(job: &Job, file_path: &str) -> (r: Result<(), JobStorageError>)
    ensures
        r is Ok <==> save_succeeds(*job),
        r is Err ==> r matches Err(JobStorageError::IoError(_)),
{
    proof {
        reveal_strlit("fail_save");
    }
    if text_contains(job.name.as_str(), "fail_save") {
        return Err(JobStorageError::IoError(other_io_error("Simulated save failure")));
    }
    Ok(())
}

pub fn load_job_from_file(file_path: &str) -> (r: Result<Job, JobStorageError>)
    ensures
        contains_text(file_path@, "nonexistent"@) ==> (r matches Err(JobStorageError::NotFound(p))
            && p@ == file_path@),
        !contains_text(file_path@, "nonexistent"@) ==> (r matches Ok(job) && is_loaded_job(
            job,
            file_path@,
        )),
{
    if text_contains(file_path, "nonexistent") {
        return Err(JobStorageError::NotFound(file_path.to_string()));
    }
    let mut job = Job::default();
    let mut name = String::from_str("LoadedJob_");
    name.append(path_last_segment(file_path));
    job.name = name;
    job.steps.push(
        BendStep {
            sequence_order: 1,
            position_um: 50_000,
            target_angle_mdeg: 90_000,
            radius_um: 2_000,
            direction: BendDirection::Up,
        },
    );
    assert(job.steps@ =~= seq![loaded_step()]);
    Ok(job)
}

/// Loading a job, saving it elsewhere and loading it from there gives the same
/// sheet and the same bends, as long as neither path is one the store reports
/// missing; the save in between succeeds unless the loaded name holds `fail_save`.
pub proof fn lemma_load_save_load(first: Job, p1: Seq<char>, second: Job, p2: Seq<char>)
    requires
        is_loaded_job(first, p1),
        is_loaded_job(second, p2),
        !contains_text(p1, "nonexistent"@),
        !contains_text(p2, "nonexistent"@),
    ensures
        save_succeeds(first) <==> !contains_text("LoadedJob_"@ + last_segment(p1), "fail_save"@),
        second.sheet.original_length_um == first.sheet.original_length_um,
        second.sheet.thickness_um == first.sheet.thickness_um,
        second.sheet.width_um == first.sheet.width_um,
        second.sheet.material_name == first.sheet.material_name,
        second.steps@ == first.steps@,
{
}

} // verus!
