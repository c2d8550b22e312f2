//! Exercise registry: the manifest's records, validation of the raw records
//! read from the manifest into a well-formed exercise list, and lookup of an
//! exercise by name.

use vstd::prelude::*;

verus! {

/// One coding exercise, as listed in the manifest. Immutable once loaded.
#[derive(Debug)]
pub struct Exercise {
    /// Unique identifier of the exercise.
    pub name: String,
    /// Filesystem location of the exercise's source, as written in the manifest.
    pub path: String,
    /// Free-text description of the task; informational only.
    pub task: String,
}

/// The ordered exercise list; manifest order is the intended completion order.
#[derive(Debug)]
pub struct ExerciseList {
    pub exercises: Vec<Exercise>,
}

/// One manifest record as read from disk, before validation: any required
/// field may be missing.
#[derive(Debug)]
pub struct RawExercise {
    pub name: Option<String>,
    pub path: Option<String>,
    pub task: Option<String>,
}

/// A required field of a manifest record.
#[derive(Debug, Clone, Copy, PartialEq, Eq, Structural)]
pub enum ManifestField {
    Name,
    Path,
    Task,
}

/// One structural problem in the manifest: record `index` lacks `field`.
#[derive(Debug, Clone, Copy, PartialEq, Eq, Structural)]
pub struct ManifestProblem {
    pub index: usize,
    pub field: ManifestField,
}

/// A malformed manifest: every structural problem, aggregated, in record
/// order and, within one record, in field order (name, path, task).
#[derive(Debug)]
pub struct ManifestError {
    pub problems: Vec<ManifestProblem>,
}

/// A record has all three required fields.
pub open spec fn record_complete(r: RawExercise) -> bool {
    r.name is Some && r.path is Some && r.task is Some
}

/// The exercise a complete record denotes.
pub open spec fn exercise_of(r: RawExercise) -> Exercise {
    Exercise { name: r.name.unwrap(), path: r.path.unwrap(), task: r.task.unwrap() }
}

/// The problems of the record at index `i`, in field order.
pub open spec fn record_problems(r: RawExercise, i: int) -> Seq<ManifestProblem> {
    (if r.name is None {
        seq![ManifestProblem { index: i as usize, field: ManifestField::Name }]
    } else {
        Seq::<ManifestProblem>::empty()
    }) + (if r.path is None {
        seq![ManifestProblem { index: i as usize, field: ManifestField::Path }]
    } else {
        Seq::<ManifestProblem>::empty()
    }) + (if r.task is None {
        seq![ManifestProblem { index: i as usize, field: ManifestField::Task }]
    } else {
        Seq::<ManifestProblem>::empty()
    })
}

/// All problems of a record sequence, in record order.
pub open spec fn manifest_problems(rs: Seq<RawExercise>) -> Seq<ManifestProblem>
    decreases rs.len(),
{
    if rs.len() == 0 {
        Seq::<ManifestProblem>::empty()
    } else {
        manifest_problems(rs.drop_last()) + record_problems(rs.last(), rs.len() - 1)
    }
}

proof fn lemma_problems_extend(rs: Seq<RawExercise>, i: int)
    requires
        0 <= i < rs.len(),
    ensures
        manifest_problems(rs.subrange(0, i + 1)) == manifest_problems(rs.subrange(0, i))
            + record_problems(rs[i], i),
{
    let pre = rs.subrange(0, i + 1);
    assert(pre.drop_last() =~= rs.subrange(0, i));
    assert(pre.last() == rs[i]);
}

/// Validates the raw records read from the manifest. Returns the exercise
/// list exactly when every record has all required fields; otherwise returns
/// a single aggregated error listing every structural problem.
pub fn build_exercise_list(records: &Vec<RawExercise>) -> (r: Result<ExerciseList, ManifestError>)
    ensures
        (r is Ok) <==> manifest_problems(records@).len() == 0,
        (match r {
            Ok(list) => list.exercises@.len() == records@.len() && forall|k: int|
                0 <= k < records@.len() ==> (#[trigger] list.exercises@[k]) == exercise_of(
                    records@[k],
                ),
            Err(e) => e.problems@ == manifest_problems(records@),
        }),
{
    let mut exercises: Vec<Exercise> = Vec::new();
    let mut problems: Vec<ManifestProblem> = Vec::new();
    let mut i: usize = 0;
    while i < records.len()
        invariant
            i <= records@.len(),
            problems@ == manifest_problems(records@.subrange(0, i as int)),
            problems@.len() == 0 ==> exercises@.len() == i && forall|k: int|
                0 <= k < i ==> (#[trigger] exercises@[k]) == exercise_of(records@[k]),
        decreases records@.len() - i,
    {
        let r = &records[i];
        proof {
            lemma_problems_extend(records@, i as int);
        }
        match (&r.name, &r.path, &r.task) {
            (Some(name), Some(path), Some(task)) => {
                exercises.push(
                    Exercise { name: name.clone(), path: path.clone(), task: task.clone() },
                );
            },
            _ => {
                if r.name.is_none() {
                    problems.push(ManifestProblem { index: i, field: ManifestField::Name });
                }
                if r.path.is_none() {
                    problems.push(ManifestProblem { index: i, field: ManifestField::Path });
                }
                if r.task.is_none() {
                    problems.push(ManifestProblem { index: i, field: ManifestField::Task });
                }
            },
        }
        i += 1;
    }
    proof {
        assert(records@.subrange(0, records@.len() as int) =~= records@);
    }
    if problems.len() == 0 {
        Ok(ExerciseList { exercises })
    } else {
        Err(ManifestError { problems })
    }
}

/// Finds the first exercise with the given name; `None` when no exercise in
/// the list carries that name.
pub fn find_exercise<'a>(name: &str, exercises: &'a [Exercise]) -> (r: Option<&'a Exercise>)
    ensures
        (r is Some) <==> (exists|i: int|
            0 <= i < exercises@.len() && exercises@[i].name@ == name@),
        (match r {
            Some(e) => exists|i: int|
                0 <= i < exercises@.len() && *e == exercises@[i] && exercises@[i].name@ == name@
                    && (forall|j: int| 0 <= j < i ==> exercises@[j].name@ != name@),
            None => true,
        }),
{
    let wanted: String = name.to_owned();
    let mut i: usize = 0;
    while i < exercises.len()
        invariant
            wanted@ == name@,
            i <= exercises@.len(),
            forall|j: int| 0 <= j < i ==> exercises@[j].name@ != name@,
        decreases exercises@.len() - i,
    {
        if wanted == exercises[i].name {
            return Some(&exercises[i]);
        }
        i += 1;
    }
    None
}

} // verus!
