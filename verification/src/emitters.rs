//! The registry of emitters: named tokens that authenticate ingestion.
//!
//! The registry works on the rows of the emitter table as the caller read
//! them, and says which rows to keep or to add. Persisting them is the
//! caller's.

use vstd::prelude::*;
use crate::error::{AppError, CONFLICT, NO_CONTENT, OK};
use crate::utils::{get_auth_token, is_auth_token};

verus! {

/// The request to remove every emitter of one description.
#[derive(Debug)]
pub struct DeleteEmitterRequest {
    pub description: String,
}

/// The request to register an emitter.
#[derive(Debug)]
pub struct AddEmitterRequest {
    pub description: String,
}

/// The answer to a registration: the description with its new token.
#[derive(Debug)]
pub struct AddEmitterResponse {
    pub description: String,
    pub token: String,
}

/// A registered emitter.
#[derive(Debug)]
pub struct Emitter {
    pub description: String,
    pub token: String,
}

/// Whether some row carries `description`, letter for letter.
pub open spec fn is_registered(rows: Seq<Emitter>, description: Seq<char>) -> bool {
    exists|i: int| 0 <= i < rows.len() && (#[trigger] rows[i]).description@ == description
}

/// The rows among the first `k` that do not carry `description`, in order.
pub open spec fn without(rows: Seq<Emitter>, description: Seq<char>, k: int) -> Seq<Emitter>
    decreases k,
{
    if k <= 0 {
        Seq::empty()
    } else if rows[k - 1].description@ == description {
        without(rows, description, k - 1)
    } else {
        without(rows, description, k - 1).push(rows[k - 1])
    }
}

/// The rows after an attempt to register `emitter`: unchanged where its
/// description is taken, else with `emitter` at the end.
pub open spec fn after_add(rows: Seq<Emitter>, emitter: Emitter) -> Seq<Emitter> {
    if is_registered(rows, emitter.description@) {
        rows
    } else {
        rows.push(emitter)
    }
}

/// What an attempt to register `emitter` answers: a conflict where its
/// description is taken, else the description with its token.
pub open spec fn add_result(rows: Seq<Emitter>, emitter: Emitter) -> Result<
    AddEmitterResponse,
    AppError,
> {
    if is_registered(rows, emitter.description@) {
        Err(AppError::Status(CONFLICT))
    } else {
        Ok(AddEmitterResponse { description: emitter.description, token: emitter.token })
    }
}

/// How many rows a delete of `description` removes.
pub open spec fn affected_rows(rows: Seq<Emitter>, description: Seq<char>) -> int {
    rows.len() - without(rows, description, rows.len() as int).len()
}

/// Registering a description twice is a conflict the second time, whatever
/// the first attempt came to and whatever token the second one brings; the
/// second attempt leaves the rows as they are.
pub proof fn lemma_second_add_conflicts(rows: Seq<Emitter>, first: Emitter, second: Emitter)
    requires
        second.description@ == first.description@,
    ensures
        add_result(after_add(rows, first), second) == Err::<AddEmitterResponse, AppError>(
            AppError::Status(CONFLICT),
        ),
        after_add(after_add(rows, first), second) == after_add(rows, first),
{
    if !is_registered(rows, first.description@) {
        let after = rows.push(first);
        assert(after[rows.len() as int].description@ == first.description@);
    }
}

/// A delete keeps no more rows than there are, and removes none where the
/// description is not registered.
pub proof fn lemma_without(rows: Seq<Emitter>, description: Seq<char>, k: int)
    requires
        0 <= k <= rows.len(),
    ensures
        without(rows, description, k).len() <= k,
        !is_registered(rows, description) ==> without(rows, description, k) == rows.take(k),
        !is_registered(without(rows, description, k), description),
    decreases k,
{
    if k > 0 {
        lemma_without(rows, description, k - 1);
        let before = without(rows, description, k - 1);
        let now = without(rows, description, k);
        if rows[k - 1].description@ == description {
            assert(now == before);
        } else {
            assert(now == before.push(rows[k - 1]));
            if !is_registered(rows, description) {
                assert(rows.take(k) == rows.take(k - 1).push(rows[k - 1]));
            }
            assert forall|i: int| 0 <= i < now.len() implies (#[trigger] now[i]).description@
                != description by {
                if i < before.len() {
                    assert(now[i] == before[i]);
                }
            }
        }
    }
}

/// Deleting a description that is not registered changes nothing and affects
/// no row; deleting twice affects no row the second time.
pub proof fn lemma_delete_absent(rows: Seq<Emitter>, description: Seq<char>)
    ensures
        !is_registered(rows, description) ==> {
            &&& without(rows, description, rows.len() as int) == rows
            &&& affected_rows(rows, description) == 0
        },
        affected_rows(without(rows, description, rows.len() as int), description) == 0,
{
    lemma_without(rows, description, rows.len() as int);
    assert(rows.take(rows.len() as int) == rows);
    let kept = without(rows, description, rows.len() as int);
    lemma_without(kept, description, kept.len() as int);
    assert(kept.take(kept.len() as int) == kept);
}

/// Whether some row carries `description`.
pub fn has_emitter(rows: &Vec<Emitter>, description: &String) -> (found: bool)
    ensures
        found == is_registered(rows@, description@),
{
    let mut i: usize = 0;
    while i < rows.len()
        invariant
            i <= rows@.len(),
            forall|j: int| 0 <= j < i ==> (#[trigger] rows@[j]).description@ != description@,
        decreases rows@.len() - i,
    {
        if rows[i].description == *description {
            return true;
        }
        i += 1;
    }
    false
}

/// Registers `description` under `token`, unless the description is taken.
pub fn register(rows: &mut Vec<Emitter>, description: String, token: String) -> (r: Result<
    AddEmitterResponse,
    AppError,
>)
    ensures
        final(rows)@ == after_add(old(rows)@, Emitter { description, token }),
        r == add_result(old(rows)@, Emitter { description, token }),
{
    if has_emitter(rows, &description) {
        return Err(AppError::Status(CONFLICT));
    }
    rows.push(Emitter { description: description.clone(), token: token.clone() });
    Ok(AddEmitterResponse { description, token })
}

/// Registers the requested description under a fresh random token. A
/// description that is already registered, letter for letter, is a conflict
/// and leaves the rows as they are.
pub fn add_emitter(rows: &mut Vec<Emitter>, request: AddEmitterRequest) -> (r: Result<
    AddEmitterResponse,
    AppError,
>)
    ensures
        match r {
            Ok(response) => {
                &&& !is_registered(old(rows)@, request.description@)
                &&& response.description == request.description
                &&& is_auth_token(response.token@)
                &&& final(rows)@ == old(rows)@.push(
                    Emitter { description: response.description, token: response.token },
                )
            },
            Err(e) => {
                &&& is_registered(old(rows)@, request.description@)
                &&& e == AppError::Status(CONFLICT)
                &&& final(rows)@ == old(rows)@
            },
        },
{
    register(rows, request.description, get_auth_token())
}

/// Removes every row of the requested description and says how many there
/// were. None at all is no failure.
pub fn delete_emitter(rows: &mut Vec<Emitter>, request: &DeleteEmitterRequest) -> (removed: usize)
    ensures
        final(rows)@ == without(old(rows)@, request.description@, old(rows)@.len() as int),
        removed == affected_rows(old(rows)@, request.description@),
        !is_registered(final(rows)@, request.description@),
        !is_registered(old(rows)@, request.description@) ==> removed == 0 && final(rows)@ == old(
            rows,
        )@,
{
    let ghost all = rows@;
    let total = rows.len();
    let mut taken: Vec<Emitter> = Vec::new();
    std::mem::swap(rows, &mut taken);
    for emitter in it: taken
        invariant
            it.seq() == all,
            rows@ == without(all, request.description@, it.index() as int),
            rows@.len() <= it.index(),
    {
        if !(emitter.description == request.description) {
            rows.push(emitter);
        }
    }
    proof {
        lemma_without(all, request.description@, all.len() as int);
        lemma_delete_absent(all, request.description@);
    }
    total - rows.len()
}

/// The registered emitters, in the order of the rows.
pub fn get_emitters(rows: &Vec<Emitter>) -> (list: Vec<Emitter>)
    ensures
        list@ == rows@,
{
    let mut list: Vec<Emitter> = Vec::with_capacity(rows.len());
    let mut i: usize = 0;
    while i < rows.len()
        invariant
            i <= rows@.len(),
            list@ == rows@.take(i as int),
        decreases rows@.len() - i,
    {
        let emitter = Emitter {
            description: rows[i].description.clone(),
            token: rows[i].token.clone(),
        };
        list.push(emitter);
        proof {
            assert(rows@.take(i + 1) == rows@.take(i as int).push(rows@[i as int]));
        }
        i += 1;
    }
    proof {
        assert(rows@.take(rows@.len() as int) == rows@);
    }
    list
}

/// The HTTP status that answers a delete which removed `affected_rows` rows.
pub fn delete_status(affected_rows: usize) -> (status: u16)
    ensures
        status == if affected_rows == 0 {
            NO_CONTENT
        } else {
            OK
        },
{
    if affected_rows == 0 {
        NO_CONTENT
    } else {
        OK
    }
}

} // verus!
