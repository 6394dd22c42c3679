//! Making an index: a handle is created, then filled; a handle whose filling
//! failed is released.

use vstd::pervasive::unreached;
use vstd::prelude::*;

use crate::call::{IndexKind, Work};
use crate::error::LibraryError;

verus! {

/// Where the making of an index stands: the call to be made now, or the result.
#[derive(Debug)]
pub enum Construction<'a> {
    /// Create a handle of the type that the work is for.
    Create { work: Work<'a> },
    /// Do the work on the handle.
    Fill { index: usize, work: Work<'a> },
    /// Destroy the handle; the work on it failed.
    Release { kind: IndexKind, index: usize, error: LibraryError },
    /// The handle of the finished index, or the error.
    Done { outcome: Result<usize, LibraryError> },
}

/// Whether a handle is destroyed when the work on it fails. A CAGRA handle is
/// not owned before its work has succeeded, and stays behind.
pub open spec fn releases(kind: IndexKind) -> bool {
    kind != IndexKind::Cagra
}

/// What a call answered: the handle that it made, or zero where it made none.
pub type Reply = Result<usize, LibraryError>;

impl<'a> Construction<'a> {
    /// Where the making stands after the call that is due has been answered.
    pub open spec fn next(self, reply: Reply) -> Construction<'a> {
        match self {
            Construction::Create { work } => match reply {
                Ok(index) => Construction::Fill { index, work },
                Err(error) => Construction::Done { outcome: Err(error) },
            },
            Construction::Fill { index, work } => match reply {
                Ok(_) => Construction::Done { outcome: Ok(index) },
                Err(error) => if releases(work.index_kind()) {
                    Construction::Release { kind: work.index_kind(), index, error }
                } else {
                    Construction::Done { outcome: Err(error) }
                },
            },
            Construction::Release { error, .. } => Construction::Done { outcome: Err(error) },
            Construction::Done { outcome } => Construction::Done { outcome },
        }
    }

    pub fn resume(self, reply: Reply) -> (r: Construction<'a>)
        ensures
            r == self.next(reply),
    {
        match self {
            Construction::Create { work } => match reply {
                Ok(index) => Construction::Fill { index, work },
                Err(error) => Construction::Done { outcome: Err(error) },
            },
            Construction::Fill { index, work } => match reply {
                Ok(_) => Construction::Done { outcome: Ok(index) },
                Err(error) => {
                    let kind = work.kind();
                    match kind {
                        IndexKind::Cagra => Construction::Done { outcome: Err(error) },
                        _ => Construction::Release { kind, index, error },
                    }
                },
            },
            Construction::Release { error, .. } => Construction::Done { outcome: Err(error) },
            Construction::Done { outcome } => Construction::Done { outcome },
        }
    }

    /// The result of a finished construction.
    pub fn outcome(self) -> (r: Reply)
        requires
            self is Done,
        ensures
            r == self->outcome,
    {
        match self {
            Construction::Done { outcome } => outcome,
            _ => unreached(),
        }
    }

    /// Where the making stands after some answers.
    pub open spec fn after(self, replies: Seq<Reply>) -> Construction<'a>
        decreases replies.len(),
    {
        if replies.len() == 0 {
            self
        } else {
            self.next(replies.first()).after(replies.drop_first())
        }
    }

    /// The handles that exist because of the calls made along some answers:
    /// one more with each that a creation call gave, one less with each
    /// destruction.
    pub open spec fn handles(self, replies: Seq<Reply>) -> int
        decreases replies.len(),
    {
        if replies.len() == 0 {
            0
        } else {
            let change: int = match self {
                Construction::Create { .. } => if replies.first() is Ok {
                    1
                } else {
                    0
                },
                Construction::Release { .. } => -1,
                _ => 0,
            };
            change + self.next(replies.first()).handles(replies.drop_first())
        }
    }

    /// The type of index in the making, where it is not finished.
    pub open spec fn kind(self) -> Option<IndexKind> {
        match self {
            Construction::Create { work } => Some(work.index_kind()),
            Construction::Fill { work, .. } => Some(work.index_kind()),
            Construction::Release { kind, .. } => Some(kind),
            Construction::Done { .. } => None,
        }
    }
}

/// Three answers finish the making of an index, whatever they are.
pub proof fn construction_ends<'a>(work: Work<'a>, replies: Seq<Reply>)
    requires
        replies.len() >= 3,
    ensures
        (Construction::Create { work }).after(replies) is Done,
    decreases replies.len(),
{
    reveal_with_fuel(Construction::after, 4);
    let later = replies.drop_first().drop_first().drop_first();
    let reached = (Construction::Create { work }).next(replies[0]).next(replies[1]).next(replies[2]);
    assert(reached is Done);
    done_stays(reached, later);
}

/// A finished construction stays as it is and makes no further call.
pub proof fn done_stays<'a>(done: Construction<'a>, replies: Seq<Reply>)
    requires
        done is Done,
    ensures
        done.after(replies) == done,
        done.handles(replies) == 0,
    decreases replies.len(),
{
    if replies.len() > 0 {
        done_stays(done.next(replies.first()), replies.drop_first());
    }
}

/// A finished construction leaves one handle behind where it succeeded, the
/// one that it returns, and none where it failed: a handle whose filling failed
/// is destroyed once. A CAGRA handle is the exception: it is never destroyed,
/// so that it remains whenever it was created.
pub proof fn construction_keeps_what_it_returns<'a>(work: Work<'a>, replies: Seq<Reply>)
    requires
        (Construction::Create { work }).after(replies) is Done,
    ensures
        ({
            let start = (Construction::Create { work });
            let outcome = start.after(replies)->outcome;
            &&& outcome is Ok ==> start.handles(replies) == 1 && outcome == Ok::<usize, LibraryError>(replies[0]->Ok_0)
            &&& outcome is Err && releases(work.index_kind()) ==> start.handles(replies) == 0
            &&& outcome is Err && !releases(work.index_kind()) ==> start.handles(replies) == if replies[0] is Ok {
                1int
            } else {
                0
            }
        }),
{
    reveal_with_fuel(Construction::after, 4);
    reveal_with_fuel(Construction::handles, 4);
    let start = (Construction::Create { work });
    assert(replies.len() >= 1);
    let s1 = start.next(replies[0]);
    let r1 = replies.drop_first();
    if s1 is Done {
        done_stays(s1, r1);
    } else {
        assert(r1.len() >= 1);
        let s2 = s1.next(r1[0]);
        let r2 = r1.drop_first();
        if s2 is Done {
            done_stays(s2, r2);
        } else {
            assert(r2.len() >= 1);
            let s3 = s2.next(r2[0]);
            done_stays(s3, r2.drop_first());
        }
    }
}

/// The error of a failed construction is that of the call that failed: of the
/// creation, or else of the work. What the destruction answers is ignored.
pub proof fn construction_reports_the_failed_call<'a>(work: Work<'a>, replies: Seq<Reply>)
    requires
        replies.len() >= 3,
    ensures
        ({
            let outcome = (Construction::Create { work }).after(replies)->outcome;
            outcome == match replies[0] {
                Err(e) => Err::<usize, LibraryError>(e),
                Ok(index) => match replies[1] {
                    Err(e) => Err(e),
                    Ok(_) => Ok(index),
                },
            }
        }),
{
    reveal_with_fuel(Construction::after, 4);
    let start = (Construction::Create { work });
    let reached = start.next(replies[0]).next(replies[1]).next(replies[2]);
    let r2 = replies.drop_first().drop_first();
    assert(replies.drop_first()[0] == replies[1]);
    assert(r2[0] == replies[2]);
    done_stays(reached, r2.drop_first());
}

} // verus!
