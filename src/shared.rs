use vstd::prelude::*;

use std::sync::{Arc, Mutex};

use crate::{LineNumbers, Pager, RunMode};

verus! {

#[verifier::external_type_specification]
#[verifier::external_body]
#[verifier::reject_recursive_types(T)]
pub struct ExMutex<T: ?Sized>(Mutex<T>);

/// The text of the pager that a lock held when it was made.
pub uninterp spec fn guarded_content(m: Mutex<Pager>) -> Seq<char>;

/// The line-numbering mode of the pager that a lock held when it was made.
pub uninterp spec fn guarded_numbering(m: Mutex<Pager>) -> LineNumbers;

/// The scroll offset of the pager that a lock held when it was made.
pub uninterp spec fn guarded_offset(m: Mutex<Pager>) -> nat;

/// The run mode of the pager that a lock held when it was made.
pub uninterp spec fn guarded_mode(m: Mutex<Pager>) -> RunMode;

/// Relies on std's `Mutex::new`: the new, unlocked mutex holds `p`. The
/// names describe the lock as made; nothing in this library locks it.
#[verifier::external_body]
fn lock_pager(p: Pager) -> (r: Mutex<Pager>)
    ensures
        guarded_content(r) == p.content(),
        guarded_numbering(r) == p.numbering(),
        guarded_offset(r) == p.offset(),
        guarded_mode(r) == p.mode(),
{
    Mutex::new(p)
}

/// A pager shared between a producer and the render loop; every access goes
/// through the lock.
pub type PagerMutex = Arc<Mutex<Pager>>;

impl Pager {
    /// A shared dynamic pager over `lines` with numbering `ln`, at the top.
    pub fn new_dynamic(lines: String, ln: LineNumbers) -> (r: PagerMutex)
        ensures
            guarded_content(*r) == lines@,
            guarded_numbering(*r) == ln,
            guarded_offset(*r) == 0,
            guarded_mode(*r) == RunMode::Dynamic,
    {
        let p = Pager::build(lines, ln, RunMode::Dynamic);
        Arc::new(lock_pager(p))
    }

    /// A shared empty dynamic pager with line numbers disabled.
    pub fn default_dynamic() -> (r: PagerMutex)
        ensures
            guarded_content(*r) == Seq::<char>::empty(),
            guarded_numbering(*r) == LineNumbers::Disabled,
            guarded_offset(*r) == 0,
            guarded_mode(*r) == RunMode::Dynamic,
    {
        Pager::new_dynamic(String::new(), LineNumbers::Disabled)
    }
}

} // verus!
