//! The protocol of the read-write lock: its state word, the tasks that wait on
//! it, and what each arrival and each unlock does to them.
use crate::runtime::Task;
use crate::sync::rw_locks::lock_status::LockStatus;
use crate::sync::rw_locks::state::{
    lemma_add_reader, lemma_add_writer, lemma_mode_bit, lemma_sub_reader, lemma_sub_writer,
    lemma_unlocked_and_first_writer, lock_status_spec, readers_of, well_packed, write_mode_of,
    writers_of, IS_WRITE_MODE_BIT, MAX_COUNT, ONE_READER, ONE_WRITER, READERS_COUNT_MASK,
    WRITERS_COUNT_MASK, WRITERS_COUNT_SHIFT,
};
use vstd::prelude::*;

verus! {

/// What happened to a task that asked for the lock.
pub enum Arrival {
    /// The lock was taken for the task; the task handle is given back.
    Acquired(Task),
    /// The task was counted and parked; an unlock will hand it the lock and wake it.
    Parked,
    /// The count of readers or writers is at its maximum: nothing changed and the
    /// task handle is given back.
    Refused(Task),
}

/// The protocol state of a read-write lock: the state word and the parked tasks.
///
/// In write mode one writer holds the lock; the other counted writers and all
/// counted readers are parked. In read mode the counted readers hold the lock
/// and the counted writers are parked, waiting for the last reader.
pub struct RWLockCore {
    state: u64,
    writers: Vec<Task>,
    readers: Vec<Task>,
}

/// What [`RWLockCore::write_unlock`] gives when no writer waits: every parked
/// reader, in the reverse order of parking, the parked readers taken out.
pub open spec fn write_unlock_outcome(before: RWLockCore, after: RWLockCore, woken: Seq<Task>) -> bool {
    &&& after.wf()
    &&& writers_of(before.state()) == 1 && readers_of(before.state()) > 0 ==> woken
        == before.parked_readers().reverse() && after.parked_readers() == Seq::<Task>::empty()
    &&& writers_of(before.state()) == 1 && readers_of(before.state()) == 0 ==> woken
        == Seq::<Task>::empty() && after.state() == 0 && after.parked_readers() == before.parked_readers()
    &&& writers_of(before.state()) > 1 ==> woken == seq![before.parked_writers().last()]
}

/// Giving back write access hands the lock on without losing a task: with no
/// writer waiting, every parked reader is woken, each exactly once, and none
/// stays parked; with writers waiting, exactly one task, the writer parked last,
/// is woken.
pub proof fn lemma_write_unlock_wakes_every_reader(before: RWLockCore, after: RWLockCore, woken: Seq<Task>)
    requires
        before.wf(),
        write_mode_of(before.state()),
        write_unlock_outcome(before, after, woken),
    ensures
        before.parked_writers().len() == 0 ==> woken.len() == before.parked_readers().len()
            && woken.to_multiset() == before.parked_readers().to_multiset()
            && (forall|i: int| 0 <= i < before.parked_readers().len() ==> woken.contains(
            #[trigger] before.parked_readers()[i],
        )) && after.parked_readers().len() == 0,
        before.parked_writers().len() > 0 ==> woken.len() == 1 && woken[0]
            == before.parked_writers().last(),
{
    let parked = before.parked_readers();
    if before.parked_writers().len() == 0 {
        parked.lemma_reverse_to_multiset();
        if readers_of(before.state()) == 0 {
            assert(parked =~= Seq::<Task>::empty());
            assert(woken.to_multiset() =~= parked.to_multiset());
        } else {
            assert(woken.len() == parked.len());
            assert forall|i: int| 0 <= i < parked.len() implies woken.contains(#[trigger] parked[i]) by {
                assert(woken[parked.len() - 1 - i] == parked[i]);
            }
        }
    }
}

impl RWLockCore {
    /// The state word.
    pub closed spec fn state(&self) -> u64 {
        self.state
    }

    /// The parked writers, in the order they were parked.
    pub closed spec fn parked_writers(&self) -> Seq<Task> {
        self.writers@
    }

    /// The parked readers, in the order they were parked.
    pub closed spec fn parked_readers(&self) -> Seq<Task> {
        self.readers@
    }

    /// The status of the lock.
    pub open spec fn status(&self) -> LockStatus {
        lock_status_spec(self.state())
    }

    /// Well-formedness: the counts in the word agree with the parked tasks.
    pub open spec fn wf(&self) -> bool {
        let s = self.state();
        &&& well_packed(s)
        &&& if write_mode_of(s) {
            &&& writers_of(s) >= 1
            &&& self.parked_writers().len() == writers_of(s) - 1
            &&& self.parked_readers().len() == readers_of(s)
        } else {
            &&& self.parked_writers().len() == writers_of(s)
            &&& self.parked_readers().len() == 0
            &&& (writers_of(s) > 0 ==> readers_of(s) > 0)
        }
    }

    /// Creates the protocol state of an unlocked lock.
    pub fn new() -> (c: Self)
        ensures
            c.wf(),
            c.state() == 0,
            c.status() == LockStatus::Unlocked,
            c.parked_writers() == Seq::<Task>::empty(),
            c.parked_readers() == Seq::<Task>::empty(),
    {
        proof {
            lemma_unlocked_and_first_writer();
        }
        RWLockCore { state: 0, writers: Vec::new(), readers: Vec::new() }
    }

    /// Returns the status of the lock.
    pub fn lock_status(&self) -> (r: LockStatus)
        ensures
            r == self.status(),
    {
        let state = self.state;
        if state == 0 {
            LockStatus::Unlocked
        } else if state & IS_WRITE_MODE_BIT == 0 {
            LockStatus::ReadLocked((state & READERS_COUNT_MASK) as usize)
        } else {
            LockStatus::WriteLocked
        }
    }

    /// Takes the lock for writing if nobody holds it or waits for it.
    pub fn try_write(&mut self) -> (r: bool)
        requires
            old(self).wf(),
        ensures
            final(self).wf(),
            r == (old(self).state() == 0),
            r ==> final(self).state() == IS_WRITE_MODE_BIT | ONE_WRITER,
            !r ==> final(self).state() == old(self).state(),
            final(self).parked_writers() == old(self).parked_writers(),
            final(self).parked_readers() == old(self).parked_readers(),
    {
        proof {
            lemma_unlocked_and_first_writer();
        }
        if self.state == 0 {
            self.state = IS_WRITE_MODE_BIT | ONE_WRITER;
            true
        } else {
            false
        }
    }

    /// Takes the lock for reading unless it is in write mode (or the reader count
    /// is at its maximum). Readers are let in while writers wait for read mode to end.
    pub fn try_read(&mut self) -> (r: bool)
        requires
            old(self).wf(),
        ensures
            final(self).wf(),
            r == (!write_mode_of(old(self).state()) && readers_of(old(self).state()) < MAX_COUNT),
            r ==> final(self).state() == old(self).state() + ONE_READER,
            !r ==> final(self).state() == old(self).state(),
            final(self).parked_writers() == old(self).parked_writers(),
            final(self).parked_readers() == old(self).parked_readers(),
    {
        let state = self.state;
        if state & IS_WRITE_MODE_BIT != 0 || state & READERS_COUNT_MASK >= MAX_COUNT {
            return false;
        }
        proof {
            lemma_add_reader(state);
        }
        self.state = state + ONE_READER;
        true
    }

    /// A writer asks for the lock: it takes the lock if nobody holds it or waits for
    /// it, and is counted and parked otherwise.
    pub fn writer_arrives(&mut self, task: Task) -> (r: Arrival)
        requires
            old(self).wf(),
        ensures
            final(self).wf(),
            old(self).state() == 0 ==> r == Arrival::Acquired(task) && final(self).state()
                == IS_WRITE_MODE_BIT | ONE_WRITER && final(self).parked_writers() == old(self).parked_writers(),
            old(self).state() != 0 && writers_of(old(self).state()) < MAX_COUNT ==> r
                == Arrival::Parked && final(self).state() == old(self).state() + ONE_WRITER
                && final(self).parked_writers() == old(self).parked_writers().push(task),
            old(self).state() != 0 && writers_of(old(self).state()) >= MAX_COUNT ==> r
                == Arrival::Refused(task) && final(self).state() == old(self).state()
                && final(self).parked_writers() == old(self).parked_writers(),
            final(self).parked_readers() == old(self).parked_readers(),
    {
        proof {
            lemma_unlocked_and_first_writer();
        }
        let state = self.state;
        if state == 0 {
            self.state = IS_WRITE_MODE_BIT | ONE_WRITER;
            return Arrival::Acquired(task);
        }
        if (state & WRITERS_COUNT_MASK) >> WRITERS_COUNT_SHIFT >= MAX_COUNT {
            return Arrival::Refused(task);
        }
        proof {
            lemma_add_writer(state);
        }
        self.state = state + ONE_WRITER;
        self.writers.push(task);
        Arrival::Parked
    }

    /// A reader asks for the lock: in read mode it takes the lock; in write mode it
    /// is counted and parked until the writers are done.
    pub fn reader_arrives(&mut self, task: Task) -> (r: Arrival)
        requires
            old(self).wf(),
        ensures
            final(self).wf(),
            readers_of(old(self).state()) >= MAX_COUNT ==> r == Arrival::Refused(task)
                && final(self).state() == old(self).state() && final(self).parked_readers()
                == old(self).parked_readers(),
            readers_of(old(self).state()) < MAX_COUNT ==> final(self).state() == old(self).state()
                + ONE_READER,
            readers_of(old(self).state()) < MAX_COUNT && !write_mode_of(old(self).state()) ==> r
                == Arrival::Acquired(task) && final(self).parked_readers() == old(self).parked_readers(),
            readers_of(old(self).state()) < MAX_COUNT && write_mode_of(old(self).state()) ==> r
                == Arrival::Parked && final(self).parked_readers() == old(self).parked_readers().push(task),
            final(self).parked_writers() == old(self).parked_writers(),
    {
        let state = self.state;
        if state & READERS_COUNT_MASK >= MAX_COUNT {
            return Arrival::Refused(task);
        }
        proof {
            lemma_add_reader(state);
        }
        self.state = state + ONE_READER;
        if state & IS_WRITE_MODE_BIT != 0 {
            self.readers.push(task);
            Arrival::Parked
        } else {
            Arrival::Acquired(task)
        }
    }

    /// A reader gives the lock back. When it was the last reader and writers wait,
    /// the lock turns to write mode and the writer parked last is returned, to be
    /// woken holding the lock.
    pub fn read_unlock(&mut self) -> (woken: Option<Task>)
        requires
            old(self).wf(),
            !write_mode_of(old(self).state()),
            readers_of(old(self).state()) > 0,
        ensures
            final(self).wf(),
            readers_of(old(self).state()) == 1 && writers_of(old(self).state()) > 0 ==> {
                &&& woken == Some(old(self).parked_writers().last())
                &&& final(self).state() == ((old(self).state() - ONE_READER) as u64)
                    | IS_WRITE_MODE_BIT
                &&& final(self).parked_writers() == old(self).parked_writers().drop_last()
            },
            !(readers_of(old(self).state()) == 1 && writers_of(old(self).state()) > 0) ==> {
                &&& woken is None
                &&& final(self).state() == old(self).state() - ONE_READER
                &&& final(self).parked_writers() == old(self).parked_writers()
            },
            final(self).parked_readers() == old(self).parked_readers(),
    {
        let prev = self.state;
        proof {
            lemma_sub_reader(prev);
        }
        let current = prev - ONE_READER;
        let number_of_waiting_writers = (current & WRITERS_COUNT_MASK) >> WRITERS_COUNT_SHIFT;
        let number_of_readers = current & READERS_COUNT_MASK;
        if number_of_waiting_writers == 0 || number_of_readers != 0 {
            self.state = current;
            return None;
        }
        proof {
            lemma_mode_bit(current);
        }
        self.state = current | IS_WRITE_MODE_BIT;
        self.writers.pop()
    }

    /// The writer gives the lock back. The lock goes, in this order of preference,
    /// to the writer parked last (staying in write mode), to all parked readers
    /// (turning to read mode; they are returned in the reverse order of parking),
    /// or to nobody.
    pub fn write_unlock(&mut self) -> (woken: Vec<Task>)
        requires
            old(self).wf(),
            write_mode_of(old(self).state()),
        ensures
            final(self).wf(),
            writers_of(old(self).state()) > 1 ==> {
                &&& woken@ == seq![old(self).parked_writers().last()]
                &&& final(self).state() == old(self).state() - ONE_WRITER
                &&& final(self).parked_writers() == old(self).parked_writers().drop_last()
                &&& final(self).parked_readers() == old(self).parked_readers()
            },
            writers_of(old(self).state()) == 1 && readers_of(old(self).state()) > 0 ==> {
                &&& woken@ == old(self).parked_readers().reverse()
                &&& final(self).state() == ((old(self).state() - ONE_WRITER) as u64)
                    & !IS_WRITE_MODE_BIT
                &&& final(self).parked_writers() == old(self).parked_writers()
                &&& final(self).parked_readers() == Seq::<Task>::empty()
            },
            writers_of(old(self).state()) == 1 && readers_of(old(self).state()) == 0 ==> {
                &&& woken@ == Seq::<Task>::empty()
                &&& final(self).state() == 0
                &&& final(self).parked_writers() == old(self).parked_writers()
                &&& final(self).parked_readers() == old(self).parked_readers()
            },
            write_unlock_outcome(*old(self), *final(self), woken@),
    {
        let prev = self.state;
        proof {
            lemma_sub_writer(prev);
        }
        let current = prev - ONE_WRITER;
        let mut woken: Vec<Task> = Vec::new();
        if (current & WRITERS_COUNT_MASK) >> WRITERS_COUNT_SHIFT > 0 {
            self.state = current;
            match self.writers.pop() {
                Some(task) => woken.push(task),
                None => {},
            }
            return woken;
        }
        if current & READERS_COUNT_MASK > 0 {
            proof {
                lemma_mode_bit(current);
            }
            self.state = current & !IS_WRITE_MODE_BIT;
            let ghost parked = self.readers@;
            let ghost writers = self.writers@;
            let ghost state = self.state;
            while self.readers.len() > 0
                invariant
                    self.writers@ == writers,
                    self.state == state,
                    parked.len() >= self.readers@.len(),
                    self.readers@ == parked.subrange(0, self.readers@.len() as int),
                    woken@ == parked.subrange(self.readers@.len() as int, parked.len() as int).reverse(),
                decreases self.readers@.len(),
            {
                let ghost before = self.readers@;
                match self.readers.pop() {
                    Some(task) => woken.push(task),
                    None => {},
                }
                assert(parked.subrange(self.readers@.len() as int, parked.len() as int).reverse()
                    =~= woken@);
            }
            assert(woken@ =~= parked.reverse());
            return woken;
        }
        proof {
            lemma_mode_bit(current);
            lemma_unlocked_and_first_writer();
        }
        self.state = 0;
        woken
    }
}

/// A writer and readers never hold the lock together: in write mode every
/// counted reader is parked, and in read mode every counted writer is parked.
pub proof fn lemma_writer_excludes_readers(core: RWLockCore)
    requires
        core.wf(),
    ensures
        write_mode_of(core.state()) ==> core.parked_readers().len() == readers_of(core.state())
            && core.parked_writers().len() + 1 == writers_of(core.state()),
        !write_mode_of(core.state()) ==> core.parked_writers().len() == writers_of(core.state())
            && core.parked_readers().len() == 0,
{
}

/// A write lock taken on an unlocked lock and given back leaves the lock
/// unlocked: the word of one writer in write mode counts one writer and no
/// reader, which is the case in which `write_unlock` clears the word.
pub proof fn lemma_write_round_trip()
    ensures
        lock_status_spec(0) == LockStatus::Unlocked,
        write_mode_of(IS_WRITE_MODE_BIT | ONE_WRITER),
        writers_of(IS_WRITE_MODE_BIT | ONE_WRITER) == 1,
        readers_of(IS_WRITE_MODE_BIT | ONE_WRITER) == 0,
        lock_status_spec(IS_WRITE_MODE_BIT | ONE_WRITER) == LockStatus::WriteLocked,
{
    lemma_unlocked_and_first_writer();
}

/// A read lock taken on an unlocked lock and given back leaves the lock
/// unlocked: the word after one reader arrives counts one reader, no writer, is in
/// read mode, and the reader leaving takes it back to zero.
pub proof fn lemma_read_round_trip()
    ensures
        0 + ONE_READER == ONE_READER,
        !write_mode_of(ONE_READER) && readers_of(ONE_READER) == 1 && writers_of(ONE_READER) == 0,
        lock_status_spec(ONE_READER) == LockStatus::ReadLocked(1),
        ONE_READER - ONE_READER == 0,
{
    lemma_unlocked_and_first_writer();
    lemma_add_reader(0);
}

} // verus!
