//! Which threads of the game the mod suspends while it patches the game's code.
use vstd::prelude::*;

verus! {

/// An entry of the system's thread list.
#[derive(Debug, Clone, Copy, PartialEq, Eq, Structural)]
pub struct ThreadEntry {
    pub thread_id: u32,
    pub owner_process_id: u32,
}

/// Whether `entry` is a thread of the process `own_process_id` other than `own_thread_id`.
pub open spec fn is_other_thread(entry: ThreadEntry, own_process_id: u32, own_thread_id: u32) -> bool {
    entry.owner_process_id == own_process_id && entry.thread_id != own_thread_id
}

/// The threads of the game's process except the caller's, in the order of the thread list.
pub fn other_threads(entries: &Vec<ThreadEntry>, own_process_id: u32, own_thread_id: u32) -> (r: Vec<ThreadEntry>)
    ensures
        r@ == entries@.filter(|e: ThreadEntry| is_other_thread(e, own_process_id, own_thread_id)),
{
    let ghost pred = |e: ThreadEntry| is_other_thread(e, own_process_id, own_thread_id);
    let mut threads: Vec<ThreadEntry> = Vec::new();
    let mut i: usize = 0;
    proof {
        reveal_with_fuel(Seq::filter, 1);
        assert(entries@.take(0) =~= Seq::<ThreadEntry>::empty());
    }
    while i < entries.len()
        invariant
            i <= entries@.len(),
            pred == (|e: ThreadEntry| is_other_thread(e, own_process_id, own_thread_id)),
            threads@ == entries@.take(i as int).filter(pred),
        decreases entries@.len() - i,
    {
        let entry = entries[i];
        proof {
            assert(entries@.take(i + 1).drop_last() =~= entries@.take(i as int));
            assert(entries@.take(i + 1).last() == entry);
            reveal_with_fuel(Seq::filter, 1);
        }
        if entry.owner_process_id == own_process_id && entry.thread_id != own_thread_id {
            threads.push(entry);
        }
        i = i + 1;
    }
    proof {
        assert(entries@.take(entries@.len() as int) =~= entries@);
    }
    threads
}

} // verus!
