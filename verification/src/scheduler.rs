//! The compile scheduler's bookkeeping: the queue of pending items that
//! the workers of a pool share, the loop of one worker, and a pool whose
//! workers take their turns on the calling thread.

use vstd::prelude::*;

verus! {

/// The size of the pool: the parallelism that the hardware offers, and
/// one worker where that is unknown or given as none.
pub fn worker_count(available: Option<usize>) -> (count: usize)
    ensures
        count >= 1,
        count == match available {
            Some(n) => if n == 0 {
                1
            } else {
                n
            },
            None => 1,
        },
{
    match available {
        Some(n) => if n == 0 {
            1
        } else {
            n
        },
        None => 1,
    }
}

/// The items that no worker has taken yet. An item leaves the queue when a
/// worker takes it, so that no two workers are given the same item.
pub struct PendingQueue<T> {
    /// The items still to hand out, the next one last.
    backwards: Vec<T>,
}

impl<T> View for PendingQueue<T> {
    type V = Seq<T>;

    /// The pending items, the next one first.
    closed spec fn view(&self) -> Seq<T> {
        Seq::new(
            self.backwards@.len(),
            |i: int| self.backwards@[self.backwards@.len() - 1 - i],
        )
    }
}

impl<T> PendingQueue<T> {
    /// A queue that hands out `items` from the first to the last.
    pub fn new(items: Vec<T>) -> (queue: PendingQueue<T>)
        ensures
            queue@ == items@,
    {
        let ghost all = items@;
        let mut items = items;
        let mut backwards: Vec<T> = Vec::new();
        loop
            invariant
                items@.len() + backwards@.len() == all.len(),
                items@ == all.take(items@.len() as int),
                forall|i: int|
                    0 <= i < backwards@.len() ==> backwards@[i] == all[all.len() - 1 - i],
            ensures
                items@.len() == 0,
            decreases items@.len(),
        {
            match items.pop() {
                Some(item) => {
                    backwards.push(item);
                },
                None => {
                    break ;
                },
            }
        }
        let queue = PendingQueue { backwards };
        assert(queue@ =~= all);
        queue
    }

    /// How many items are pending.
    pub fn len(&self) -> (n: usize)
        ensures
            n == self@.len(),
    {
        self.backwards.len()
    }

    /// Takes the next pending item out of the queue; `None` where the
    /// queue is empty.
    pub fn take(&mut self) -> (next: Option<T>)
        ensures
            match next {
                Some(item) => old(self)@.len() > 0 && item == old(self)@[0] && final(self)@
                    == old(self)@.drop_first(),
                None => old(self)@.len() == 0 && final(self)@ == old(self)@,
            },
    {
        let next = self.backwards.pop();
        proof {
            if next is Some {
                assert(final(self)@ =~= old(self)@.drop_first());
            } else {
                assert(final(self)@ =~= old(self)@);
            }
        }
        next
    }
}

/// Whether `results` holds, after what was there `before`, one result of
/// `task` for each of `items`, in their order.
pub open spec fn ran_each<I, O, F: Fn(I) -> O>(
    task: &F,
    items: Seq<I>,
    before: Seq<O>,
    results: Seq<O>,
) -> bool {
    &&& results.len() == before.len() + items.len()
    &&& forall|i: int| 0 <= i < before.len() ==> results[i] == before[i]
    &&& forall|i: int|
        0 <= i < items.len() ==> call_ensures(*task, (items[i],), #[trigger] results[before.len() + i])
}

/// The loop of one worker: as long as the queue holds an item, takes the
/// next one, runs the task on it and records what it returned. When the
/// worker ends, the queue is empty and every item it held was run once.
pub fn run_worker<I, O, F: Fn(I) -> O>(queue: &mut PendingQueue<I>, results: &mut Vec<O>, task: &F)
    requires
        forall|i: int| 0 <= i < old(queue)@.len() ==> call_requires(*task, (old(queue)@[i],)),
    ensures
        final(queue)@.len() == 0,
        ran_each(task, old(queue)@, old(results)@, final(results)@),
{
    let ghost items = queue@;
    let ghost before = results@;
    loop
        invariant
            queue@.len() <= items.len(),
            queue@ == items.skip(items.len() - queue@.len()),
            forall|i: int| 0 <= i < items.len() ==> call_requires(*task, (items[i],)),
            ran_each(task, items.take(items.len() - queue@.len()), before, results@),
        ensures
            queue@.len() == 0,
        decreases queue@.len(),
    {
        let ghost done = items.len() - queue@.len();
        match queue.take() {
            Some(item) => {
                assert(item == items[done]);
                let result = task(item);
                results.push(result);
                assert(queue@ =~= items.skip(items.len() - queue@.len()));
                assert(ran_each(task, items.take(done + 1), before, results@)) by {
                    assert forall|i: int| 0 <= i < done + 1 implies call_ensures(
                        *task,
                        (items.take(done + 1)[i],),
                        #[trigger] results@[before.len() + i],
                    ) by {
                        if i < done {
                            assert(items.take(done)[i] == items.take(done + 1)[i]);
                        }
                    }
                }
            },
            None => {
                break ;
            },
        }
    }
    assert(items.take(items.len() - queue@.len()) =~= items);
}

/// Runs the task on every item with a pool of `workers` workers that take
/// their turns on the calling thread; a pool of no worker counts as one.
/// Whatever the size of the pool, there are as many results as items, and
/// the result at each place is what the task returned for the item at that
/// place: every item was run, and none twice.
pub fn run_pool<I, O, F: Fn(I) -> O>(data: Vec<I>, task: F, workers: usize) -> (results: Vec<O>)
    requires
        forall|i: int| 0 <= i < data@.len() ==> call_requires(task, (data@[i],)),
    ensures
        results@.len() == data@.len(),
        forall|i: int| 0 <= i < data@.len() ==> call_ensures(task, (data@[i],), #[trigger] results@[i]),
{
    let ghost items = data@;
    let mut queue = PendingQueue::new(data);
    let mut results: Vec<O> = Vec::new();
    let count = worker_count(Some(workers));
    run_worker(&mut queue, &mut results, &task);
    let mut worker: usize = 1;
    while worker < count
        invariant
            1 <= worker <= count,
            queue@.len() == 0,
            ran_each(&task, items, Seq::<O>::empty(), results@),
        decreases count - worker,
    {
        let ghost so_far = results@;
        run_worker(&mut queue, &mut results, &task);
        assert(results@ =~= so_far);
        worker += 1;
    }
    assert forall|i: int| 0 <= i < items.len() implies call_ensures(
        task,
        (items[i],),
        #[trigger] results@[i],
    ) by {
        assert(results@[i] == results@[Seq::<O>::empty().len() + i]);
    }
    results
}

} // verus!
