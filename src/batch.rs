//! The batch manager: which application runs next, and loading it.
use vstd::prelude::*;

use crate::app_table::AppTable;
use crate::config::{APP_BASE_ADDRESS, APP_SIZE_LIMIT, USER_STACK_TOP};
use crate::event::{Action, Event};
use crate::trap::TrapContext;

verus! {

/// The index of the next application after one advancement: one more while
/// applications remain, unchanged once they are exhausted.
pub open spec fn advanced(count: nat, current: nat) -> nat {
    if current < count {
        current + 1
    } else {
        current
    }
}

/// The application that an advancement launches: the current one while any
/// remain, none once they are exhausted.
pub open spec fn launch_target(count: nat, current: nat) -> Option<nat> {
    if current < count {
        Some(current)
    } else {
        None
    }
}

/// What an advancement reports on the console.
pub open spec fn advance_event(count: nat, current: nat) -> Event {
    if current < count {
        Event::LoadApp(current as usize)
    } else {
        Event::AllDone
    }
}

/// The index of the next application after `n` advancements from `current`.
pub open spec fn index_after(count: nat, current: nat, n: nat) -> nat
    decreases n,
{
    if n == 0 {
        current
    } else {
        advanced(count, index_after(count, current, (n - 1) as nat))
    }
}

/// From a fresh batch, `n` advancements leave the index at `n`, capped at
/// the number of applications.
proof fn lemma_index_after_from_start(count: nat, n: nat)
    ensures
        index_after(count, 0, n) == if n <= count {
            n
        } else {
            count
        },
    decreases n,
{
    if n > 0 {
        lemma_index_after_from_start(count, (n - 1) as nat);
    }
}

/// A batch of `count >= 1` applications calls `run_next_app` exactly
/// `count + 1` times: call number `i` (from zero) loads application `i` for
/// every `i < count`, and call number `count` finds no application left and
/// halts the machine, after which nothing runs.
pub proof fn lemma_launch_sequence(count: nat)
    requires
        count >= 1,
    ensures
        forall|i: nat| i < count ==> #[trigger] launch_target(count, index_after(count, 0, i)) == Some(i),
        launch_target(count, index_after(count, 0, count)) is None,
{
    assert forall|i: nat| i < count implies #[trigger] launch_target(count, index_after(count, 0, i))
        == Some(i) by {
        lemma_index_after_from_start(count, i);
    }
    lemma_index_after_from_start(count, count);
}

/// Each advancement that loads an application raises the index by exactly
/// one; the index never decreases, and it never takes the same value twice
/// while applications remain.
pub proof fn lemma_index_increases(count: nat, current: nat, i: nat, j: nat)
    requires
        i < j,
    ensures
        index_after(count, current, i) <= index_after(count, current, j),
        index_after(count, current, i) < count ==> index_after(count, current, i + 1) == index_after(
            count,
            current,
            i,
        ) + 1,
        index_after(count, current, i) < count ==> index_after(count, current, i) < index_after(
            count,
            current,
            j,
        ),
    decreases j,
{
    assert(index_after(count, current, i + 1) == advanced(count, index_after(count, current, i)));
    if j > i + 1 {
        lemma_index_increases(count, current, i, (j - 1) as nat);
        assert(index_after(count, current, j) == advanced(
            count,
            index_after(count, current, (j - 1) as nat),
        ));
    }
}

/// The contents of the execution window once `image` is loaded: the image,
/// then zeros up to the size of the window.
pub open spec fn loaded_window(image: Seq<u8>) -> Seq<u8> {
    image + Seq::new((APP_SIZE_LIMIT - image.len()) as nat, |i: int| 0u8)
}

/// The kernel's batch state: the application table, the index of the next
/// application to load, and the execution window.
pub struct BatchManager {
    table: AppTable,
    current: usize,
    window: Vec<u8>,
}

impl BatchManager {
    /// The application images, in order.
    pub closed spec fn images(&self) -> Seq<Seq<u8>> {
        self.table.view()
    }

    /// The number of applications.
    pub open spec fn count(&self) -> nat {
        self.images().len()
    }

    /// The index of the next application to load; equal to `count()` once
    /// every application has been loaded.
    pub closed spec fn current(&self) -> nat {
        self.current as nat
    }

    /// The contents of the execution window.
    pub closed spec fn window(&self) -> Seq<u8> {
        self.window@
    }

    pub closed spec fn wf(&self) -> bool {
        &&& self.table.wf()
        &&& self.current <= self.table.view().len()
        &&& self.window@.len() == APP_SIZE_LIMIT
    }

    /// A batch at its start: nothing loaded yet, an empty (zeroed) window.
    pub fn new(table: AppTable) -> (r: BatchManager)
        requires
            table.wf(),
        ensures
            r.wf(),
            r.images() == table.view(),
            r.current() == 0,
            r.window() == Seq::new(APP_SIZE_LIMIT as nat, |i: int| 0u8),
    {
        let mut window: Vec<u8> = Vec::new();
        let mut i: usize = 0;
        while i < APP_SIZE_LIMIT
            invariant
                i <= APP_SIZE_LIMIT,
                window@ == Seq::new(i as nat, |j: int| 0u8),
            decreases APP_SIZE_LIMIT - i,
        {
            window.push(0u8);
            i = i + 1;
            assert(window@ =~= Seq::new(i as nat, |j: int| 0u8));
        }
        BatchManager { table, current: 0, window }
    }

    /// The number of applications.
    pub fn app_count(&self) -> (r: usize)
        ensures
            r == self.count(),
    {
        self.table.len()
    }

    /// The index of the next application to load.
    pub fn current_index(&self) -> (r: usize)
        ensures
            r == self.current(),
    {
        self.current
    }

    /// The execution window, for reading application memory.
    pub fn window_bytes(&self) -> (r: &Vec<u8>)
        requires
            self.wf(),
        ensures
            r@ == self.window(),
            r@.len() == APP_SIZE_LIMIT,
    {
        &self.window
    }

    /// Copies application `k` into the execution window and zeroes the rest
    /// of the window, so that nothing of an earlier image survives.
    fn load(&mut self, k: usize)
        requires
            old(self).wf(),
            k < old(self).count(),
        ensures
            final(self).wf(),
            final(self).images() == old(self).images(),
            final(self).current() == old(self).current(),
            final(self).window() == loaded_window(old(self).images()[k as int]),
    {
        let len: usize = self.table.app_len(k);
        let ghost image = self.table.view()[k as int];
        let mut j: usize = 0;
        while j < APP_SIZE_LIMIT
            invariant
                self.wf(),
                self.images() == old(self).images(),
                self.current() == old(self).current(),
                k < self.count(),
                image == self.images()[k as int],
                len == image.len(),
                j <= APP_SIZE_LIMIT,
                forall|i: int| 0 <= i < j ==> #[trigger] self.window@[i] == loaded_window(image)[i],
            decreases APP_SIZE_LIMIT - j,
        {
            let byte: u8 = if j < len {
                self.table.app_byte(k, j)
            } else {
                0u8
            };
            self.window.set(j, byte);
            j = j + 1;
        }
        assert(self.window@ =~= loaded_window(image));
    }

    /// Moves the batch on: loads the next application and returns the frame
    /// to enter it with, or, when none is left, reports that the batch is
    /// done. The index advances before the application runs, so a fault in
    /// it can never select it again.
    pub fn run_next_app(&mut self, sstatus: usize, log: &mut Vec<Event>) -> (r: Action)
        requires
            old(self).wf(),
        ensures
            final(self).wf(),
            final(self).images() == old(self).images(),
            final(self).current() == advanced(old(self).count(), old(self).current()),
            r.launched() == launch_target(old(self).count(), old(self).current()),
            r !is Resume,
            r matches Action::Enter { context, .. } ==> context.is_initial(
                sstatus,
                APP_BASE_ADDRESS,
                USER_STACK_TOP,
            ),
            old(self).current() < old(self).count() ==> final(self).window() == loaded_window(
                old(self).images()[old(self).current() as int],
            ),
            old(self).current() >= old(self).count() ==> final(self).window() == old(self).window(),
            final(log)@ == old(log)@.push(advance_event(old(self).count(), old(self).current())),
    {
        if self.current >= self.table.len() {
            log.push(Event::AllDone);
            return Action::Halt;
        }
        let k: usize = self.current;
        self.load(k);
        self.current = k + 1;
        log.push(Event::LoadApp(k));
        let context = TrapContext::app_init_context(sstatus, APP_BASE_ADDRESS, USER_STACK_TOP);
        Action::Enter { app: k, context }
    }
}

} // verus!
