use vstd::prelude::*;

use crate::error::Error;
use crate::map::{BpfMap, MapType};

verus! {

/// A registered handler, kept in a cell of its own.
pub struct RingBufferCallback<F> {
    cb: F,
}

impl<F> RingBufferCallback<F> {
    /// The handler held by the cell.
    pub closed spec fn handler(&self) -> F {
        self.cb
    }

    pub fn new(cb: F) -> (r: Self)
        ensures
            r.handler() == cb,
    {
        RingBufferCallback { cb }
    }
}

impl<F: FnMut(&[u8]) -> i32> RingBufferCallback<F> {
    /// Hands one record to the handler and returns the handler's status unchanged.
    pub fn call(&mut self, data: &[u8]) -> (r: i32)
        requires
            call_requires(old(self).handler(), (data,)),
        ensures
            call_ensures(old(self).handler(), (data,), r),
    {
        (self.cb)(data)
    }
}

/// Collects ring-buffer channels and their handlers, in registration order.
pub struct RingBufferBuilder<F> {
    fd_callbacks: Vec<(i32, RingBufferCallback<F>)>,
}

impl<F> View for RingBufferBuilder<F> {
    /// The registrations so far: descriptor and handler, in registration order.
    type V = Seq<(i32, F)>;

    closed spec fn view(&self) -> Seq<(i32, F)> {
        self.fd_callbacks@.map_values(|p: (i32, RingBufferCallback<F>)| (p.0, p.1.cb))
    }
}

impl<F> RingBufferBuilder<F> {
    pub fn new() -> (r: Self)
        ensures
            r@ == Seq::<(i32, F)>::empty(),
    {
        let r = RingBufferBuilder { fd_callbacks: Vec::new() };
        assert(r@ =~= Seq::<(i32, F)>::empty());
        r
    }

    pub fn add(&mut self, map: &BpfMap, callback: F) -> (r: Result<&mut Self, Error>)
        ensures
            map.map_type == MapType::RingBuf <==> r is Ok,
            match r {
                Ok(b) => {
                    &&& (*b)@ == old(self)@.push((map.fd, callback))
                    &&& *final(self) == *final(b)
                },
                Err(_) => final(self)@ == old(self)@,
            },
    {
        if map.map_type() != MapType::RingBuf {
            return Err(Error::InvalidInput("must use a ring-buffer map".to_string()));
        }
        self.fd_callbacks.push((map.fd(), RingBufferCallback::new(callback)));
        Ok(self)
    }

    /// Starts turning the registrations into a live ring buffer. Fails, before
    /// anything foreign is touched, when nothing was registered.
    pub fn build(self) -> (r: Result<RingBufferBuild<F>, Error>)
        ensures
            self@.len() == 0 <==> r is Err,
            r is Err ==> r->Err_0 is InvalidInput,
            r is Ok ==> {
                let b = r->Ok_0;
                &&& b.wf()
                &&& b.fds() == self@.map_values(|p: (i32, F)| p.0)
                &&& b.handlers() == self@.map_values(|p: (i32, F)| p.1)
                &&& b.progress() == BuildProgress::start()
            },
    {
        let mut regs = self.fd_callbacks;
        if regs.len() == 0 {
            return Err(
                Error::InvalidInput(
                    "must add at least one ring-buffer map and handler before building".to_string(),
                ),
            );
        }
        let ghost orig = regs@;
        let n = regs.len();
        // Move the cells out from the back, then back into registration order.
        let mut rev_fds: Vec<i32> = Vec::new();
        let mut rev_cbs: Vec<Box<RingBufferCallback<F>>> = Vec::new();
        while regs.len() > 0
            invariant
                regs@.len() + rev_fds@.len() == n,
                rev_cbs@.len() == rev_fds@.len(),
                n == orig.len(),
                regs@ == orig.subrange(0, regs@.len() as int),
                forall|j: int| 0 <= j < rev_fds@.len() ==> #[trigger] rev_fds@[j] == orig[n - 1 - j].0,
                forall|j: int|
                    0 <= j < rev_cbs@.len() ==> (*#[trigger] rev_cbs@[j]).cb == orig[n - 1 - j].1.cb,
            decreases regs@.len(),
        {
            let (fd, cell) = regs.pop().unwrap();
            rev_fds.push(fd);
            rev_cbs.push(Box::new(cell));
        }
        let mut fds: Vec<i32> = Vec::new();
        let mut cbs: Vec<Box<RingBufferCallback<F>>> = Vec::new();
        while rev_fds.len() > 0
            invariant
                fds@.len() + rev_fds@.len() == n,
                rev_cbs@.len() == rev_fds@.len(),
                cbs@.len() == fds@.len(),
                n == orig.len(),
                forall|j: int| 0 <= j < rev_fds@.len() ==> #[trigger] rev_fds@[j] == orig[n - 1 - j].0,
                forall|j: int|
                    0 <= j < rev_cbs@.len() ==> (*#[trigger] rev_cbs@[j]).cb == orig[n - 1 - j].1.cb,
                forall|j: int| 0 <= j < fds@.len() ==> #[trigger] fds@[j] == orig[j].0,
                forall|j: int| 0 <= j < cbs@.len() ==> (*#[trigger] cbs@[j]).cb == orig[j].1.cb,
            decreases rev_fds@.len(),
        {
            let fd = rev_fds.pop().unwrap();
            let cell = rev_cbs.pop().unwrap();
            fds.push(fd);
            cbs.push(cell);
        }
        let b = RingBufferBuild { fds, cbs, attached: 0, handle: None, failed: None };
        assert(b.fds() =~= self@.map_values(|p: (i32, F)| p.0));
        assert(b.handlers() =~= self@.map_values(|p: (i32, F)| p.1));
        Ok(b)
    }
}

/// The outcome of a foreign call, as the caller reports it back.
#[derive(Debug, PartialEq, Eq)]
pub enum BuildEvent {
    /// Creating the merged object gave this handle, or failed with this code.
    Created(Result<usize, i32>),
    /// Adding a channel to the merged object returned this status; 0 is success.
    Added(i32),
}

/// What the caller is to do next while building.
#[derive(Debug, PartialEq, Eq)]
pub enum BuildAction {
    /// Create the merged object for channel `fd`, with the cell at `index` as context.
    Create { fd: i32, index: usize },
    /// Add channel `fd` to the merged object `handle`, with the cell at `index` as context.
    Add { handle: usize, fd: i32, index: usize },
    /// Every channel is attached: take the ring buffer with `finish`.
    Finish,
    /// Building failed; `release` is the merged object to free before the cells go.
    Fail { error: Error, release: Option<usize> },
}

/// How far a build has come.
pub struct BuildProgress {
    /// Channels attached to the merged object so far.
    pub attached: nat,
    /// The merged object, once created.
    pub handle: Option<usize>,
    /// The code of the foreign failure that stopped the build, if one did.
    pub failed: Option<i32>,
}

impl BuildProgress {
    pub open spec fn start() -> BuildProgress {
        BuildProgress { attached: 0, handle: None, failed: None }
    }
}

/// The action owed in `p` for channels `fds`.
pub open spec fn action_of(fds: Seq<i32>, p: BuildProgress) -> BuildAction {
    match p.failed {
        Some(c) => BuildAction::Fail { error: Error::System(c), release: p.handle },
        None => if p.attached >= fds.len() {
            BuildAction::Finish
        } else if p.attached == 0 {
            BuildAction::Create { fd: fds[0], index: 0 }
        } else {
            BuildAction::Add {
                handle: p.handle.unwrap(),
                fd: fds[p.attached as int],
                index: p.attached as usize,
            }
        },
    }
}

/// The progress after event `e` answers action `a` in `p`; an event that does
/// not answer the action changes nothing.
pub open spec fn advance(p: BuildProgress, a: BuildAction, e: BuildEvent) -> BuildProgress {
    match (a, e) {
        (BuildAction::Create { .. }, BuildEvent::Created(Ok(h))) => BuildProgress {
            attached: 1,
            handle: Some(h),
            failed: None,
        },
        (BuildAction::Create { .. }, BuildEvent::Created(Err(c))) => BuildProgress {
            failed: Some(c),
            ..p
        },
        (BuildAction::Add { .. }, BuildEvent::Added(c)) => if c == 0 {
            BuildProgress { attached: p.attached + 1, ..p }
        } else {
            BuildProgress { failed: Some(c), ..p }
        },
        _ => p,
    }
}

/// A build in progress: the registered channels, their cells, each boxed once
/// so that its address stays put while the merged object refers to it, and
/// the progress so far.
pub struct RingBufferBuild<F> {
    fds: Vec<i32>,
    cbs: Vec<Box<RingBufferCallback<F>>>,
    attached: usize,
    handle: Option<usize>,
    failed: Option<i32>,
}

impl<F> RingBufferBuild<F> {
    /// The descriptors of the channels, in registration order.
    pub closed spec fn fds(&self) -> Seq<i32> {
        self.fds@
    }

    /// The handlers, in registration order.
    pub closed spec fn handlers(&self) -> Seq<F> {
        self.cbs@.map_values(|c: Box<RingBufferCallback<F>>| c.cb)
    }

    pub closed spec fn progress(&self) -> BuildProgress {
        BuildProgress { attached: self.attached as nat, handle: self.handle, failed: self.failed }
    }

    pub closed spec fn wf(&self) -> bool {
        &&& self.fds@.len() == self.cbs@.len()
        &&& self.fds@.len() >= 1
        &&& self.attached <= self.fds@.len()
        &&& self.handle is Some <==> self.attached >= 1
        &&& self.failed is Some ==> self.attached < self.fds@.len()
    }

    /// The action owed now.
    pub fn action(&self) -> (r: BuildAction)
        requires
            self.wf(),
        ensures
            r == action_of(self.fds(), self.progress()),
    {
        match self.failed {
            Some(c) => BuildAction::Fail { error: Error::System(c), release: self.handle },
            None => if self.attached >= self.fds.len() {
                BuildAction::Finish
            } else if self.attached == 0 {
                BuildAction::Create { fd: self.fds[0], index: 0 }
            } else {
                BuildAction::Add {
                    handle: self.handle.unwrap(),
                    fd: self.fds[self.attached],
                    index: self.attached,
                }
            },
        }
    }

    /// Takes the outcome of the foreign call that the last action asked for,
    /// and returns the action owed next.
    pub fn report(&mut self, event: BuildEvent) -> (r: BuildAction)
        requires
            old(self).wf(),
        ensures
            final(self).wf(),
            final(self).fds() == old(self).fds(),
            final(self).handlers() == old(self).handlers(),
            final(self).progress() == advance(
                old(self).progress(),
                action_of(old(self).fds(), old(self).progress()),
                event,
            ),
            r == action_of(final(self).fds(), final(self).progress()),
    {
        let a = self.action();
        match (a, event) {
            (BuildAction::Create { .. }, BuildEvent::Created(Ok(h))) => {
                self.attached = 1;
                self.handle = Some(h);
            },
            (BuildAction::Create { .. }, BuildEvent::Created(Err(c))) => {
                self.failed = Some(c);
            },
            (BuildAction::Add { .. }, BuildEvent::Added(c)) => {
                assert(self.attached < self.fds.len());
                if c == 0 {
                    self.attached = self.attached + 1;
                } else {
                    self.failed = Some(c);
                }
            },
            _ => {},
        }
        self.action()
    }

    /// The cell of the channel at `index`, whose address the foreign side is given.
    pub fn cell_mut(&mut self, index: usize) -> (r: &mut RingBufferCallback<F>)
        requires
            old(self).wf(),
            index < old(self).fds().len(),
        ensures
            r.handler() == old(self).handlers()[index as int],
            final(self).wf(),
            final(self).fds() == old(self).fds(),
            final(self).progress() == old(self).progress(),
            final(self).handlers() == old(self).handlers().update(
                index as int,
                (*final(r)).handler(),
            ),
    {
        &mut *self.cbs[index]
    }

    /// The live ring buffer, once every channel is attached; `None` before
    /// that or after a failure.
    pub fn finish(self) -> (r: Option<RingBuffer<F>>)
        requires
            self.wf(),
        ensures
            r is Some <==> action_of(self.fds(), self.progress()) is Finish,
            r is Some ==> {
                &&& r->Some_0.merged_handle() == self.progress().handle.unwrap()
                &&& r->Some_0.handlers() == self.handlers()
            },
    {
        if self.failed.is_none() && self.attached >= self.fds.len() {
            Some(RingBuffer { ptr: self.handle.unwrap(), cbs: self.cbs })
        } else {
            None
        }
    }
}

/// A live multiplexer: the merged polling object, by address, and the cells of
/// every handler it may call, kept in registration order for as long as it lives.
pub struct RingBuffer<F> {
    ptr: usize,
    cbs: Vec<Box<RingBufferCallback<F>>>,
}

impl<F> RingBuffer<F> {
    /// The address of the merged polling object.
    pub closed spec fn merged_handle(&self) -> usize {
        self.ptr
    }

    /// The handlers, in registration order.
    pub closed spec fn handlers(&self) -> Seq<F> {
        self.cbs@.map_values(|c: Box<RingBufferCallback<F>>| c.cb)
    }

    /// The address of the merged polling object.
    pub fn handle(&self) -> (r: usize)
        ensures
            r == self.merged_handle(),
    {
        self.ptr
    }

    /// The number of handler cells kept.
    pub fn len(&self) -> (r: usize)
        ensures
            r == self.handlers().len(),
    {
        self.cbs.len()
    }
}

/// Nanoseconds of the largest duration's last second.
pub const MAX_SUBSEC_NANOS: u32 = 999_999_999;

/// The foreign poll's timeout for a duration of `secs` seconds and
/// `subsec_nanos` nanoseconds: -1, to wait without limit, for the largest
/// duration; otherwise the whole milliseconds, cut to 32 bits.
pub open spec fn timeout_ms(secs: u64, subsec_nanos: u32) -> i32 {
    if secs == u64::MAX && subsec_nanos == MAX_SUBSEC_NANOS {
        -1i32
    } else {
        (secs * 1000 + subsec_nanos / 1_000_000) as i32
    }
}

/// Converts a poll timeout, given as a duration's seconds and nanoseconds.
pub fn poll_timeout_ms(secs: u64, subsec_nanos: u32) -> (r: i32)
    requires
        subsec_nanos <= MAX_SUBSEC_NANOS,
    ensures
        r == timeout_ms(secs, subsec_nanos),
{
    if secs == u64::MAX && subsec_nanos == MAX_SUBSEC_NANOS {
        -1
    } else {
        let ms: u128 = secs as u128 * 1000 + (subsec_nanos / 1_000_000) as u128;
        #[verifier::truncate]
        (ms as i32)
    }
}

} // verus!
