use vstd::prelude::*;

use crate::naming::{device_name, lemma_names_distinct, name_of};

verus! {

/// What the host is asked to do next while the fleet starts or unwinds.
#[derive(Clone, Copy, Debug, PartialEq, Eq, Structural)]
pub enum Step {
    /// Expose the device with this index under its name.
    Register(usize),
    /// Withdraw the most recently registered handle.
    Release,
    /// Every device is exposed; the fleet is running.
    Ready,
    /// Starting failed and every earlier handle is withdrawn.
    Abort,
    /// The fleet was shut down.
    Closed,
}

/// The fleet: one name per configured device, and the host handles
/// registered so far, in index order.
pub struct DeviceRegistry<H> {
    names: Vec<String>,
    handles: Vec<H>,
    unwinding: bool,
    closed: bool,
}

impl<H> DeviceRegistry<H> {
    /// The configured number of devices.
    pub closed spec fn count(&self) -> nat {
        self.names@.len()
    }

    /// The name of each configured device, by index.
    pub closed spec fn names(&self) -> Seq<Seq<char>> {
        self.names@.map_values(|s: String| s@)
    }

    /// The handles registered so far; the one at `i` exposes device `i`.
    pub closed spec fn handles(&self) -> Seq<H> {
        self.handles@
    }

    /// Whether a registration was refused and starting is being undone.
    pub closed spec fn unwinding(&self) -> bool {
        self.unwinding
    }

    /// Whether the fleet was shut down.
    pub closed spec fn is_closed(&self) -> bool {
        self.closed
    }

    /// Names follow the indices, and no more handles than devices exist.
    pub open spec fn wf(&self) -> bool {
        &&& self.names().len() == self.count()
        &&& forall|i: int| 0 <= i < self.count() ==> self.names()[i] == name_of(i as nat)
        &&& self.handles().len() <= self.count()
        &&& self.is_closed() ==> self.handles().len() == 0
    }

    /// The next step, as a function of the state.
    pub open spec fn spec_step(&self) -> Step {
        if self.is_closed() {
            Step::Closed
        } else if self.unwinding() {
            if self.handles().len() > 0 {
                Step::Release
            } else {
                Step::Abort
            }
        } else if self.handles().len() < self.count() {
            Step::Register(self.handles().len() as usize)
        } else {
            Step::Ready
        }
    }

    /// A fleet of `count` devices, named by index, none registered yet.
    pub fn begin(count: usize) -> (r: Self)
        ensures
            r.wf(),
            r.count() == count,
            r.handles().len() == 0,
            !r.unwinding(),
            !r.is_closed(),
    {
        let mut names: Vec<String> = Vec::new();
        let mut i: usize = 0;
        while i < count
            invariant
                i <= count,
                names@.len() == i,
                forall|j: int| 0 <= j < i ==> names@[j]@ == name_of(j as nat),
            decreases count - i,
        {
            names.push(device_name(i));
            i = i + 1;
        }
        let r = DeviceRegistry { names, handles: Vec::new(), unwinding: false, closed: false };
        assert(r.names().len() == r.count());
        r
    }

    /// The next step.
    pub fn next_step(&self) -> (s: Step)
        ensures
            s == self.spec_step(),
    {
        if self.closed {
            Step::Closed
        } else if self.unwinding {
            if self.handles.len() > 0 {
                Step::Release
            } else {
                Step::Abort
            }
        } else if self.handles.len() < self.names.len() {
            Step::Register(self.handles.len())
        } else {
            Step::Ready
        }
    }

    /// The configured number of devices.
    pub fn count_devices(&self) -> (r: usize)
        ensures
            r == self.count(),
    {
        self.names.len()
    }

    /// The number of handles registered.
    pub fn len(&self) -> (r: usize)
        ensures
            r == self.handles().len(),
    {
        self.handles.len()
    }

    /// Whether no handle is registered.
    pub fn is_empty(&self) -> (r: bool)
        ensures
            r == (self.handles().len() == 0),
    {
        self.handles.len() == 0
    }

    /// The name of device `index`.
    pub fn name(&self, index: usize) -> (r: String)
        requires
            index < self.count(),
        ensures
            r@ == self.names()[index as int],
    {
        self.names[index].clone()
    }

    /// The handle that exposes device `index`.
    pub fn handle(&self, index: usize) -> (r: &H)
        requires
            index < self.handles().len(),
        ensures
            *r == self.handles()[index as int],
    {
        &self.handles[index]
    }

    /// The host exposed the device that `next_step` named, under `handle`.
    pub fn registered(&mut self, handle: H)
        requires
            old(self).wf(),
            old(self).spec_step() is Register,
        ensures
            final(self).wf(),
            final(self).handles() == old(self).handles().push(handle),
            final(self).names() == old(self).names(),
            final(self).count() == old(self).count(),
            final(self).unwinding() == old(self).unwinding(),
            final(self).is_closed() == old(self).is_closed(),
    {
        self.handles.push(handle);
    }

    /// The host refused the device that `next_step` named: every handle
    /// registered before it is to be withdrawn.
    pub fn rejected(&mut self)
        requires
            old(self).wf(),
            old(self).spec_step() is Register,
        ensures
            final(self).wf(),
            final(self).handles() == old(self).handles(),
            final(self).names() == old(self).names(),
            final(self).count() == old(self).count(),
            final(self).unwinding(),
            !final(self).is_closed(),
    {
        self.unwinding = true;
    }

    /// Hands back the most recently registered handle, for the host to
    /// withdraw while starting is undone.
    pub fn release(&mut self) -> (h: H)
        requires
            old(self).wf(),
            old(self).spec_step() == Step::Release,
        ensures
            final(self).wf(),
            h == old(self).handles().last(),
            final(self).handles() == old(self).handles().drop_last(),
            final(self).names() == old(self).names(),
            final(self).count() == old(self).count(),
            final(self).unwinding(),
            !final(self).is_closed(),
    {
        self.handles.pop().unwrap()
    }

    /// Shuts the fleet down: hands back every registered handle, in index
    /// order, for the host to withdraw. A second call hands back nothing.
    pub fn shutdown(&mut self) -> (r: Vec<H>)
        requires
            old(self).wf(),
        ensures
            final(self).wf(),
            r@ == old(self).handles(),
            final(self).handles().len() == 0,
            final(self).names() == old(self).names(),
            final(self).count() == old(self).count(),
            final(self).is_closed(),
    {
        let mut out: Vec<H> = Vec::new();
        std::mem::swap(&mut out, &mut self.handles);
        self.closed = true;
        out
    }
}

/// A fleet that has finished starting exposes exactly one handle per
/// configured device, and the devices' names are pairwise distinct.
pub proof fn lemma_started_fleet<H>(r: DeviceRegistry<H>)
    requires
        r.wf(),
        r.spec_step() == Step::Ready,
    ensures
        r.handles().len() == r.count(),
        forall|i: int, j: int|
            0 <= i < r.count() && 0 <= j < r.count() && i != j ==> r.names()[i] != r.names()[j],
{
    assert forall|i: int, j: int|
        0 <= i < r.count() && 0 <= j < r.count() && i != j implies r.names()[i]
        != r.names()[j] by {
        lemma_names_distinct(i as nat, j as nat);
    }
}

/// Starting reports failure only once every handle registered before the
/// refusal has been handed back for withdrawal.
pub proof fn lemma_abort_leaves_no_handle<H>(r: DeviceRegistry<H>)
    requires
        r.wf(),
        r.spec_step() == Step::Abort,
    ensures
        r.handles().len() == 0,
        r.unwinding(),
{
}

/// A fleet of no devices is running as soon as it begins, and shutting it
/// down has nothing to withdraw.
pub proof fn lemma_empty_fleet<H>(r: DeviceRegistry<H>)
    requires
        r.wf(),
        r.count() == 0,
        !r.unwinding(),
        !r.is_closed(),
    ensures
        r.spec_step() == Step::Ready,
        r.handles().len() == 0,
{
}

} // verus!
