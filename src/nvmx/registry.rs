//! The registry of NVMe controllers, looked up by name before attachment
//! and by numeric id from channel callbacks. Names are unique.

use vstd::prelude::*;
use crate::nvmx::controller::{NvmeController, NvmeControllerState, NvmeNamespace};
use crate::text::str_eq;

verus! {

/// The controllers of this process.
#[derive(Debug)]
pub struct NvmeControllerRegistry {
    pub controllers: Vec<NvmeController>,
}

/// Why a registry operation was refused.
#[derive(Clone, Copy, Debug, PartialEq, Eq, Structural)]
pub enum RegistryError {
    /// a controller of that name is registered already
    Exists,
    /// no controller of that name is registered
    NotFound,
    /// the controller is not being destroyed, or channels remain
    Busy,
}

/// Whether no two controllers share a name.
pub open spec fn names_unique(cs: Seq<NvmeController>) -> bool {
    forall|i: int, j: int| 0 <= i < cs.len() && 0 <= j < cs.len() && i != j ==> #[trigger] cs[i].name@ != #[trigger] cs[j].name@
}

impl NvmeControllerRegistry {
    pub open spec fn wf(&self) -> bool {
        names_unique(self.controllers@)
    }

    /// An empty registry.
    pub fn new() -> (r: NvmeControllerRegistry)
        ensures
            r.wf(),
            r.controllers@.len() == 0,
    {
        NvmeControllerRegistry { controllers: Vec::new() }
    }

    /// The index of the controller with this name.
    pub fn lookup_by_name(&self, name: &str) -> (r: Option<usize>)
        ensures
            match r {
                Some(i) => i < self.controllers@.len() && self.controllers@[i as int].name@ == name@,
                None => forall|j: int| 0 <= j < self.controllers@.len() ==> (#[trigger] self.controllers@[j]).name@ != name@,
            },
    {
        let mut i: usize = 0;
        while i < self.controllers.len()
            invariant
                i <= self.controllers@.len(),
                forall|j: int| 0 <= j < i ==> (#[trigger] self.controllers@[j]).name@ != name@,
            decreases self.controllers@.len() - i,
        {
            if str_eq(self.controllers[i].name.as_str(), name) {
                return Some(i);
            }
            i = i + 1;
        }
        None
    }

    /// The index of an attached controller with this id; an id of zero
    /// names no controller.
    pub fn lookup_by_id(&self, id: u64) -> (r: Option<usize>)
        ensures
            match r {
                Some(i) => id != 0 && i < self.controllers@.len() && self.controllers@[i as int].id == id,
                None => id == 0 || forall|j: int| 0 <= j < self.controllers@.len() ==> (#[trigger] self.controllers@[j]).id != id,
            },
    {
        if id == 0 {
            return None;
        }
        let mut i: usize = 0;
        while i < self.controllers.len()
            invariant
                id != 0,
                i <= self.controllers@.len(),
                forall|j: int| 0 <= j < i ==> (#[trigger] self.controllers@[j]).id != id,
            decreases self.controllers@.len() - i,
        {
            if self.controllers[i].id == id {
                return Some(i);
            }
            i = i + 1;
        }
        None
    }

    /// Register a controller, unless one of that name is registered.
    pub fn insert_controller(&mut self, c: NvmeController) -> (r: Result<usize, RegistryError>)
        requires
            old(self).wf(),
        ensures
            final(self).wf(),
            (exists|j: int| 0 <= j < old(self).controllers@.len() && (#[trigger] old(self).controllers@[j]).name@ == c.name@)
                ==> r == Err::<usize, RegistryError>(RegistryError::Exists) && final(self).controllers == old(self).controllers,
            (forall|j: int| 0 <= j < old(self).controllers@.len() ==> (#[trigger] old(self).controllers@[j]).name@ != c.name@)
                ==> r == Ok::<usize, RegistryError>(old(self).controllers@.len() as usize) && final(self).controllers@ == old(
                self,
            ).controllers@.push(c),
    {
        if self.lookup_by_name(c.name.as_str()).is_some() {
            return Err(RegistryError::Exists);
        }
        let n = self.controllers.len();
        let ghost before = self.controllers@;
        self.controllers.push(c);
        proof {
            assert forall|i: int, j: int|
                0 <= i < self.controllers@.len() && 0 <= j < self.controllers@.len() && i != j implies #[trigger] self.controllers@[i].name@
                != #[trigger] self.controllers@[j].name@ by {
                if i < before.len() && j < before.len() {
                    assert(self.controllers@[i] == before[i]);
                    assert(self.controllers@[j] == before[j]);
                } else if i < before.len() {
                    assert(self.controllers@[i] == before[i]);
                } else {
                    assert(self.controllers@[j] == before[j]);
                }
            }
        }
        Ok(n)
    }

    /// Complete the attachment of the named controller: it takes the
    /// runtime's handle as its id, so that channel callbacks find it by id,
    /// and starts running.
    pub fn attached(&mut self, name: &str, ctrlr: u64, namespace: Option<NvmeNamespace>) -> (r: Result<usize, RegistryError>)
        requires
            old(self).wf(),
            forall|j: int| 0 <= j < old(self).controllers@.len() ==> (#[trigger] old(self).controllers@[j]).wf(),
            ctrlr != 0,
        ensures
            final(self).wf(),
            final(self).controllers@.len() == old(self).controllers@.len(),
            match r {
                Ok(i) => i < final(self).controllers@.len() && old(self).controllers@[i as int].name@ == name@
                    && old(self).controllers@[i as int].state == NvmeControllerState::Initializing
                    && final(self).controllers@[i as int].state == NvmeControllerState::Running
                    && final(self).controllers@[i as int].id == ctrlr
                    && final(self).controllers@[i as int].name@ == name@,
                Err(RegistryError::NotFound) => final(self).controllers == old(self).controllers && forall|j: int|
                    0 <= j < old(self).controllers@.len() ==> (#[trigger] old(self).controllers@[j]).name@ != name@,
                Err(_) => final(self).controllers == old(self).controllers,
            },
            (exists|j: int| 0 <= j < old(self).controllers@.len() && (#[trigger] old(self).controllers@[j]).name@ == name@
                && old(self).controllers@[j].state == NvmeControllerState::Initializing) ==> r is Ok,
            (exists|j: int| 0 <= j < old(self).controllers@.len() && (#[trigger] old(self).controllers@[j]).name@ == name@
                && old(self).controllers@[j].state != NvmeControllerState::Initializing) ==> r == Err::<usize, RegistryError>(RegistryError::Busy),
    {
        let i = match self.lookup_by_name(name) {
            Some(i) => i,
            None => {
                return Err(RegistryError::NotFound);
            },
        };
        if self.controllers[i].state != NvmeControllerState::Initializing {
            return Err(RegistryError::Busy);
        }
        let ghost before = self.controllers@;
        let mut c = self.controllers.remove(i);
        c.attached(ctrlr, namespace);
        self.controllers.insert(i, c);
        proof {
            assert forall|a: int, b: int|
                0 <= a < self.controllers@.len() && 0 <= b < self.controllers@.len() && a != b implies #[trigger] self.controllers@[a].name@
                != #[trigger] self.controllers@[b].name@ by {
                assert(self.controllers@[a].name@ == before[a].name@);
                assert(self.controllers@[b].name@ == before[b].name@);
            }
        }
        Ok(i)
    }

    /// Drop a controller from the registry: only one that is being
    /// destroyed and has no channels left.
    pub fn remove_controller(&mut self, name: &str, channels: usize) -> (r: Result<NvmeController, RegistryError>)
        requires
            old(self).wf(),
        ensures
            final(self).wf(),
            match r {
                Ok(c) => c.name@ == name@ && c.state == NvmeControllerState::Destroying && channels == 0
                    && final(self).controllers@.len() == old(self).controllers@.len() - 1
                    && forall|j: int| 0 <= j < final(self).controllers@.len() ==> (#[trigger] final(self).controllers@[j]).name@ != name@,
                Err(RegistryError::NotFound) => final(self).controllers == old(self).controllers
                    && forall|j: int| 0 <= j < old(self).controllers@.len() ==> (#[trigger] old(self).controllers@[j]).name@ != name@,
                Err(_) => final(self).controllers == old(self).controllers,
            },
            (exists|j: int| 0 <= j < old(self).controllers@.len() && (#[trigger] old(self).controllers@[j]).name@ == name@)
                ==> (r is Ok <==> channels == 0 && exists|j: int| 0 <= j < old(self).controllers@.len()
                && (#[trigger] old(self).controllers@[j]).name@ == name@ && old(self).controllers@[j].state
                == NvmeControllerState::Destroying),
            (exists|j: int| 0 <= j < old(self).controllers@.len() && (#[trigger] old(self).controllers@[j]).name@ == name@)
                ==> (r is Err ==> r == Err::<NvmeController, RegistryError>(RegistryError::Busy)),
    {
        let i = match self.lookup_by_name(name) {
            Some(i) => i,
            None => {
                return Err(RegistryError::NotFound);
            },
        };
        if self.controllers[i].state != NvmeControllerState::Destroying || channels != 0 {
            return Err(RegistryError::Busy);
        }
        let ghost before = self.controllers@;
        let c = self.controllers.remove(i);
        proof {
            assert forall|j: int| 0 <= j < self.controllers@.len() implies (#[trigger] self.controllers@[j]).name@ != name@ by {
                if j < i {
                    assert(self.controllers@[j] == before[j]);
                } else {
                    assert(self.controllers@[j] == before[j + 1]);
                }
            }
            assert forall|a: int, b: int|
                0 <= a < self.controllers@.len() && 0 <= b < self.controllers@.len() && a != b implies #[trigger] self.controllers@[a].name@
                != #[trigger] self.controllers@[b].name@ by {
                let a0 = if a < i { a } else { a + 1 };
                let b0 = if b < i { b } else { b + 1 };
                assert(self.controllers@[a] == before[a0]);
                assert(self.controllers@[b] == before[b0]);
            }
        }
        Ok(c)
    }
}

} // verus!
