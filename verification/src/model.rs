//! What the kernel keeps track of, as far as a registration can change it.
//!
//! The kernel is a service with a contract: reserving and unregistering an
//! identifier undo each other, and so do allocating and releasing a disk
//! object. This module states that contract over a small mathematical state,
//! so that whole sequences of requests can be judged by what they leave
//! behind.

use vstd::prelude::*;
use crate::kernel::KernelCallView;

verus! {

/// A request together with the kernel's answer to it. A request without an
/// answer carries zero.
pub ghost struct Exchange {
    pub call: KernelCallView,
    pub reply: int,
}

/// The kernel's table of reserved identifiers and its live disk objects.
pub ghost struct KernelModel {
    /// Each reserved identifier, with the name it is reserved under.
    pub identifiers: Map<int, Seq<u8>>,
    /// The addresses of the disk objects that exist.
    pub disks: Set<int>,
}

impl KernelModel {
    /// The state after one exchange.
    ///
    /// A reservation that is answered with an identifier enters it under its
    /// name; unregistering removes an identifier if it is reserved under that
    /// very name. An allocation that is answered with an address adds the
    /// disk object; releasing removes it. Nothing else changes the state.
    pub open spec fn step(self, x: Exchange) -> KernelModel {
        match x.call {
            KernelCallView::ReserveIdentifier { device_class, name } => if x.reply >= 0 {
                KernelModel { identifiers: self.identifiers.insert(x.reply, name), ..self }
            } else {
                self
            },
            KernelCallView::UnregisterIdentifier { identifier, name } => if self.identifiers.contains_pair(
                identifier,
                name,
            ) {
                KernelModel { identifiers: self.identifiers.remove(identifier), ..self }
            } else {
                self
            },
            KernelCallView::AllocateDisk { numa_hint } => if x.reply != 0 {
                KernelModel { disks: self.disks.insert(x.reply), ..self }
            } else {
                self
            },
            KernelCallView::ReleaseDisk { disk } => KernelModel { disks: self.disks.remove(disk), ..self },
            _ => self,
        }
    }

    /// The state after a sequence of exchanges, first to last.
    pub open spec fn run(self, xs: Seq<Exchange>) -> KernelModel
        decreases xs.len(),
    {
        if xs.len() == 0 {
            self
        } else {
            self.run(xs.drop_last()).step(xs.last())
        }
    }

    /// Running nothing changes nothing.
    pub proof fn lemma_run_empty(self)
        ensures
            self.run(Seq::<Exchange>::empty()) == self,
    {
    }

    /// Running one more exchange is one more step.
    pub proof fn lemma_run_push(self, xs: Seq<Exchange>, x: Exchange)
        ensures
            self.run(xs.push(x)) == self.run(xs).step(x),
    {
        assert(xs.push(x).drop_last() =~= xs);
    }
}

} // verus!
