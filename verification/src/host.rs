//! Host Call Adapter: the one capability the guest invokes on its host, a
//! log call that hands a borrowed string across the boundary as a numeric
//! (offset, length) pair.
//!
//! The host side of the call is supplied by the embedder at binding time;
//! here it is modelled by [`HostLog`], which records each pair that crosses
//! the boundary, so that what the host was handed can be stated and checked.

use crate::marshal::string_to_ptr;
use crate::marshal::GuestString;
use crate::memory::LinearMemory;
use vstd::prelude::*;

verus! {

/// The host's end of the logging capability: a record of every
/// (offset, length) pair it has received. The host reads the named bytes
/// for the duration of the call and neither frees nor retains them.
pub struct HostLog {
    pub calls: Vec<(u32, u32)>,
}

impl HostLog {
    /// A host that has not been called yet.
    pub fn new() -> (h: HostLog)
        ensures
            h.calls@ == Seq::<(u32, u32)>::empty(),
    {
        HostLog { calls: Vec::new() }
    }

    /// One boundary crossing: the host receives a (offset, length) pair.
    pub fn receive(&mut self, offset: u32, len: u32)
        ensures
            final(self).calls@ == old(self).calls@.push((offset, len)),
    {
        self.calls.push((offset, len));
    }
}

/// Logs `message` through the host capability: marshals it to its numeric
/// pair and hands that pair to the host. This is a borrowing call: the
/// guest keeps ownership of the backing region, the memory is left exactly
/// as it was, and `message` remains valid for use immediately after the
/// call returns.
pub fn log(mem: &mut LinearMemory, message: &GuestString, host: &mut HostLog)
    requires
        message.wf(*old(mem)),
    ensures
        *final(mem) == *old(mem),
        message.wf(*final(mem)),
        final(host).calls@ == old(host).calls@.push((message.offset, message.len)),
{
    let pair = string_to_ptr(message);
    host.receive(pair.0, pair.1);
}

} // verus!
