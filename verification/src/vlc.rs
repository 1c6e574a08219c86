//! The engine instance: one running session of the native media engine.

use vstd::prelude::*;
use vstd::string::*;
use crate::internal_error::VLCResult;
use crate::handle::{is_null_pointer, not_null, released_handle, take_handle};
use crate::marshal::{boundary_string, terminated};

verus! {

/// A control interface that can be attached to an engine instance.
#[derive(Debug, Clone, Copy, PartialEq, Eq, Structural)]
pub enum VLCInterface {
    Dummy,
    RC,
}

impl VLCInterface {
    /// The name by which the native layer knows the interface.
    pub open spec fn spec_name(self) -> Seq<char> {
        match self {
            VLCInterface::Dummy => "dummy"@,
            VLCInterface::RC => "rc"@,
        }
    }

    /// The bytes of that name.
    pub open spec fn spec_name_bytes(self) -> Seq<u8> {
        match self {
            VLCInterface::Dummy => seq![100u8, 117u8, 109u8, 109u8, 121u8],
            VLCInterface::RC => seq![114u8, 99u8],
        }
    }

    /// The name by which the native layer knows the interface.
    pub fn name(&self) -> (text: &'static str)
        ensures
            text@ == self.spec_name(),
            text.spec_bytes() == self.spec_name_bytes(),
    {
        proof {
            reveal_strlit("dummy");
            reveal_strlit("rc");
            assert("dummy".is_ascii());
            assert("rc".is_ascii());
            is_ascii_spec_bytes("dummy");
            is_ascii_spec_bytes("rc");
            assert("dummy".spec_bytes() =~= seq![100u8, 117u8, 109u8, 109u8, 121u8]);
            assert("rc".spec_bytes() =~= seq![114u8, 99u8]);
        }
        match self {
            VLCInterface::Dummy => "dummy",
            VLCInterface::RC => "rc",
        }
    }

    /// The name laid out for the native call that attaches the interface. No
    /// name holds a zero byte, so each has its boundary form.
    pub fn boundary_name(&self) -> (buffer: Vec<u8>)
        ensures
            buffer@ == boundary_string(self.spec_name_bytes()),
            terminated(self.spec_name_bytes()) == Some(buffer@),
    {
        let mut buffer = self.name().as_bytes_vec();
        buffer.push(0);
        buffer
    }
}

/// One running instance of the native engine, as this side of the boundary
/// knows it.
///
/// It holds the address of the native instance, which is zero once it has
/// been handed out for release.
#[derive(Debug)]
pub struct VLCInstance {
    ptr: usize,
}

/// What an engine instance stands for.
pub struct VLCInstanceView {
    /// The address of the native instance, zero when none is held.
    pub ptr: usize,
}

impl View for VLCInstance {
    type V = VLCInstanceView;

    closed spec fn view(&self) -> VLCInstanceView {
        VLCInstanceView { ptr: self.ptr }
    }
}

impl VLCInstance {
    /// Whether the instance holds a native handle. Every instance is made
    /// live, and stays so until it is released.
    pub open spec fn is_live(&self) -> bool {
        self@.ptr != 0
    }

    /// Wraps the instance that engine initialisation handed back. `native` is
    /// its address, zero where the engine reported none.
    pub fn new(native: usize) -> (out: VLCResult<VLCInstance>)
        ensures
            match out {
                Ok(vlc) => native != 0 && vlc.is_live() && vlc@.ptr == native,
                Err(e) => native == 0 && is_null_pointer(e, "VLC init"@),
            },
    {
        match not_null(native, "VLC init") {
            Ok(ptr) => Ok(VLCInstance { ptr }),
            Err(e) => Err(e),
        }
    }

    /// Hands the instance on, together with the name of `interface_type` laid
    /// out for the native call that attaches it. The native layer gives no
    /// dependable sign of whether the interface came up, so nothing is
    /// reported and the instance is as it was.
    pub fn with_interface(self, interface_type: VLCInterface) -> (out: (Self, Vec<u8>))
        ensures
            out.0@ == self@,
            out.1@ == boundary_string(interface_type.spec_name_bytes()),
    {
        (self, interface_type.boundary_name())
    }

    /// The address of the native instance, zero when none is held.
    pub fn get_ptr(&self) -> (ptr: usize)
        ensures
            ptr == self@.ptr,
    {
        self.ptr
    }

    /// Gives up the native instance. The address that comes back is to be
    /// released by the caller; from then on the wrapper holds nothing, and a
    /// further call hands out nothing.
    pub fn release(&mut self) -> (handle: Option<usize>)
        ensures
            handle == released_handle(old(self)@.ptr),
            handle is Some <==> old(self).is_live(),
            !final(self).is_live(),
    {
        take_handle(&mut self.ptr)
    }
}

} // verus!
