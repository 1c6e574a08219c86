//! The player: a playback controller bound to one media item.

use vstd::prelude::*;
use vstd::string::*;
use crate::devices::{DeviceWalk, DeviceWalkView};
use crate::handle::{is_null_pointer, not_null, released_handle, take_handle};
use crate::internal_error::{VLCError, VLCResult};
use crate::marshal::{expect_cstring, terminated};
use crate::media::Media;

verus! {

/// Whether the native answer `native` to the question "is it playing?" means
/// yes: the native layer says so with a number of one or more.
pub open spec fn is_playing_answer(native: i32) -> bool {
    native >= 1
}

/// A player, as this side of the boundary knows it.
///
/// It holds the address of the native player, which is zero once it has been
/// handed out for release.
#[derive(Debug)]
pub struct Player {
    ptr: usize,
}

/// What a player stands for.
pub struct PlayerView {
    /// The address of the native player, zero when none is held.
    pub ptr: usize,
}

impl View for Player {
    type V = PlayerView;

    closed spec fn view(&self) -> PlayerView {
        PlayerView { ptr: self.ptr }
    }
}

impl Player {
    /// Whether the player holds a native handle. Every player is made live,
    /// and stays so until it is released.
    pub open spec fn is_live(&self) -> bool {
        self@.ptr != 0
    }

    /// A player for `source`. `native` is the address that the native
    /// allocation handed back.
    pub fn by_media(source: &Media, native: usize) -> (out: VLCResult<Player>)
        ensures
            match out {
                Ok(player) => native != 0 && player.is_live() && player@.ptr == native,
                Err(e) => native == 0 && is_null_pointer(e, "New player by media"@),
            },
    {
        match not_null(native, "New player by media") {
            Ok(ptr) => Ok(Player { ptr }),
            Err(e) => Err(e),
        }
    }

    /// Whether the player is playing. `native` is what the native layer
    /// answered when asked.
    pub fn playing(&self, native: i32) -> (yes: bool)
        ensures
            yes == is_playing_answer(native),
    {
        native >= 1
    }

    /// The name `psz_name` of an audio output module, laid out for the native
    /// call that selects it. A name with a zero byte in it cannot be given to
    /// the native layer.
    pub fn audio_out(&self, psz_name: &str) -> (out: VLCResult<Vec<u8>>)
        ensures
            match out {
                Ok(buffer) => terminated(psz_name.spec_bytes()) == Some(buffer@),
                Err(e) => terminated(psz_name.spec_bytes()) is None && e == VLCError::StrFFI,
            },
    {
        expect_cstring(psz_name)
    }

    /// Begins a walk along the chain of audio output devices that the native
    /// layer handed out for this player. `head` is the address of its first
    /// node, zero where there is none.
    pub fn enumerate_output_devices(&self, head: usize) -> (walk: DeviceWalk)
        ensures
            walk@ == DeviceWalkView::start(head),
    {
        DeviceWalk::start(head)
    }

    /// The address of the native player, zero when none is held.
    pub fn get_ptr(&self) -> (ptr: usize)
        ensures
            ptr == self@.ptr,
    {
        self.ptr
    }

    /// Gives up the native player. The address that comes back is to be
    /// released by the caller; from then on the wrapper holds nothing, and a
    /// further call hands out nothing.
    pub fn release(&mut self) -> (handle: Option<usize>)
        ensures
            handle == released_handle(old(self)@.ptr),
            handle is Some <==> old(self).is_live(),
            !final(self).is_live(),
    {
        take_handle(&mut self.ptr)
    }
}

} // verus!
