//! Track lists: a view of the tracks that a parse found in a media item.

use vstd::prelude::*;
use vstd::string::*;
use crate::handle::{is_null_pointer, not_null, released_handle, take_handle};
use crate::internal_error::{VLCError, VLCResult};
use crate::marshal::{owned_text, text_or_empty};
use crate::media::Media;

verus! {

/// One row of the native track list, copied out of native memory as it
/// stands. `codec` is `None` where the row has no codec name.
#[derive(Debug, Clone)]
pub struct NativeTrack {
    pub filetype: i32,
    pub codec: Option<String>,
    pub channels: i32,
    pub rate: i32,
}

/// What is known of one track. The record owns all it holds and lives on
/// after the list it was read from.
#[derive(Debug, Clone)]
pub struct Track {
    pub filetype: i32,
    pub channels: i32,
    pub bitrate: i32,
    pub codec: String,
}

/// Whether `track` holds what the native row `row` holds, field by field. A
/// row without a codec name gives a track with the empty name.
pub open spec fn is_copy_of(track: Track, row: NativeTrack) -> bool {
    &&& track.filetype == row.filetype
    &&& track.channels == row.channels
    &&& track.bitrate == row.rate
    &&& track.codec@ == text_or_empty(row.codec)
}

/// The number of rows in a native list whose length is given as `len`: `len`
/// itself, and none where it is below zero.
pub open spec fn track_count_of(len: i32) -> i32 {
    if len < 0 {
        0
    } else {
        len
    }
}

/// A read-only view of the tracks of a media item.
///
/// It holds the address of the native list and the number of its rows, which
/// is settled when the view is made. The address is zero once it has been
/// handed out for release.
#[derive(Debug)]
pub struct TrackList {
    ptr: usize,
    count: i32,
}

/// What a track list stands for.
pub struct TrackListView {
    /// The address of the native list, zero when none is held.
    pub ptr: usize,
    /// The number of rows.
    pub count: i32,
}

impl View for TrackList {
    type V = TrackListView;

    closed spec fn view(&self) -> TrackListView {
        TrackListView { ptr: self.ptr, count: self.count }
    }
}

impl TrackList {
    /// A list never has fewer than no rows.
    #[verifier::type_invariant]
    closed spec fn well_formed(self) -> bool {
        self.count >= 0
    }

    /// Whether the view holds a native list. Every view is made live, and
    /// stays so until it is released.
    pub open spec fn is_live(&self) -> bool {
        self@.ptr != 0
    }

    /// Whether the list has a row at `index`.
    pub open spec fn spec_has_row(&self, index: i32) -> bool {
        0 <= index < self@.count
    }

    /// A view of the tracks of `media`. `list` is the address of the native
    /// track list that was made for it, and `len` the length that the native
    /// layer gave for that list. Nothing is parsed on this account: before a
    /// parse has come to an end the native list is empty.
    pub fn from_media(media: &Media, list: usize, len: i32) -> (out: VLCResult<TrackList>)
        ensures
            match out {
                Ok(tracks) => list != 0 && tracks.is_live() && tracks@.ptr == list
                    && tracks@.count == track_count_of(len),
                Err(e) => list == 0 && is_null_pointer(e, "Track list"@),
            },
    {
        match not_null(list, "Track list") {
            Ok(ptr) => Ok(
                TrackList {
                    ptr,
                    count: if len < 0 {
                        0
                    } else {
                        len
                    },
                },
            ),
            Err(e) => Err(e),
        }
    }

    /// The number of rows, as it was when the view was made.
    pub fn length(&self) -> (count: i32)
        ensures
            count == self@.count,
            count >= 0,
    {
        proof {
            use_type_invariant(self);
        }
        self.count
    }

    /// Whether the list has a row at `index`, so that the native list is to be
    /// asked for it.
    pub fn has_row(&self, index: i32) -> (inside: bool)
        ensures
            inside == self.spec_has_row(index),
    {
        0 <= index && index < self.count
    }

    /// The track at `index`, copied out of the native row. `row` is the row
    /// that the native list handed back for `index`, `None` where it handed
    /// back none; it is not looked at where the list has no row at `index`.
    pub fn get(&self, index: i32, row: Option<NativeTrack>) -> (out: VLCResult<Track>)
        ensures
            match out {
                Ok(track) => self.spec_has_row(index) && row is Some && is_copy_of(
                    track,
                    row->Some_0,
                ),
                Err(e) => if self.spec_has_row(index) {
                    row is None && is_null_pointer(e, "Track row"@)
                } else {
                    e == VLCError::IndexOutOfRange
                },
            },
    {
        if !self.has_row(index) {
            return Err(VLCError::IndexOutOfRange);
        }
        match row {
            Some(native) => {
                let codec = owned_text(native.codec);
                Ok(
                    Track {
                        filetype: native.filetype,
                        codec,
                        channels: native.channels,
                        bitrate: native.rate,
                    },
                )
            },
            None => Err(VLCError::NullPointer(String::from_str("Track row"))),
        }
    }

    /// The address of the native list, zero when none is held.
    pub fn get_ptr(&self) -> (ptr: usize)
        ensures
            ptr == self@.ptr,
    {
        self.ptr
    }

    /// Gives up the native list. The address that comes back is to be released
    /// by the caller; from then on the view holds nothing, and a further call
    /// hands out nothing. The tracks copied out before stay as they are.
    pub fn release(&mut self) -> (handle: Option<usize>)
        ensures
            handle == released_handle(old(self)@.ptr),
            handle is Some <==> old(self).is_live(),
            !final(self).is_live(),
            final(self)@.count == old(self)@.count,
    {
        proof {
            use_type_invariant(&*self);
        }
        take_handle(&mut self.ptr)
    }
}

} // verus!
