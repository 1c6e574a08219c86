//! Media items: what can be loaded, parsed and played.

use vstd::prelude::*;
use vstd::string::*;
use crate::handle::{is_null_pointer, not_null, released_handle, take_handle};
use crate::internal_error::{VLCError, VLCResult};
use crate::marshal::{path_terminated, terminate, terminated};
use crate::parse_flags::ParseFlags;
use crate::vlc::VLCInstance;

verus! {

pub type MediaHandle = VLCResult<Media>;

/// How far the native engine has come with parsing a media item.
#[derive(Debug, Clone, Copy, PartialEq, Eq, Structural, PartialOrd)]
pub enum ParseStatus {
    Running,
    Done,
    Failed,
    Skipped,
    Timeout,
}

/// The native code for a parse that was skipped.
pub const PARSED_STATUS_SKIPPED: u32 = 1;

/// The native code for a parse that failed.
pub const PARSED_STATUS_FAILED: u32 = 2;

/// The native code for a parse that ran out of time.
pub const PARSED_STATUS_TIMEOUT: u32 = 3;

/// The native code for a parse that is done.
pub const PARSED_STATUS_DONE: u32 = 4;

/// The native answer to a parse request that was refused at once.
pub const PARSE_REFUSED: i32 = -1;

/// The status that a native status code stands for. The four codes of a parse
/// that has come to an end have a status each; under every other code the
/// parse counts as running.
pub open spec fn parse_status_of(code: u32) -> ParseStatus {
    if code == PARSED_STATUS_DONE {
        ParseStatus::Done
    } else if code == PARSED_STATUS_FAILED {
        ParseStatus::Failed
    } else if code == PARSED_STATUS_SKIPPED {
        ParseStatus::Skipped
    } else if code == PARSED_STATUS_TIMEOUT {
        ParseStatus::Timeout
    } else {
        ParseStatus::Running
    }
}

/// What a wait makes of one poll: nothing while the parse is running, and the
/// status once it is not.
pub open spec fn wait_step(code: u32) -> Option<ParseStatus> {
    if parse_status_of(code) == ParseStatus::Running {
        None
    } else {
        Some(parse_status_of(code))
    }
}

/// What a wait reports that polls `codes` one after another and stops at the
/// first poll that is not running: the status of that poll, and nothing if
/// every poll is running.
pub open spec fn wait_outcome(codes: Seq<u32>) -> Option<ParseStatus>
    decreases codes.len(),
{
    if codes.len() == 0 {
        None
    } else if wait_step(codes[0]) is Some {
        wait_step(codes[0])
    } else {
        wait_outcome(codes.drop_first())
    }
}

/// The number of sub-items that the native layer reports: `native_count`,
/// where there is a list at `list` and the count is no less than zero, and
/// zero otherwise.
pub open spec fn subitem_count_of(list: usize, native_count: i32) -> usize {
    if list == 0 || native_count < 0 {
        0
    } else {
        native_count as usize
    }
}

/// Whether `index` lies before the end of a list of `count` sub-items.
pub open spec fn before_end(index: i32, count: usize) -> bool {
    index < count
}

/// Whether asking for the sub-item at `index` gives a media item: the index
/// lies before the end of the list of `count` sub-items, and the native list
/// handed the item back at the address `item`.
pub open spec fn subitem_found(index: i32, count: usize, item: usize) -> bool {
    before_end(index, count) && item != 0
}

/// The bytes of each buffer of `list`, in the order of the list.
pub open spec fn buffers(list: Seq<Vec<u8>>) -> Seq<Seq<u8>> {
    list.map_values(|buffer: Vec<u8>| buffer@)
}

/// A media item, as this side of the boundary knows it.
///
/// It holds the address of the native item and the options attached to it,
/// each in its boundary form. The address is zero once it has been handed out
/// for release.
#[derive(Debug)]
pub struct Media {
    ptr: usize,
    options: Vec<Vec<u8>>,
}

/// What a media item stands for.
pub struct MediaView {
    /// The address of the native item, zero when none is held.
    pub ptr: usize,
    /// The options attached, oldest first, each in its boundary form.
    pub options: Seq<Seq<u8>>,
}

impl MediaView {
    /// The item after an attempt to attach the option with the bytes `opt`:
    /// the option's boundary form is added at the end, unless it has none.
    pub open spec fn with_option(self, opt: Seq<u8>) -> MediaView {
        match terminated(opt) {
            Some(buffer) => MediaView { ptr: self.ptr, options: self.options.push(buffer) },
            None => self,
        }
    }

    /// The item after attempts to attach each of `opts` in turn.
    pub open spec fn with_options(self, opts: Seq<Seq<u8>>) -> MediaView
        decreases opts.len(),
    {
        if opts.len() == 0 {
            self
        } else {
            self.with_options(opts.drop_last()).with_option(opts.last())
        }
    }
}

impl View for Media {
    type V = MediaView;

    closed spec fn view(&self) -> MediaView {
        MediaView { ptr: self.ptr, options: buffers(self.options@) }
    }
}

impl Media {
    /// Whether the item holds a native handle. Every item is made live, and
    /// stays so until it is released.
    pub open spec fn is_live(&self) -> bool {
        self@.ptr != 0
    }

    /// Wraps the address that a native allocation handed back, under the name
    /// `what` of the operation.
    fn wrap(native: usize, what: &str) -> (out: MediaHandle)
        ensures
            match out {
                Ok(media) => native != 0 && media.is_live() && media@.ptr == native
                    && media@.options.len() == 0,
                Err(e) => native == 0 && is_null_pointer(e, what@),
            },
    {
        match not_null(native, what) {
            Ok(ptr) => {
                let media = Media { ptr, options: Vec::new() };
                assert(buffers(media.options@) =~= Seq::<Seq<u8>>::empty());
                Ok(media)
            },
            Err(e) => Err(e),
        }
    }

    /// The media item at `location`. `native` is the address that the native
    /// allocation handed back for the encoded location, and is not looked at
    /// where the location cannot be encoded.
    pub fn by_location(location: &str, vlc: &VLCInstance, native: usize) -> (out: MediaHandle)
        ensures
            match out {
                Ok(media) => terminated(location.spec_bytes()) is Some && native != 0
                    && media.is_live() && media@.ptr == native && media@.options.len() == 0,
                Err(e) => if terminated(location.spec_bytes()) is None {
                    e == VLCError::StrFFI
                } else {
                    native == 0 && is_null_pointer(
                        e,
                        "Media allocation by location returned null pointer"@,
                    )
                },
            },
    {
        match terminate(location.as_bytes()) {
            Some(_) => Media::wrap(native, "Media allocation by location returned null pointer"),
            None => Err(VLCError::StrFFI),
        }
    }

    /// The media item at the file `path`. `path` is the path as text, and
    /// `None` where it has no text form. `native` is the address that the
    /// native allocation handed back for the encoded path, and is not looked
    /// at where the path cannot be encoded.
    pub fn by_path(path: Option<&str>, vlc: &VLCInstance, native: usize) -> (out: MediaHandle)
        ensures
            match out {
                Ok(media) => path_terminated(path) is Some && native != 0 && media.is_live()
                    && media@.ptr == native && media@.options.len() == 0,
                Err(e) => if path_terminated(path) is None {
                    e == VLCError::PathFFI
                } else {
                    native == 0 && is_null_pointer(
                        e,
                        "Media allocation by path returned null pointer"@,
                    )
                },
            },
    {
        match path {
            Some(text) => match terminate(text.as_bytes()) {
                Some(_) => Media::wrap(native, "Media allocation by path returned null pointer"),
                None => Err(VLCError::PathFFI),
            },
            None => Err(VLCError::PathFFI),
        }
    }

    /// The media item behind the open file descriptor `fd`. `native` is the
    /// address that the native allocation handed back.
    pub fn by_fd(fd: i32, vlc: &VLCInstance, native: usize) -> (out: MediaHandle)
        ensures
            match out {
                Ok(media) => native != 0 && media.is_live() && media@.ptr == native
                    && media@.options.len() == 0,
                Err(e) => native == 0 && is_null_pointer(
                    e,
                    "Media allocation by file descriptor returned null pointer"@,
                ),
            },
    {
        Media::wrap(native, "Media allocation by file descriptor returned null pointer")
    }

    /// The parse status that the native code `native` stands for.
    pub fn poll_parse_status(&self, native: u32) -> (status: ParseStatus)
        ensures
            status == parse_status_of(native),
    {
        if native == PARSED_STATUS_DONE {
            ParseStatus::Done
        } else if native == PARSED_STATUS_FAILED {
            ParseStatus::Failed
        } else if native == PARSED_STATUS_SKIPPED {
            ParseStatus::Skipped
        } else if native == PARSED_STATUS_TIMEOUT {
            ParseStatus::Timeout
        } else {
            ParseStatus::Running
        }
    }

    /// What the native layer is to be given so that it attaches the option
    /// `opt` to its item: the option in its boundary form, which is what
    /// `add_option` then notes as the newest option, and nothing where
    /// `add_option` leaves the option out.
    pub fn option_request(&self, opt: &str) -> (out: Option<Vec<u8>>)
        ensures
            match out {
                Some(buffer) => terminated(opt.spec_bytes()) == Some(buffer@)
                    && self@.with_option(opt.spec_bytes()).options == self@.options.push(
                    buffer@,
                ),
                None => terminated(opt.spec_bytes()) is None && self@.with_option(
                    opt.spec_bytes(),
                ) == self@,
            },
    {
        terminate(opt.as_bytes())
    }

    /// Attaches the option `opt` and hands the item on. An option with a zero
    /// byte in it cannot be given to the native layer and is left out.
    pub fn add_option(self, opt: &str) -> (out: Self)
        ensures
            out@ == self@.with_option(opt.spec_bytes()),
            out.is_live() == self.is_live(),
    {
        let mut out = self;
        match terminate(opt.as_bytes()) {
            Some(buffer) => {
                out.options.push(buffer);
                assert(buffers(out.options@) =~= buffers(self.options@).push(buffer@));
            },
            None => {},
        }
        out
    }

    /// The options attached so far, oldest first, each in its boundary form.
    pub fn options(&self) -> (list: &Vec<Vec<u8>>)
        ensures
            buffers(list@) == self@.options,
    {
        &self.options
    }

    /// What became of a request to parse the item in the background with
    /// `flags` and a limit of `timeout_ms`. `native` is what the native layer
    /// answered at once.
    pub fn parse_async(&self, flags: ParseFlags, timeout_ms: i32, native: i32) -> (out: VLCResult<
        (),
    >)
        ensures
            match out {
                Ok(_) => native != PARSE_REFUSED,
                Err(e) => native == PARSE_REFUSED && e == VLCError::ParseRequest,
            },
    {
        if native == PARSE_REFUSED {
            Err(VLCError::ParseRequest)
        } else {
            Ok(())
        }
    }

    /// One turn of waiting for the parse to end. `native` is the status code
    /// just polled. While the parse is running there is nothing to report and
    /// the caller polls again; at the first other status the wait is over and
    /// that status is its result.
    pub fn block_until_parsed(&self, native: u32) -> (out: Option<ParseStatus>)
        ensures
            out == wait_step(native),
    {
        let status = self.poll_parse_status(native);
        match status {
            ParseStatus::Running => None,
            _ => Some(status),
        }
    }

    /// The number of sub-items of the item. `list` is the address of its native
    /// sub-item list, zero where it has none, and `native_count` the length
    /// that the native layer gave for the list.
    pub fn subitem_count(&self, list: usize, native_count: i32) -> (count: usize)
        ensures
            count == subitem_count_of(list, native_count),
    {
        if list == 0 || native_count < 0 {
            0
        } else {
            native_count as usize
        }
    }

    /// Whether `index` lies before the end of a sub-item list of `count`
    /// items, so that the native list is to be asked for the item there.
    pub fn subitem_before_end(&self, index: i32, count: usize) -> (inside: bool)
        ensures
            inside == before_end(index, count),
    {
        index < 0 || (index as usize) < count
    }

    /// The sub-item at `index` as a media item of its own. `count` is the
    /// number of sub-items, and `item` the address that the native list handed
    /// back for `index`; it is not looked at where the index lies beyond the
    /// end. The item that comes out shares nothing with this one.
    pub fn grab_subitem(&self, index: i32, count: usize, item: usize) -> (out: VLCResult<Media>)
        ensures
            match out {
                Ok(media) => subitem_found(index, count, item) && media.is_live()
                    && media@.ptr == item && media@.options.len() == 0,
                Err(e) => if before_end(index, count) {
                    item == 0 && is_null_pointer(e, "Sub-item lookup"@)
                } else {
                    e == VLCError::IndexOutOfRange
                },
            },
    {
        if self.subitem_before_end(index, count) {
            Media::wrap(item, "Sub-item lookup")
        } else {
            Err(VLCError::IndexOutOfRange)
        }
    }

    /// The row that a diagnostic dump of the item's tracks reads: the first,
    /// where the track list has the length `len` and so holds one.
    pub fn test(&self, len: i32) -> (row: Option<i32>)
        ensures
            row == if len > 0 {
                Some(0i32)
            } else {
                None
            },
    {
        if len > 0 {
            Some(0)
        } else {
            None
        }
    }

    /// The address of the native item, zero when none is held.
    pub fn get_ptr(&self) -> (ptr: usize)
        ensures
            ptr == self@.ptr,
    {
        self.ptr
    }

    /// Gives up the native item. The address that comes back is to be released
    /// by the caller; from then on the wrapper holds nothing, and a further
    /// call hands out nothing.
    pub fn release(&mut self) -> (handle: Option<usize>)
        ensures
            handle == released_handle(old(self)@.ptr),
            handle is Some <==> old(self).is_live(),
            !final(self).is_live(),
            final(self)@.options == old(self)@.options,
    {
        take_handle(&mut self.ptr)
    }
}

/// Each of the four native codes of a parse that has come to an end stands for
/// its own status, and every other code for a running parse.
pub proof fn parse_status_law(code: u32)
    ensures
        parse_status_of(PARSED_STATUS_DONE) == ParseStatus::Done,
        parse_status_of(PARSED_STATUS_FAILED) == ParseStatus::Failed,
        parse_status_of(PARSED_STATUS_SKIPPED) == ParseStatus::Skipped,
        parse_status_of(PARSED_STATUS_TIMEOUT) == ParseStatus::Timeout,
        code != PARSED_STATUS_DONE && code != PARSED_STATUS_FAILED && code
            != PARSED_STATUS_SKIPPED && code != PARSED_STATUS_TIMEOUT ==> parse_status_of(code)
            == ParseStatus::Running,
        parse_status_of(code) == ParseStatus::Running <==> wait_step(code) is None,
{
}

/// A wait reports what the poll reports at the moment the parse stops running:
/// where the polls before the one at `end` are all running and that one is
/// not, the wait's result is the status of the poll at `end`, whatever is
/// polled later. No end is missed and none is reported twice.
pub proof fn wait_reports_first_end(codes: Seq<u32>, end: int)
    requires
        0 <= end < codes.len(),
        forall|i: int| 0 <= i < end ==> parse_status_of(codes[i]) == ParseStatus::Running,
        parse_status_of(codes[end]) != ParseStatus::Running,
    ensures
        wait_outcome(codes) == Some(parse_status_of(codes[end])),
        wait_outcome(codes.take(end)) is None,
    decreases end,
{
    if end == 0 {
        assert(codes.take(0).len() == 0);
    } else {
        let rest = codes.drop_first();
        assert forall|i: int| 0 <= i < end - 1 implies parse_status_of(rest[i])
            == ParseStatus::Running by {
            assert(rest[i] == codes[i + 1]);
        }
        assert(rest[end - 1] == codes[end]);
        wait_reports_first_end(rest, end - 1);
        assert(codes.take(end).drop_first() =~= rest.take(end - 1));
        assert(codes.take(end)[0] == codes[0]);
    }
}

/// A wait over polls that are all running reports nothing: it goes on.
pub proof fn wait_goes_on_while_running(codes: Seq<u32>)
    requires
        forall|i: int| 0 <= i < codes.len() ==> parse_status_of(codes[i]) == ParseStatus::Running,
    ensures
        wait_outcome(codes) is None,
    decreases codes.len(),
{
    if codes.len() > 0 {
        let rest = codes.drop_first();
        assert forall|i: int| 0 <= i < rest.len() implies parse_status_of(rest[i])
            == ParseStatus::Running by {
            assert(rest[i] == codes[i + 1]);
        }
        wait_goes_on_while_running(rest);
    }
}

/// Asking for a sub-item fails with an index out of range at every index from
/// the number of sub-items on, and at no index before it; before it, the
/// sub-item is found wherever the native list hands one back.
pub proof fn subitem_index_law(list: usize, native_count: i32, index: i32, item: usize)
    ensures
        index >= subitem_count_of(list, native_count) <==> !before_end(
            index,
            subitem_count_of(list, native_count),
        ),
        index < subitem_count_of(list, native_count) && item != 0 ==> subitem_found(
            index,
            subitem_count_of(list, native_count),
            item,
        ),
{
}

/// Attaching options changes nothing but the list of options. The native
/// handle stays as it was, so the native item that is asked for its sub-items
/// afterwards is the one that was asked before. The options attached before
/// stay where they were, and each attempt adds at most one.
pub proof fn options_keep_handle(media: MediaView, opts: Seq<Seq<u8>>)
    ensures
        media.with_options(opts).ptr == media.ptr,
        media.with_options(opts).options.len() <= media.options.len() + opts.len(),
        media.options.len() <= media.with_options(opts).options.len(),
        media.with_options(opts).options.take(media.options.len() as int) == media.options,
    decreases opts.len(),
{
    if opts.len() > 0 {
        let before = media.with_options(opts.drop_last());
        options_keep_handle(media, opts.drop_last());
        let after = before.with_option(opts.last());
        assert(after.options.take(media.options.len() as int) =~= before.options.take(
            media.options.len() as int,
        ));
    } else {
        assert(media.options.take(media.options.len() as int) =~= media.options);
    }
}

} // verus!
