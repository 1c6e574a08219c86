use rvlc::internal_error::VLCError;
use rvlc::media::{
    PARSED_STATUS_DONE, PARSED_STATUS_FAILED, PARSED_STATUS_SKIPPED, PARSED_STATUS_TIMEOUT,
};
use rvlc::{Media, ParseFlags, ParseStatus, VLCInstance};

fn engine() -> VLCInstance {
    VLCInstance::new(0x100).unwrap()
}

fn item(native: usize) -> Media {
    Media::by_fd(3, &engine(), native).unwrap()
}

fn null_pointer(what: &str) -> VLCError {
    VLCError::NullPointer(what.to_string())
}

#[test]
fn by_location_wraps_the_native_item() {
    let media = Media::by_location("https://example.org/a.ogg", &engine(), 0x200).unwrap();
    assert_eq!(media.get_ptr(), 0x200);
    assert!(media.options().is_empty());
}

#[test]
fn by_location_reports_a_null_item() {
    let out = Media::by_location("https://example.org/a.ogg", &engine(), 0);
    assert_eq!(
        out.unwrap_err(),
        null_pointer("Media allocation by location returned null pointer")
    );
}

#[test]
fn by_location_refuses_an_embedded_null_whatever_the_native_answer() {
    let with_item = Media::by_location("https://example.org/\0a.ogg", &engine(), 0x200);
    assert_eq!(with_item.unwrap_err(), VLCError::StrFFI);
    let without = Media::by_location("https://example.org/\0a.ogg", &engine(), 0);
    assert_eq!(without.unwrap_err(), VLCError::StrFFI);
}

#[test]
fn by_path_wraps_the_native_item() {
    let media = Media::by_path(Some("./media/ELYSIUM.MOD"), &engine(), 0x300).unwrap();
    assert_eq!(media.get_ptr(), 0x300);
    assert!(media.options().is_empty());
}

#[test]
fn by_path_reports_a_null_item() {
    let out = Media::by_path(Some("./media/ELYSIUM.MOD"), &engine(), 0);
    assert_eq!(out.unwrap_err(), null_pointer("Media allocation by path returned null pointer"));
}

#[test]
fn by_path_refuses_a_path_that_cannot_be_encoded() {
    assert_eq!(Media::by_path(None, &engine(), 0x300).unwrap_err(), VLCError::PathFFI);
    assert_eq!(Media::by_path(Some("a\0b"), &engine(), 0x300).unwrap_err(), VLCError::PathFFI);
}

#[test]
fn by_fd_wraps_the_native_item() {
    let media = Media::by_fd(7, &engine(), 0x400).unwrap();
    assert_eq!(media.get_ptr(), 0x400);
}

#[test]
fn by_fd_reports_a_null_item() {
    let out = Media::by_fd(7, &engine(), 0);
    assert_eq!(
        out.unwrap_err(),
        null_pointer("Media allocation by file descriptor returned null pointer")
    );
}

#[test]
fn poll_parse_status_maps_the_four_final_codes() {
    let media = item(0x200);
    assert_eq!(media.poll_parse_status(1), ParseStatus::Skipped);
    assert_eq!(media.poll_parse_status(2), ParseStatus::Failed);
    assert_eq!(media.poll_parse_status(3), ParseStatus::Timeout);
    assert_eq!(media.poll_parse_status(4), ParseStatus::Done);
    assert_eq!(media.poll_parse_status(PARSED_STATUS_SKIPPED), ParseStatus::Skipped);
    assert_eq!(media.poll_parse_status(PARSED_STATUS_FAILED), ParseStatus::Failed);
    assert_eq!(media.poll_parse_status(PARSED_STATUS_TIMEOUT), ParseStatus::Timeout);
    assert_eq!(media.poll_parse_status(PARSED_STATUS_DONE), ParseStatus::Done);
}

#[test]
fn poll_parse_status_takes_every_other_code_as_running() {
    let media = item(0x200);
    assert_eq!(media.poll_parse_status(0), ParseStatus::Running);
    assert_eq!(media.poll_parse_status(5), ParseStatus::Running);
    assert_eq!(media.poll_parse_status(6), ParseStatus::Running);
    assert_eq!(media.poll_parse_status(255), ParseStatus::Running);
    assert_eq!(media.poll_parse_status(u32::MAX), ParseStatus::Running);
}

#[test]
fn add_option_attaches_in_order() {
    let media = item(0x200).add_option("--no-video").add_option(":network-caching=300");
    assert_eq!(media.get_ptr(), 0x200);
    assert_eq!(
        media.options(),
        &vec![b"--no-video\0".to_vec(), b":network-caching=300\0".to_vec()]
    );
}

#[test]
fn add_option_leaves_out_what_cannot_be_encoded() {
    let media = item(0x200).add_option("--no-video").add_option("bad\0option").add_option("");
    assert_eq!(media.options(), &vec![b"--no-video\0".to_vec(), vec![0u8]]);
    assert_eq!(media.get_ptr(), 0x200);
}

#[test]
fn option_request_is_what_add_option_attaches() {
    let media = item(0x200);
    let request = media.option_request("--no-video");
    assert_eq!(request, Some(b"--no-video\0".to_vec()));
    let media = media.add_option("--no-video");
    assert_eq!(media.options().last(), request.as_ref());
}

#[test]
fn option_request_is_nothing_where_add_option_leaves_the_option_out() {
    let media = item(0x200).add_option("--no-video");
    assert_eq!(media.option_request("bad\0option"), None);
    let media = media.add_option("bad\0option");
    assert_eq!(media.options().len(), 1);
}

#[test]
fn a_parse_request_for_local_art_differs_from_one_for_network_art() {
    let media = item(0x200);
    let local = ParseFlags::fetch_local();
    let network = ParseFlags::fetch_network();
    assert_eq!(media.parse_async(local, 1000, 0), Ok(()));
    assert_eq!(media.parse_async(network, 1000, 0), Ok(()));
    assert_ne!(local.bits(), network.bits());
}

#[test]
fn parse_async_accepts_what_the_native_layer_accepted() {
    let media = item(0x200);
    assert_eq!(media.parse_async(ParseFlags::local(), 1000, 0), Ok(()));
    assert_eq!(media.parse_async(ParseFlags::local(), 1000, 1), Ok(()));
    assert_eq!(media.parse_async(ParseFlags::local(), 1000, -2), Ok(()));
}

#[test]
fn parse_async_reports_a_refusal() {
    let media = item(0x200);
    assert_eq!(
        media.parse_async(ParseFlags::local().union(ParseFlags::fetch_local()), 10_000, -1),
        Err(VLCError::ParseRequest)
    );
}

#[test]
fn block_until_parsed_goes_on_while_running() {
    let media = item(0x200);
    assert_eq!(media.block_until_parsed(0), None);
    assert_eq!(media.block_until_parsed(9), None);
}

#[test]
fn block_until_parsed_stops_at_each_final_status() {
    let media = item(0x200);
    assert_eq!(media.block_until_parsed(1), Some(ParseStatus::Skipped));
    assert_eq!(media.block_until_parsed(2), Some(ParseStatus::Failed));
    assert_eq!(media.block_until_parsed(3), Some(ParseStatus::Timeout));
    assert_eq!(media.block_until_parsed(4), Some(ParseStatus::Done));
}

/// Runs a wait over the codes that a native layer would give, poll by poll,
/// and says what the wait reported and at which poll.
fn wait_over(media: &Media, codes: &[u32]) -> Option<(usize, ParseStatus)> {
    for (turn, code) in codes.iter().enumerate() {
        if let Some(status) = media.block_until_parsed(*code) {
            return Some((turn, status));
        }
    }
    None
}

#[test]
fn block_until_parsed_reports_the_first_end_and_no_other() {
    let media = item(0x200);
    assert_eq!(wait_over(&media, &[0, 0, 0, 4, 2]), Some((3, ParseStatus::Done)));
    assert_eq!(wait_over(&media, &[0, 7, 3, 4]), Some((2, ParseStatus::Timeout)));
    assert_eq!(wait_over(&media, &[2]), Some((0, ParseStatus::Failed)));
    assert_eq!(wait_over(&media, &[0, 0, 0]), None);
    assert_eq!(wait_over(&media, &[]), None);
}

#[test]
fn block_until_parsed_agrees_with_poll_parse_status() {
    let media = item(0x200);
    for code in 0..16u32 {
        let polled = media.poll_parse_status(code);
        let waited = media.block_until_parsed(code);
        if polled == ParseStatus::Running {
            assert_eq!(waited, None);
        } else {
            assert_eq!(waited, Some(polled));
        }
    }
}

#[test]
fn subitem_count_reads_the_native_count() {
    let media = item(0x200);
    assert_eq!(media.subitem_count(0x900, 0), 0);
    assert_eq!(media.subitem_count(0x900, 1), 1);
    assert_eq!(media.subitem_count(0x900, 12), 12);
    assert_eq!(media.subitem_count(0x900, i32::MAX), i32::MAX as usize);
}

#[test]
fn subitem_count_is_zero_without_a_list() {
    let media = item(0x200);
    assert_eq!(media.subitem_count(0, 0), 0);
    assert_eq!(media.subitem_count(0, 5), 0);
    assert_eq!(media.subitem_count(0x900, -1), 0);
    assert_eq!(media.subitem_count(0x900, i32::MIN), 0);
}

#[test]
fn grab_subitem_gives_an_item_of_its_own() {
    let parent = item(0x200).add_option("--no-video");
    let child = parent.grab_subitem(0, 2, 0x210).unwrap();
    assert_eq!(child.get_ptr(), 0x210);
    assert!(child.options().is_empty());
    assert_eq!(parent.get_ptr(), 0x200);
    assert_eq!(parent.options().len(), 1);
    let last = parent.grab_subitem(1, 2, 0x220).unwrap();
    assert_eq!(last.get_ptr(), 0x220);
}

#[test]
fn grab_subitem_fails_from_the_count_on() {
    let parent = item(0x200);
    assert_eq!(parent.grab_subitem(2, 2, 0x210).unwrap_err(), VLCError::IndexOutOfRange);
    assert_eq!(parent.grab_subitem(3, 2, 0).unwrap_err(), VLCError::IndexOutOfRange);
    assert_eq!(parent.grab_subitem(0, 0, 0x210).unwrap_err(), VLCError::IndexOutOfRange);
    assert_eq!(parent.grab_subitem(i32::MAX, 5, 0x210).unwrap_err(), VLCError::IndexOutOfRange);
}

#[test]
fn grab_subitem_succeeds_below_the_count() {
    let parent = item(0x200);
    let count = parent.subitem_count(0x900, 4);
    for index in 0..4 {
        assert!(parent.subitem_before_end(index, count));
        let child = parent.grab_subitem(index, count, 0x210 + index as usize).unwrap();
        assert_eq!(child.get_ptr(), 0x210 + index as usize);
    }
    for index in 4..9 {
        assert!(!parent.subitem_before_end(index, count));
        assert_eq!(parent.grab_subitem(index, count, 0x210).unwrap_err(), VLCError::IndexOutOfRange);
    }
}

#[test]
fn grab_subitem_reports_an_item_that_the_list_did_not_hand_back() {
    let parent = item(0x200);
    assert_eq!(parent.grab_subitem(1, 2, 0).unwrap_err(), null_pointer("Sub-item lookup"));
    assert_eq!(parent.grab_subitem(-1, 2, 0).unwrap_err(), null_pointer("Sub-item lookup"));
}

#[test]
fn subitem_count_is_the_same_after_options_and_a_parse_request() {
    let plain = item(0x200);
    let before = plain.subitem_count(0x900, 3);
    let mut media = plain;
    for n in 0..25 {
        media = media.add_option(&format!("--option-{}", n));
    }
    assert_eq!(media.options().len(), 25);
    assert_eq!(media.parse_async(ParseFlags::local(), 1000, 0), Ok(()));
    assert_eq!(media.get_ptr(), 0x200);
    assert_eq!(media.subitem_count(0x900, 3), before);
}

#[test]
fn a_missing_file_is_loaded_and_then_fails_to_parse() {
    let vlc = VLCInstance::new(0x100).unwrap();
    let path = std::path::Path::new("missing/file.mod");
    let media = Media::by_path(path.to_str(), &vlc, 0x200).unwrap();
    assert_eq!(media.parse_async(ParseFlags::local(), 1000, 0), Ok(()));
    let failed = wait_over(&media, &[0, 0, PARSED_STATUS_FAILED]).unwrap().1;
    assert_eq!(failed, ParseStatus::Failed);
    let timed_out = wait_over(&media, &[0, PARSED_STATUS_TIMEOUT]).unwrap().1;
    assert_eq!(timed_out, ParseStatus::Timeout);
    assert_ne!(failed, ParseStatus::Done);
    assert_ne!(timed_out, ParseStatus::Done);
}

#[test]
fn test_reads_the_first_row_if_there_is_one() {
    let media = item(0x200);
    assert_eq!(media.test(0), None);
    assert_eq!(media.test(-4), None);
    assert_eq!(media.test(1), Some(0));
    assert_eq!(media.test(40), Some(0));
}

#[test]
fn media_is_released_once() {
    let mut media = item(0x200).add_option("--no-video");
    assert_eq!(media.release(), Some(0x200));
    assert_eq!(media.get_ptr(), 0);
    assert_eq!(media.release(), None);
    assert_eq!(media.options(), &vec![b"--no-video\0".to_vec()]);
}
