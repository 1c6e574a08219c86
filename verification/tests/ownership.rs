use std::collections::HashMap;

use rvlc::devices::{DeviceNode, DeviceWalk};
use rvlc::{Media, Player, TrackList, VLCInstance, VLCInterface};

/// A stand-in for the native layer that hands out addresses and counts how
/// often each is released.
struct FakeNative {
    next: usize,
    releases: HashMap<usize, u32>,
}

impl FakeNative {
    fn new() -> FakeNative {
        FakeNative { next: 0x1000, releases: HashMap::new() }
    }

    fn allocate(&mut self) -> usize {
        self.next += 0x10;
        self.releases.insert(self.next, 0);
        self.next
    }

    fn release(&mut self, handle: Option<usize>) {
        if let Some(address) = handle {
            *self.releases.get_mut(&address).expect("released what was never allocated") += 1;
        }
    }

    fn each_released_once(&self) -> bool {
        self.releases.values().all(|count| *count == 1)
    }

    fn none_released_twice(&self) -> bool {
        self.releases.values().all(|count| *count <= 1)
    }
}

#[test]
fn no_handle_is_released_twice() {
    let mut native = FakeNative::new();
    let (mut vlc, _) = VLCInstance::new(native.allocate()).unwrap().with_interface(VLCInterface::RC);
    let mut media = Media::by_location("file:///a.mod", &vlc, native.allocate()).unwrap();
    let mut child = media.grab_subitem(0, 1, native.allocate()).unwrap();
    let mut tracks = TrackList::from_media(&media, native.allocate(), 2).unwrap();
    let mut player = Player::by_media(&media, native.allocate()).unwrap();
    let mut walk = player.enumerate_output_devices(native.allocate());
    walk.visit(DeviceNode {
        device: Some("a".to_string()),
        description: Some("A".to_string()),
        next: 0,
    });

    for _ in 0..3 {
        native.release(walk.release());
        native.release(player.release());
        native.release(tracks.release());
        native.release(child.release());
        native.release(media.release());
        native.release(vlc.release());
        assert!(native.none_released_twice());
    }
    assert!(native.each_released_once());
    assert_eq!(native.releases.len(), 6);
}

#[test]
fn what_was_never_acquired_is_never_released() {
    let mut native = FakeNative::new();
    assert!(VLCInstance::new(0).is_err());
    let vlc = VLCInstance::new(native.allocate()).unwrap();
    assert!(Media::by_fd(0, &vlc, 0).is_err());
    assert!(Media::by_location("a\0b", &vlc, 0).is_err());
    let mut walk = DeviceWalk::start(0);
    native.release(walk.release());
    assert!(native.releases.values().all(|count| *count == 0));
}

#[test]
fn releasing_a_parent_leaves_the_sub_item_alone() {
    let mut native = FakeNative::new();
    let vlc = VLCInstance::new(native.allocate()).unwrap();
    let mut parent = Media::by_path(Some("list.m3u"), &vlc, native.allocate()).unwrap();
    let mut child = parent.grab_subitem(0, 3, native.allocate()).unwrap();
    let child_address = child.get_ptr();
    native.release(parent.release());
    assert_eq!(child.get_ptr(), child_address);
    native.release(child.release());
    native.release(parent.release());
    assert!(native.none_released_twice());
    assert_eq!(native.releases[&child_address], 1);
}
