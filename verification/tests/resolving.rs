//! Resolution end to end: real files, the cache, and the apply plan.

use wallpaperd::apply::apply_plan;
use wallpaperd::decode::DecodedImage;
use wallpaperd::props::{le32_of, lookup_active_name};
use wallpaperd::resolver::{screen_decoded, Resolution, Resolver};

#[test]
fn a_decoded_image_is_accepted_at_the_requested_size() {
    let img = DecodedImage { width: 2, height: 1, pixels: vec![1, 2, 3, 4, 5, 6] };
    match screen_decoded(Some(img), 2, 1) {
        Resolution::Decoded(out) => {
            assert_eq!((out.width, out.height), (2, 1));
            assert_eq!(out.pixels, vec![1, 2, 3, 4, 5, 6]);
        },
        _ => panic!("a matching image must be accepted"),
    }
}

#[test]
fn a_decoded_image_of_another_size_is_rejected() {
    let img = DecodedImage { width: 2, height: 1, pixels: vec![1, 2, 3, 4, 5, 6] };
    assert!(matches!(screen_decoded(Some(img), 1, 2), Resolution::NoImage));
    let img = DecodedImage { width: 2, height: 1, pixels: vec![1, 2, 3, 4, 5, 6] };
    assert!(matches!(screen_decoded(Some(img), 2, 2), Resolution::NoImage));
    assert!(matches!(screen_decoded(None, 2, 1), Resolution::NoImage));
}

#[test]
fn scenario_work_desktop_sets_background() {
    // The directory holds work-1920x1080.png; the active desktop is index 0
    // of ["work", "home"] and the surface is 1920x1080.
    let pixels = vec![100u8; 1920 * 1080 * 3];
    image::save_buffer(
        "/tmp/work-1920x1080.png",
        &pixels,
        1920,
        1080,
        image::ExtendedColorType::Rgb8,
    )
    .unwrap();

    let mut resolver = Resolver::new(b"/tmp".to_vec());
    let index_bytes = vec![0u8, 0, 0, 0];
    let names = b"work\0home\0".to_vec();
    let name = lookup_active_name(&index_bytes, &names).unwrap();
    assert_eq!(name, b"work".to_vec());

    let surface = 77u32;
    let pixmap = 4242u32;
    match resolver.resolve(surface, &name, 1920, 1080) {
        Resolution::Decoded(img) => {
            assert_eq!(img.width, 1920);
            assert_eq!(img.height, 1080);
            assert_eq!(img.pixels, pixels);
            // the caller uploads the image; the server named the drawable 4242
            resolver.store(surface, name.clone(), 1920, 1080, pixmap);
        },
        _ => panic!("expected a fresh decode"),
    }

    // both identifier properties advertise the new drawable
    let plan = apply_plan(pixmap, 1920, 1080);
    assert_eq!(plan.xrootpmap_value, le32_of(pixmap));
    assert_eq!(plan.esetroot_value, le32_of(pixmap));
    assert_eq!(plan.background_pixmap, pixmap);
    assert_eq!((plan.clear_width, plan.clear_height), (1920, 1080));

    // cache idempotence: consecutive resolutions serve the identical handle
    match resolver.resolve(surface, &name, 1920, 1080) {
        Resolution::Cached(p) => assert_eq!(p, pixmap),
        _ => panic!("expected the cached handle"),
    }
    match resolver.resolve(surface, &name, 1920, 1080) {
        Resolution::Cached(p) => assert_eq!(p, pixmap),
        _ => panic!("expected the cached handle again"),
    }
}

#[test]
fn scenario_missing_wallpaper_leaves_background() {
    // Switching to "home" when home-1920x1080.png does not exist: the
    // resolution yields no image, nothing is written, nothing is cached.
    let resolver = Resolver::new(b"/tmp/wallpaperd-no-such-dir".to_vec());
    let index_bytes = vec![1u8, 0, 0, 0];
    let names = b"work\0home\0".to_vec();
    let name = lookup_active_name(&index_bytes, &names).unwrap();
    assert_eq!(name, b"home".to_vec());

    match resolver.resolve(9, &name, 1920, 1080) {
        Resolution::NoImage => {},
        _ => panic!("expected no image"),
    }
    // and the failure left no trace: the next attempt behaves the same
    match resolver.resolve(9, &name, 1920, 1080) {
        Resolution::NoImage => {},
        _ => panic!("expected no image again"),
    }
}

#[test]
fn failed_resolution_is_retried_when_the_file_appears() {
    // A file of the wrong size stands in the wallpaper's place: resolution
    // rejects it (no scaling), and the failure is not cached.
    let small = vec![10u8; 3];
    image::save_buffer("/tmp/shelf-4x2.png", &small, 1, 1, image::ExtendedColorType::Rgb8)
        .unwrap();

    let mut resolver = Resolver::new(b"/tmp".to_vec());
    let name = b"shelf".to_vec();
    match resolver.resolve(5, &name, 4, 2) {
        Resolution::NoImage => {},
        _ => panic!("a wrong-size image must not resolve"),
    }

    // the right file is dropped in later, with no restart and no cache clear
    let pixels: Vec<u8> = (0..4 * 2 * 3).map(|i| i as u8).collect();
    image::save_buffer("/tmp/shelf-4x2.png", &pixels, 4, 2, image::ExtendedColorType::Rgb8)
        .unwrap();
    match resolver.resolve(5, &name, 4, 2) {
        Resolution::Decoded(img) => {
            assert_eq!((img.width, img.height), (4, 2));
            assert_eq!(img.pixels, pixels);
            resolver.store(5, name.clone(), 4, 2, 7);
        },
        _ => panic!("the earlier failure must not be cached"),
    }
    match resolver.resolve(5, &name, 4, 2) {
        Resolution::Cached(p) => assert_eq!(p, 7),
        _ => panic!("expected the stored handle"),
    }
}

#[test]
fn wrong_channel_count_resolves_to_no_image() {
    let rgba = vec![1u8; 2 * 2 * 4];
    image::save_buffer("/tmp/glass-2x2.png", &rgba, 2, 2, image::ExtendedColorType::Rgba8)
        .unwrap();
    let resolver = Resolver::new(b"/tmp".to_vec());
    match resolver.resolve(3, &b"glass".to_vec(), 2, 2) {
        Resolution::NoImage => {},
        _ => panic!("an image with an alpha channel must not resolve"),
    }
}

#[test]
fn distinct_geometries_are_distinct_keys() {
    // The same desktop name at two sizes resolves through two files and two
    // cache entries; the geometry of the resolution is the geometry used.
    let a: Vec<u8> = vec![5u8; 2 * 2 * 3];
    let b: Vec<u8> = vec![9u8; 3 * 1 * 3];
    image::save_buffer("/tmp/ledge-2x2.png", &a, 2, 2, image::ExtendedColorType::Rgb8).unwrap();
    image::save_buffer("/tmp/ledge-3x1.png", &b, 3, 1, image::ExtendedColorType::Rgb8).unwrap();

    let mut resolver = Resolver::new(b"/tmp".to_vec());
    let name = b"ledge".to_vec();
    match resolver.resolve(1, &name, 2, 2) {
        Resolution::Decoded(img) => {
            assert_eq!(img.pixels, a);
            resolver.store(1, name.clone(), 2, 2, 21);
        },
        _ => panic!("expected a decode at 2x2"),
    }
    match resolver.resolve(1, &name, 3, 1) {
        Resolution::Decoded(img) => {
            assert_eq!(img.pixels, b);
            resolver.store(1, name.clone(), 3, 1, 31);
        },
        _ => panic!("expected a decode at 3x1"),
    }
    match resolver.resolve(1, &name, 2, 2) {
        Resolution::Cached(p) => assert_eq!(p, 21),
        _ => panic!("expected the 2x2 handle"),
    }
    match resolver.resolve(1, &name, 3, 1) {
        Resolution::Cached(p) => assert_eq!(p, 31),
        _ => panic!("expected the 3x1 handle"),
    }
}
