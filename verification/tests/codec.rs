//! Property payloads: the desktop-index and desktop-names decoders, the
//! wallpaper path convention, and the apply plan.

use wallpaperd::apply::apply_plan;
use wallpaperd::path::wallpaper_path;
use wallpaperd::props::{le32_of, lookup_active_name, parse_index, split_names};

#[test]
fn index_is_little_endian() {
    assert_eq!(parse_index(&vec![0, 0, 0, 0]), Some(0));
    assert_eq!(parse_index(&vec![1, 0, 0, 0]), Some(1));
    assert_eq!(parse_index(&vec![0x39, 0x30, 0, 0]), Some(12345));
    assert_eq!(parse_index(&vec![0xEF, 0xBE, 0xAD, 0xDE]), Some(0xDEAD_BEEF));
}

#[test]
fn index_of_wrong_length_is_malformed() {
    assert_eq!(parse_index(&vec![]), None);
    assert_eq!(parse_index(&vec![1, 0, 0]), None);
    assert_eq!(parse_index(&vec![1, 0, 0, 0, 0]), None);
}

#[test]
fn le32_of_encodes_little_endian() {
    assert_eq!(le32_of(1), vec![1, 0, 0, 0]);
    assert_eq!(le32_of(0xDEAD_BEEF), vec![0xEF, 0xBE, 0xAD, 0xDE]);
}

#[test]
fn names_split_on_nul() {
    let names = split_names(&b"work\0home\0".to_vec());
    assert_eq!(names, vec![b"work".to_vec(), b"home".to_vec()]);
}

#[test]
fn trailing_unterminated_name_counts() {
    let names = split_names(&b"work\0home".to_vec());
    assert_eq!(names, vec![b"work".to_vec(), b"home".to_vec()]);
}

#[test]
fn empty_names_property_lists_no_desktops() {
    assert_eq!(split_names(&vec![]), Vec::<Vec<u8>>::new());
}

#[test]
fn empty_names_are_kept_in_order() {
    let names = split_names(&b"a\0\0b".to_vec());
    assert_eq!(names, vec![b"a".to_vec(), b"".to_vec(), b"b".to_vec()]);
    assert_eq!(split_names(&b"\0\0".to_vec()), vec![b"".to_vec(), b"".to_vec()]);
}

#[test]
fn active_name_is_looked_up_by_index() {
    let names = b"work\0home\0".to_vec();
    assert_eq!(lookup_active_name(&vec![0, 0, 0, 0], &names), Some(b"work".to_vec()));
    assert_eq!(lookup_active_name(&vec![1, 0, 0, 0], &names), Some(b"home".to_vec()));
}

#[test]
fn out_of_range_index_yields_nothing() {
    let names = b"work\0home\0".to_vec();
    assert_eq!(lookup_active_name(&vec![2, 0, 0, 0], &names), None);
}

#[test]
fn malformed_index_yields_nothing() {
    let names = b"work\0home\0".to_vec();
    assert_eq!(lookup_active_name(&vec![0, 0, 0], &names), None);
    assert_eq!(lookup_active_name(&vec![], &names), None);
}

#[test]
fn path_follows_name_and_geometry() {
    let p = wallpaper_path(&b"/backgrounds".to_vec(), &b"work".to_vec(), 1920, 1080);
    assert_eq!(p, b"/backgrounds/work-1920x1080.png".to_vec());
    let q = wallpaper_path(&b"/backgrounds".to_vec(), &b"work".to_vec(), 1280, 1024);
    assert_eq!(q, b"/backgrounds/work-1280x1024.png".to_vec());
    let z = wallpaper_path(&b"d".to_vec(), &b"n".to_vec(), 0, 0);
    assert_eq!(z, b"d/n-0x0.png".to_vec());
}

#[test]
fn apply_plan_names_one_pixmap() {
    let plan = apply_plan(0xDEAD_BEEF, 800, 600);
    assert_eq!(plan.xrootpmap_value, plan.esetroot_value);
    assert_eq!(plan.xrootpmap_value, vec![0xEF, 0xBE, 0xAD, 0xDE]);
    assert_eq!(plan.background_pixmap, 0xDEAD_BEEF);
    assert_eq!((plan.clear_width, plan.clear_height), (800, 600));
}
