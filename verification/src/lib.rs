//! Engine of a wallpaper daemon for virtual desktops: when the active desktop
//! changes, pick the wallpaper file named after the new desktop and the root
//! window's size, decode it once, cache the resulting pixmap, and advertise it
//! through the root window's background properties.
//!
//! The crate holds the event-driven core: the debouncer that coalesces bursts
//! of property-change notifications, the parsers for the desktop-index and
//! desktop-names properties, the wallpaper file-path convention, the pixmap
//! cache, and the payloads of the property writes that publish a background.
//! The windowing-system connection itself (reads, writes, blits, waiting for
//! events) is the caller's: the engine only decides, on plain values.

pub mod apply;
pub mod cache;
pub mod debounce;
pub mod decode;
pub mod path;
pub mod props;
pub mod resolver;
