//! The platform-independent core of a toolkit view hosted inside a macOS
//! `NSView`: the translation of native input into toolkit events, and the
//! decisions the view takes when the platform calls it back.
//!
//! Nothing here touches the Objective-C runtime or the GPU. The embedding
//! layer reads plain values out of native objects, hands them to these
//! functions, and carries out what they return.

pub mod cursor;
pub mod event;
pub mod keyboard;
pub mod mouse;
pub mod view;
pub mod window;
