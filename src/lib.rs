//! Verified request routing for three KDE shell protocol extensions:
//! application menu linkage, surface blur and server-side decoration.
//!
//! The library decides, for every request that reaches an extension, which
//! host callback runs and with what arguments. The protocol runtime (object
//! tables, wire decoding, event delivery) stays outside and hands plain
//! values in.
pub mod appmenu;
pub mod blur;
pub mod decoration;
pub mod global;
pub mod surface_object;
