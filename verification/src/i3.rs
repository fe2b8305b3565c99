//! Types of the i3bar protocol.

pub mod bar_item;
pub mod click;
pub mod ipc;

pub use self::bar_item::{I3Align, I3Item, I3Markup, I3MinWidth, ItemData};
pub use self::click::{I3BarHeader, I3Button, I3ClickEvent, I3Modifier};
