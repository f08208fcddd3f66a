//! Page assembly: the fixed blocks, the theme store and the layout that
//! stitches them around a page's content.

pub mod footer;
pub mod head;
pub mod header;
pub mod layout;
pub mod theme_manager;
