//! Layout and navigation for a grid of image tiles.
//!
//! `size` derives a uniform tile size from the images' intrinsic sizes,
//! `layout` packs tiles into rows and maps points back to tiles, and `grid`
//! holds the selection, scrolling and full-screen state driven by input events.
//! `loader` decides which files to load, with patterns compiled by `pattern`,
//! and `dispatcher` switches between screens.
pub mod dispatcher;
pub mod grid;
pub mod layout;
pub mod loader;
pub mod pattern;
pub mod size;
