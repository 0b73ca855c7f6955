//! Writer for the header and the settings chunk of a GameMaker 8 project
//! file (`.gmk`): a settings value, an icon and a version tag go in, the
//! byte-exact layout comes out.
pub mod le;
pub mod stream;
pub mod version;
pub mod header;
pub mod settings;
pub mod laws;
