pub mod text;
pub mod lang;
pub mod parser;
pub mod slider;
pub mod plan;
pub mod layout;
pub mod sidebar;
pub mod state_file;
pub mod files;
pub mod roundtrip;
