pub mod types;
pub mod text;
pub mod json;
pub mod registry;
pub mod clock;
pub mod encoding;
pub mod params;
pub mod orders;
pub mod funds;
