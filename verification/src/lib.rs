//! Layout and text-logging logic for a framed text box on a 320x170 TFT
//! screen: rectangle geometry, a builder that places frames next to each
//! other, and a printer that keeps a bounded history of log lines and
//! renders the newest ones into the box.

pub mod geometry;
pub mod style;
pub mod ring;
pub mod framed;
pub mod printer;
