//! Inspection of a DRM display device: driver identity, connectors, modes
//! and planes, with the choice of one connected display and its preferred mode.
pub mod inspect;
pub mod model;
pub mod report;
pub mod text;
