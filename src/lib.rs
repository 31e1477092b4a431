//! Screen-state recognition: template localisation, region fingerprinting and
//! the composition rules that turn anchor positions and fixed offsets into
//! typed readings of a captured frame.

pub mod frame;
pub mod matcher;
pub mod hasher;
pub mod resources;
pub mod extractor;
pub mod context;
pub mod ocr;
pub mod convert;
pub mod battle_list;
