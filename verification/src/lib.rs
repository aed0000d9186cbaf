//! Domain logic of a smart aquarium controller: sensor kinds and their
//! physical ranges, water-quality classification, and the rule that decides
//! when the pumps should run a water change.

pub mod order;
pub mod pump;
pub mod sensor;
pub mod water;
