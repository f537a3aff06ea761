//! The decision logic of an interactive lecture console: which demos each
//! section holds, what a typed menu line means, and how the step-by-step
//! navigation cursor moves through a list of demos.

pub mod catalog;
pub mod menu;
pub mod navigation;
pub mod section1_basics;
pub mod section2_ownership;
pub mod section3_borrowing;
pub mod section4_traits;
pub mod section5_enums;
pub mod section6_idioms;
pub mod section7_concurrency;
pub mod section8_crates;
pub mod text;
