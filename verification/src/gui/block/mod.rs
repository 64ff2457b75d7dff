pub mod image;
pub mod multicolored_barchart;
