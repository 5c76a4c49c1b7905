//! Small verified building blocks: finding the largest element of a slice,
//! string slicing, rectangles, coins, guesses and summaries.
pub mod extremum;
pub mod slices;
pub mod ownership;
pub mod borrowing;
pub mod functions;
pub mod matching;
pub mod guess;
pub mod rectangles;
pub mod users;
pub mod summary;
pub mod points;
pub mod lifetimes;
pub mod restaurant;
pub mod use_paths;
pub mod separate_files;
