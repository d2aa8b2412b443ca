//! Lazy lock-step combination of several cursors into one cursor of tuples.
//!
//! `zip2` pairs two cursors; `zip3` to `zip12` combine more, each built as
//! the pairing of the combination one smaller with one more cursor, whose
//! nested pairs are flattened into tuples as they are pulled. A combination
//! ends with its shortest input.
pub mod cursor;
pub mod model;
pub mod tuple;
pub mod zip;

pub use cursor::{drain, Cursor, SliceCursor, VecCursor};
pub use tuple::{
    zip10, zip11, zip12, zip3, zip4, zip5, zip6, zip7, zip8, zip9, Zip10, Zip11, Zip12, Zip3, Zip4,
    Zip5, Zip6, Zip7, Zip8, Zip9,
};
pub use zip::{zip2, Zip2};
