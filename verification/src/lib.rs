//! Small verified building blocks: a three-slot container of optional
//! integers, and a few stand-alone functions over integer sequences and
//! calendar months.

pub mod box_vec;
pub mod calendar;
pub mod frequency;
pub mod pairing;

pub use box_vec::BoxVec;
pub use box_vec::SlotError;
pub use calendar::calendar;
pub use frequency::frequency_count;
pub use pairing::pairing;
