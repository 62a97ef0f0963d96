//! Conversions between musical and audio time: bars, beats, ticks and samples.
//!
//! Every quantity that is not a whole number of ticks or samples is given as an
//! exact [`Fraction`] of quarter notes or bars, so no rounding happens except
//! where a count of ticks is produced.

pub mod arith;
pub mod bars;
pub mod beats;
pub mod calc;
pub mod division;
pub mod fraction;
pub mod measure;
pub mod samples;
pub mod ticks;
pub mod time_sig;

pub use bars::Bars;
pub use beats::Beats;
pub use calc::{checked_ticks_from_measure, ticks_from_measure, Ppqn};
pub use division::{DivType, Division, NumDiv};
pub use fraction::Fraction;
pub use measure::Measure;
pub use samples::Samples;
pub use ticks::Ticks;
pub use time_sig::TimeSig;
