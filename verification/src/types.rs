//! Building blocks shared by filters: delay lines, clamping and scaling.

pub mod clamper;
pub mod delayline;
pub mod scaler;
