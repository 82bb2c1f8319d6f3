//! Geometric and predictive core of a block-based video encoder.
//!
//! The crate models how a coding frame is subdivided into blocks and
//! transform units, which neighboring pixels are available for prediction
//! at any point of that subdivision, and how the predicted pixel values
//! are computed, both from already-reconstructed pixels of the same frame
//! (intra) and from reference frames through motion compensation (inter).

pub mod geom;
pub mod block;
pub mod transform;
pub mod modes;
pub mod neighbors;
pub mod refs;
pub mod motion;
pub mod mux;
pub mod plane;
pub mod edge;
pub mod intra;
pub mod mc;
pub mod predict;
