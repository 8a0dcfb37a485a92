//! Verified core of a three-column binary viewer: the column layout of the
//! canvas, the colormap cycle, keyboard mapping, viewer state and pointer
//! gestures, the plan of the visible hex rows, display names of fetched
//! files, and the integer side of block-entropy computation (byte histograms
//! and the partition of a file into entropy windows).

pub mod colormap;
pub mod layout;
pub mod entropy;
pub mod keys;
pub mod app;
pub mod names;
