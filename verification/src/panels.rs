//! The panels, the bars at the foot of the canvas, and the overlays over it: what each of
//! them says and what each of its controls asks for.
pub mod brush;
pub mod catcher;
pub mod color;
pub mod filter;
pub mod frame;
pub mod gradient_bar;
pub mod gradient_fill;
pub mod gradients;
pub mod guides;
pub mod layer;
pub mod lighting;
pub mod navigator;
pub mod path;
pub mod pick;
pub mod popout;
pub mod rename;
pub mod select;
pub mod timeline;
pub mod transform;
