//! Planning and checking for a single compute-shader dispatch over a
//! two-dimensional grid and for the read-back of its result.
//!
//! The crate holds no device handle. A driver performs the device calls;
//! the types here decide what is to be called next, with which sizes and
//! bytes, and what an outcome means.
//!
//! - [`device`] chooses the backends and follows the opening of a device.
//! - [`checked`] puts every device operation under a validation scope.
//! - [`kernel`] holds the text of the kernel and what it declares.
//! - [`scene`] and [`layout`] lay the uniform block out in bytes.
//! - [`dispatch`] plans and follows one run of the kernel.
//! - [`readback`], [`gray`] and [`sample`] bring the result back as an
//!   image or plan its copy to a texture.
//! - [`session`], [`owner`] and [`ui`] decide for the window: its states,
//!   the one owner of its device, and its event loop.

pub mod checked;
pub mod device;
pub mod dispatch;
pub mod error;
pub mod gray;
pub mod kernel;
pub mod layout;
pub mod owner;
pub mod readback;
pub mod sample;
pub mod scene;
pub mod session;
pub mod ui;

pub use error::Error;
pub use session::Gpu;
pub use ui::{Ui, UiMessage};
