//! Driver core for the Waveshare 3.7" black/white e-paper panel
//! (ED037TC1, 280x480, SSD1677 controller).
//!
//! The crate holds the decisions of the driver and none of its wiring: the
//! caller performs each bus transfer that the driver hands out and reports
//! its outcome back.
//!
//! - [`panel`]: the panel's constants and the outcome types.
//! - [`frame`]: the frame buffer and its single-owner manager.
//! - [`protocol`]: the controller's command sequence for a full-frame write.
//! - [`scheduler`]: the transfer state machine.
//! - [`screen`]: the display capability surface, [`ED037TC1`].
//! - [`laws`]: what holds of whole runs of the driver.

pub mod panel;
pub mod frame;
pub mod protocol;
pub mod scheduler;
pub mod screen;
pub mod laws;

pub use panel::{
    ErrorCode, InitError, ScreenPixelFormat, ScreenRotation, BUF_LEN, DRIVER_NUM, HEIGHT, WIDTH,
};
pub use frame::{FrameBuffer, FrameBufferManager};
pub use protocol::{next_step, Step, STEP_COUNT};
pub use scheduler::{Progress, TransferScheduler, TransferState};
pub use screen::{Action, ED037TC1};
