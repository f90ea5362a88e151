//! Control of IP cameras of four manufacturers through one set of operations.
//!
//! An adapter turns each operation of the capability contract into the
//! calls that its manufacturer understands, and reads the answers. The
//! library decides and never sends: an operation answers with a step, which
//! is its result or the call to make next, and goes on when it is handed the
//! answer to that call. Sending, encoding and waiting are left to the
//! caller.
//!
//! Every function states what it returns in its contract, and the contracts
//! are proved.

pub mod axis;
pub mod camera;
pub mod clock;
pub mod configuration;
pub mod dahua;
pub mod daynight;
pub mod defaults;
pub mod device;
pub mod domain;
pub mod dublicates;
pub mod error;
pub mod exchange;
pub mod focus;
pub mod handler;
pub mod hikvision;
pub mod image;
pub mod markup;
pub mod request;
pub mod session;
pub mod signal;
pub mod status;
pub mod stilsoft;
pub mod streaming;
pub mod text;

pub use crate::camera::CameraModelHttp;
pub use crate::configuration::{
    AdditionalConfiguration, HikvisionConfiguration, SpotlightConfiguration, SpotlightMode,
};
pub use crate::error::IpCamerasError;
pub use crate::focus::{
    Direction, FocusCapabilities, FocusCapabilitiesAbsolute, FocusCapabilitiesContinuous,
    FocusCapabilitiesRelative, FocusContinuous, FocusSettings, FocusValue, TypedFocus,
};
pub use crate::handler::DEFAULT_TIMEOUT;
