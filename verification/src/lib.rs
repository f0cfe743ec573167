//! Lighting control for Logitech gaming devices: the effect commands, the
//! per-model report encoders, the configuration store and the device manager,
//! with their behaviour stated in contracts and proved.

pub mod color;
pub mod command;
pub mod config;
pub mod drivers;
pub mod error;
pub mod manager;
pub mod model;
pub mod registry;
pub mod rpc;
pub mod text;
pub mod usb_ext;

pub use color::{FromHexError, RgbColor};
pub use config::Config;
pub use command::{Brightness, Command, DeviceType, Direction, Dpi, GModelId, Speed};
pub use error::{CommandError, CommandResult, UsbError};
pub use manager::{Arrival, GDeviceManager, GDeviceManagerEvent, ManagerAction, Phase, Transmission};
pub use model::{GDevice, GDeviceDriver, GDeviceModel, UsbDevice};
pub use registry::{GDeviceDriverRef, GDeviceModelRef, GDeviceRef};
