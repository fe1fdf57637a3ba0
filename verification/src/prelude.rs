//! Re-export of commonly used items for easier access

pub use crate::device::{
    PanasonicAc, PanasonicAc32, PanasonicAcBuilder, PanasonicAcChanges, PanasonicAcModel,
};
pub use crate::encoder::{Decoder, Encoder, IrSignal, PanasonicDecoder, PanasonicEncoder};
pub use crate::hardware::{IrReceiver, IrTransmitter};
pub use crate::protocol::{AcDevice, Device};
pub use crate::state::{PanasonicAc32State, PanasonicAcState};
pub use crate::types::{AcMode, FanSpeed, SwingH, SwingV};
pub use crate::utils::standard;
pub use crate::{Error, Result};
