//! Verified core of a small temperature/humidity sensor network: shared
//! message types, the DHT20 read protocol, UART framing, ESP-NOW decisions
//! and MQTT topic routing.

mod common;
mod dht20;
mod espnow;
mod framing;
mod routing;

pub use common::{get_info, EspNowMacAddress, Notification};
pub use dht20::{
    decode_measurement, needs_reset, BusOp, BusOutcome, Dht20, Error, Phase, RawReading,
    ReadSession, SessionStep, MEASURE_COMMAND, RAW_MAX, RESET_COMMAND_1, RESET_COMMAND_2,
    RESET_COMMAND_3, STATUS_CALIBRATED_MASK,
};
pub use framing::{encode_frame, FrameDecoder, MAX_PAYLOAD};
pub use routing::topic_for;
pub use espnow::{
    on_receive, on_sensor_message, BroadcastTimer, ReceiveAction, SensorMessage, BROADCAST_ADDRESS,
    BROADCAST_INTERVAL_MS,
};
