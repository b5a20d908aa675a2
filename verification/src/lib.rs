pub mod device;
pub mod gateway;
pub mod group;
pub mod json;
pub mod json_text;
pub mod keys;
pub mod serialization;
pub mod time;
pub mod tradfri_coap;
pub mod udp_dtls;

pub use device::BulbColdWarmHexParsed;
pub use device::BulbColdWarmHexUpdate;
pub use device::BulbParsed;
pub use device::BulbRgbXYParsed;
pub use device::BulbRgbXYUpdate;
pub use device::BulbUpdate;
pub use device::ColdWarmColor;
pub use device::Device;
pub use device::DeviceError;
pub use device::DeviceInfoParsed;
pub use device::DeviceInfoWithBatteryParsed;
pub use device::DeviceTypeParsed;
pub use device::DeviceUpdate;
pub use device::DriverUpdate;
pub use device::LedDriverParsed;
pub use device::Light;
pub use device::LightDeviceParsed;
pub use device::RgbColor;
pub use gateway::Connected;
pub use gateway::ResourceRequest;
pub use gateway::TradfriGateway;
pub use gateway::TradfriGatewayError;
pub use gateway::WithCode;
pub use gateway::WithCredentials;
pub use group::Group;
pub use group::GroupError;
pub use group::GroupParsed;
pub use group::GroupUpdate;
pub use group::Items;
pub use group::ItemsParsed;
