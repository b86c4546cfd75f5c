//! Home Assistant MQTT bridge: the verified core of a service that publishes
//! container (and sample) devices to a Home Assistant MQTT broker.
//!
//! The library holds the data model of devices and entities, the topic and
//! discovery layouts, the decisions of the connection and publishing loops and
//! the computations over container data. I/O lives in the application.

pub mod strings;
pub mod helpers;
pub mod args;
pub mod json;
pub mod entity_details;
pub mod entities;
pub mod device;
pub mod topic_map;
pub mod update_engine;
pub mod stopped_tasks;
pub mod device_manager;
pub mod docker;
pub mod healthcheck;
pub mod container_data;
pub mod handlers;
pub mod sample_device;
pub mod devices;
pub mod docker_devices;
pub mod test_helpers;
pub mod ha_devices;
pub mod publishing;
