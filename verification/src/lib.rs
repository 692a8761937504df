//! Host-side implementation of the Picture Transfer Protocol (PTP, ISO 15740)
//! over USB: the little-endian wire codec for PTP data values and descriptors,
//! the code-space enumerations with standard/vendor/reserved classification,
//! container framing, and the decision logic of the transaction engine and the
//! event channel.  USB transport itself is left to the surrounding
//! application; everything here is pure computation on byte buffers and plain
//! values.

pub mod command;
pub mod container;
pub mod data;
pub mod engine;
pub mod error;
pub mod event;
pub mod hex;
pub mod reader;
pub mod records;
pub mod response;
pub mod session;
pub mod storage;
pub mod tree;
pub mod utf16;
pub mod writer;
pub mod wire;

pub use command::CommandCode;
pub use error::Error;
pub use error::IoErrorKind;
pub use error::UsbError;
pub use reader::Reader;
pub use writer::Writer;
pub use command::StandardCommandCode;
pub use container::ContainerInfo;
pub use container::ContainerType;
pub use data::Data;
pub use engine::PhaseStep;
pub use engine::EndpointDesc;
pub use engine::EndpointDirection;
pub use engine::EndpointKind;
pub use engine::InterfaceDesc;
pub use data::DataView;
pub use records::DeviceInfo;
pub use records::FormData;
pub use records::ObjectInfo;
pub use records::PropInfo;
pub use records::StorageInfo;
pub use session::CommandRequest;
pub use tree::ObjectTree;
pub use event::Event;
pub use event::EventCode;
pub use event::StandardEventCode;
pub use response::ResponseCode;
pub use response::StandardResponseCode;
pub use storage::AccessType;
pub use storage::AssociationCode;
pub use storage::FilesystemType;
pub use storage::ObjectFormatCode;
pub use storage::StandardAccessType;
pub use storage::StandardAssociationCode;
pub use storage::StandardFilesystemType;
pub use storage::StandardObjectFormatCode;
pub use storage::StandardStorageType;
pub use storage::ObjectFormatCategory;
pub use storage::ObjectHandle;
pub use storage::StorageId;
pub use storage::StorageType;
