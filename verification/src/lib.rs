//! A verified reader for Mach-O structural metadata: the file header,
//! CPU architecture identification, and the load-command table, with
//! bounded extraction of linkedit data blobs referenced by offset and size.

pub mod bytes;
pub mod cursor;
pub mod endian;
pub mod err;
pub mod header;
pub mod load_command;
pub mod machine;
pub mod magic;
pub mod object;

pub use cursor::Cursor;
pub use endian::Endian;
pub use err::Error;
pub use header::MachHeader;
pub use load_command::LcLinkEditData;
pub use load_command::LcThread;
pub use load_command::LcVariant;
pub use load_command::LoadCommand;
pub use machine::CPU;
pub use machine::CPUSubtype;
pub use machine::CPUType;
pub use machine::Machine;
pub use machine::SubtypeArm64;
pub use machine::SubtypeX86_64;
pub use magic::Magic;
pub use object::MachObject;
