//! Version strings, build checksums, size limits, channels and ports.
use vstd::prelude::*;

verus! {

/// Version string of the dedicated server.
pub const DEDICATED_VERSION: &'static str = "0.1a snapshot \"Gary 2.10\"";
/// Version string of the master server.
pub const MASTER_VERSION: &'static str = "0.1a snapshot \"Gary 2.10\"";
/// Version string of the client, sent when joining.
pub const CLIENT_VERSION: &'static str = "0.1a snapshot \"Gary 2.10\"";

/// CRC32 of the English Fallout 3 1.7 executable.
pub const FALLOUT3_EN_VER17: u32 = 0x00E59528;
/// CRC32 of FOSE 1.2 beta 2.
pub const FOSE_VER0122: u32 = 0x0004E1B5;
/// CRC32 of the vaultmp DLL.
pub const VAULTMP_DLL: u32 = 0x000368FD;
/// CRC32 of the vaultmp Fallout 3 data file.
pub const VAULTMP_F3: u32 = 0x1C877592;
/// CRC32 of the xlive patch.
pub const XLIVE_PATCH: u32 = 0x0000D57E;

pub const MAX_PLAYER_NAME: usize = 16;
pub const MAX_PASSWORD_SIZE: usize = 16;
pub const MAX_MASTER_SERVER: usize = 32;
pub const MAX_MOD_FILE: usize = 64;
pub const MAX_CELL_NAME: usize = 36;
pub const MAX_MESSAGE_LENGTH: usize = 64;
pub const MAX_CHAT_LENGTH: usize = 128;

/// Largest pipe message.
pub const PIPE_LENGTH: usize = 2048;

pub const CHANNEL_SYSTEM: u8 = 0;
pub const CHANNEL_GAME: u8 = 1;
pub const CHANNEL_CHAT: u8 = 2;

/// Default game server port.
pub const RAKNET_STANDARD_PORT: u16 = 1770;
/// Default master server port.
pub const RAKNET_MASTER_STANDARD_PORT: u16 = 1660;
/// Default file server port.
pub const RAKNET_FILE_SERVER: u16 = 1550;

/// Default connection limit of a server.
pub const RAKNET_STANDARD_CONNECTIONS: usize = 4;

/// Largest item stack a single inventory entry may hold.
pub const MAX_ITEM_STACK: u32 = 65535;

} // verus!
