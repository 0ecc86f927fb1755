//! Client configuration (vaultmp.ini style).
use vstd::prelude::*;

verus! {

/// Client settings; missing keys take the defaults below.
#[derive(Debug, Clone)]
pub struct ClientConfig {
    /// Player name.
    pub name: String,
    /// Master server address.
    pub master: String,
    /// Game server host.
    pub server_addr: String,
    pub server_port: u16,
    /// Milliseconds to wait for the game to initialise.
    pub init_time: u32,
    /// Bridge connection: "proton", "native" or "stub".
    pub ipc_mode: String,
    /// Bridge TCP port.
    pub ipc_port: u16,
    /// Load order to report, as `file:crc32-in-hex` entries.
    pub mods: Vec<String>,
}

/// Default player name.
pub fn default_name() -> (r: String)
    ensures
        r@ == "Wanderer"@,
{
    "Wanderer".to_owned()
}

/// Default master server address.
pub fn default_master() -> (r: String)
    ensures
        r@ == "127.0.0.1:1660"@,
{
    "127.0.0.1:1660".to_owned()
}

/// Default game server host.
pub fn default_server() -> (r: String)
    ensures
        r@ == "127.0.0.1"@,
{
    "127.0.0.1".to_owned()
}

/// Default game server port.
pub fn default_server_port() -> (r: u16)
    ensures
        r == 1770,
{
    1770
}

/// Default initialisation wait, in milliseconds.
pub fn default_init_time() -> (r: u32)
    ensures
        r == 9000,
{
    9000
}

/// Default bridge connection mode.
pub fn default_ipc_mode() -> (r: String)
    ensures
        r@ == "stub"@,
{
    "stub".to_owned()
}

/// Default bridge port.
pub fn default_ipc_port() -> (r: u16)
    ensures
        r == 1771,
{
    1771
}

impl Default for ClientConfig {
    fn default() -> (r: ClientConfig)
        ensures
            r.name@ == "Wanderer"@,
            r.master@ == "127.0.0.1:1660"@,
            r.server_addr@ == "127.0.0.1"@,
            r.server_port == 1770,
            r.init_time == 9000,
            r.ipc_mode@ == "stub"@,
            r.ipc_port == 1771,
            r.mods@.len() == 0,
    {
        ClientConfig {
            name: default_name(),
            master: default_master(),
            server_addr: default_server(),
            server_port: default_server_port(),
            init_time: default_init_time(),
            ipc_mode: default_ipc_mode(),
            ipc_port: default_ipc_port(),
            mods: Vec::new(),
        }
    }
}

} // verus!
