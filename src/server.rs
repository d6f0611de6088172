use vstd::prelude::*;

verus! {

/// The protocol version a connection announces unless told otherwise.
pub const LATEST_PROTOCOL_VERSION: usize = 578;

/// The port a connection targets unless told otherwise.
pub const DEFAULT_PORT: u16 = 25565;

/// Contains information about the server version.
#[derive(Debug)]
pub struct ServerVersion {
    /// The server's Minecraft version, i.e. "1.15.2".
    pub name: String,
    /// The server's ServerListPing protocol version.
    pub protocol: u32,
}

/// Contains information about a player.
#[derive(Debug)]
pub struct ServerPlayer {
    /// The player's in-game name.
    pub name: String,
    /// The player's UUID.
    pub id: String,
}

/// Contains information about the currently online players.
#[derive(Debug)]
pub struct ServerPlayers {
    /// The configured maximum number of players for the server.
    pub max: u32,
    /// The number of players currently online.
    pub online: u32,
    /// An optional list of player information for currently online players.
    pub sample: Option<Vec<ServerPlayer>>,
}

/// Contains the server's MOTD in its structured form.
#[derive(Debug)]
pub struct BigServerDescription {
    pub text: String,
    pub extra: Vec<ExtraDescriptionPart>,
}

/// A segment of the extra part of a server description.
#[derive(Debug)]
pub struct ExtraDescriptionPart {
    pub text: String,
    pub color: String,
    pub bold: bool,
    pub italic: bool,
}

/// Information about mods that modded servers send, keyed by loader.
#[derive(Debug)]
pub enum ModInfo {
    /// A Forge mod list.
    Forge { mod_list: Vec<ForgeModInfo> },
}

/// One mod entry as sent by Forge.
#[derive(Debug)]
pub struct ForgeModInfo {
    pub modid: String,
    pub version: String,
}

/// A server description: either a plain string or the structured form.
#[derive(Debug)]
pub enum ServerDescription {
    /// The `description` field was a string.
    Simple(String),
    /// The `description` field was an object.
    Big(BigServerDescription),
}

impl ServerDescription {
    /// The text of this description, whichever form it has.
    pub fn get_text(&self) -> (r: &String)
        ensures
            r@ == match self {
                ServerDescription::Simple(t) => t@,
                ServerDescription::Big(d) => d.text@,
            },
    {
        match self {
            ServerDescription::Big(desc) => &desc.text,
            ServerDescription::Simple(desc) => desc,
        }
    }
}

/// The decoded JSON response of a status query.
#[derive(Debug)]
pub struct StatusResponse {
    /// Information about the server's version.
    pub version: ServerVersion,
    /// Information about currently online players.
    pub players: ServerPlayers,
    /// The server's MOTD.
    pub description: ServerDescription,
    /// The server's favicon, if it sends one.
    pub favicon: Option<String>,
    /// Mod metadata, if the server sends any.
    pub modinfo: Option<ModInfo>,
}

/// Where and how to connect for a status query.
pub struct ConnectionConfig {
    protocol_version: usize,
    address: String,
    port: u16,
}

impl ConnectionConfig {
    /// The protocol version this configuration announces.
    pub closed spec fn spec_protocol_version(&self) -> usize {
        self.protocol_version
    }

    /// The host this configuration targets.
    pub closed spec fn spec_address(&self) -> Seq<char> {
        self.address@
    }

    /// The port this configuration targets.
    pub closed spec fn spec_port(&self) -> u16 {
        self.port
    }

    /// A configuration for `address` on the default port with the latest
    /// protocol version.
    pub fn build(address: String) -> (r: Self)
        ensures
            r.spec_address() == address@,
            r.spec_port() == DEFAULT_PORT,
            r.spec_protocol_version() == LATEST_PROTOCOL_VERSION,
    {
        ConnectionConfig { protocol_version: LATEST_PROTOCOL_VERSION, address, port: DEFAULT_PORT }
    }

    /// The same configuration with another protocol version.
    pub fn with_protocol_version(self, protocol_version: usize) -> (r: Self)
        ensures
            r.spec_address() == self.spec_address(),
            r.spec_port() == self.spec_port(),
            r.spec_protocol_version() == protocol_version,
    {
        let mut c = self;
        c.protocol_version = protocol_version;
        c
    }

    /// The same configuration with another port.
    pub fn with_port(self, port: u16) -> (r: Self)
        ensures
            r.spec_address() == self.spec_address(),
            r.spec_port() == port,
            r.spec_protocol_version() == self.spec_protocol_version(),
    {
        let mut c = self;
        c.port = port;
        c
    }

    /// The protocol version this configuration announces.
    pub fn protocol_version(&self) -> (r: usize)
        ensures
            r == self.spec_protocol_version(),
    {
        self.protocol_version
    }

    /// The host this configuration targets.
    pub fn address(&self) -> (r: &String)
        ensures
            r@ == self.spec_address(),
    {
        &self.address
    }

    /// The port this configuration targets.
    pub fn port(&self) -> (r: u16)
        ensures
            r == self.spec_port(),
    {
        self.port
    }
}

} // verus!
