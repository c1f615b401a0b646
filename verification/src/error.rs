//! The errors of the socket layer. Each carries the text of its cause, as the
//! operating system or the encoder gave it.

use crate::wayland::WaylandClientError;
use vstd::prelude::*;
use vstd::string::StringExecFns;

verus! {

/// What can go wrong while a frame is written or read.
#[derive(Debug, PartialEq, Eq)]
pub enum ProtocolError {
    /// A write or a flush on the socket failed.
    SocketWriteError(String),
    /// The stream ended, or a read failed, before a whole frame was there.
    SocketReadError(String),
}

/// What a client can meet while it talks to the daemon.
#[derive(Debug, PartialEq, Eq)]
pub enum ClientError {
    /// The socket is there, but the connection was refused or failed.
    SocketConnectError(String),
    /// The command could not be encoded.
    SerializtionError(String),
    /// Writing to the socket failed.
    SocketWriteError(String),
    /// No socket at this path: the daemon is not running.
    SocketNotFound(String),
    /// Reading from the socket failed.
    SocketReadError(String),
    /// The frame layer failed.
    Protocol(ProtocolError),
}

/// What can stop the server from starting: the socket path, then the cause.
#[derive(Debug, PartialEq, Eq)]
pub enum ServerError {
    SocketCreationError(String, String),
}

/// What a command line can fail on.
#[derive(Debug, PartialEq, Eq)]
pub enum ParseError {
    /// The text names no program: it holds no word.
    Command(String),
    /// The text is no volume level: the text, then the cause.
    Volume(String, String),
}

/// What starting or querying a program can fail on.
#[derive(Debug, PartialEq, Eq)]
pub enum CommandError {
    /// The running instances could not be listed.
    Pidof,
    /// The program runs already.
    AlreadyRunning,
    /// The window manager did not take the command.
    HyprlandDispatch(String),
    /// The program could not be run: the command, then the cause.
    Command(String, String),
}

/// What reading the battery can fail on.
#[derive(Debug, PartialEq, Eq)]
pub enum BatteryError {
    /// The kernel reports a state that is not known.
    UnknownState(String),
    /// A file could not be read: the path, then the cause.
    ReadFile(String, String),
    /// The capacity is no number from 0 to 255.
    ParseCapacity(String),
}

/// What changing the brightness can fail on.
#[derive(Debug, PartialEq, Eq)]
pub enum BrightnessError {
    /// A device did not take the value.
    Brightness(String),
    /// The settings could not be written out.
    Serialization(String),
}

/// What reading or changing the volume can fail on.
#[derive(Debug, PartialEq, Eq)]
pub enum AudioError {
    Command(CommandError),
    Update(CommandError),
    VolumeParse(ParseError),
    WirePlumber(String),
    /// The volume is above 100 percent: the volume as it was read.
    VolumeSetting(String),
}

/// What listing or updating the workspaces can fail on.
#[derive(Debug, PartialEq, Eq)]
pub enum WorkspaceError {
    Hyprland(String),
    Command(CommandError),
}

/// What loading the configuration can fail on.
#[derive(Debug, PartialEq, Eq)]
pub enum ConfigurationError {
    /// The path of the configuration file is no text.
    InvalidPath(String),
}

/// What a client of the daemon can fail on.
#[derive(Debug, PartialEq, Eq)]
pub enum DaemonClientError {
    IPCError(ClientError),
}

/// What can stop the daemon.
#[derive(Debug, PartialEq, Eq)]
pub enum DaemonError {
    /// The window manager's events could not be listened to.
    Listener(String),
    Command(CommandError),
    /// A program of the autostart list could not be started.
    AutoStart(String),
    SocketError(ServerError),
    WaylandError(WaylandClientError),
    /// A step of the start failed: the step, then the cause.
    Setup(String, String),
}

/// What a request to the idle inhibitor can fail on.
#[derive(Debug, PartialEq, Eq)]
pub enum CoffeeError {
    /// The daemon could not be reached.
    IPCError(ClientError),
    /// The display server failed.
    WaylandError(WaylandClientError),
}

/// `prefix`, then `detail`.
pub fn prefixed(prefix: &str, detail: &str) -> (text: String)
    ensures
        text@ == prefix@ + detail@,
{
    let mut text = prefix.to_string();
    text.append(detail);
    text
}

impl ProtocolError {
    /// What the error says.
    pub open spec fn text(self) -> Seq<char> {
        match self {
            ProtocolError::SocketWriteError(cause) => "Unable to write to the socket: "@
                + cause@,
            ProtocolError::SocketReadError(cause) => "Unable to read to the socket: "@ + cause@,
        }
    }

    /// What the error says.
    pub fn message(&self) -> (message: String)
        ensures
            message@ == self.text(),
    {
        match self {
            ProtocolError::SocketWriteError(cause) => prefixed(
                "Unable to write to the socket: ",
                cause.as_str(),
            ),
            ProtocolError::SocketReadError(cause) => prefixed(
                "Unable to read to the socket: ",
                cause.as_str(),
            ),
        }
    }
}

impl ClientError {
    /// What the error says.
    pub open spec fn text(self) -> Seq<char> {
        match self {
            ClientError::SocketConnectError(cause) => "Unable to connect to socket: "@ + cause@,
            ClientError::SerializtionError(cause) => "Unable to Serialize: "@ + cause@,
            ClientError::SocketWriteError(cause) => "Unable to Serialize: "@ + cause@,
            ClientError::SocketNotFound(path) => "Unable to find the socket: "@ + path@,
            ClientError::SocketReadError(cause) => "Socket Reading Error: "@ + cause@,
            ClientError::Protocol(error) => "Protocol Error: "@ + error.text(),
        }
    }

    /// What the error says.
    pub fn message(&self) -> (message: String)
        ensures
            message@ == self.text(),
    {
        match self {
            ClientError::SocketConnectError(cause) => prefixed(
                "Unable to connect to socket: ",
                cause.as_str(),
            ),
            ClientError::SerializtionError(cause) => prefixed(
                "Unable to Serialize: ",
                cause.as_str(),
            ),
            ClientError::SocketWriteError(cause) => prefixed(
                "Unable to Serialize: ",
                cause.as_str(),
            ),
            ClientError::SocketNotFound(path) => prefixed(
                "Unable to find the socket: ",
                path.as_str(),
            ),
            ClientError::SocketReadError(cause) => prefixed(
                "Socket Reading Error: ",
                cause.as_str(),
            ),
            ClientError::Protocol(error) => prefixed("Protocol Error: ", error.message().as_str()),
        }
    }
}

impl ServerError {
    /// What the error says.
    pub open spec fn text(self) -> Seq<char> {
        match self {
            ServerError::SocketCreationError(path, cause) => "Unable to setup the socket "@
                + path@ + ": "@ + cause@,
        }
    }

    /// What the error says.
    pub fn message(&self) -> (message: String)
        ensures
            message@ == self.text(),
    {
        match self {
            ServerError::SocketCreationError(path, cause) => {
                let mut message = prefixed("Unable to setup the socket ", path.as_str());
                message.append(": ");
                message.append(cause.as_str());
                message
            },
        }
    }
}

impl CommandError {
    /// What the error says.
    pub open spec fn text(self) -> Seq<char> {
        match self {
            CommandError::Pidof => "Unable to run `pidof` command!"@,
            CommandError::AlreadyRunning => "Unable to start, because it is already running"@,
            CommandError::HyprlandDispatch(command) => "Unable to execute "@ + command@,
            CommandError::Command(command, cause) => "Unable to execute "@ + command@ + ":\n"@
                + cause@,
        }
    }

    /// What the error says.
    pub fn message(&self) -> (message: String)
        ensures
            message@ == self.text(),
    {
        match self {
            CommandError::Pidof => "Unable to run `pidof` command!".to_string(),
            CommandError::AlreadyRunning => "Unable to start, because it is already running"
                .to_string(),
            CommandError::HyprlandDispatch(command) => prefixed(
                "Unable to execute ",
                command.as_str(),
            ),
            CommandError::Command(command, cause) => {
                let mut message = prefixed("Unable to execute ", command.as_str());
                message.append(":\n");
                message.append(cause.as_str());
                message
            },
        }
    }
}

impl ParseError {
    /// What the error says.
    pub open spec fn text(self) -> Seq<char> {
        match self {
            ParseError::Command(text) => "Unable to Parse Command Input:\nWrong format: "@
                + text@,
            ParseError::Volume(text, cause) => "Unable to Parse Volume Level:\nInput:"@ + text@
                + "\nError: "@ + cause@,
        }
    }

    /// What the error says.
    pub fn message(&self) -> (message: String)
        ensures
            message@ == self.text(),
    {
        match self {
            ParseError::Command(text) => prefixed(
                "Unable to Parse Command Input:\nWrong format: ",
                text.as_str(),
            ),
            ParseError::Volume(text, cause) => {
                let mut message = prefixed("Unable to Parse Volume Level:\nInput:", text.as_str());
                message.append("\nError: ");
                message.append(cause.as_str());
                message
            },
        }
    }
}

impl BatteryError {
    /// What the error says. A file that could not be read is named twice,
    /// and its cause is not said.
    pub open spec fn text(self) -> Seq<char> {
        match self {
            BatteryError::UnknownState(state) => "Unknown Battery State: "@ + state@,
            BatteryError::ReadFile(path, _) => "Unable to read file: "@ + path@ + "\nOS: "@
                + path@,
            BatteryError::ParseCapacity(text) => "Unable to parse "@ + text@
                + " as u8 representing the battery level (in %)"@,
        }
    }

    /// What the error says.
    pub fn message(&self) -> (message: String)
        ensures
            message@ == self.text(),
    {
        match self {
            BatteryError::UnknownState(state) => prefixed(
                "Unknown Battery State: ",
                state.as_str(),
            ),
            BatteryError::ReadFile(path, _) => {
                let mut message = prefixed("Unable to read file: ", path.as_str());
                message.append("\nOS: ");
                message.append(path.as_str());
                message
            },
            BatteryError::ParseCapacity(text) => {
                let mut message = prefixed("Unable to parse ", text.as_str());
                message.append(" as u8 representing the battery level (in %)");
                message
            },
        }
    }
}

impl BrightnessError {
    /// What the error says: its cause.
    pub open spec fn text(self) -> Seq<char> {
        match self {
            BrightnessError::Brightness(cause) => cause@,
            BrightnessError::Serialization(cause) => cause@,
        }
    }

    /// What the error says.
    pub fn message(&self) -> (message: String)
        ensures
            message@ == self.text(),
    {
        match self {
            BrightnessError::Brightness(cause) => cause.clone(),
            BrightnessError::Serialization(cause) => cause.clone(),
        }
    }
}

impl CoffeeError {
    /// What the error says.
    pub open spec fn text(self) -> Seq<char> {
        match self {
            CoffeeError::IPCError(error) => "Unable to reach the daemon"@ + error.text(),
            CoffeeError::WaylandError(error) => "Something with Wayland didn't work: "@
                + error.text(),
        }
    }

    /// What the error says.
    pub fn message(&self) -> (message: String)
        ensures
            message@ == self.text(),
    {
        match self {
            CoffeeError::IPCError(error) => prefixed(
                "Unable to reach the daemon",
                error.message().as_str(),
            ),
            CoffeeError::WaylandError(error) => prefixed(
                "Something with Wayland didn't work: ",
                error.message().as_str(),
            ),
        }
    }
}

impl DaemonClientError {
    /// What the error says.
    pub open spec fn text(self) -> Seq<char> {
        match self {
            DaemonClientError::IPCError(error) => error.text(),
        }
    }

    /// What the error says.
    pub fn message(&self) -> (message: String)
        ensures
            message@ == self.text(),
    {
        match self {
            DaemonClientError::IPCError(error) => error.message(),
        }
    }
}

/// Every error of the program.
#[derive(Debug, PartialEq, Eq)]
pub enum GlueError {
    Battery(BatteryError),
    Command(CommandError),
    Daemon(DaemonError),
    DaemonClient(DaemonClientError),
    Parse(ParseError),
    Audio(AudioError),
    Workspace(WorkspaceError),
    Coffee(CoffeeError),
    Brightness(BrightnessError),
}

} // verus!
