//! The data model: normalized log entries, sessions, and their parts.
//!
//! Timestamps are milliseconds since the Unix epoch.  Every type has a
//! mathematical view (`@`) over which the library's contracts are stated.

use vstd::prelude::*;

use crate::json::{JsonV, JsonValue, view_json, view_obj};

verus! {

/// The view of an optional owned string.
pub open spec fn opt_str_view(o: Option<String>) -> Option<Seq<char>> {
    match o {
        Some(s) => Some(s@),
        None => None,
    }
}

/// Type of event, the closed taxonomy the wire format is normalized into.
#[derive(Debug, Clone, Copy, PartialEq, Eq, Hash, Structural)]
pub enum EventType {
    /// Connection established
    Connect,
    /// Connection closed
    Disconnect,
    /// Login attempt
    LoginAttempt,
    /// Successful login
    LoginSuccess,
    /// Failed login
    LoginFailed,
    /// Command execution
    Command,
    /// File upload
    FileUpload,
    /// File download
    FileDownload,
    /// SSH key authentication attempt
    KeyAuth,
    /// TCP forwarding request
    TCPForward,
    /// Unknown event type
    Unknown,
}

/// The label each event type displays as.
pub open spec fn spec_display_name(e: EventType) -> Seq<char> {
    match e {
        EventType::Connect => "Connect"@,
        EventType::Disconnect => "Disconnect"@,
        EventType::LoginAttempt => "Login Attempt"@,
        EventType::LoginSuccess => "Login Success"@,
        EventType::LoginFailed => "Login Failed"@,
        EventType::Command => "Command"@,
        EventType::FileUpload => "File Upload"@,
        EventType::FileDownload => "File Download"@,
        EventType::KeyAuth => "Key Auth"@,
        EventType::TCPForward => "TCP Forward"@,
        EventType::Unknown => "Unknown"@,
    }
}

impl EventType {
    /// A human-readable label for the event type.
    pub fn display_name(&self) -> (r: &'static str)
        ensures
            r@ == spec_display_name(*self),
    {
        match self {
            EventType::Connect => "Connect",
            EventType::Disconnect => "Disconnect",
            EventType::LoginAttempt => "Login Attempt",
            EventType::LoginSuccess => "Login Success",
            EventType::LoginFailed => "Login Failed",
            EventType::Command => "Command",
            EventType::FileUpload => "File Upload",
            EventType::FileDownload => "File Download",
            EventType::KeyAuth => "Key Auth",
            EventType::TCPForward => "TCP Forward",
            EventType::Unknown => "Unknown",
        }
    }
}

/// File transfer direction.
#[derive(Debug, Clone, Copy, PartialEq, Eq, Structural)]
pub enum FileTransferDirection {
    /// Upload (attacker to honeypot)
    Upload,
    /// Download (honeypot to attacker)
    Download,
}

/// File transfer information.
#[derive(Debug)]
pub struct FileTransfer {
    /// File name
    pub filename: String,
    /// Local storage path
    pub local_path: Option<String>,
    /// File size in bytes
    pub size: Option<u64>,
    /// SHA256 hash of file
    pub shasum: Option<String>,
    /// Timestamp, milliseconds since the Unix epoch
    pub timestamp: i64,
    /// Transfer direction
    pub direction: FileTransferDirection,
    /// MIME type
    pub mime_type: Option<String>,
    /// Is file executable
    pub is_executable: bool,
    /// Is file detected as malware
    pub is_malware: bool,
}

/// The mathematical view of a file transfer.
pub struct FileTransferV {
    pub filename: Seq<char>,
    pub local_path: Option<Seq<char>>,
    pub size: Option<u64>,
    pub shasum: Option<Seq<char>>,
    pub timestamp: i64,
    pub direction: FileTransferDirection,
    pub mime_type: Option<Seq<char>>,
    pub is_executable: bool,
    pub is_malware: bool,
}

impl View for FileTransfer {
    type V = FileTransferV;

    open spec fn view(&self) -> FileTransferV {
        FileTransferV {
            filename: self.filename@,
            local_path: opt_str_view(self.local_path),
            size: self.size,
            shasum: opt_str_view(self.shasum),
            timestamp: self.timestamp,
            direction: self.direction,
            mime_type: opt_str_view(self.mime_type),
            is_executable: self.is_executable,
            is_malware: self.is_malware,
        }
    }
}

/// The view of an optional file transfer.
pub open spec fn opt_file_view(o: Option<FileTransfer>) -> Option<FileTransferV> {
    match o {
        Some(f) => Some(f@),
        None => None,
    }
}

/// Log entry from the honeypot: one normalized wire-format line.
#[derive(Debug)]
pub struct LogEntry {
    /// Unique identifier for this log entry
    pub id: String,
    /// Timestamp of the event, milliseconds since the Unix epoch
    pub timestamp: i64,
    /// Type of event
    pub event_type: EventType,
    /// Session identifier
    pub session: Option<String>,
    /// Source IP address
    pub src_ip: Option<String>,
    /// Source port
    pub src_port: Option<u16>,
    /// Destination IP address
    pub dst_ip: Option<String>,
    /// Destination port
    pub dst_port: Option<u16>,
    /// Username (for login attempts)
    pub username: Option<String>,
    /// Password (for login attempts)
    pub password: Option<String>,
    /// Command (for command execution)
    pub command: Option<String>,
    /// File information (for uploads/downloads)
    pub file: Option<FileTransfer>,
    /// Additional fields not consumed into the named members
    pub fields: Vec<(String, JsonValue)>,
    /// Raw log entry as parsed JSON
    pub raw: JsonValue,
}

/// The mathematical view of a log entry.
pub struct LogEntryV {
    pub id: Seq<char>,
    pub timestamp: i64,
    pub event_type: EventType,
    pub session: Option<Seq<char>>,
    pub src_ip: Option<Seq<char>>,
    pub src_port: Option<u16>,
    pub dst_ip: Option<Seq<char>>,
    pub dst_port: Option<u16>,
    pub username: Option<Seq<char>>,
    pub password: Option<Seq<char>>,
    pub command: Option<Seq<char>>,
    pub file: Option<FileTransferV>,
    pub fields: Seq<(Seq<char>, JsonV)>,
    pub raw: JsonV,
}

impl View for LogEntry {
    type V = LogEntryV;

    open spec fn view(&self) -> LogEntryV {
        LogEntryV {
            id: self.id@,
            timestamp: self.timestamp,
            event_type: self.event_type,
            session: opt_str_view(self.session),
            src_ip: opt_str_view(self.src_ip),
            src_port: self.src_port,
            dst_ip: opt_str_view(self.dst_ip),
            dst_port: self.dst_port,
            username: opt_str_view(self.username),
            password: opt_str_view(self.password),
            command: opt_str_view(self.command),
            file: opt_file_view(self.file),
            fields: view_obj(self.fields@),
            raw: view_json(self.raw),
        }
    }
}

/// User information attached to a session.
#[derive(Debug)]
pub struct User {
    /// Username
    pub username: String,
    /// Password
    pub password: Option<String>,
    /// SSH key fingerprint
    pub key_fingerprint: Option<String>,
    /// Login success
    pub login_success: bool,
    /// Login time, milliseconds since the Unix epoch
    pub login_time: i64,
}

/// The mathematical view of a session's user information.
pub struct UserV {
    pub username: Seq<char>,
    pub password: Option<Seq<char>>,
    pub key_fingerprint: Option<Seq<char>>,
    pub login_success: bool,
    pub login_time: i64,
}

impl View for User {
    type V = UserV;

    open spec fn view(&self) -> UserV {
        UserV {
            username: self.username@,
            password: opt_str_view(self.password),
            key_fingerprint: opt_str_view(self.key_fingerprint),
            login_success: self.login_success,
            login_time: self.login_time,
        }
    }
}

/// The view of an optional user record.
pub open spec fn opt_user_view(o: Option<User>) -> Option<UserV> {
    match o {
        Some(u) => Some(u@),
        None => None,
    }
}

/// Command execution information.
#[derive(Debug)]
pub struct Command {
    /// Command entered
    pub command: String,
    /// Timestamp, milliseconds since the Unix epoch
    pub timestamp: i64,
    /// Success status
    pub success: bool,
    /// Command output
    pub output: Option<String>,
}

/// The mathematical view of one executed command.
pub struct CommandV {
    pub command: Seq<char>,
    pub timestamp: i64,
    pub success: bool,
    pub output: Option<Seq<char>>,
}

impl View for Command {
    type V = CommandV;

    open spec fn view(&self) -> CommandV {
        CommandV {
            command: self.command@,
            timestamp: self.timestamp,
            success: self.success,
            output: opt_str_view(self.output),
        }
    }
}

/// Geographic location information.  Latitude and longitude are kept in
/// microdegrees so that the model stays in integers.
#[derive(Debug)]
pub struct GeoLocation {
    /// Country code
    pub country_code: String,
    /// Country name
    pub country_name: String,
    /// City
    pub city: Option<String>,
    /// Latitude in microdegrees
    pub latitude_udeg: Option<i64>,
    /// Longitude in microdegrees
    pub longitude_udeg: Option<i64>,
    /// Autonomous system number
    pub asn: Option<String>,
    /// ISP name
    pub isp: Option<String>,
}

/// The mathematical view of a geographic location.
pub struct GeoLocationV {
    pub country_code: Seq<char>,
    pub country_name: Seq<char>,
    pub city: Option<Seq<char>>,
    pub latitude_udeg: Option<i64>,
    pub longitude_udeg: Option<i64>,
    pub asn: Option<Seq<char>>,
    pub isp: Option<Seq<char>>,
}

impl View for GeoLocation {
    type V = GeoLocationV;

    open spec fn view(&self) -> GeoLocationV {
        GeoLocationV {
            country_code: self.country_code@,
            country_name: self.country_name@,
            city: opt_str_view(self.city),
            latitude_udeg: self.latitude_udeg,
            longitude_udeg: self.longitude_udeg,
            asn: opt_str_view(self.asn),
            isp: opt_str_view(self.isp),
        }
    }
}

/// The view of an optional geographic location.
pub open spec fn opt_geo_view(o: Option<GeoLocation>) -> Option<GeoLocationV> {
    match o {
        Some(g) => Some(g@),
        None => None,
    }
}

/// Session information, the aggregate state of one honeypot connection.
#[derive(Debug)]
pub struct Session {
    /// Session identifier
    pub id: String,
    /// Start time, milliseconds since the Unix epoch
    pub start_time: i64,
    /// End time (if the session has ended)
    pub end_time: Option<i64>,
    /// Source IP address
    pub src_ip: String,
    /// Source port
    pub src_port: u16,
    /// Destination IP address
    pub dst_ip: String,
    /// Destination port
    pub dst_port: u16,
    /// Protocol (SSH, Telnet)
    pub protocol: String,
    /// Client version
    pub client_version: Option<String>,
    /// User information
    pub user: Option<User>,
    /// Session duration in seconds
    pub duration: Option<u64>,
    /// Commands executed in this session
    pub commands: Vec<Command>,
    /// Files transferred in this session
    pub files: Vec<FileTransfer>,
    /// Geographic location information
    pub geo_location: Option<GeoLocation>,
    /// Path to TTY log file
    pub tty_log: Option<String>,
    /// Session SHA256 hash
    pub shasum: Option<String>,
    /// Session is marked as malicious
    pub is_malicious: bool,
    /// Malicious score (0-100)
    pub malicious_score: u8,
}

/// The mathematical view of a session.
pub struct SessionV {
    pub id: Seq<char>,
    pub start_time: i64,
    pub end_time: Option<i64>,
    pub src_ip: Seq<char>,
    pub src_port: u16,
    pub dst_ip: Seq<char>,
    pub dst_port: u16,
    pub protocol: Seq<char>,
    pub client_version: Option<Seq<char>>,
    pub user: Option<UserV>,
    pub duration: Option<u64>,
    pub commands: Seq<CommandV>,
    pub files: Seq<FileTransferV>,
    pub geo_location: Option<GeoLocationV>,
    pub tty_log: Option<Seq<char>>,
    pub shasum: Option<Seq<char>>,
    pub is_malicious: bool,
    pub malicious_score: u8,
}

impl View for Session {
    type V = SessionV;

    open spec fn view(&self) -> SessionV {
        SessionV {
            id: self.id@,
            start_time: self.start_time,
            end_time: self.end_time,
            src_ip: self.src_ip@,
            src_port: self.src_port,
            dst_ip: self.dst_ip@,
            dst_port: self.dst_port,
            protocol: self.protocol@,
            client_version: opt_str_view(self.client_version),
            user: opt_user_view(self.user),
            duration: self.duration,
            commands: self.commands@.map_values(|c: Command| c@),
            files: self.files@.map_values(|f: FileTransfer| f@),
            geo_location: opt_geo_view(self.geo_location),
            tty_log: opt_str_view(self.tty_log),
            shasum: opt_str_view(self.shasum),
            is_malicious: self.is_malicious,
            malicious_score: self.malicious_score,
        }
    }
}

/// Clone an optional string, keeping its characters.
pub fn clone_opt_string(o: &Option<String>) -> (r: Option<String>)
    ensures
        opt_str_view(r) == opt_str_view(*o),
{
    match o {
        Some(s) => Some(s.clone()),
        None => None,
    }
}

impl Clone for User {
    /// A clone has the same view.
    fn clone(&self) -> (res: Self)
        ensures
            res@ == self@,
    {
        User {
            username: self.username.clone(),
            password: clone_opt_string(&self.password),
            key_fingerprint: clone_opt_string(&self.key_fingerprint),
            login_success: self.login_success,
            login_time: self.login_time,
        }
    }
}

impl Clone for Command {
    /// A clone has the same view.
    fn clone(&self) -> (res: Self)
        ensures
            res@ == self@,
    {
        Command {
            command: self.command.clone(),
            timestamp: self.timestamp,
            success: self.success,
            output: clone_opt_string(&self.output),
        }
    }
}

impl Clone for FileTransfer {
    /// A clone has the same view.
    fn clone(&self) -> (res: Self)
        ensures
            res@ == self@,
    {
        FileTransfer {
            filename: self.filename.clone(),
            local_path: clone_opt_string(&self.local_path),
            size: self.size,
            shasum: clone_opt_string(&self.shasum),
            timestamp: self.timestamp,
            direction: self.direction,
            mime_type: clone_opt_string(&self.mime_type),
            is_executable: self.is_executable,
            is_malware: self.is_malware,
        }
    }
}

impl Clone for GeoLocation {
    /// A clone has the same view.
    fn clone(&self) -> (res: Self)
        ensures
            res@ == self@,
    {
        GeoLocation {
            country_code: self.country_code.clone(),
            country_name: self.country_name.clone(),
            city: clone_opt_string(&self.city),
            latitude_udeg: self.latitude_udeg,
            longitude_udeg: self.longitude_udeg,
            asn: clone_opt_string(&self.asn),
            isp: clone_opt_string(&self.isp),
        }
    }
}

impl Clone for Session {
    /// A clone has the same view.
    fn clone(&self) -> (res: Self)
        ensures
            res@ == self@,
    {
        let mut commands: Vec<Command> = Vec::new();
        let mut i: usize = 0;
        while i < self.commands.len()
            invariant
                i <= self.commands@.len(),
                commands@.len() == i,
                forall|k: int| 0 <= k < i ==> commands@[k]@ == self.commands@[k]@,
            decreases self.commands@.len() - i,
        {
            commands.push(self.commands[i].clone());
            i = i + 1;
        }
        let mut files: Vec<FileTransfer> = Vec::new();
        let mut j: usize = 0;
        while j < self.files.len()
            invariant
                j <= self.files@.len(),
                files@.len() == j,
                forall|k: int| 0 <= k < j ==> files@[k]@ == self.files@[k]@,
            decreases self.files@.len() - j,
        {
            files.push(self.files[j].clone());
            j = j + 1;
        }
        proof {
            assert(commands@.map_values(|c: Command| c@) =~= self.commands@.map_values(
                |c: Command| c@,
            ));
            assert(files@.map_values(|f: FileTransfer| f@) =~= self.files@.map_values(
                |f: FileTransfer| f@,
            ));
        }
        let res = Session {
            id: self.id.clone(),
            start_time: self.start_time,
            end_time: self.end_time,
            src_ip: self.src_ip.clone(),
            src_port: self.src_port,
            dst_ip: self.dst_ip.clone(),
            dst_port: self.dst_port,
            protocol: self.protocol.clone(),
            client_version: clone_opt_string(&self.client_version),
            user: match &self.user {
                Some(u) => Some(u.clone()),
                None => None,
            },
            duration: self.duration,
            commands: commands,
            files: files,
            geo_location: match &self.geo_location {
                Some(g) => Some(g.clone()),
                None => None,
            },
            tty_log: clone_opt_string(&self.tty_log),
            shasum: clone_opt_string(&self.shasum),
            is_malicious: self.is_malicious,
            malicious_score: self.malicious_score,
        };
        res
    }
}

} // verus!
