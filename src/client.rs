use crate::channel::{ChannelBuilder, Message, first_ref, progress_ref, reply_event, reply_status_of};
use crate::config::{Config, or_default};
use crate::firmware::{
    FirmwareError, UpdateInfo, fwup_args, fwup_args_of, percent_of, progress_percent,
    update_complete, update_matches,
};
use crate::json::{Json, field, text, text_field, is_empty_object, is_number_object, is_text_object};
use crate::serial::{CommandOutput, SerialError, opt_view, resolution, resolve_serial};
use crate::text::{decimal, same_text};
use vstd::prelude::*;

verus! {

/// Why a session ended, or a client could not be made.
#[derive(Debug, Clone, PartialEq, Eq)]
pub enum ClientError {
    Connection(String),
    WebSocket(String),
    JoinRejected(String),
    Serial(SerialError),
    Auth(String),
    Firmware(FirmwareError),
    ChannelClosed,
}

/// What the agent reports to its observers.
#[derive(Debug, Clone, PartialEq, Eq)]
pub enum ClientEvent {
    Connected,
    Joined,
    UpdateAvailable(UpdateInfo),
    FirmwareDownloaded(String),
    FirmwareApplied,
    RebootRequested,
    Disconnected(String),
}

/// The agent for one device: its settings and its serial number.
#[derive(Debug, Clone, PartialEq, Eq)]
pub struct NervesHubClient {
    pub config: Config,
    pub serial: String,
}

/// Where a session stands.
#[derive(Debug, Clone, PartialEq, Eq)]
pub enum Phase {
    /// The join was sent; its reply has not come.
    Joining,
    /// The channel is joined.
    Joined,
    /// The session has ended.
    Closed,
}

/// What the session asks of the code that runs it, in order.
#[derive(Debug, PartialEq, Eq)]
pub enum Action {
    /// Write this envelope to the transport.
    Send(Message),
    /// Report this to the observers.
    Notify(ClientEvent),
    /// Start downloading the artifact at this URL.
    Download(String),
    /// Run the installer with these arguments.
    Install(Vec<String>),
    /// The session is over, with this outcome.
    Finish(Result<(), ClientError>),
}

/// The state of one session on one connection.
#[derive(Debug, Clone, PartialEq, Eq)]
pub struct Session {
    pub channel: ChannelBuilder,
    pub phase: Phase,
    /// An update is being downloaded or installed.
    pub updating: bool,
    /// The last percent forwarded for the current update.
    pub last_percent: u8,
    /// Installer device path.
    pub devpath: String,
    /// Installer task.
    pub task: String,
}

/// The channel topic of a device.
pub open spec fn topic_of(serial: Seq<char>) -> Seq<char> {
    "device:"@ + serial
}

/// The join payload for `c`: API version and the five firmware fields, in order.
pub open spec fn is_join_payload(v: Json, c: Config) -> bool {
    &&& v matches Json::Object(e)
    &&& e@.len() == 6
    &&& e@[0].0@ == "device_api_version"@
    &&& text(e@[0].1) == Some(or_default(c.device_api_version, "2.3.0"@))
    &&& e@[1].0@ == "nerves_fw_uuid"@
    &&& text(e@[1].1) == Some(c.firmware.uuid@)
    &&& e@[2].0@ == "nerves_fw_version"@
    &&& text(e@[2].1) == Some(c.firmware.version@)
    &&& e@[3].0@ == "nerves_fw_platform"@
    &&& text(e@[3].1) == Some(c.firmware.platform@)
    &&& e@[4].0@ == "nerves_fw_architecture"@
    &&& text(e@[4].1) == Some(c.firmware.architecture@)
    &&& e@[5].0@ == "nerves_fw_product"@
    &&& text(e@[5].1) == Some(c.firmware.product@)
}

/// The reason that a rejected join gives: `response.reason`, else `unknown`.
pub open spec fn rejection_reason(payload: Json) -> Seq<char> {
    match field(payload, "response"@) {
        Some(resp) => match text_field(resp, "reason"@) {
            Some(r) => r,
            None => "unknown"@,
        },
        None => "unknown"@,
    }
}

/// The reply to the join whose reference is `join_ref`.
pub open spec fn is_join_reply(m: Message, join_ref: Seq<char>) -> bool {
    &&& m.event@ == reply_event()
    &&& m.msg_ref matches Some(r) && r@ == join_ref
}

/// `s` is a well-formed session: joined under the first reference, counter past it,
/// last percent within range.
pub open spec fn session_wf(s: Session) -> bool {
    &&& s.channel.join_ref@ == first_ref()
    &&& s.channel.refs.next >= 2
    &&& s.last_percent <= 100
}

/// `s2` is `s1` with the same channel and references.
pub open spec fn same_channel(s1: Session, s2: Session) -> bool {
    &&& s2.channel == s1.channel
    &&& s2.devpath == s1.devpath
    &&& s2.task == s1.task
}

/// `m` carries a fresh reference `n`, on the session's channel.
pub open spec fn is_push(m: Message, s: Session, event: Seq<char>, n: nat) -> bool {
    &&& m.join_ref matches Some(j) && j@ == s.channel.join_ref@
    &&& m.msg_ref matches Some(r) && r@ == decimal(n)
    &&& m.topic@ == s.channel.topic@
    &&& m.event@ == event
}

fn text_entry(key: &str, value: &str) -> (r: (String, Json))
    ensures
        r.0@ == key@,
        text(r.1) == Some(value@),
{
    (key.to_owned(), Json::Str(value.to_owned()))
}

fn rejection(payload: &Json) -> (r: String)
    ensures
        r@ == rejection_reason(*payload),
{
    match payload.get("response") {
        Some(resp) => match resp.get("reason") {
            Some(reason) => match reason.as_str() {
                Some(t) => t.clone(),
                None => "unknown".to_owned(),
            },
            None => "unknown".to_owned(),
        },
        None => "unknown".to_owned(),
    }
}

/// The literal serial number setting of `c`.
pub open spec fn config_serial(c: Config) -> Option<Seq<char>> {
    match c.serial_number {
        Some(s) => Some(s@),
        None => None,
    }
}

fn opt_as_str(o: &Option<String>) -> (r: Option<&str>)
    ensures
        opt_view(r) == match *o {
            Some(s) => Some(s@),
            None => None,
        },
{
    match o {
        Some(s) => Some(s.as_str()),
        None => None,
    }
}

impl NervesHubClient {
    /// A client for `config`, with the serial number from its literal setting or
    /// from the output of its command, where that was run.
    pub fn new(config: Config, command_output: Option<&CommandOutput>) -> (r: Result<Self, ClientError>)
        ensures
            r matches Ok(c) ==> c.config == config,
            r matches Ok(c) ==> resolution(
                config_serial(config),
                command_output,
                Ok::<String, SerialError>(c.serial),
            ),
            r matches Err(e) ==> (e matches ClientError::Serial(se) && resolution(
                config_serial(config),
                command_output,
                Err::<String, SerialError>(se),
            )),
    {
        let res = resolve_serial(opt_as_str(&config.serial_number), command_output);
        match res {
            Ok(serial) => Ok(NervesHubClient { config, serial }),
            Err(e) => Err(ClientError::Serial(e)),
        }
    }

    /// The device's serial number.
    pub fn serial(&self) -> (r: &str)
        ensures
            r@ == self.serial@,
    {
        self.serial.as_str()
    }

    /// The payload of the join: API version and firmware description.
    pub fn join_payload(&self) -> (r: Json)
        ensures
            is_join_payload(r, self.config),
    {
        let fw = &self.config.firmware;
        let mut e: Vec<(String, Json)> = Vec::new();
        e.push(text_entry("device_api_version", self.config.device_api_version()));
        e.push(text_entry("nerves_fw_uuid", fw.uuid.as_str()));
        e.push(text_entry("nerves_fw_version", fw.version.as_str()));
        e.push(text_entry("nerves_fw_platform", fw.platform.as_str()));
        e.push(text_entry("nerves_fw_architecture", fw.architecture.as_str()));
        e.push(text_entry("nerves_fw_product", fw.product.as_str()));
        Json::Object(e)
    }

    /// The device's channel topic, `device:<serial>`.
    pub fn topic(&self) -> (r: String)
        ensures
            r@ == topic_of(self.serial@),
    {
        let mut t = "device:".to_owned();
        t.append(self.serial.as_str());
        t
    }

    /// A fresh session and the join envelope that opens it.
    pub fn start_session(&self) -> (r: (Session, Message))
        ensures
            session_wf(r.0),
            r.0.phase is Joining,
            !r.0.updating,
            r.0.channel.topic@ == topic_of(self.serial@),
            r.0.devpath@ == or_default(self.config.fwup_devpath, "/dev/mmcblk0"@),
            r.0.task@ == or_default(self.config.fwup_task, "upgrade"@),
            r.1.join_ref matches Some(j) && j@ == first_ref(),
            r.1.msg_ref matches Some(m) && m@ == first_ref(),
            r.1.topic@ == topic_of(self.serial@),
            r.1.event@ == "phx_join"@,
            is_join_payload(r.1.payload, self.config),
    {
        let channel = ChannelBuilder::new(self.topic());
        let join = channel.join(self.join_payload());
        let session = Session {
            channel,
            phase: Phase::Joining,
            updating: false,
            last_percent: 0,
            devpath: self.config.fwup_devpath().to_owned(),
            task: self.config.fwup_task().to_owned(),
        };
        (session, join)
    }
}

/// The message of a session that ran out of references.
pub open spec fn exhausted_text() -> Seq<char> {
    "reference counter exhausted"@
}

/// `s2` is `s1` ended: closed, all else kept.
pub open spec fn ended(s1: Session, s2: Session) -> bool {
    &&& s2.phase is Closed
    &&& same_channel(s1, s2)
    &&& s2.updating == s1.updating
    &&& s2.last_percent == s1.last_percent
}

/// `a` ends the session because no fresh reference is left.
pub open spec fn is_exhausted_finish(a: Action) -> bool {
    a matches Action::Finish(Err(ClientError::Connection(t))) && t@ == exhausted_text()
}

/// `actions` tell the observers, then end the session, because no fresh
/// reference is left.
pub open spec fn is_exhausted_end(actions: Seq<Action>) -> bool {
    &&& actions.len() == 2
    &&& actions[0] matches Action::Notify(ClientEvent::Disconnected(why))
    &&& why@ == exhausted_text()
    &&& is_exhausted_finish(actions[1])
}

/// `s2` is `s1` after one fresh reference was issued.
pub open spec fn advanced(s1: Session, s2: Session) -> bool {
    &&& s2.channel.refs.next == s1.channel.refs.next + 1
    &&& s2.channel.topic == s1.channel.topic
    &&& s2.channel.join_ref == s1.channel.join_ref
    &&& s2.devpath == s1.devpath
    &&& s2.task == s1.task
}

/// Whether a progress percent is forwarded after `last`: it moved by more than
/// four points, or reached 100.
pub open spec fn forwards(p: nat, last: nat) -> bool {
    p > last + 4 || p == 100
}

impl Session {
    fn exhausted(&self) -> (r: bool)
        ensures
            r == (self.channel.refs.next == u64::MAX),
    {
        self.channel.refs.next == u64::MAX
    }

    fn end_exhausted(&mut self) -> (r: Vec<Action>)
        ensures
            ended(*old(self), *final(self)),
            is_exhausted_end(r@),
    {
        self.phase = Phase::Closed;
        let mut r: Vec<Action> = Vec::new();
        r.push(Action::Notify(ClientEvent::Disconnected("reference counter exhausted".to_owned())));
        r.push(Action::Finish(Err(ClientError::Connection("reference counter exhausted".to_owned()))));
        r
    }

    /// Handles an envelope read from the transport.
    pub fn on_frame(&mut self, m: Message) -> (r: Vec<Action>)
        requires
            session_wf(*old(self)),
        ensures
            session_wf(*final(self)),
            old(self).phase is Joining ==> if is_join_reply(m, old(self).channel.join_ref@) {
                if reply_status_of(m) == Some("ok"@) {
                    &&& final(self).phase is Joined
                    &&& same_channel(*old(self), *final(self))
                    &&& final(self).updating == old(self).updating
                    &&& r@ =~= seq![Action::Notify(ClientEvent::Joined)]
                } else {
                    &&& ended(*old(self), *final(self))
                    &&& r@.len() == 2
                    &&& r@[0] matches Action::Notify(ClientEvent::Disconnected(why))
                    &&& why@ == rejection_reason(m.payload)
                    &&& r@[1] matches Action::Finish(Err(ClientError::JoinRejected(reason)))
                    &&& reason@ == rejection_reason(m.payload)
                }
            } else {
                *final(self) == *old(self) && r@.len() == 0
            },
            old(self).phase is Closed ==> *final(self) == *old(self) && r@.len() == 0,
            old(self).phase is Joined && m.event@ == "update"@ ==> if !old(self).updating
                && update_complete(m.payload) {
                &&& final(self).phase is Joined
                &&& same_channel(*old(self), *final(self))
                &&& final(self).updating
                &&& final(self).last_percent == 0
                &&& r@.len() == 2
                &&& r@[0] matches Action::Notify(ClientEvent::UpdateAvailable(u))
                &&& update_matches(u, m.payload)
                &&& r@[1] matches Action::Download(url)
                &&& text_field(m.payload, "firmware_url"@) == Some(url@)
            } else {
                *final(self) == *old(self) && r@.len() == 0
            },
            old(self).phase is Joined && m.event@ == "reboot"@ ==> if old(self).channel.refs.next
                < u64::MAX {
                &&& final(self).phase is Joined
                &&& advanced(*old(self), *final(self))
                &&& final(self).updating == old(self).updating
                &&& final(self).last_percent == old(self).last_percent
                &&& r@.len() == 2
                &&& r@[0] matches Action::Send(x)
                &&& is_push(x, *old(self), "rebooting"@, old(self).channel.refs.next as nat)
                &&& is_empty_object(x.payload)
                &&& r@[1] == Action::Notify(ClientEvent::RebootRequested)
            } else {
                ended(*old(self), *final(self)) && is_exhausted_end(r@)
            },
            old(self).phase is Joined && m.event@ == "phx_close"@ ==> {
                &&& ended(*old(self), *final(self))
                &&& r@.len() == 2
                &&& r@[0] matches Action::Notify(ClientEvent::Disconnected(why))
                &&& why@ == "channel closed by server"@
                &&& r@[1] matches Action::Finish(Err(ClientError::ChannelClosed))
            },
            old(self).phase is Joined && m.event@ != "update"@ && m.event@ != "reboot"@
                && m.event@ != "phx_close"@ ==> *final(self) == *old(self) && r@.len() == 0,
    {
        proof {
            reveal_strlit("update");
            reveal_strlit("reboot");
            reveal_strlit("phx_close");
            assert("reboot"@.len() != "phx_close"@.len());
            assert("update"@.len() != "phx_close"@.len());
            assert("update"@[0] != "reboot"@[0]);
        }
        let mut r: Vec<Action> = Vec::new();
        match self.phase {
            Phase::Joining => {
                let is_join = m.is_reply() && match &m.msg_ref {
                    Some(x) => same_text(x.as_str(), self.channel.join_ref.as_str()),
                    None => false,
                };
                if is_join {
                    if m.reply_ok() {
                        self.phase = Phase::Joined;
                        r.push(Action::Notify(ClientEvent::Joined));
                    } else {
                        self.phase = Phase::Closed;
                        let reason = rejection(&m.payload);
                        r.push(Action::Notify(ClientEvent::Disconnected(reason.clone())));
                        r.push(Action::Finish(Err(ClientError::JoinRejected(reason))));
                    }
                }
                r
            },
            Phase::Closed => r,
            Phase::Joined => {
                let event = m.event.as_str();
                if same_text(event, "update") {
                    if !self.updating {
                        match UpdateInfo::from_payload(&m.payload) {
                            Ok(u) => {
                                self.updating = true;
                                self.last_percent = 0;
                                let url = u.firmware_url.clone();
                                r.push(Action::Notify(ClientEvent::UpdateAvailable(u)));
                                r.push(Action::Download(url));
                            },
                            Err(_) => {},
                        }
                    }
                    r
                } else if same_text(event, "reboot") {
                    if self.exhausted() {
                        return self.end_exhausted();
                    }
                    let ack = self.channel.push("rebooting", Json::empty_object());
                    r.push(Action::Send(ack));
                    r.push(Action::Notify(ClientEvent::RebootRequested));
                    r
                } else if same_text(event, "phx_close") {
                    self.phase = Phase::Closed;
                    r.push(Action::Notify(ClientEvent::Disconnected("channel closed by server".to_owned())));
                    r.push(Action::Finish(Err(ClientError::ChannelClosed)));
                    r
                } else {
                    r
                }
            },
        }
    }

    /// Handles the heartbeat timer: a heartbeat once joined.
    pub fn on_heartbeat(&mut self) -> (r: Vec<Action>)
        requires
            session_wf(*old(self)),
        ensures
            session_wf(*final(self)),
            !(old(self).phase is Joined) ==> *final(self) == *old(self) && r@.len() == 0,
            old(self).phase is Joined ==> if old(self).channel.refs.next < u64::MAX {
                &&& final(self).phase is Joined
                &&& advanced(*old(self), *final(self))
                &&& final(self).updating == old(self).updating
                &&& final(self).last_percent == old(self).last_percent
                &&& r@.len() == 1
                &&& r@[0] matches Action::Send(x)
                &&& x.join_ref is None
                &&& x.msg_ref matches Some(n) && n@ == decimal(old(self).channel.refs.next as nat)
                &&& x.topic@ == "phoenix"@
                &&& x.event@ == "heartbeat"@
                &&& is_empty_object(x.payload)
            } else {
                ended(*old(self), *final(self)) && is_exhausted_end(r@)
            },
    {
        let mut r: Vec<Action> = Vec::new();
        match self.phase {
            Phase::Joined => {
                if self.exhausted() {
                    return self.end_exhausted();
                }
                r.push(Action::Send(self.channel.heartbeat()));
                r
            },
            _ => r,
        }
    }

    /// Handles the end of the join wait: without a reply the session ends, and
    /// the observers are told first.
    pub fn on_join_timeout(&mut self) -> (r: Vec<Action>)
        ensures
            !(old(self).phase is Joining) ==> *final(self) == *old(self) && r@.len() == 0,
            old(self).phase is Joining ==> {
                &&& ended(*old(self), *final(self))
                &&& r@.len() == 2
                &&& r@[0] matches Action::Notify(ClientEvent::Disconnected(why))
                &&& why@ == "join reply timeout"@
                &&& r@[1] matches Action::Finish(Err(ClientError::Connection(t)))
                &&& t@ == "join reply timeout"@
            },
    {
        let mut r: Vec<Action> = Vec::new();
        match self.phase {
            Phase::Joining => {
                self.phase = Phase::Closed;
                r.push(Action::Notify(ClientEvent::Disconnected("join reply timeout".to_owned())));
                r.push(Action::Finish(Err(ClientError::Connection("join reply timeout".to_owned()))));
                r
            },
            _ => r,
        }
    }

    /// Handles the end of the stream: a close frame or end of input. The
    /// observers are told, then the session ends.
    pub fn on_closed(&mut self) -> (r: Vec<Action>)
        ensures
            old(self).phase is Closed ==> *final(self) == *old(self) && r@.len() == 0,
            old(self).phase is Joining ==> {
                &&& ended(*old(self), *final(self))
                &&& r@.len() == 2
                &&& r@[0] matches Action::Notify(ClientEvent::Disconnected(why))
                &&& why@ == "connection closed"@
                &&& r@[1] matches Action::Finish(Err(ClientError::ChannelClosed))
            },
            old(self).phase is Joined ==> {
                &&& ended(*old(self), *final(self))
                &&& r@.len() == 2
                &&& r@[0] matches Action::Notify(ClientEvent::Disconnected(why))
                &&& why@ == "connection closed"@
                &&& r@[1] matches Action::Finish(Ok(()))
            },
    {
        let mut r: Vec<Action> = Vec::new();
        match self.phase {
            Phase::Joining => {
                self.phase = Phase::Closed;
                r.push(Action::Notify(ClientEvent::Disconnected("connection closed".to_owned())));
                r.push(Action::Finish(Err(ClientError::ChannelClosed)));
                r
            },
            Phase::Joined => {
                self.phase = Phase::Closed;
                r.push(Action::Notify(ClientEvent::Disconnected("connection closed".to_owned())));
                r.push(Action::Finish(Ok(())));
                r
            },
            Phase::Closed => r,
        }
    }

    /// Handles a failure of the transport, described by `error`: the observers
    /// are told, then the session ends with the error.
    pub fn on_transport_error(&mut self, error: String) -> (r: Vec<Action>)
        ensures
            old(self).phase is Closed ==> *final(self) == *old(self) && r@.len() == 0,
            !(old(self).phase is Closed) ==> {
                &&& ended(*old(self), *final(self))
                &&& r@.len() == 2
                &&& r@[0] matches Action::Notify(ClientEvent::Disconnected(why))
                &&& why == error
                &&& r@[1] matches Action::Finish(Err(ClientError::WebSocket(e)))
                &&& e == error
            },
    {
        let mut r: Vec<Action> = Vec::new();
        match self.phase {
            Phase::Joining | Phase::Joined => {
                self.phase = Phase::Closed;
                r.push(Action::Notify(ClientEvent::Disconnected(error.clone())));
                r.push(Action::Finish(Err(ClientError::WebSocket(error))));
                r
            },
            Phase::Closed => r,
        }
    }

    /// Handles a progress sample of the running download: forwards its percent
    /// where it moved by more than four points or reached 100.
    pub fn on_progress(&mut self, downloaded: u64, total: Option<u64>) -> (r: Vec<Action>)
        requires
            session_wf(*old(self)),
        ensures
            session_wf(*final(self)),
            same_channel(*old(self), *final(self)),
            final(self).phase == old(self).phase,
            final(self).updating == old(self).updating,
            final(self).last_percent >= old(self).last_percent,
            ({
                let p = percent_of(downloaded as nat, total);
                if old(self).phase is Joined && old(self).updating && forwards(
                    p,
                    old(self).last_percent as nat,
                ) {
                    &&& final(self).last_percent == p
                    &&& r@.len() == 1
                    &&& r@[0] matches Action::Send(x)
                    &&& x.join_ref matches Some(j) && j@ == old(self).channel.join_ref@
                    &&& x.msg_ref matches Some(n) && n@ == progress_ref()
                    &&& x.topic@ == old(self).channel.topic@
                    &&& x.event@ == "fwup_progress"@
                    &&& is_number_object(x.payload, "value"@, p)
                } else {
                    *final(self) == *old(self) && r@.len() == 0
                }
            }),
    {
        let mut r: Vec<Action> = Vec::new();
        match self.phase {
            Phase::Joined => {
                if self.updating {
                    let p = progress_percent(downloaded, total);
                    if p as u64 > self.last_percent as u64 + 4 || p == 100 {
                        self.last_percent = p;
                        r.push(Action::Send(self.channel.progress(p)));
                    }
                }
                r
            },
            _ => r,
        }
    }

    /// Handles the end of the download: the file's path, or why it failed. A
    /// failure abandons the update and keeps the session.
    pub fn on_downloaded(&mut self, result: Result<String, FirmwareError>) -> (r: Vec<Action>)
        requires
            session_wf(*old(self)),
        ensures
            session_wf(*final(self)),
            !(old(self).phase is Joined && old(self).updating) ==> *final(self) == *old(self)
                && r@.len() == 0,
            old(self).phase is Joined && old(self).updating ==> match result {
                Ok(path) => {
                    &&& *final(self) == *old(self)
                    &&& r@.len() == 2
                    &&& r@[0] matches Action::Notify(ClientEvent::FirmwareDownloaded(p))
                    &&& p == path
                    &&& r@[1] matches Action::Install(args)
                    &&& args@.map_values(|a: String| a@) == fwup_args_of(
                        old(self).devpath@,
                        path@,
                        old(self).task@,
                    )
                },
                Err(_) => {
                    &&& final(self).phase is Joined
                    &&& same_channel(*old(self), *final(self))
                    &&& !final(self).updating
                    &&& final(self).last_percent == old(self).last_percent
                    &&& r@.len() == 0
                },
            },
    {
        let mut r: Vec<Action> = Vec::new();
        match self.phase {
            Phase::Joined => {
                if self.updating {
                    match result {
                        Ok(path) => {
                            let args = fwup_args(self.devpath.as_str(), path.as_str(), self.task.as_str());
                            r.push(Action::Notify(ClientEvent::FirmwareDownloaded(path)));
                            r.push(Action::Install(args));
                        },
                        Err(_) => {
                            self.updating = false;
                        },
                    }
                }
                r
            },
            _ => r,
        }
    }

    /// Handles the end of the installer: on success reports the update handled.
    /// Either way the update is over and the session goes on.
    pub fn on_installed(&mut self, result: Result<(), FirmwareError>) -> (r: Vec<Action>)
        requires
            session_wf(*old(self)),
        ensures
            session_wf(*final(self)),
            !(old(self).phase is Joined && old(self).updating) ==> *final(self) == *old(self)
                && r@.len() == 0,
            old(self).phase is Joined && old(self).updating && result is Err ==> {
                &&& final(self).phase is Joined
                &&& same_channel(*old(self), *final(self))
                &&& !final(self).updating
                &&& final(self).last_percent == old(self).last_percent
                &&& r@.len() == 0
            },
            old(self).phase is Joined && old(self).updating && result is Ok ==> {
                &&& !final(self).updating
                &&& final(self).last_percent == old(self).last_percent
                &&& r@[0] == Action::Notify(ClientEvent::FirmwareApplied)
                &&& if old(self).channel.refs.next < u64::MAX {
                    &&& r@.len() == 2
                    &&& final(self).phase is Joined
                    &&& advanced(*old(self), *final(self))
                    &&& r@[1] matches Action::Send(x)
                    &&& is_push(x, *old(self), "status_update"@, old(self).channel.refs.next as nat)
                    &&& is_text_object(x.payload, "status"@, "update-handled"@)
                } else {
                    &&& final(self).phase is Closed
                    &&& same_channel(*old(self), *final(self))
                    &&& r@.len() == 3
                    &&& is_exhausted_end(r@.subrange(1, 3))
                }
            },
    {
        let mut r: Vec<Action> = Vec::new();
        match self.phase {
            Phase::Joined => {
                if self.updating {
                    self.updating = false;
                    if result.is_ok() {
                        r.push(Action::Notify(ClientEvent::FirmwareApplied));
                        if self.exhausted() {
                            self.phase = Phase::Closed;
                            r.push(
                                Action::Notify(
                                    ClientEvent::Disconnected("reference counter exhausted".to_owned()),
                                ),
                            );
                            r.push(
                                Action::Finish(
                                    Err(ClientError::Connection("reference counter exhausted".to_owned())),
                                ),
                            );
                        } else {
                            let done = self.channel.push(
                                "status_update",
                                Json::text_object("status", "update-handled"),
                            );
                            r.push(Action::Send(done));
                        }
                    }
                }
                r
            },
            _ => r,
        }
    }
}

} // verus!
